//! What single operations do from their first request to their end.

use crate::call::{Call, Kind, RawRef, Reply, Resource};
use crate::context::{CreateContext, Module, ThreadSafeContext, ThreadSafeModule, WrapModule};
use crate::continuation::{Find, Open, ReadText};
use crate::dylib::JitDylib;
use crate::error::{Check, LLVMString};
use crate::lljit::{
    AddProcessSymbols, CreateJit, DisposeJit, GetFunction, LLJit, LLJitFunction, LookUp, ReadPrefix,
};
use crate::operation::{Handle, Operation, Pending, Reference, Step};
use crate::session::{Retain, SymbolStringPoolEntry};
use crate::target::ReadTriple;
use vstd::multiset::Multiset;
use vstd::prelude::*;

verus! {

broadcast use crate::call::group_adding_nothing;

/// A request that gives only a status succeeds if and only if the status is
/// null. Otherwise the one more request is for the message, and the message is
/// what comes out.
pub proof fn law_status_decides(
    steps: Seq<Step<Check, Result<(), LLVMString>>>,
    replies: Seq<Reply>,
)
    requires
        crate::run::is_run(steps, replies),
        steps[0] matches Step::Pending(first) && first.next.phase is Status,
    ensures
        ({
            &&& replies[0] matches Reply::Status(error)
            &&& steps.last()->Done_0 is Ok <==> error == 0
            &&& error == 0 ==> replies.len() == 1
            &&& error != 0 ==> {
                &&& replies.len() == 2
                &&& crate::run::request(steps[1]) == Call::GetErrorMessage { error }
                &&& replies[1] matches Reply::Text { start, bytes }
                &&& steps.last()->Done_0 matches Err(message)
                &&& message.start() == start
                &&& message.bytes() == bytes@
            }
        }),
{
    assert(crate::run::follows(steps[0], replies[0], steps[1]));
    if replies.len() > 1 {
        assert(crate::run::follows(steps[1], replies[1], steps[2]));
        if replies.len() > 2 {
            assert(crate::run::follows(steps[2], replies[2], steps[3]));
        }
    }
}

/// A request that opens something succeeds if and only if its status is null,
/// and then with the reference that it wrote. Otherwise the one more request is
/// for the message, and the message is what comes out.
pub proof fn law_opening_decides<T: Handle>(
    steps: Seq<Step<Open<T>, Result<T, LLVMString>>>,
    replies: Seq<Reply>,
)
    requires
        crate::run::is_run(steps, replies),
        steps[0] matches Step::Pending(first) && first.next.phase is Status,
    ensures
        ({
            &&& replies[0] matches Reply::Opened { error, out }
            &&& steps.last()->Done_0 is Ok <==> error == 0
            &&& error == 0 ==> {
                &&& replies.len() == 1
                &&& steps.last()->Done_0 matches Ok(handle)
                &&& handle.raw() == out
            }
            &&& error != 0 ==> {
                &&& replies.len() == 2
                &&& crate::run::request(steps[1]) == Call::GetErrorMessage { error }
                &&& replies[1] matches Reply::Text { start, bytes }
                &&& steps.last()->Done_0 matches Err(message)
                &&& message.start() == start
                &&& message.bytes() == bytes@
            }
        }),
{
    assert(crate::run::follows(steps[0], replies[0], steps[1]));
    if replies.len() > 1 {
        assert(crate::run::follows(steps[1], replies[1], steps[2]));
        if replies.len() > 2 {
            assert(crate::run::follows(steps[2], replies[2], steps[3]));
        }
    }
}

/// A lookup succeeds if and only if its status is null, and then with the
/// address that was found. Otherwise the one more request is for the message,
/// and the message is what comes out.
pub proof fn law_lookup_decides(
    steps: Seq<Step<LookUp, Result<u64, LLVMString>>>,
    replies: Seq<Reply>,
)
    requires
        crate::run::is_run(steps, replies),
        steps[0] matches Step::Pending(first) && first.next.phase is Status,
    ensures
        ({
            &&& replies[0] matches Reply::Address { error, address }
            &&& error == 0 ==> {
                &&& replies.len() == 1
                &&& steps.last()->Done_0 == Ok::<u64, LLVMString>(address)
            }
            &&& error != 0 ==> {
                &&& replies.len() == 2
                &&& crate::run::request(steps[1]) == Call::GetErrorMessage { error }
                &&& replies[1] matches Reply::Text { start, bytes }
                &&& steps.last()->Done_0 matches Err(message)
                &&& message.start() == start
                &&& message.bytes() == bytes@
            }
        }),
{
    assert(crate::run::follows(steps[0], replies[0], steps[1]));
    if replies.len() > 1 {
        assert(crate::run::follows(steps[1], replies[1], steps[2]));
        if replies.len() > 2 {
            assert(crate::run::follows(steps[2], replies[2], steps[3]));
        }
    }
}

/// A function is found exactly where its symbol is, at the same address, and a
/// lookup that fails has the same message.
pub proof fn law_function_is_looked_up<'jit, F>(
    steps: Seq<Step<GetFunction<'jit, F>, Result<LLJitFunction<'jit, F>, LLVMString>>>,
    lookups: Seq<Step<LookUp, Result<u64, LLVMString>>>,
    replies: Seq<Reply>,
)
    requires
        crate::run::is_run(steps, replies),
        crate::run::is_run(lookups, replies),
        steps[0] matches Step::Pending(first) && first.next.lookup.phase is Status,
        lookups[0] matches Step::Pending(first) && first.next.phase is Status,
    ensures
        match (steps.last()->Done_0, lookups.last()->Done_0) {
            (Ok(function), Ok(address)) => function.address() == address as usize,
            (Err(message), Err(same)) => {
                &&& message.start() == same.start()
                &&& message.bytes() == same.bytes()
            },
            _ => false,
        },
{
    law_lookup_decides(lookups, replies);
    assert(crate::run::follows(steps[0], replies[0], steps[1]));
    if replies.len() > 1 {
        assert(crate::run::follows(steps[1], replies[1], steps[2]));
    }
}

/// A module is wrapped if and only if it belongs to the context that wraps it.
/// One that does not comes back as it was, and nothing was done to it.
pub proof fn law_only_own_modules_are_wrapped<'m>(
    steps: Seq<Step<WrapModule<'m>, Result<ThreadSafeModule, Module<'m>>>>,
    replies: Seq<Reply>,
    context: ThreadSafeContext,
    module: Module<'m>,
)
    requires
        crate::run::is_run(steps, replies),
        steps[0] == Step::<WrapModule<'m>, Result<ThreadSafeModule, Module<'m>>>::Pending(
            Pending {
                call: Call::GetModuleContext { module: module.raw() },
                next: WrapModule::Compare {
                    context: context.raw(),
                    llvm_context: context.llvm_context(),
                    module,
                },
            },
        ),
    ensures
        ({
            let belongs = replies[0] == Reply::Reference(context.llvm_context());
            &&& steps.last()->Done_0 is Ok <==> belongs
            &&& !belongs ==> {
                &&& replies.len() == 1
                &&& steps.last()->Done_0 == Err::<ThreadSafeModule, Module<'m>>(module)
            }
            &&& belongs ==> {
                &&& replies.len() == 2
                &&& crate::run::request(steps[1]) == Call::CreateNewThreadSafeModule {
                    module: module.raw(),
                    context: context.raw(),
                }
                &&& steps.last()->Done_0 matches Ok(wrapped)
                &&& replies[1] == Reply::Reference(wrapped.raw())
            }
        }),
{
    assert(crate::run::follows(steps[0], replies[0], steps[1]));
    if replies.len() > 1 {
        assert(crate::run::follows(steps[1], replies[1], steps[2]));
        if replies.len() > 2 {
            assert(crate::run::follows(steps[2], replies[2], steps[3]));
        }
    }
}

/// Either way of creating a context gives one that knows the context that it
/// shares: the one that LLVM named before release 21, the one that was created
/// for it from then on.
pub proof fn law_contexts_know_what_they_share(
    steps: Seq<Step<CreateContext, ThreadSafeContext>>,
    replies: Seq<Reply>,
    major: u32,
)
    requires
        crate::run::is_run(steps, replies),
        steps[0] matches Step::Pending(first) && first.next == (if major < 21 {
            CreateContext::Shared
        } else {
            CreateContext::Plain
        }),
    ensures
        replies.len() == 2,
        major < 21 ==> {
            &&& crate::run::request(steps[1]) == Call::ThreadSafeContextGetContext {
                context: steps.last()->Done_0.raw(),
            }
            &&& replies[0] == Reply::Reference(steps.last()->Done_0.raw())
            &&& replies[1] == Reply::Reference(steps.last()->Done_0.llvm_context())
        },
        major >= 21 ==> {
            &&& crate::run::request(steps[1]) == Call::CreateNewThreadSafeContextFromLLVMContext {
                llvm_context: steps.last()->Done_0.llvm_context(),
            }
            &&& replies[0] == Reply::Reference(steps.last()->Done_0.llvm_context())
            &&& replies[1] == Reply::Reference(steps.last()->Done_0.raw())
        },
        steps.last()->Done_0.raw() != 0,
        steps.last()->Done_0.llvm_context() != 0,
{
    assert(crate::run::follows(steps[0], replies[0], steps[1]));
    assert(crate::run::follows(steps[1], replies[1], steps[2]));
    if replies.len() > 2 {
        assert(crate::run::follows(steps[2], replies[2], steps[3]));
    }
}

/// A JIT compiler with default settings is built by a builder that is created
/// for it, and that is handed over whether or not the building succeeds.
pub proof fn law_builder_is_used_up(
    steps: Seq<Step<CreateJit, Result<LLJit, LLVMString>>>,
    replies: Seq<Reply>,
)
    requires
        crate::run::is_run(steps, replies),
        steps[0] matches Step::Pending(first) && first.next is Builder,
    ensures
        ({
            &&& replies[0] matches Reply::Reference(builder)
            &&& replies.len() >= 2
            &&& crate::run::request(steps[1]) == Call::CreateLLJIT { builder }
            &&& crate::run::request(steps[1]).consumes() == Resource::of(
                Some(Kind::LLJitBuilder),
                builder,
            )
            &&& replies[1] matches Reply::Opened { error, out }
            &&& error == 0 ==> {
                &&& replies.len() == 2
                &&& steps.last()->Done_0 matches Ok(jit)
                &&& jit.raw() == out
            }
            &&& error != 0 ==> {
                &&& replies.len() == 3
                &&& crate::run::request(steps[2]) == Call::GetErrorMessage { error }
                &&& replies[2] matches Reply::Text { start, bytes }
                &&& steps.last()->Done_0 matches Err(message)
                &&& message.start() == start
                &&& message.bytes() == bytes@
            }
        }),
{
    assert(crate::run::follows(steps[0], replies[0], steps[1]));
    assert(crate::run::follows(steps[1], replies[1], steps[2]));
    if replies.len() > 2 {
        assert(crate::run::follows(steps[2], replies[2], steps[3]));
        if replies.len() > 3 {
            assert(crate::run::follows(steps[3], replies[3], steps[4]));
        }
    }
}

/// The prefix that LLVM names goes into the search for symbols unchanged, and
/// what finds them is added to the library that was asked for, unless LLVM
/// refuses to create it.
pub proof fn law_process_symbols_are_added<'a>(
    steps: Seq<Step<AddProcessSymbols<'a>, Result<(), LLVMString>>>,
    replies: Seq<Reply>,
    dylib: JitDylib<'a>,
)
    requires
        crate::run::is_run(steps, replies),
        ({
            &&& steps[0] matches Step::Pending(first)
            &&& first.next == AddProcessSymbols::Prefix { dylib }
        }),
    ensures
        ({
            &&& replies.len() == 3
            &&& replies[0] matches Reply::Character(byte)
            &&& crate::run::request(steps[1])
                == Call::CreateDynamicLibrarySearchGeneratorForProcess {
                global_prefix: byte,
                filter: None,
                filter_ctx: 0,
            }
            &&& replies[1] matches Reply::Opened { error, out }
            &&& error == 0 ==> {
                &&& crate::run::request(steps[2]) == Call::JITDylibAddGenerator {
                    dylib: dylib.raw(),
                    generator: out,
                }
                &&& replies[2] == Reply::Nothing
                &&& steps.last()->Done_0 is Ok
            }
            &&& error != 0 ==> {
                &&& crate::run::request(steps[2]) == Call::GetErrorMessage { error }
                &&& replies[2] matches Reply::Text { start, bytes }
                &&& steps.last()->Done_0 matches Err(message)
                &&& message.start() == start
                &&& message.bytes() == bytes@
            }
        }),
{
    assert(crate::run::follows(steps[0], replies[0], steps[1]));
    assert(crate::run::follows(steps[1], replies[1], steps[2]));
    assert(crate::run::follows(steps[2], replies[2], steps[3]));
    if replies.len() > 3 {
        assert(crate::run::follows(steps[3], replies[3], steps[4]));
    }
}

/// A symbol prefix that LLVM named is the same byte when it goes back to LLVM.
pub proof fn law_prefix_goes_back_unchanged(
    steps: Seq<Step<ReadPrefix, char>>,
    replies: Seq<Reply>,
)
    requires
        crate::run::is_run(steps, replies),
        steps[0] is Pending,
    ensures
        replies[0] == Reply::Character(crate::dylib::prefix_byte_of(steps.last()->Done_0)),
{
    assert(crate::run::follows(steps[0], replies[0], steps[1]));
    if replies.len() > 1 {
        assert(crate::run::follows(steps[1], replies[1], steps[2]));
    }
}

/// A name that LLVM gives back as it got it reads as it was written, up to the
/// first null character.
pub proof fn law_names_read_back(
    steps: Seq<Step<ReadText, String>>,
    replies: Seq<Reply>,
    name: Seq<char>,
)
    requires
        crate::run::is_run(steps, replies),
        steps[0] is Pending,
        replies[0] matches Reply::Text { bytes, .. } && bytes@ == crate::text::c_text(name),
    ensures
        steps.last()->Done_0@ == crate::text::before(name, '\0'),
{
    assert(crate::run::follows(steps[0], replies[0], steps[1]));
    if replies.len() > 1 {
        assert(crate::run::follows(steps[1], replies[1], steps[2]));
    }
    crate::text::law_c_text_cuts_at_null(name);
}

/// What is found is what LLVM named, and nothing is found where LLVM named
/// nothing.
pub proof fn law_null_is_not_found<T: Handle>(
    steps: Seq<Step<Find<T>, Option<T>>>,
    replies: Seq<Reply>,
)
    requires
        crate::run::is_run(steps, replies),
        steps[0] is Pending,
    ensures
        replies.len() == 1,
        match steps.last()->Done_0 {
            Some(handle) => replies[0] == Reply::Reference(handle.raw()) && handle.raw() != 0,
            None => replies[0] == Reply::Reference(0),
        },
{
    assert(crate::run::follows(steps[0], replies[0], steps[1]));
    if replies.len() > 1 {
        assert(crate::run::follows(steps[1], replies[1], steps[2]));
    }
}

/// A clone of a name and the name it was cloned from are the same entry, and
/// each of them has to be dropped: what a clone adds, a drop takes away.
pub proof fn law_clones_balance_drops(
    steps: Seq<Step<Retain, SymbolStringPoolEntry>>,
    replies: Seq<Reply>,
    entry: RawRef,
)
    requires
        crate::run::is_run(steps, replies),
        steps[0] == Step::<Retain, SymbolStringPoolEntry>::Pending(
            Pending {
                call: Call::RetainSymbolStringPoolEntry { entry },
                next: Retain { entry },
            },
        ),
    ensures
        steps.last()->Done_0.raw() == entry,
        crate::run::created(steps, replies)
            == (Call::ReleaseSymbolStringPoolEntry { entry }).consumes(),
{
    assert(crate::run::follows(steps[0], replies[0], steps[1]));
    if replies.len() > 1 {
        assert(crate::run::follows(steps[1], replies[1], steps[2]));
    }
    assert(crate::run::created(steps, replies.drop_last()) == Multiset::<Resource>::empty());
}

/// The text of a target triple is given back to LLVM, and what comes out is
/// what it said.
pub proof fn law_triple_text_is_given_back(
    steps: Seq<Step<ReadTriple, String>>,
    replies: Seq<Reply>,
)
    requires
        crate::run::is_run(steps, replies),
        steps[0] matches Step::Pending(first) && first.next is Text,
    ensures
        ({
            &&& replies.len() == 2
            &&& replies[0] matches Reply::Text { start, bytes }
            &&& crate::run::request(steps[1]) == Call::DisposeMessage { message: start }
            &&& replies[1] == Reply::Nothing
            &&& steps.last()->Done_0@ == crate::text::utf8_lossy(bytes@)
        }),
{
    assert(crate::run::follows(steps[0], replies[0], steps[1]));
    assert(crate::run::follows(steps[1], replies[1], steps[2]));
    if replies.len() > 2 {
        assert(crate::run::follows(steps[2], replies[2], steps[3]));
    }
}

/// Disposing of a JIT compiler is silent where it succeeds. Where it fails, the
/// warning is printed with LLVM's message in it, and then the message is given
/// back.
pub proof fn law_failure_to_dispose_is_told(
    steps: Seq<Step<DisposeJit, ()>>,
    replies: Seq<Reply>,
)
    requires
        crate::run::is_run(steps, replies),
        steps[0] matches Step::Pending(first) && first.next is Status,
    ensures
        ({
            &&& replies[0] matches Reply::Status(error)
            &&& error == 0 ==> replies.len() == 1
            &&& error != 0 ==> {
                &&& replies.len() == 4
                &&& crate::run::request(steps[1]) == Call::GetErrorMessage { error }
                &&& replies[1] matches Reply::Text { start, bytes }
                &&& crate::run::request(steps[2]) matches Call::PrintWarning { line }
                &&& line@ == crate::lljit::warning(bytes@)
                &&& crate::run::request(steps[3]) == Call::DisposeErrorMessage { message: start }
                &&& replies[2] == Reply::Nothing
                &&& replies[3] == Reply::Nothing
            }
        }),
{
    assert(crate::run::follows(steps[0], replies[0], steps[1]));
    if replies.len() > 1 {
        assert(crate::run::follows(steps[1], replies[1], steps[2]));
        assert(crate::run::follows(steps[2], replies[2], steps[3]));
        assert(crate::run::follows(steps[3], replies[3], steps[4]));
        if replies.len() > 4 {
            assert(crate::run::follows(steps[4], replies[4], steps[5]));
        }
    }
}

} // verus!
