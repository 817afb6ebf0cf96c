//! Which answers of LLVM lead where.
//!
//! For every answer that LLVM can give there is a run of the operation that ends
//! in what the answer calls for: no answer is turned away because of the value
//! in it, but for a null reference where there has to be something.

use crate::call::{Call, RawRef, Reply};
use crate::context::{
    ContextRef, CreateContext, Module, ThreadSafeContext, ThreadSafeModule, WrapModule,
};
use crate::continuation::{Find, Finish, Open, ReadReference, ReadText, Wrap};
use crate::dump::DumpObjects;
use crate::dylib::{DefinitionGenerator, JitDylib, ResourceTracker};
use crate::error::{Check, LLVMString};
use crate::layer::{
    IRTransformLayer, MemoryBuffer, ObjectLayer, ObjectTransformLayer, RawObjectLayer,
};
use crate::lazy::{IndirectStubsManager, LazyCallThroughManager, LookupState};
use crate::lljit::{
    AddProcessSymbols, CreateJit, DisposeJit, GetFunction, LLJit, LLJitBuilder, LLJitFunction,
    LookUp, ReadPrefix,
};
use crate::materialization::{
    MaterializationResponsibility, MaterializationUnit, ReadArray, SymbolArray,
};
use crate::operation::{Handle, Operation, Pending, Reference, Step};
use crate::session::{ExecutionSession, Retain, SymbolStringPool, SymbolStringPoolEntry};
use crate::target::{JitTargetMachineBuilder, ReadTriple};
use vstd::prelude::*;
use vstd::std_specs::cmp::PartialEqSpec;

verus! {

/// A request that gives nothing is done once it was made, and takes no other
/// reply.
pub proof fn law_nothing_is_awaited(first: Pending<Finish>)
    ensures
        crate::run::is_run::<Finish>(
            seq![Step::Pending(first), Step::Done(())],
            seq![Reply::Nothing],
        ),
        forall|steps: Seq<Step<Finish, ()>>, replies: Seq<Reply>| #[trigger]
            crate::run::is_run(steps, replies) && steps[0] is Pending ==> replies
                =~= seq![Reply::Nothing],
{
    crate::run::lemma_run_of_one(first, Reply::Nothing, ());
    assert forall|steps: Seq<Step<Finish, ()>>, replies: Seq<Reply>| #[trigger]
        crate::run::is_run(steps, replies) && steps[0] is Pending implies replies
        =~= seq![Reply::Nothing] by {
        assert(crate::run::follows(steps[0], replies[0], steps[1]));
        if replies.len() > 1 {
            assert(crate::run::follows(steps[1], replies[1], steps[2]));
        }
    }
}

/// Every reference becomes a handle of that reference, but for null where the
/// handle cannot be null.
pub proof fn law_every_reference_is_wrapped<T: Handle>(first: Pending<Wrap<T>>, handle: T)
    requires
        T::never_null() ==> handle.raw() != 0,
    ensures
        crate::run::is_run::<Wrap<T>>(
            seq![Step::Pending(first), Step::Done(handle)],
            seq![Reply::Reference(handle.raw())],
        ),
{
    crate::run::lemma_run_of_one(first, Reply::Reference(handle.raw()), handle);
}

/// A handle that was waited for is that of the reference that came, which is not
/// null where the handle cannot be.
pub proof fn law_handles_are_those_that_came<T: Handle>(
    steps: Seq<Step<Wrap<T>, T>>,
    replies: Seq<Reply>,
)
    requires
        crate::run::is_run(steps, replies),
        steps[0] is Pending,
    ensures
        replies =~= seq![Reply::Reference(steps.last()->Done_0.raw())],
        T::never_null() ==> steps.last()->Done_0.raw() != 0,
{
    assert(crate::run::follows(steps[0], replies[0], steps[1]));
    if replies.len() > 1 {
        assert(crate::run::follows(steps[1], replies[1], steps[2]));
    }
}

/// Everything that LLVM names is found, and null is the only reference for which
/// nothing is.
pub proof fn law_every_reference_is_found<T: Handle>(first: Pending<Find<T>>, handle: T)
    ensures
        handle.raw() != 0 ==> crate::run::is_run::<Find<T>>(
            seq![Step::Pending(first), Step::Done(Some(handle))],
            seq![Reply::Reference(handle.raw())],
        ),
        crate::run::is_run::<Find<T>>(
            seq![Step::Pending(first), Step::Done(None)],
            seq![Reply::Reference(0)],
        ),
{
    if handle.raw() != 0 {
        crate::run::lemma_run_of_one(first, Reply::Reference(handle.raw()), Some(handle));
    }
    crate::run::lemma_run_of_one(first, Reply::Reference(0), None);
}

/// Which handles are never null. The others stand for whatever reference they are
/// made of.
pub proof fn law_what_can_be_null<'a>()
    ensures
        ContextRef::<'a>::never_null(),
        ThreadSafeModule::never_null(),
        ExecutionSession::<'a>::never_null(),
        JitDylib::<'a>::never_null(),
        ResourceTracker::<'a>::never_null(),
        ObjectLayer::<'a>::never_null(),
        IRTransformLayer::<'a>::never_null(),
        ObjectTransformLayer::<'a>::never_null(),
        LLJitBuilder::never_null(),
        LLJit::never_null(),
        !Module::<'a>::never_null(),
        !SymbolStringPool::<'a>::never_null(),
        !SymbolStringPoolEntry::never_null(),
        !DefinitionGenerator::never_null(),
        !MaterializationUnit::never_null(),
        !MaterializationResponsibility::never_null(),
        !MemoryBuffer::never_null(),
        !RawObjectLayer::never_null(),
        !IndirectStubsManager::never_null(),
        !LazyCallThroughManager::never_null(),
        !LookupState::never_null(),
        !DumpObjects::never_null(),
        !JitTargetMachineBuilder::never_null(),
{
}

/// Two borrowed handles, or two trackers, are equal if and only if they stand for
/// the same reference.
pub proof fn law_equal_means_same_reference<'a>(
    sessions: (ExecutionSession<'a>, ExecutionSession<'a>),
    pools: (SymbolStringPool<'a>, SymbolStringPool<'a>),
    dylibs: (JitDylib<'a>, JitDylib<'a>),
    trackers: (ResourceTracker<'a>, ResourceTracker<'a>),
    objects: (ObjectLayer<'a>, ObjectLayer<'a>),
    transforms: (IRTransformLayer<'a>, IRTransformLayer<'a>),
    object_transforms: (ObjectTransformLayer<'a>, ObjectTransformLayer<'a>),
)
    ensures
        sessions.0.eq_spec(&sessions.1) <==> sessions.0.raw() == sessions.1.raw(),
        pools.0.eq_spec(&pools.1) <==> pools.0.raw() == pools.1.raw(),
        dylibs.0.eq_spec(&dylibs.1) <==> dylibs.0.raw() == dylibs.1.raw(),
        trackers.0.eq_spec(&trackers.1) <==> trackers.0.raw() == trackers.1.raw(),
        objects.0.eq_spec(&objects.1) <==> objects.0.raw() == objects.1.raw(),
        transforms.0.eq_spec(&transforms.1) <==> transforms.0.raw() == transforms.1.raw(),
        object_transforms.0.eq_spec(&object_transforms.1) <==> object_transforms.0.raw()
            == object_transforms.1.raw(),
{
}

/// Every reference is handed on as it is, null among them.
pub proof fn law_every_reference_is_handed_on(first: Pending<ReadReference>, raw: RawRef)
    ensures
        crate::run::is_run::<ReadReference>(
            seq![Step::Pending(first), Step::Done(raw)],
            seq![Reply::Reference(raw)],
        ),
{
    crate::run::lemma_run_of_one(first, Reply::Reference(raw), raw);
}

/// A reference that is handed on is the one that came, and the only one.
pub proof fn law_references_are_those_that_came(
    steps: Seq<Step<ReadReference, RawRef>>,
    replies: Seq<Reply>,
)
    requires
        crate::run::is_run(steps, replies),
        steps[0] is Pending,
    ensures
        replies =~= seq![Reply::Reference(steps.last()->Done_0)],
{
    assert(crate::run::follows(steps[0], replies[0], steps[1]));
    if replies.len() > 1 {
        assert(crate::run::follows(steps[1], replies[1], steps[2]));
    }
}

/// Every array is handed on where it starts and as long as it is.
pub proof fn law_every_array_is_handed_on(first: Pending<ReadArray>, symbols: SymbolArray)
    requires
        symbols.kind == first.next.kind,
    ensures
        crate::run::is_run::<ReadArray>(
            seq![Step::Pending(first), Step::Done(symbols)],
            seq![Reply::Array { start: symbols.start, len: symbols.len }],
        ),
{
    let reply = Reply::Array { start: symbols.start, len: symbols.len };
    crate::run::lemma_run_of_one(first, reply, symbols);
}

/// An array that is handed on starts where LLVM said and is as long as LLVM said,
/// and is of the kind that was waited for.
pub proof fn law_arrays_are_those_that_came(
    steps: Seq<Step<ReadArray, SymbolArray>>,
    replies: Seq<Reply>,
)
    requires
        crate::run::is_run(steps, replies),
        steps[0] is Pending,
    ensures
        replies.len() == 1,
        replies[0] matches Reply::Array { start, len } && steps.last()->Done_0.start == start
            && steps.last()->Done_0.len == len,
        steps.last()->Done_0.kind == steps[0]->Pending_0.next.kind,
{
    assert(crate::run::follows(steps[0], replies[0], steps[1]));
    if replies.len() > 1 {
        assert(crate::run::follows(steps[1], replies[1], steps[2]));
    }
}

/// Every text that LLVM gives in UTF-8 is read as it stands.
pub proof fn law_every_text_is_read(
    first: Pending<ReadText>,
    text: String,
    start: RawRef,
    bytes: Vec<u8>,
)
    requires
        bytes@ == vstd::utf8::encode_utf8(text@),
    ensures
        crate::run::is_run::<ReadText>(
            seq![Step::Pending(first), Step::Done(text)],
            seq![Reply::Text { start, bytes }],
        ),
{
    vstd::utf8::encode_utf8_valid_utf8(text@);
    vstd::utf8::encode_utf8_decode_utf8(text@);
    crate::run::lemma_run_of_one(first, Reply::Text { start, bytes }, text);
}

/// A text that was read is, in UTF-8, byte for byte what LLVM gave.
pub proof fn law_texts_are_those_that_came(
    steps: Seq<Step<ReadText, String>>,
    replies: Seq<Reply>,
)
    requires
        crate::run::is_run(steps, replies),
        steps[0] is Pending,
    ensures
        replies.len() == 1,
        replies[0] matches Reply::Text { bytes, .. } && bytes@ == vstd::utf8::encode_utf8(
            steps.last()->Done_0@,
        ),
{
    assert(crate::run::follows(steps[0], replies[0], steps[1]));
    if replies.len() > 1 {
        assert(crate::run::follows(steps[1], replies[1], steps[2]));
    }
    vstd::utf8::decode_utf8_encode_utf8(replies[0]->Text_bytes@);
}

/// Every C character is read as the character with that code, zero among them.
pub proof fn law_every_prefix_is_read(first: Pending<ReadPrefix>, byte: u8)
    ensures
        crate::run::is_run::<ReadPrefix>(
            seq![Step::Pending(first), Step::Done(byte as char)],
            seq![Reply::Character(byte)],
        ),
{
    crate::run::lemma_run_of_one(first, Reply::Character(byte), byte as char);
}

/// A prefix that was read has the code that LLVM gave, and came with one reply.
pub proof fn law_prefixes_are_those_that_came(
    steps: Seq<Step<ReadPrefix, char>>,
    replies: Seq<Reply>,
)
    requires
        crate::run::is_run(steps, replies),
        steps[0] is Pending,
    ensures
        replies.len() == 1,
        replies[0] matches Reply::Character(byte) && steps.last()->Done_0 as int == byte,
{
    assert(crate::run::follows(steps[0], replies[0], steps[1]));
    if replies.len() > 1 {
        assert(crate::run::follows(steps[1], replies[1], steps[2]));
    }
}

/// The byte for a prefix is what is left of its code point when whole multiples
/// of 256 are taken away.
pub proof fn law_prefix_byte_is_the_low_byte(prefix: char)
    ensures
        exists|multiple: int|
            prefix as int == #[trigger] (256 * multiple) + crate::dylib::prefix_byte_of(prefix),
{
    let multiple: int = prefix as int / 256;
    assert(prefix as int == 256 * multiple + crate::dylib::prefix_byte_of(prefix));
}

/// Every status is taken: null is success, and for any other error every message
/// is taken and comes out.
pub proof fn law_every_status_is_taken(
    first: Pending<Check>,
    second: Pending<Check>,
    error: RawRef,
    bytes: Vec<u8>,
    message: LLVMString,
)
    requires
        first.next.phase is Status,
        second.call == (Call::GetErrorMessage { error }),
        second.next.phase is Message,
        message.bytes() == bytes@,
    ensures
        crate::run::is_run::<Check>(
            seq![Step::Pending(first), Step::Done(Ok(()))],
            seq![Reply::Status(0)],
        ),
        error != 0 ==> crate::run::is_run::<Check>(
            seq![Step::Pending(first), Step::Pending(second), Step::Done(Err(message))],
            seq![Reply::Status(error), Reply::Text { start: message.start(), bytes }],
        ),
{
    crate::run::lemma_run_of_one(first, Reply::Status(0), Ok(()));
    if error != 0 {
        let text = Reply::Text { start: message.start(), bytes };
        crate::run::lemma_run_of_two(first, Reply::Status(error), second, text, Err(message));
    }
}

/// Whatever a request opens comes out, but for null where the handle cannot be
/// null. For every error, with whatever was written beside it, every message is
/// taken and comes out.
pub proof fn law_every_opening_is_taken<T: Handle>(
    first: Pending<Open<T>>,
    second: Pending<Open<T>>,
    handle: T,
    error: RawRef,
    out: RawRef,
    bytes: Vec<u8>,
    message: LLVMString,
)
    requires
        first.next.phase is Status,
        second.call == (Call::GetErrorMessage { error }),
        second.next.phase is Message,
        message.bytes() == bytes@,
    ensures
        !T::never_null() || handle.raw() != 0 ==> crate::run::is_run::<Open<T>>(
            seq![Step::Pending(first), Step::Done(Ok(handle))],
            seq![Reply::Opened { error: 0, out: handle.raw() }],
        ),
        error != 0 ==> crate::run::is_run::<Open<T>>(
            seq![Step::Pending(first), Step::Pending(second), Step::Done(Err(message))],
            seq![Reply::Opened { error, out }, Reply::Text { start: message.start(), bytes }],
        ),
{
    if !T::never_null() || handle.raw() != 0 {
        let opened = Reply::Opened { error: 0, out: handle.raw() };
        crate::run::lemma_run_of_one(first, opened, Ok(handle));
    }
    if error != 0 {
        let refused = Reply::Opened { error, out };
        let text = Reply::Text { start: message.start(), bytes };
        crate::run::lemma_run_of_two(first, refused, second, text, Err(message));
    }
}

/// No handle comes out of an opening that is null and cannot be.
pub proof fn law_nothing_null_is_opened<T: Handle>(
    steps: Seq<Step<Open<T>, Result<T, LLVMString>>>,
    replies: Seq<Reply>,
)
    requires
        crate::run::is_run(steps, replies),
        steps[0] matches Step::Pending(first) && first.next.phase is Status,
        T::never_null(),
    ensures
        steps.last()->Done_0 matches Ok(handle) ==> handle.raw() != 0,
{
    crate::laws::law_opening_decides(steps, replies);
    assert(crate::run::follows(steps[0], replies[0], steps[1]));
}

/// Every address that a lookup finds comes out, whatever it is. For every error,
/// with whatever was written beside it, every message is taken and comes out.
pub proof fn law_every_address_is_given(
    first: Pending<LookUp>,
    second: Pending<LookUp>,
    address: u64,
    error: RawRef,
    bytes: Vec<u8>,
    message: LLVMString,
)
    requires
        first.next.phase is Status,
        second.call == (Call::GetErrorMessage { error }),
        second.next.phase is Message,
        message.bytes() == bytes@,
    ensures
        crate::run::is_run::<LookUp>(
            seq![Step::Pending(first), Step::Done(Ok(address))],
            seq![Reply::Address { error: 0, address }],
        ),
        error != 0 ==> crate::run::is_run::<LookUp>(
            seq![Step::Pending(first), Step::Pending(second), Step::Done(Err(message))],
            seq![Reply::Address { error, address }, Reply::Text { start: message.start(), bytes }],
        ),
{
    crate::run::lemma_run_of_one(first, Reply::Address { error: 0, address }, Ok(address));
    if error != 0 {
        let refused = Reply::Address { error, address };
        let text = Reply::Text { start: message.start(), bytes };
        crate::run::lemma_run_of_two(first, refused, second, text, Err(message));
    }
}

/// Every function that is found comes out, at whatever address, if its type is as
/// large as an address. For every error, whatever the type, every message is taken
/// and comes out.
pub proof fn law_every_function_is_given<'jit, F>(
    first: Pending<GetFunction<'jit, F>>,
    second: Pending<GetFunction<'jit, F>>,
    function: LLJitFunction<'jit, F>,
    error: RawRef,
    address: u64,
    bytes: Vec<u8>,
    message: LLVMString,
)
    requires
        first.next.lookup.phase is Status,
        second.call == (Call::GetErrorMessage { error }),
        second.next.lookup.phase is Message,
        message.bytes() == bytes@,
    ensures
        vstd::layout::size_of::<F>() == vstd::layout::size_of::<usize>() && function.address()
            == address as usize ==> crate::run::is_run::<GetFunction<'jit, F>>(
            seq![Step::Pending(first), Step::Done(Ok(function))],
            seq![Reply::Address { error: 0, address }],
        ),
        error != 0 ==> crate::run::is_run::<GetFunction<'jit, F>>(
            seq![Step::Pending(first), Step::Pending(second), Step::Done(Err(message))],
            seq![Reply::Address { error, address }, Reply::Text { start: message.start(), bytes }],
        ),
{
    if vstd::layout::size_of::<F>() == vstd::layout::size_of::<usize>() && function.address()
        == address as usize {
        crate::run::lemma_run_of_one(first, Reply::Address { error: 0, address }, Ok(function));
    }
    if error != 0 {
        let refused = Reply::Address { error, address };
        let text = Reply::Text { start: message.start(), bytes };
        crate::run::lemma_run_of_two(first, refused, second, text, Err(message));
    }
}

/// A function that comes out is at the address that LLVM found, and its type is
/// as large as an address. One that does not come out leaves LLVM's message.
pub proof fn law_functions_are_those_that_came<'jit, F>(
    steps: Seq<Step<GetFunction<'jit, F>, Result<LLJitFunction<'jit, F>, LLVMString>>>,
    replies: Seq<Reply>,
)
    requires
        crate::run::is_run(steps, replies),
        steps[0] matches Step::Pending(first) && first.next.lookup.phase is Status,
    ensures
        ({
            &&& replies[0] matches Reply::Address { error, address }
            &&& error == 0 ==> {
                &&& replies.len() == 1
                &&& vstd::layout::size_of::<F>() == vstd::layout::size_of::<usize>()
                &&& steps.last()->Done_0 matches Ok(function)
                &&& function.address() == address as usize
                &&& address <= usize::MAX ==> function.address() == address
            }
            &&& error != 0 ==> {
                &&& replies.len() == 2
                &&& crate::run::request(steps[1]) == Call::GetErrorMessage { error }
                &&& replies[1] matches Reply::Text { start, bytes }
                &&& steps.last()->Done_0 matches Err(message)
                &&& message.start() == start
                &&& message.bytes() == bytes@
            }
        }),
{
    assert(crate::run::follows(steps[0], replies[0], steps[1]));
    if replies.len() > 1 {
        assert(crate::run::follows(steps[1], replies[1], steps[2]));
        if replies.len() > 2 {
            assert(crate::run::follows(steps[2], replies[2], steps[3]));
        }
    }
}

/// Whatever context LLVM names for a module, the answer is taken. If it is the
/// wrapping context's own, whatever LLVM makes of the module comes out; if it is
/// any other, the module itself does.
pub proof fn law_every_module_is_told_apart<'m>(
    first: Pending<WrapModule<'m>>,
    second: Pending<WrapModule<'m>>,
    context: RawRef,
    llvm_context: RawRef,
    module: Module<'m>,
    named: RawRef,
    wrapped: ThreadSafeModule,
)
    requires
        first.next == (WrapModule::Compare { context, llvm_context, module }),
        second.call == (Call::CreateNewThreadSafeModule { module: module.raw(), context }),
        second.next == WrapModule::<'m>::Create,
        wrapped.raw() != 0,
    ensures
        named != llvm_context ==> crate::run::is_run::<WrapModule<'m>>(
            seq![Step::Pending(first), Step::Done(Err(module))],
            seq![Reply::Reference(named)],
        ),
        crate::run::is_run::<WrapModule<'m>>(
            seq![Step::Pending(first), Step::Pending(second), Step::Done(Ok(wrapped))],
            seq![Reply::Reference(llvm_context), Reply::Reference(wrapped.raw())],
        ),
{
    if named != llvm_context {
        crate::run::lemma_run_of_one(first, Reply::Reference(named), Err(module));
    }
    crate::run::lemma_run_of_two(
        first,
        Reply::Reference(llvm_context),
        second,
        Reply::Reference(wrapped.raw()),
        Ok(wrapped),
    );
}

/// No module is wrapped as null.
pub proof fn law_no_module_is_wrapped_as_null<'m>(
    steps: Seq<Step<WrapModule<'m>, Result<ThreadSafeModule, Module<'m>>>>,
    replies: Seq<Reply>,
)
    requires
        crate::run::is_run(steps, replies),
        steps[0] matches Step::Pending(first) && first.next is Compare,
    ensures
        steps.last()->Done_0 matches Ok(wrapped) ==> wrapped.raw() != 0,
{
    assert(crate::run::follows(steps[0], replies[0], steps[1]));
    if replies.len() > 1 {
        assert(crate::run::follows(steps[1], replies[1], steps[2]));
        if replies.len() > 2 {
            assert(crate::run::follows(steps[2], replies[2], steps[3]));
        }
    }
}

/// Whatever two references LLVM gives for a context and for what it shares, but
/// for null, the context comes out with both, in either way of creating one.
pub proof fn law_every_context_is_taken(
    first: Pending<CreateContext>,
    second: Pending<CreateContext>,
    created: ThreadSafeContext,
)
    requires
        created.raw() != 0,
        created.llvm_context() != 0,
    ensures
        ({
            let raw = created.raw();
            let llvm_context = created.llvm_context();
            &&& {
                &&& first.next is Shared
                &&& second.call == Call::ThreadSafeContextGetContext { context: raw }
                &&& second.next == CreateContext::ContextOf { context: raw }
            } ==> crate::run::is_run::<CreateContext>(
                seq![Step::Pending(first), Step::Pending(second), Step::Done(created)],
                seq![Reply::Reference(raw), Reply::Reference(llvm_context)],
            )
            &&& {
                &&& first.next is Plain
                &&& second.call == Call::CreateNewThreadSafeContextFromLLVMContext { llvm_context }
                &&& second.next == CreateContext::Wrapped { llvm_context }
            } ==> crate::run::is_run::<CreateContext>(
                seq![Step::Pending(first), Step::Pending(second), Step::Done(created)],
                seq![Reply::Reference(llvm_context), Reply::Reference(raw)],
            )
        }),
{
    let raw = created.raw();
    let llvm_context = created.llvm_context();
    if first.next is Shared && second.call == (Call::ThreadSafeContextGetContext { context: raw })
        && second.next == (CreateContext::ContextOf { context: raw }) {
        crate::run::lemma_run_of_two(
            first,
            Reply::Reference(raw),
            second,
            Reply::Reference(llvm_context),
            created,
        );
    }
    if first.next is Plain && second.call == (Call::CreateNewThreadSafeContextFromLLVMContext {
        llvm_context,
    }) && second.next == (CreateContext::Wrapped { llvm_context }) {
        crate::run::lemma_run_of_two(
            first,
            Reply::Reference(llvm_context),
            second,
            Reply::Reference(raw),
            created,
        );
    }
}

/// Whatever builder LLVM gives, and whatever that builds, but for null, the JIT
/// compiler comes out. For every error, every message is taken and comes out.
pub proof fn law_every_jit_is_taken(
    first: Pending<CreateJit>,
    second: Pending<CreateJit>,
    third: Pending<CreateJit>,
    builder: RawRef,
    jit: LLJit,
    error: RawRef,
    out: RawRef,
    bytes: Vec<u8>,
    message: LLVMString,
)
    requires
        builder != 0,
        jit.raw() != 0,
        first.next is Builder,
        second.call == (Call::CreateLLJIT { builder }),
        second.next matches CreateJit::Build { opening } && opening.phase is Status,
        third.call == (Call::GetErrorMessage { error }),
        third.next matches CreateJit::Build { opening } && opening.phase is Message,
        message.bytes() == bytes@,
    ensures
        crate::run::is_run::<CreateJit>(
            seq![Step::Pending(first), Step::Pending(second), Step::Done(Ok(jit))],
            seq![Reply::Reference(builder), Reply::Opened { error: 0, out: jit.raw() }],
        ),
        error != 0 ==> crate::run::is_run::<CreateJit>(
            seq![
                Step::Pending(first),
                Step::Pending(second),
                Step::Pending(third),
                Step::Done(Err(message)),
            ],
            seq![
                Reply::Reference(builder),
                Reply::Opened { error, out },
                Reply::Text { start: message.start(), bytes },
            ],
        ),
{
    let created = Reply::Reference(builder);
    let built = Reply::Opened { error: 0, out: jit.raw() };
    crate::run::lemma_run_of_two(first, created, second, built, Ok(jit));
    if error != 0 {
        let refused = Reply::Opened { error, out };
        let text = Reply::Text { start: message.start(), bytes };
        crate::run::lemma_run_of_three(
            first,
            created,
            second,
            refused,
            third,
            text,
            Err(message),
        );
    }
}

/// Neither the builder nor the JIT compiler is null.
pub proof fn law_no_jit_is_null(
    steps: Seq<Step<CreateJit, Result<LLJit, LLVMString>>>,
    replies: Seq<Reply>,
)
    requires
        crate::run::is_run(steps, replies),
        steps[0] matches Step::Pending(first) && first.next is Builder,
    ensures
        replies[0] != Reply::Reference(0),
        steps.last()->Done_0 matches Ok(jit) ==> jit.raw() != 0,
{
    crate::laws::law_builder_is_used_up(steps, replies);
    assert(crate::run::follows(steps[0], replies[0], steps[1]));
    assert(crate::run::follows(steps[1], replies[1], steps[2]));
}

/// Whatever prefix LLVM names, zero among them, and whatever generator it then
/// creates, the generator is added to the library. For every error, every message
/// is taken and comes out.
pub proof fn law_every_prefix_and_generator_is_taken<'a>(
    first: Pending<AddProcessSymbols<'a>>,
    second: Pending<AddProcessSymbols<'a>>,
    added: Pending<AddProcessSymbols<'a>>,
    refused: Pending<AddProcessSymbols<'a>>,
    dylib: JitDylib<'a>,
    byte: u8,
    generator: RawRef,
    error: RawRef,
    out: RawRef,
    bytes: Vec<u8>,
    message: LLVMString,
)
    requires
        first.next == (AddProcessSymbols::Prefix { dylib }),
        second.call == (Call::CreateDynamicLibrarySearchGeneratorForProcess {
            global_prefix: byte,
            filter: None,
            filter_ctx: 0,
        }),
        ({
            &&& second.next matches AddProcessSymbols::Generator { dylib: kept, opening }
            &&& kept == dylib
            &&& opening.phase is Status
        }),
        added.call == (Call::JITDylibAddGenerator { dylib: dylib.raw(), generator }),
        added.next == AddProcessSymbols::<'a>::Add,
        refused.call == (Call::GetErrorMessage { error }),
        ({
            &&& refused.next matches AddProcessSymbols::Generator { dylib: kept, opening }
            &&& kept == dylib
            &&& opening.phase is Message
        }),
        message.bytes() == bytes@,
    ensures
        crate::run::is_run::<AddProcessSymbols<'a>>(
            seq![
                Step::Pending(first),
                Step::Pending(second),
                Step::Pending(added),
                Step::Done(Ok(())),
            ],
            seq![
                Reply::Character(byte),
                Reply::Opened { error: 0, out: generator },
                Reply::Nothing,
            ],
        ),
        error != 0 ==> crate::run::is_run::<AddProcessSymbols<'a>>(
            seq![
                Step::Pending(first),
                Step::Pending(second),
                Step::Pending(refused),
                Step::Done(Err(message)),
            ],
            seq![
                Reply::Character(byte),
                Reply::Opened { error, out },
                Reply::Text { start: message.start(), bytes },
            ],
        ),
{
    crate::run::lemma_run_of_three(
        first,
        Reply::Character(byte),
        second,
        Reply::Opened { error: 0, out: generator },
        added,
        Reply::Nothing,
        Ok(()),
    );
    if error != 0 {
        crate::run::lemma_run_of_three(
            first,
            Reply::Character(byte),
            second,
            Reply::Opened { error, out },
            refused,
            Reply::Text { start: message.start(), bytes },
            Err(message),
        );
    }
}

/// Disposing of a JIT compiler takes every status, and for every error every
/// message, which is printed behind the words of the warning.
pub proof fn law_every_failure_to_dispose_is_taken(
    first: Pending<DisposeJit>,
    second: Pending<DisposeJit>,
    third: Pending<DisposeJit>,
    fourth: Pending<DisposeJit>,
    error: RawRef,
    start: RawRef,
    bytes: Vec<u8>,
    line: String,
)
    requires
        first.next is Status,
        second.call == (Call::GetErrorMessage { error }),
        second.next is Message,
        third.call == (Call::PrintWarning { line }),
        third.next == (DisposeJit::Warn { message: start }),
        fourth.call == (Call::DisposeErrorMessage { message: start }),
        fourth.next is Dispose,
        line@ == "Warning: LLVMOrcDisposeLLJIT failed: "@ + crate::text::utf8_lossy(bytes@),
    ensures
        crate::run::is_run::<DisposeJit>(
            seq![Step::Pending(first), Step::Done(())],
            seq![Reply::Status(0)],
        ),
        error != 0 ==> crate::run::is_run::<DisposeJit>(
            seq![
                Step::Pending(first),
                Step::Pending(second),
                Step::Pending(third),
                Step::Pending(fourth),
                Step::Done(()),
            ],
            seq![
                Reply::Status(error),
                Reply::Text { start, bytes },
                Reply::Nothing,
                Reply::Nothing,
            ],
        ),
{
    crate::run::lemma_run_of_one(first, Reply::Status(0), ());
    if error != 0 {
        crate::run::lemma_run_of_four(
            first,
            Reply::Status(error),
            second,
            Reply::Text { start, bytes },
            third,
            Reply::Nothing,
            fourth,
            Reply::Nothing,
            (),
        );
    }
}

/// The line that is printed is the words of the warning, then LLVM's message.
pub proof fn law_warning_ends_in_the_message(bytes: Seq<u8>)
    ensures
        crate::lljit::warning(bytes) == "Warning: LLVMOrcDisposeLLJIT failed: "@
            + crate::text::utf8_lossy(bytes),
{
}

/// Every text of a target triple is taken and comes out, once it was given back.
pub proof fn law_every_triple_is_read(
    first: Pending<ReadTriple>,
    second: Pending<ReadTriple>,
    start: RawRef,
    bytes: Vec<u8>,
    triple: String,
)
    requires
        first.next is Text,
        second.call == (Call::DisposeMessage { message: start }),
        second.next == (ReadTriple::Dispose { message: start, triple }),
        triple@ == crate::text::utf8_lossy(bytes@),
        vstd::utf8::valid_utf8(bytes@) ==> triple@ == vstd::utf8::decode_utf8(bytes@),
    ensures
        crate::run::is_run::<ReadTriple>(
            seq![Step::Pending(first), Step::Pending(second), Step::Done(triple)],
            seq![Reply::Text { start, bytes }, Reply::Nothing],
        ),
{
    let text = Reply::Text { start, bytes };
    crate::run::lemma_run_of_two(first, text, second, Reply::Nothing, triple);
}

/// A target triple that LLVM gives in UTF-8 is read as it stands.
pub proof fn law_triples_are_those_that_came(
    steps: Seq<Step<ReadTriple, String>>,
    replies: Seq<Reply>,
    triple: Seq<char>,
)
    requires
        crate::run::is_run(steps, replies),
        steps[0] matches Step::Pending(first) && first.next is Text,
        replies[0] matches Reply::Text { bytes, .. } && bytes@ == vstd::utf8::encode_utf8(triple),
    ensures
        steps.last()->Done_0@ == triple,
{
    assert(crate::run::follows(steps[0], replies[0], steps[1]));
    assert(crate::run::follows(steps[1], replies[1], steps[2]));
    if replies.len() > 2 {
        assert(crate::run::follows(steps[2], replies[2], steps[3]));
    }
    vstd::utf8::encode_utf8_valid_utf8(triple);
    vstd::utf8::encode_utf8_decode_utf8(triple);
}

/// Every entry can be cloned, and the clone is the same entry.
pub proof fn law_every_entry_is_cloned(first: Pending<Retain>, copy: SymbolStringPoolEntry)
    requires
        first.next.entry == copy.raw(),
    ensures
        crate::run::is_run::<Retain>(
            seq![Step::Pending(first), Step::Done(copy)],
            seq![Reply::Nothing],
        ),
{
    crate::run::lemma_run_of_one(first, Reply::Nothing, copy);
}

/// A clone is the entry that was to be retained, whoever waits for it, and LLVM is
/// asked once.
pub proof fn law_clones_are_the_same_entry(
    steps: Seq<Step<Retain, SymbolStringPoolEntry>>,
    replies: Seq<Reply>,
)
    requires
        crate::run::is_run(steps, replies),
        steps[0] is Pending,
    ensures
        replies =~= seq![Reply::Nothing],
        steps.last()->Done_0.raw() == steps[0]->Pending_0.next.entry,
{
    assert(crate::run::follows(steps[0], replies[0], steps[1]));
    if replies.len() > 1 {
        assert(crate::run::follows(steps[1], replies[1], steps[2]));
    }
}

} // verus!
