//! Target machines.

use crate::call::{Call, Kind, RawRef, Reply, Resource};
use crate::continuation::{Finish, Open, Wrap};
use crate::error::Phase;
use crate::operation::{Handle, Operation, Owns, Pending, Reference, Step};
use crate::text::{decode_lossy, to_c_str};
use std::marker::PhantomData;
use vstd::multiset::Multiset;
use vstd::pervasive::unreached;
use vstd::prelude::*;

verus! {

broadcast use crate::call::group_adding_nothing;

/// The target that code is compiled for.
#[derive(Debug, PartialEq, Eq, Structural)]
pub struct JitTargetMachineBuilder {
    raw: RawRef,
}

impl Owns for JitTargetMachineBuilder {
    open spec fn owned(&self) -> Multiset<Resource> {
        Resource::of(Some(Kind::JitTargetMachineBuilder), self.raw())
    }
}

impl Reference for JitTargetMachineBuilder {
    closed spec fn raw(&self) -> RawRef {
        self.raw
    }
}

impl Handle for JitTargetMachineBuilder {
    open spec fn kind() -> Option<Kind> {
        Some(Kind::JitTargetMachineBuilder)
    }

    open spec fn never_null() -> bool {
        false
    }

    proof fn owns_its_reference(&self) {
    }

    fn wrap(raw: RawRef) -> (handle: Self) {
        JitTargetMachineBuilder { raw }
    }

    fn rejects_null() -> (answer: bool) {
        false
    }
}

impl JitTargetMachineBuilder {
    /// Detects the host. LLVM refuses a host that it does not know.
    pub fn detect_host() -> (operation: Pending<Open<JitTargetMachineBuilder>>)
        ensures
            operation.call == Call::JITTargetMachineBuilderDetectHost,
            operation.next.phase is Status,
            operation.wf(),
            operation.owned() == Multiset::<Resource>::empty(),
    {
        let call = Call::JITTargetMachineBuilderDetectHost;
        Pending { call, next: Open { phase: Phase::Status, marker: PhantomData } }
    }

    /// Takes the configuration of a target machine, and consumes the machine.
    pub fn from_target_machine(tm: RawRef) -> (operation: Pending<Wrap<JitTargetMachineBuilder>>)
        ensures
            operation.call == (Call::JITTargetMachineBuilderCreateFromTargetMachine {
                machine: tm,
            }),
            operation.wf(),
            operation.owned() == Resource::of(Some(Kind::TargetMachine), tm),
    {
        let call = Call::JITTargetMachineBuilderCreateFromTargetMachine { machine: tm };
        Pending { call, next: Wrap { marker: PhantomData } }
    }

    /// The target triple, with a replacement character for what is not UTF-8.
    pub fn get_target_triple(&self) -> (operation: Pending<ReadTriple>)
        ensures
            operation.call == (Call::JITTargetMachineBuilderGetTargetTriple {
                builder: self.raw(),
            }),
            operation.next is Text,
            operation.wf(),
            operation.owned() == Multiset::<Resource>::empty(),
    {
        let call = Call::JITTargetMachineBuilderGetTargetTriple { builder: self.raw };
        Pending { call, next: ReadTriple::Text }
    }

    /// Sets the target triple.
    pub fn set_target_triple(&mut self, triple: &str) -> (operation: Pending<Finish>)
        ensures
            ({
                &&& operation.call matches Call::JITTargetMachineBuilderSetTargetTriple {
                    builder,
                    triple: c_triple,
                }
                &&& builder == old(self).raw()
                &&& c_triple@ == crate::text::c_text(triple@)
            }),
            *final(self) == *old(self),
            operation.wf(),
            operation.owned() == Multiset::<Resource>::empty(),
    {
        let call = Call::JITTargetMachineBuilderSetTargetTriple {
            builder: self.raw,
            triple: to_c_str(triple),
        };
        Pending { call, next: Finish }
    }

    /// Disposes of the builder.
    pub fn drop(self) -> (operation: Pending<Finish>)
        ensures
            operation.call == (Call::DisposeJITTargetMachineBuilder { builder: self.raw() }),
            operation.wf(),
            operation.owned() == self.owned(),
    {
        Pending { call: Call::DisposeJITTargetMachineBuilder { builder: self.raw }, next: Finish }
    }

    /// Gives the reference to LLVM.
    pub(crate) fn into_raw(self) -> (raw: RawRef)
        ensures
            raw == self.raw(),
    {
        self.raw
    }
}

/// Waits for a target triple, then for its text to be given back.
#[derive(Debug)]
pub enum ReadTriple {
    Text,
    Dispose { message: RawRef, triple: String },
}

impl Operation for ReadTriple {
    type Output = String;

    open spec fn awaits(self, call: Call) -> bool {
        match self {
            ReadTriple::Text => call.answer() == crate::call::Answer::Text(Some(Kind::Message)),
            ReadTriple::Dispose { message, .. } => call == Call::DisposeMessage { message },
        }
    }

    open spec fn expects(self, reply: Reply) -> bool {
        match self {
            ReadTriple::Text => reply is Text,
            ReadTriple::Dispose { .. } => reply is Nothing,
        }
    }

    open spec fn held(self) -> Multiset<Resource> {
        Multiset::empty()
    }

    open spec fn calls_left(self) -> nat {
        match self {
            ReadTriple::Text => 1,
            ReadTriple::Dispose { .. } => 0,
        }
    }

    open spec fn resumes_to(self, reply: Reply, step: Step<Self, Self::Output>) -> bool {
        match (self, reply) {
            (ReadTriple::Text, Reply::Text { start, bytes }) => {
                &&& step matches Step::Pending(pending)
                &&& pending.call == Call::DisposeMessage { message: start }
                &&& pending.next matches ReadTriple::Dispose { message, triple }
                &&& message == start
                &&& triple@ == crate::text::utf8_lossy(bytes@)
                &&& vstd::utf8::valid_utf8(bytes@) ==> triple@ == vstd::utf8::decode_utf8(bytes@)
            },
            (ReadTriple::Dispose { triple, .. }, Reply::Nothing) => {
                step == Step::<Self, String>::Done(triple)
            },
            _ => false,
        }
    }

    proof fn goes_on_well(self, call: Call, reply: Reply, step: Step<Self, Self::Output>) {
        if let Step::Done(output) = step {
            assert(self.held().add(call.creates(reply)) == output.owned());
        }
    }

    fn check(&self, reply: &Reply) -> (fits: bool) {
        match (self, reply) {
            (ReadTriple::Text, Reply::Text { .. }) => true,
            (ReadTriple::Dispose { .. }, Reply::Nothing) => true,
            _ => false,
        }
    }

    fn resume(self, reply: Reply) -> (step: Step<Self, Self::Output>) {
        match (self, reply) {
            (ReadTriple::Text, Reply::Text { start, bytes }) => {
                let triple = decode_lossy(&bytes);
                let call = Call::DisposeMessage { message: start };
                let next = ReadTriple::Dispose { message: start, triple };
                Step::Pending(Pending { call, next })
            },
            (ReadTriple::Dispose { triple, .. }, Reply::Nothing) => Step::Done(triple),
            _ => unreached(),
        }
    }
}

} // verus!
