//! The continuations that many operations share.

use crate::call::{Call, RawRef, Reply, Resource};
use crate::error::{LLVMString, Phase};
use crate::operation::{Handle, Operation, Owns, Pending, Reference, Step};
use crate::text::decode_strict;
use std::marker::PhantomData;
use vstd::multiset::Multiset;
use vstd::pervasive::unreached;
use vstd::prelude::*;

verus! {

broadcast use crate::call::group_adding_nothing;

/// Waits for a request that gives nothing.
#[derive(Debug)]
pub struct Finish;

impl Operation for Finish {
    type Output = ();

    open spec fn awaits(self, call: Call) -> bool {
        call.answer() is Nothing
    }

    open spec fn expects(self, reply: Reply) -> bool {
        reply is Nothing
    }

    open spec fn held(self) -> Multiset<Resource> {
        Multiset::empty()
    }

    open spec fn calls_left(self) -> nat {
        0
    }

    open spec fn resumes_to(self, reply: Reply, step: Step<Self, ()>) -> bool {
        step == Step::<Self, ()>::Done(())
    }

    proof fn goes_on_well(self, call: Call, reply: Reply, step: Step<Self, ()>) {
    }

    fn check(&self, reply: &Reply) -> (fits: bool) {
        matches!(reply, Reply::Nothing)
    }

    fn resume(self, reply: Reply) -> (step: Step<Self, ()>) {
        Step::Done(())
    }
}

/// Waits for a reference, and makes a handle of it.
#[derive(Debug)]
pub struct Wrap<T> {
    pub marker: PhantomData<T>,
}

impl<T: Handle> Operation for Wrap<T> {
    type Output = T;

    open spec fn awaits(self, call: Call) -> bool {
        call.answer() == crate::call::Answer::Reference(T::kind())
    }

    open spec fn expects(self, reply: Reply) -> bool {
        &&& reply matches Reply::Reference(raw)
        &&& T::never_null() ==> raw != 0
    }

    open spec fn held(self) -> Multiset<Resource> {
        Multiset::empty()
    }

    open spec fn calls_left(self) -> nat {
        0
    }

    open spec fn resumes_to(self, reply: Reply, step: Step<Self, Self::Output>) -> bool {
        &&& reply matches Reply::Reference(raw)
        &&& step matches Step::Done(handle)
        &&& handle.raw() == raw
    }

    proof fn goes_on_well(self, call: Call, reply: Reply, step: Step<Self, Self::Output>) {
        if let Step::Done(handle) = step {
            handle.owns_its_reference();
            assert(self.held().add(call.creates(reply)) == handle.owned());
        }
    }

    fn check(&self, reply: &Reply) -> (fits: bool) {
        match reply {
            Reply::Reference(raw) => *raw != 0 || !T::rejects_null(),
            _ => false,
        }
    }

    fn resume(self, reply: Reply) -> (step: Step<Self, Self::Output>) {
        match reply {
            Reply::Reference(raw) => Step::Done(T::wrap(raw)),
            _ => unreached(),
        }
    }
}

/// Waits for a reference that is null where there is nothing to be found.
#[derive(Debug)]
pub struct Find<T> {
    pub marker: PhantomData<T>,
}

impl<T: Handle> Operation for Find<T> {
    type Output = Option<T>;

    open spec fn awaits(self, call: Call) -> bool {
        call.answer() == crate::call::Answer::Reference(T::kind()) && T::kind() is None
    }

    open spec fn expects(self, reply: Reply) -> bool {
        reply is Reference
    }

    open spec fn held(self) -> Multiset<Resource> {
        Multiset::empty()
    }

    open spec fn calls_left(self) -> nat {
        0
    }

    open spec fn resumes_to(self, reply: Reply, step: Step<Self, Self::Output>) -> bool {
        &&& reply matches Reply::Reference(raw)
        &&& step matches Step::Done(found)
        &&& found is Some <==> raw != 0
        &&& found matches Some(handle) ==> handle.raw() == raw
    }

    proof fn goes_on_well(self, call: Call, reply: Reply, step: Step<Self, Self::Output>) {
        if let Step::Done(Some(handle)) = step {
            handle.owns_its_reference();
        }
        if let Step::Done(output) = step {
            assert(self.held().add(call.creates(reply)) == output.owned());
        }
    }

    fn check(&self, reply: &Reply) -> (fits: bool) {
        matches!(reply, Reply::Reference(_))
    }

    fn resume(self, reply: Reply) -> (step: Step<Self, Self::Output>) {
        match reply {
            Reply::Reference(raw) => if raw == 0 {
                Step::Done(None)
            } else {
                Step::Done(Some(T::wrap(raw)))
            },
            _ => unreached(),
        }
    }
}

/// Waits for the status of a request that gives a reference if it succeeds.
#[derive(Debug)]
pub struct Open<T> {
    pub phase: Phase,
    pub marker: PhantomData<T>,
}

impl<T: Handle> Operation for Open<T> {
    type Output = Result<T, LLVMString>;

    open spec fn awaits(self, call: Call) -> bool {
        match self.phase {
            Phase::Status => call.answer() == crate::call::Answer::Opened(T::kind()),
            Phase::Message => call is GetErrorMessage,
        }
    }

    open spec fn expects(self, reply: Reply) -> bool {
        match self.phase {
            Phase::Status => {
                &&& reply matches Reply::Opened { error, out }
                &&& error == 0 && T::never_null() ==> out != 0
            },
            Phase::Message => reply is Text,
        }
    }

    open spec fn held(self) -> Multiset<Resource> {
        Multiset::empty()
    }

    open spec fn calls_left(self) -> nat {
        match self.phase {
            Phase::Status => 1,
            Phase::Message => 0,
        }
    }

    open spec fn resumes_to(self, reply: Reply, step: Step<Self, Self::Output>) -> bool {
        match reply {
            Reply::Opened { error, out } => if error == 0 {
                &&& step matches Step::Done(Ok(handle))
                &&& handle.raw() == out
            } else {
                &&& step matches Step::Pending(pending)
                &&& pending.call == Call::GetErrorMessage { error }
                &&& pending.next.phase is Message
            },
            Reply::Text { start, bytes } => {
                &&& step matches Step::Done(Err(message))
                &&& message.start() == start
                &&& message.bytes() == bytes@
            },
            _ => false,
        }
    }

    proof fn goes_on_well(self, call: Call, reply: Reply, step: Step<Self, Self::Output>) {
        if let Step::Done(Ok(handle)) = step {
            handle.owns_its_reference();
        }
        if let Step::Done(output) = step {
            assert(self.held().add(call.creates(reply)) == output.owned());
        }
    }

    fn check(&self, reply: &Reply) -> (fits: bool) {
        match (self.phase, reply) {
            (Phase::Status, Reply::Opened { error, out }) => *error != 0 || *out != 0
                || !T::rejects_null(),
            (Phase::Message, Reply::Text { .. }) => true,
            _ => false,
        }
    }

    fn resume(self, reply: Reply) -> (step: Step<Self, Self::Output>) {
        match reply {
            Reply::Opened { error, out } => if error == 0 {
                Step::Done(Ok(T::wrap(out)))
            } else {
                let next = Open { phase: Phase::Message, marker: PhantomData };
                Step::Pending(Pending { call: Call::GetErrorMessage { error }, next })
            },
            Reply::Text { start, bytes } => Step::Done(Err(LLVMString::new(start, bytes))),
            _ => unreached(),
        }
    }
}

/// Waits for a reference that is handed on as it is.
#[derive(Debug)]
pub struct ReadReference;

impl Operation for ReadReference {
    type Output = RawRef;

    open spec fn awaits(self, call: Call) -> bool {
        call.answer() == crate::call::Answer::Reference(None)
    }

    open spec fn expects(self, reply: Reply) -> bool {
        reply is Reference
    }

    open spec fn held(self) -> Multiset<Resource> {
        Multiset::empty()
    }

    open spec fn calls_left(self) -> nat {
        0
    }

    open spec fn resumes_to(self, reply: Reply, step: Step<Self, Self::Output>) -> bool {
        &&& reply matches Reply::Reference(raw)
        &&& step == Step::<Self, RawRef>::Done(raw)
    }

    proof fn goes_on_well(self, call: Call, reply: Reply, step: Step<Self, Self::Output>) {
        if let Step::Done(output) = step {
            assert(self.held().add(call.creates(reply)) == output.owned());
        }
    }

    fn check(&self, reply: &Reply) -> (fits: bool) {
        matches!(reply, Reply::Reference(_))
    }

    fn resume(self, reply: Reply) -> (step: Step<Self, Self::Output>) {
        match reply {
            Reply::Reference(raw) => Step::Done(raw),
            _ => unreached(),
        }
    }
}

/// Waits for text that LLVM keeps, and that has to be UTF-8.
#[derive(Debug)]
pub struct ReadText;

impl Operation for ReadText {
    type Output = String;

    open spec fn awaits(self, call: Call) -> bool {
        call.answer() == crate::call::Answer::Text(None)
    }

    open spec fn expects(self, reply: Reply) -> bool {
        &&& reply matches Reply::Text { bytes, .. }
        &&& vstd::utf8::valid_utf8(bytes@)
    }

    open spec fn held(self) -> Multiset<Resource> {
        Multiset::empty()
    }

    open spec fn calls_left(self) -> nat {
        0
    }

    open spec fn resumes_to(self, reply: Reply, step: Step<Self, Self::Output>) -> bool {
        &&& reply matches Reply::Text { bytes, .. }
        &&& step matches Step::Done(text)
        &&& text@ == vstd::utf8::decode_utf8(bytes@)
    }

    proof fn goes_on_well(self, call: Call, reply: Reply, step: Step<Self, Self::Output>) {
        if let Step::Done(output) = step {
            assert(self.held().add(call.creates(reply)) == output.owned());
        }
    }

    fn check(&self, reply: &Reply) -> (fits: bool) {
        match reply {
            Reply::Text { bytes, .. } => decode_strict(bytes).is_some(),
            _ => false,
        }
    }

    fn resume(self, reply: Reply) -> (step: Step<Self, Self::Output>) {
        match reply {
            Reply::Text { bytes, .. } => match decode_strict(&bytes) {
                Some(text) => Step::Done(text),
                None => unreached(),
            },
            _ => unreached(),
        }
    }
}

} // verus!
