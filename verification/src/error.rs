//! Errors that LLVM reports, and the messages that it gives for them.

use crate::call::{Call, Kind, RawRef, Reply, Resource};
use crate::continuation::Finish;
use crate::operation::{Operation, Owns, Pending, Step};
use crate::text::decode_lossy;
use vstd::multiset::Multiset;
use vstd::pervasive::unreached;
use vstd::prelude::*;

verus! {

broadcast use crate::call::group_adding_nothing;

/// A message that LLVM wrote. Its holder has to give the text back to LLVM.
#[derive(Debug, PartialEq, Eq)]
pub struct LLVMString {
    start: RawRef,
    bytes: Vec<u8>,
}

impl Owns for LLVMString {
    open spec fn owned(&self) -> Multiset<Resource> {
        Resource::of(Some(Kind::Message), self.start())
    }
}

impl LLVMString {
    /// Where LLVM keeps the text.
    pub closed spec fn start(&self) -> RawRef {
        self.start
    }

    /// The bytes of the text.
    pub closed spec fn bytes(&self) -> Seq<u8> {
        self.bytes@
    }

    /// Takes over the text that starts at `start`.
    pub(crate) fn new(start: RawRef, bytes: Vec<u8>) -> (message: Self)
        ensures
            message.start() == start,
            message.bytes() == bytes@,
    {
        LLVMString { start, bytes }
    }

    /// The text, with a replacement character for what is not UTF-8.
    pub fn to_string(&self) -> (text: String)
        ensures
            text@ == crate::text::utf8_lossy(self.bytes()),
            vstd::utf8::valid_utf8(self.bytes()) ==> text@ == vstd::utf8::decode_utf8(
                self.bytes(),
            ),
    {
        decode_lossy(&self.bytes)
    }

    /// Gives the text back to LLVM.
    pub fn drop(self) -> (operation: Pending<Finish>)
        ensures
            operation.call == (Call::DisposeMessage { message: self.start() }),
            operation.wf(),
            operation.owned() == self.owned(),
    {
        Pending { call: Call::DisposeMessage { message: self.start }, next: Finish }
    }
}

/// What a fallible request waits for: its status, or the message for the error
/// that the status was.
#[derive(Debug, Clone, Copy, PartialEq, Eq)]
pub enum Phase {
    Status,
    Message,
}

/// Waits for the status of a request that gives nothing else.
#[derive(Debug)]
pub struct Check {
    pub phase: Phase,
}

impl Operation for Check {
    type Output = Result<(), LLVMString>;

    open spec fn awaits(self, call: Call) -> bool {
        match self.phase {
            Phase::Status => call.answer() is Status,
            Phase::Message => call is GetErrorMessage,
        }
    }

    open spec fn expects(self, reply: Reply) -> bool {
        match self.phase {
            Phase::Status => reply is Status,
            Phase::Message => reply is Text,
        }
    }

    open spec fn held(self) -> Multiset<Resource> {
        Multiset::empty()
    }

    open spec fn calls_left(self) -> nat {
        match self.phase {
            Phase::Status => 1,
            Phase::Message => 0,
        }
    }

    open spec fn resumes_to(self, reply: Reply, step: Step<Self, Self::Output>) -> bool {
        match reply {
            Reply::Status(error) => if error == 0 {
                step == Step::<Self, Self::Output>::Done(Ok(()))
            } else {
                &&& step matches Step::Pending(pending)
                &&& pending.call == Call::GetErrorMessage { error }
                &&& pending.next.phase is Message
            },
            Reply::Text { start, bytes } => {
                &&& step matches Step::Done(Err(message))
                &&& message.start() == start
                &&& message.bytes() == bytes@
            },
            _ => false,
        }
    }

    proof fn goes_on_well(self, call: Call, reply: Reply, step: Step<Self, Self::Output>) {
        if let Step::Done(output) = step {
            assert(self.held().add(call.creates(reply)) == output.owned());
        }
    }

    fn check(&self, reply: &Reply) -> (fits: bool) {
        match (self.phase, reply) {
            (Phase::Status, Reply::Status(_)) => true,
            (Phase::Message, Reply::Text { .. }) => true,
            _ => false,
        }
    }

    fn resume(self, reply: Reply) -> (step: Step<Self, Self::Output>) {
        match reply {
            Reply::Status(error) => into_result(error),
            Reply::Text { start, bytes } => Step::Done(Err(LLVMString::new(start, bytes))),
            _ => unreached(),
        }
    }
}

/// Turns an error into a result: null is success, anything else has a message
/// that is asked for first.
pub fn into_result(error: RawRef) -> (step: Step<Check, Result<(), LLVMString>>)
    ensures
        error == 0 ==> step == Step::<Check, Result<(), LLVMString>>::Done(Ok(())),
        error != 0 ==> {
            &&& step matches Step::Pending(pending)
            &&& pending.call == Call::GetErrorMessage { error }
            &&& pending.next.phase is Message
        },
{
    if error == 0 {
        Step::Done(Ok(()))
    } else {
        let next = Check { phase: Phase::Message };
        Step::Pending(Pending { call: Call::GetErrorMessage { error }, next })
    }
}

} // verus!
