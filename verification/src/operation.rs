//! Operations: what the library asks of LLVM one call at a time.
//!
//! An operation that needs LLVM does not call it. It hands out the request and
//! the continuation that takes the reply, and goes on from there until it is
//! done. Whoever drives it makes the calls.

use crate::call::{Call, Kind, RawRef, Reply, Resource};
use vstd::multiset::Multiset;
use vstd::prelude::*;

verus! {

/// What a value makes its holder responsible for.
pub trait Owns {
    spec fn owned(&self) -> Multiset<Resource>;
}

impl Owns for () {
    open spec fn owned(&self) -> Multiset<Resource> {
        Multiset::empty()
    }
}

impl Owns for char {
    open spec fn owned(&self) -> Multiset<Resource> {
        Multiset::empty()
    }
}

impl Owns for u64 {
    open spec fn owned(&self) -> Multiset<Resource> {
        Multiset::empty()
    }
}

impl Owns for usize {
    open spec fn owned(&self) -> Multiset<Resource> {
        Multiset::empty()
    }
}

impl Owns for String {
    open spec fn owned(&self) -> Multiset<Resource> {
        Multiset::empty()
    }
}

impl<T: Owns> Owns for Option<T> {
    open spec fn owned(&self) -> Multiset<Resource> {
        match self {
            Some(value) => value.owned(),
            None => Multiset::empty(),
        }
    }
}

impl<T: Owns, E: Owns> Owns for Result<T, E> {
    open spec fn owned(&self) -> Multiset<Resource> {
        match self {
            Ok(value) => value.owned(),
            Err(error) => error.owned(),
        }
    }
}

/// A value that stands for one reference.
pub trait Reference {
    /// The reference.
    spec fn raw(&self) -> RawRef;
}

/// A value that stands for one reference and nothing else.
pub trait Handle: Owns + Reference + Sized {
    /// What the holder of such a value is responsible for; `None` for values
    /// that only borrow.
    spec fn kind() -> Option<Kind>;

    /// Whether the reference cannot be null.
    spec fn never_null() -> bool;

    /// A handle makes its holder responsible for its own reference.
    proof fn owns_its_reference(&self)
        ensures
            self.owned() == Resource::of(Self::kind(), self.raw()),
    ;

    /// Makes a handle of a reference that LLVM handed out.
    fn wrap(raw: RawRef) -> (handle: Self)
        requires
            Self::never_null() ==> raw != 0,
        ensures
            handle.raw() == raw,
    ;

    /// Whether the reference cannot be null.
    fn rejects_null() -> (answer: bool)
        ensures
            answer == Self::never_null(),
    ;
}

/// An operation that waits for the reply to a request.
#[derive(Debug)]
pub struct Pending<K> {
    /// The request to make.
    pub call: Call,
    /// What takes the reply.
    pub next: K,
}

/// How far an operation has come.
#[derive(Debug)]
pub enum Step<K, T> {
    Pending(Pending<K>),
    Done(T),
}

/// What takes the reply to a request and goes on.
pub trait Operation: Sized {
    /// What the operation gives in the end.
    type Output: Owns;

    /// Whether this continues after `call`.
    spec fn awaits(self, call: Call) -> bool;

    /// Whether `reply` has the right form, and no null reference where LLVM
    /// always gives one.
    spec fn expects(self, reply: Reply) -> bool;

    /// What the operation is responsible for while it waits.
    spec fn held(self) -> Multiset<Resource>;

    /// How many more requests there can be.
    spec fn calls_left(self) -> nat;

    /// Where `reply` leads.
    spec fn resumes_to(self, reply: Reply, step: Step<Self, Self::Output>) -> bool;

    /// With each reply an operation comes closer to its end, waits for the
    /// reply to the request that it made, and answers for all that it held and
    /// all that the reply brought.
    proof fn goes_on_well(self, call: Call, reply: Reply, step: Step<Self, Self::Output>)
        requires
            self.awaits(call),
            self.expects(reply),
            self.resumes_to(reply, step),
        ensures
            step matches Step::Pending(pending) ==> pending.next.awaits(pending.call)
                && pending.next.calls_left() < self.calls_left(),
            self.held().add(call.creates(reply)) == (match step {
                Step::Pending(pending) => pending.call.consumes().add(pending.next.held()),
                Step::Done(output) => output.owned(),
            }),
    ;

    /// Tests a reply before it is taken.
    fn check(&self, reply: &Reply) -> (fits: bool)
        ensures
            fits == self.expects(*reply),
    ;

    /// Takes the reply.
    fn resume(self, reply: Reply) -> (step: Step<Self, Self::Output>)
        requires
            self.expects(reply),
        ensures
            self.resumes_to(reply, step),
    ;
}

impl<K: Operation> Pending<K> {
    /// Whether the continuation belongs to the request.
    pub open spec fn wf(self) -> bool {
        self.next.awaits(self.call)
    }

    /// What the operation is responsible for before the request is made.
    pub open spec fn owned(self) -> Multiset<Resource> {
        self.call.consumes().add(self.next.held())
    }
}

impl<K: Operation> Step<K, K::Output> {
    /// Whether the continuation belongs to the request.
    pub open spec fn wf(self) -> bool {
        match self {
            Step::Pending(pending) => pending.wf(),
            Step::Done(_) => true,
        }
    }

    /// What the operation, or its output, is responsible for.
    pub open spec fn owned(self) -> Multiset<Resource> {
        match self {
            Step::Pending(pending) => pending.owned(),
            Step::Done(output) => output.owned(),
        }
    }
}

} // verus!
