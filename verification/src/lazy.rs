//! What lazy compilation needs: stubs, trampolines, and lookups that wait.

use crate::call::{Call, Kind, RawRef, Resource};
use crate::continuation::{Finish, Open, Wrap};
use crate::error::Phase;
use crate::operation::{Handle, Owns, Pending, Reference};
use crate::session::ExecutionSession;
use crate::text::to_c_str;
use std::marker::PhantomData;
use vstd::multiset::Multiset;
use vstd::prelude::*;

verus! {

broadcast use crate::call::group_adding_nothing;

/// Manages stubs: code that jumps to where a pointer says, at first to what
/// compiles the real function.
#[derive(Debug)]
pub struct IndirectStubsManager {
    raw: RawRef,
}

impl Owns for IndirectStubsManager {
    open spec fn owned(&self) -> Multiset<Resource> {
        Resource::of(Some(Kind::IndirectStubsManager), self.raw())
    }
}

impl Reference for IndirectStubsManager {
    closed spec fn raw(&self) -> RawRef {
        self.raw
    }
}

impl Handle for IndirectStubsManager {
    open spec fn kind() -> Option<Kind> {
        Some(Kind::IndirectStubsManager)
    }

    open spec fn never_null() -> bool {
        false
    }

    proof fn owns_its_reference(&self) {
    }

    fn wrap(raw: RawRef) -> (handle: Self) {
        IndirectStubsManager { raw }
    }

    fn rejects_null() -> (answer: bool) {
        false
    }
}

impl IndirectStubsManager {
    /// Creates a manager for the target.
    pub fn create(target_triple: &str) -> (operation: Pending<Wrap<IndirectStubsManager>>)
        ensures
            ({
                &&& operation.call matches Call::CreateLocalIndirectStubsManager {
                    target_triple: c_triple,
                }
                &&& c_triple@ == crate::text::c_text(target_triple@)
            }),
            operation.wf(),
            operation.owned() == Multiset::<Resource>::empty(),
    {
        let call = Call::CreateLocalIndirectStubsManager {
            target_triple: to_c_str(target_triple),
        };
        Pending { call, next: Wrap { marker: PhantomData } }
    }

    /// Disposes of the manager.
    pub fn drop(self) -> (operation: Pending<Finish>)
        ensures
            operation.call == (Call::DisposeIndirectStubsManager { manager: self.raw() }),
            operation.wf(),
            operation.owned() == self.owned(),
    {
        Pending { call: Call::DisposeIndirectStubsManager { manager: self.raw }, next: Finish }
    }

    /// The reference.
    pub fn as_raw(&self) -> (raw: RawRef)
        ensures
            raw == self.raw(),
    {
        self.raw
    }
}

/// Manages trampolines that compile a function when it is first called.
///
/// Works with [`IndirectStubsManager`] and
/// [`lazy_reexports`](crate::materialization::lazy_reexports).
#[derive(Debug)]
pub struct LazyCallThroughManager {
    raw: RawRef,
}

impl Owns for LazyCallThroughManager {
    open spec fn owned(&self) -> Multiset<Resource> {
        Resource::of(Some(Kind::LazyCallThroughManager), self.raw())
    }
}

impl Reference for LazyCallThroughManager {
    closed spec fn raw(&self) -> RawRef {
        self.raw
    }
}

impl Handle for LazyCallThroughManager {
    open spec fn kind() -> Option<Kind> {
        Some(Kind::LazyCallThroughManager)
    }

    open spec fn never_null() -> bool {
        false
    }

    proof fn owns_its_reference(&self) {
    }

    fn wrap(raw: RawRef) -> (handle: Self) {
        LazyCallThroughManager { raw }
    }

    fn rejects_null() -> (answer: bool) {
        false
    }
}

impl LazyCallThroughManager {
    /// Creates a manager for the target. LLVM jumps to `error_handler_addr` where
    /// compiling fails.
    pub fn create(
        target_triple: &str,
        es: &ExecutionSession<'_>,
        error_handler_addr: u64,
    ) -> (operation: Pending<Open<LazyCallThroughManager>>)
        ensures
            ({
                &&& operation.call matches Call::CreateLocalLazyCallThroughManager {
                    target_triple: c_triple,
                    session,
                    error_handler_addr: given_error_handler_addr,
                }
                &&& c_triple@ == crate::text::c_text(target_triple@)
                &&& session == es.raw()
                &&& given_error_handler_addr == error_handler_addr
            }),
            operation.next.phase is Status,
            operation.wf(),
            operation.owned() == Multiset::<Resource>::empty(),
    {
        let call = Call::CreateLocalLazyCallThroughManager {
            target_triple: to_c_str(target_triple),
            session: es.as_raw(),
            error_handler_addr,
        };
        Pending { call, next: Open { phase: Phase::Status, marker: PhantomData } }
    }

    /// Disposes of the manager.
    pub fn drop(self) -> (operation: Pending<Finish>)
        ensures
            operation.call == (Call::DisposeLazyCallThroughManager { manager: self.raw() }),
            operation.wf(),
            operation.owned() == self.owned(),
    {
        Pending { call: Call::DisposeLazyCallThroughManager { manager: self.raw }, next: Finish }
    }

    /// The reference.
    pub fn as_raw(&self) -> (raw: RawRef)
        ensures
            raw == self.raw(),
    {
        self.raw
    }
}

/// A lookup that a definition generator has suspended.
#[derive(Debug)]
pub struct LookupState {
    raw: RawRef,
}

impl Owns for LookupState {
    open spec fn owned(&self) -> Multiset<Resource> {
        Resource::of(Some(Kind::LookupState), self.raw())
    }
}

impl Reference for LookupState {
    closed spec fn raw(&self) -> RawRef {
        self.raw
    }
}

impl Handle for LookupState {
    open spec fn kind() -> Option<Kind> {
        Some(Kind::LookupState)
    }

    open spec fn never_null() -> bool {
        false
    }

    proof fn owns_its_reference(&self) {
    }

    fn wrap(raw: RawRef) -> (handle: Self) {
        LookupState { raw }
    }

    fn rejects_null() -> (answer: bool) {
        false
    }
}

impl LookupState {
    /// Resumes the lookup, and consumes both it and the error: a null error stands
    /// for success.
    pub fn continue_lookup(self, err: RawRef) -> (operation: Pending<Finish>)
        ensures
            operation.call == (Call::LookupStateContinueLookup { state: self.raw(), error: err }),
            operation.wf(),
            operation.owned() == self.owned().add(Resource::of_error(err)),
    {
        let call = Call::LookupStateContinueLookup { state: self.raw, error: err };
        Pending { call, next: Finish }
    }
}

} // verus!
