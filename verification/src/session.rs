//! Execution sessions and the names that they intern.

use crate::call::{Call, Callback, Kind, LookupKind, RawRef, Reply, Resource};
use crate::continuation::{Find, Finish, Open, ReadText, Wrap};
use crate::dylib::JitDylib;
use crate::error::Phase;
use crate::lljit::LLJit;
use crate::operation::{Handle, Operation, Owns, Pending, Reference, Step};
use crate::text::to_c_str;
use std::marker::PhantomData;
use vstd::multiset::Multiset;
use vstd::prelude::*;

verus! {

broadcast use crate::call::group_adding_nothing;

/// A reference to an execution session, the coordinator of all JIT state.
///
/// The session belongs to the [`LLJit`], which the lifetime keeps in place.
#[derive(Debug, Clone, Copy)]
pub struct ExecutionSession<'jit> {
    raw: RawRef,
    marker: PhantomData<&'jit LLJit>,
}

impl<'jit> Owns for ExecutionSession<'jit> {
    open spec fn owned(&self) -> Multiset<Resource> {
        Multiset::empty()
    }
}

impl<'jit> Reference for ExecutionSession<'jit> {
    closed spec fn raw(&self) -> RawRef {
        self.raw
    }
}

impl<'jit> Handle for ExecutionSession<'jit> {
    open spec fn kind() -> Option<Kind> {
        None
    }

    open spec fn never_null() -> bool {
        true
    }

    proof fn owns_its_reference(&self) {
    }

    fn wrap(raw: RawRef) -> (handle: Self) {
        ExecutionSession { raw, marker: PhantomData }
    }

    fn rejects_null() -> (answer: bool) {
        true
    }
}

impl<'jit> PartialEq for ExecutionSession<'jit> {
    fn eq(&self, other: &Self) -> (same: bool) {
        self.raw == other.raw
    }
}

impl<'jit> vstd::std_specs::cmp::PartialEqSpecImpl for ExecutionSession<'jit> {
    open spec fn obeys_eq_spec() -> bool {
        true
    }

    open spec fn eq_spec(&self, other: &Self) -> bool {
        self.raw() == other.raw()
    }
}

impl<'jit> Eq for ExecutionSession<'jit> {

}

impl<'jit> ExecutionSession<'jit> {
    #[verifier::type_invariant]
    spec fn is_not_null(self) -> bool {
        self.raw != 0
    }

    /// Interns a symbol name into the session's string pool.
    ///
    /// The entry that comes back is reference-counted.
    pub fn intern(&self, name: &str) -> (operation: Pending<Wrap<SymbolStringPoolEntry>>)
        ensures
            ({
                &&& operation.call matches Call::ExecutionSessionIntern { session, name: c_name }
                &&& session == self.raw()
                &&& c_name@ == crate::text::c_text(name@)
            }),
            operation.wf(),
            operation.owned() == Multiset::<Resource>::empty(),
    {
        let call = Call::ExecutionSessionIntern {
            session: self.raw,
            name: to_c_str(name),
        };
        Pending { call, next: Wrap { marker: PhantomData } }
    }

    /// Sets the callback for errors that occur while code is materialized, and
    /// that no request returns.
    ///
    /// The callback and `ctx` have to stay valid as long as the session.
    pub fn set_error_reporter(
        &self,
        report_error: Callback,
        ctx: RawRef,
    ) -> (operation: Pending<Finish>)
        ensures
            operation.call == (Call::ExecutionSessionSetErrorReporter {
                session: self.raw(),
                report_error,
                ctx,
            }),
            operation.wf(),
            operation.owned() == Multiset::<Resource>::empty(),
    {
        let call = Call::ExecutionSessionSetErrorReporter {
            session: self.raw,
            report_error,
            ctx,
        };
        Pending { call, next: Finish }
    }

    /// The session's symbol string pool.
    pub fn get_symbol_string_pool(&self) -> (operation: Pending<Wrap<SymbolStringPool<'jit>>>)
        ensures
            operation.call == (Call::ExecutionSessionGetSymbolStringPool { session: self.raw() }),
            operation.wf(),
            operation.owned() == Multiset::<Resource>::empty(),
    {
        let call = Call::ExecutionSessionGetSymbolStringPool { session: self.raw };
        Pending { call, next: Wrap { marker: PhantomData } }
    }

    /// Creates a bare library: one without a link order.
    pub fn create_bare_jit_dylib(&self, name: &str) -> (operation: Pending<Wrap<JitDylib<'jit>>>)
        ensures
            ({
                &&& operation.call matches Call::ExecutionSessionCreateBareJITDylib {
                    session,
                    name: c_name,
                }
                &&& session == self.raw()
                &&& c_name@ == crate::text::c_text(name@)
            }),
            operation.wf(),
            operation.owned() == Multiset::<Resource>::empty(),
    {
        let call = Call::ExecutionSessionCreateBareJITDylib {
            session: self.raw,
            name: to_c_str(name),
        };
        Pending { call, next: Wrap { marker: PhantomData } }
    }

    /// Creates a library with the default link order. LLVM refuses a name that is
    /// already taken.
    pub fn create_jit_dylib(&self, name: &str) -> (operation: Pending<Open<JitDylib<'jit>>>)
        ensures
            ({
                &&& operation.call matches Call::ExecutionSessionCreateJITDylib {
                    session,
                    name: c_name,
                }
                &&& session == self.raw()
                &&& c_name@ == crate::text::c_text(name@)
            }),
            operation.next.phase is Status,
            operation.wf(),
            operation.owned() == Multiset::<Resource>::empty(),
    {
        let call = Call::ExecutionSessionCreateJITDylib {
            session: self.raw,
            name: to_c_str(name),
        };
        Pending { call, next: Open { phase: Phase::Status, marker: PhantomData } }
    }

    /// Looks a library up by its name: `None` where there is none of that name.
    pub fn get_jit_dylib_by_name(&self, name: &str) -> (operation: Pending<Find<JitDylib<'jit>>>)
        ensures
            ({
                &&& operation.call matches Call::ExecutionSessionGetJITDylibByName {
                    session,
                    name: c_name,
                }
                &&& session == self.raw()
                &&& c_name@ == crate::text::c_text(name@)
            }),
            operation.wf(),
            operation.owned() == Multiset::<Resource>::empty(),
    {
        let call = Call::ExecutionSessionGetJITDylibByName {
            session: self.raw,
            name: to_c_str(name),
        };
        Pending { call, next: Find { marker: PhantomData } }
    }

    /// Starts a symbol lookup that does not block: LLVM calls `handle_result` when
    /// the lookup has succeeded or failed.
    ///
    /// All references have to be valid, the callback and `ctx` until the call.
    pub fn lookup(
        &self,
        kind: LookupKind,
        search_order: RawRef,
        search_order_size: usize,
        symbols: RawRef,
        symbols_size: usize,
        handle_result: Callback,
        ctx: RawRef,
    ) -> (operation: Pending<Finish>)
        ensures
            operation.call == (Call::ExecutionSessionLookup {
                session: self.raw(),
                kind,
                search_order,
                search_order_size,
                symbols,
                symbols_size,
                handle_result,
                ctx,
            }),
            operation.wf(),
            operation.owned() == Multiset::<Resource>::empty(),
    {
        let call = Call::ExecutionSessionLookup {
            session: self.raw,
            kind,
            search_order,
            search_order_size,
            symbols,
            symbols_size,
            handle_result,
            ctx,
        };
        Pending { call, next: Finish }
    }

    /// The reference. It is not the receiver's to dispose of.
    pub fn as_raw(&self) -> (raw: RawRef)
        ensures
            raw == self.raw(),
            raw != 0,
    {
        proof {
            use_type_invariant(self);
        }
        self.raw
    }
}

/// A reference to an execution session's symbol string pool.
#[derive(Debug, Clone, Copy)]
pub struct SymbolStringPool<'jit> {
    raw: RawRef,
    marker: PhantomData<&'jit LLJit>,
}

impl<'jit> Owns for SymbolStringPool<'jit> {
    open spec fn owned(&self) -> Multiset<Resource> {
        Multiset::empty()
    }
}

impl<'jit> Reference for SymbolStringPool<'jit> {
    closed spec fn raw(&self) -> RawRef {
        self.raw
    }
}

impl<'jit> Handle for SymbolStringPool<'jit> {
    open spec fn kind() -> Option<Kind> {
        None
    }

    open spec fn never_null() -> bool {
        false
    }

    proof fn owns_its_reference(&self) {
    }

    fn wrap(raw: RawRef) -> (handle: Self) {
        SymbolStringPool { raw, marker: PhantomData }
    }

    fn rejects_null() -> (answer: bool) {
        false
    }
}

impl<'jit> PartialEq for SymbolStringPool<'jit> {
    fn eq(&self, other: &Self) -> (same: bool) {
        self.raw == other.raw
    }
}

impl<'jit> vstd::std_specs::cmp::PartialEqSpecImpl for SymbolStringPool<'jit> {
    open spec fn obeys_eq_spec() -> bool {
        true
    }

    open spec fn eq_spec(&self, other: &Self) -> bool {
        self.raw() == other.raw()
    }
}

impl<'jit> Eq for SymbolStringPool<'jit> {

}

impl<'jit> SymbolStringPool<'jit> {
    /// Clears the entries that nobody holds any more.
    pub fn clear_dead_entries(&self) -> (operation: Pending<Finish>)
        ensures
            operation.call == (Call::SymbolStringPoolClearDeadEntries { pool: self.raw() }),
            operation.wf(),
            operation.owned() == Multiset::<Resource>::empty(),
    {
        Pending { call: Call::SymbolStringPoolClearDeadEntries { pool: self.raw }, next: Finish }
    }
}

/// A name in the execution session's string pool.
///
/// Reference-counted: a clone retains it, a drop releases it.
#[derive(Debug)]
pub struct SymbolStringPoolEntry {
    raw: RawRef,
}

impl Owns for SymbolStringPoolEntry {
    open spec fn owned(&self) -> Multiset<Resource> {
        Resource::of(Some(Kind::SymbolStringPoolEntry), self.raw())
    }
}

impl Reference for SymbolStringPoolEntry {
    closed spec fn raw(&self) -> RawRef {
        self.raw
    }
}

impl Handle for SymbolStringPoolEntry {
    open spec fn kind() -> Option<Kind> {
        Some(Kind::SymbolStringPoolEntry)
    }

    open spec fn never_null() -> bool {
        false
    }

    proof fn owns_its_reference(&self) {
    }

    fn wrap(raw: RawRef) -> (handle: Self) {
        SymbolStringPoolEntry { raw }
    }

    fn rejects_null() -> (answer: bool) {
        false
    }
}

impl SymbolStringPoolEntry {
    /// The symbol name. LLVM keeps names as UTF-8.
    pub fn as_str(&self) -> (operation: Pending<ReadText>)
        ensures
            operation.call == (Call::SymbolStringPoolEntryStr { entry: self.raw() }),
            operation.wf(),
            operation.owned() == Multiset::<Resource>::empty(),
    {
        Pending { call: Call::SymbolStringPoolEntryStr { entry: self.raw }, next: ReadText }
    }

    /// One more holder of the same entry.
    pub fn clone(&self) -> (operation: Pending<Retain>)
        ensures
            operation.call == (Call::RetainSymbolStringPoolEntry { entry: self.raw() }),
            operation.next == (Retain { entry: self.raw() }),
            operation.wf(),
            operation.owned() == Multiset::<Resource>::empty(),
    {
        let call = Call::RetainSymbolStringPoolEntry { entry: self.raw };
        Pending { call, next: Retain { entry: self.raw } }
    }

    /// Releases the entry.
    pub fn drop(self) -> (operation: Pending<Finish>)
        ensures
            operation.call == (Call::ReleaseSymbolStringPoolEntry { entry: self.raw() }),
            operation.wf(),
            operation.owned() == self.owned(),
    {
        Pending { call: Call::ReleaseSymbolStringPoolEntry { entry: self.raw }, next: Finish }
    }

    /// The reference.
    pub fn as_raw(&self) -> (raw: RawRef)
        ensures
            raw == self.raw(),
    {
        self.raw
    }
}

/// Waits for an entry to be retained.
#[derive(Debug)]
pub struct Retain {
    pub entry: RawRef,
}

impl Operation for Retain {
    type Output = SymbolStringPoolEntry;

    open spec fn awaits(self, call: Call) -> bool {
        call == (Call::RetainSymbolStringPoolEntry { entry: self.entry })
    }

    open spec fn expects(self, reply: Reply) -> bool {
        reply is Nothing
    }

    open spec fn held(self) -> Multiset<Resource> {
        Multiset::empty()
    }

    open spec fn calls_left(self) -> nat {
        0
    }

    open spec fn resumes_to(self, reply: Reply, step: Step<Self, Self::Output>) -> bool {
        &&& step matches Step::Done(copy)
        &&& copy.raw() == self.entry
    }

    proof fn goes_on_well(self, call: Call, reply: Reply, step: Step<Self, Self::Output>) {
        if let Step::Done(output) = step {
            assert(self.held().add(call.creates(reply)) == output.owned());
        }
    }

    fn check(&self, reply: &Reply) -> (fits: bool) {
        matches!(reply, Reply::Nothing)
    }

    fn resume(self, reply: Reply) -> (step: Step<Self, Self::Output>) {
        Step::Done(SymbolStringPoolEntry::wrap(self.entry))
    }
}

} // verus!
