//! Units of symbol definitions, and the duty to materialize them.

use crate::call::{Call, Callback, DependenceGroups, Kind, RawRef, Reply, Resource};
use crate::continuation::{Finish, Open, ReadReference, Wrap};
use crate::dylib::JitDylib;
use crate::error::{Check, Phase};
use crate::lazy::{IndirectStubsManager, LazyCallThroughManager};
use crate::operation::{Handle, Operation, Owns, Pending, Reference, Step};
use crate::text::to_c_str;
use std::marker::PhantomData;
use vstd::multiset::Multiset;
use vstd::pervasive::unreached;
use vstd::prelude::*;

verus! {

broadcast use crate::call::group_adding_nothing;

/// Symbol definitions that are materialized together.
///
/// Made by [`absolute_symbols`], [`lazy_reexports`] and
/// [`custom_materialization_unit`].
#[derive(Debug)]
pub struct MaterializationUnit {
    raw: RawRef,
}

impl Owns for MaterializationUnit {
    open spec fn owned(&self) -> Multiset<Resource> {
        Resource::of(Some(Kind::MaterializationUnit), self.raw())
    }
}

impl Reference for MaterializationUnit {
    closed spec fn raw(&self) -> RawRef {
        self.raw
    }
}

impl Handle for MaterializationUnit {
    open spec fn kind() -> Option<Kind> {
        Some(Kind::MaterializationUnit)
    }

    open spec fn never_null() -> bool {
        false
    }

    proof fn owns_its_reference(&self) {
    }

    fn wrap(raw: RawRef) -> (handle: Self) {
        MaterializationUnit { raw }
    }

    fn rejects_null() -> (answer: bool) {
        false
    }
}

impl MaterializationUnit {
    /// Disposes of the unit.
    pub fn drop(self) -> (operation: Pending<Finish>)
        ensures
            operation.call == (Call::DisposeMaterializationUnit { unit: self.raw() }),
            operation.wf(),
            operation.owned() == self.owned(),
    {
        Pending { call: Call::DisposeMaterializationUnit { unit: self.raw }, next: Finish }
    }

    /// Gives the reference to LLVM.
    pub(crate) fn into_raw(self) -> (raw: RawRef)
        ensures
            raw == self.raw(),
    {
        self.raw
    }

    /// The reference. It is not the receiver's to dispose of.
    pub fn as_raw(&self) -> (raw: RawRef)
        ensures
            raw == self.raw(),
    {
        self.raw
    }
}

/// A unit for symbols whose addresses are known.
///
/// `syms` has to be an array of `num_pairs` pairs.
pub fn absolute_symbols(
    syms: RawRef,
    num_pairs: usize,
) -> (operation: Pending<Wrap<MaterializationUnit>>)
    ensures
        operation.call == (Call::AbsoluteSymbols { syms, num_pairs }),
        operation.wf(),
        operation.owned() == Multiset::<Resource>::empty(),
{
    let call = Call::AbsoluteSymbols { syms, num_pairs };
    Pending { call, next: Wrap { marker: PhantomData } }
}

/// A unit for stubs that compile what they stand for when they are first called.
///
/// `callable_aliases` has to be an array of `num_pairs` pairs.
pub fn lazy_reexports(
    lctm: &LazyCallThroughManager,
    ism: &IndirectStubsManager,
    source_jd: &JitDylib<'_>,
    callable_aliases: RawRef,
    num_pairs: usize,
) -> (operation: Pending<Wrap<MaterializationUnit>>)
    ensures
        operation.call == (Call::LazyReexports {
            call_through_manager: lctm.raw(),
            stubs_manager: ism.raw(),
            source: source_jd.raw(),
            callable_aliases,
            num_pairs,
        }),
        operation.wf(),
        operation.owned() == Multiset::<Resource>::empty(),
{
    let call = Call::LazyReexports {
        call_through_manager: lctm.as_raw(),
        stubs_manager: ism.as_raw(),
        source: source_jd.as_raw(),
        callable_aliases,
        num_pairs,
    };
    Pending { call, next: Wrap { marker: PhantomData } }
}

/// A unit that callbacks materialize.
///
/// The callbacks have to be valid for `ctx`, and `syms` an array of `num_syms`
/// pairs.
pub fn custom_materialization_unit(
    name: &str,
    ctx: RawRef,
    syms: RawRef,
    num_syms: usize,
    init_sym: RawRef,
    materialize: Callback,
    discard: Callback,
    destroy: Callback,
) -> (operation: Pending<Wrap<MaterializationUnit>>)
    ensures
        ({
            &&& operation.call matches Call::CreateCustomMaterializationUnit {
                name: c_name,
                ctx: given_ctx,
                syms: given_syms,
                num_syms: given_num_syms,
                init_sym: given_init_sym,
                materialize: given_materialize,
                discard: given_discard,
                destroy: given_destroy,
            }
            &&& c_name@ == crate::text::c_text(name@)
            &&& given_ctx == ctx
            &&& given_syms == syms
            &&& given_num_syms == num_syms
            &&& given_init_sym == init_sym
            &&& given_materialize == materialize
            &&& given_discard == discard
            &&& given_destroy == destroy
        }),
        operation.wf(),
        operation.owned() == Multiset::<Resource>::empty(),
{
    let call = Call::CreateCustomMaterializationUnit {
        name: to_c_str(name),
        ctx,
        syms,
        num_syms,
        init_sym,
        materialize,
        discard,
        destroy,
    };
    Pending { call, next: Wrap { marker: PhantomData } }
}

/// The duty to materialize a set of symbols.
///
/// A materialization callback receives it, and tells LLVM through it how far it
/// has come.
#[derive(Debug)]
pub struct MaterializationResponsibility {
    raw: RawRef,
}

impl Owns for MaterializationResponsibility {
    open spec fn owned(&self) -> Multiset<Resource> {
        Resource::of(Some(Kind::MaterializationResponsibility), self.raw())
    }
}

impl Reference for MaterializationResponsibility {
    closed spec fn raw(&self) -> RawRef {
        self.raw
    }
}

impl Handle for MaterializationResponsibility {
    open spec fn kind() -> Option<Kind> {
        Some(Kind::MaterializationResponsibility)
    }

    open spec fn never_null() -> bool {
        false
    }

    proof fn owns_its_reference(&self) {
    }

    fn wrap(raw: RawRef) -> (handle: Self) {
        MaterializationResponsibility { raw }
    }

    fn rejects_null() -> (answer: bool) {
        false
    }
}

impl MaterializationResponsibility {
    /// Takes over the responsibility that a materialization callback received.
    pub fn from_raw(raw: RawRef) -> (responsibility: Self)
        ensures
            responsibility.raw() == raw,
    {
        MaterializationResponsibility { raw }
    }

    /// The library that the symbols belong to. The reference is borrowed.
    pub fn get_target_dylib(&self) -> (operation: Pending<ReadReference>)
        ensures
            operation.call == (Call::MaterializationResponsibilityGetTargetDylib {
                responsibility: self.raw(),
            }),
            operation.wf(),
            operation.owned() == Multiset::<Resource>::empty(),
    {
        let call = Call::MaterializationResponsibilityGetTargetDylib {
            responsibility: self.raw,
        };
        Pending { call, next: ReadReference }
    }

    /// The execution session. The reference is borrowed.
    pub fn get_execution_session(&self) -> (operation: Pending<ReadReference>)
        ensures
            operation.call == (Call::MaterializationResponsibilityGetExecutionSession {
                responsibility: self.raw(),
            }),
            operation.wf(),
            operation.owned() == Multiset::<Resource>::empty(),
    {
        let call = Call::MaterializationResponsibilityGetExecutionSession {
            responsibility: self.raw,
        };
        Pending { call, next: ReadReference }
    }

    /// The symbols that this responsibility covers, with their flags. They have to
    /// be freed with [`dispose_symbol_flags_map`].
    pub fn get_symbols(&self) -> (operation: Pending<ReadArray>)
        ensures
            operation.call == (Call::MaterializationResponsibilityGetSymbols {
                responsibility: self.raw(),
            }),
            operation.next.kind is SymbolFlagsMap,
            operation.wf(),
            operation.owned() == Multiset::<Resource>::empty(),
    {
        let call = Call::MaterializationResponsibilityGetSymbols {
            responsibility: self.raw,
        };
        Pending { call, next: ReadArray { kind: Kind::SymbolFlagsMap } }
    }

    /// The initializer symbol, null where there is none. The reference is borrowed.
    pub fn get_initializer_symbol(&self) -> (operation: Pending<ReadReference>)
        ensures
            operation.call == (Call::MaterializationResponsibilityGetInitializerSymbol {
                responsibility: self.raw(),
            }),
            operation.wf(),
            operation.owned() == Multiset::<Resource>::empty(),
    {
        let call = Call::MaterializationResponsibilityGetInitializerSymbol {
            responsibility: self.raw,
        };
        Pending { call, next: ReadReference }
    }

    /// The symbols that were asked for. They have to be freed with
    /// [`dispose_symbols`].
    pub fn get_requested_symbols(&self) -> (operation: Pending<ReadArray>)
        ensures
            operation.call == (Call::MaterializationResponsibilityGetRequestedSymbols {
                responsibility: self.raw(),
            }),
            operation.next.kind is Symbols,
            operation.wf(),
            operation.owned() == Multiset::<Resource>::empty(),
    {
        let call = Call::MaterializationResponsibilityGetRequestedSymbols {
            responsibility: self.raw,
        };
        Pending { call, next: ReadArray { kind: Kind::Symbols } }
    }

    /// Tells LLVM the addresses of symbols.
    pub fn notify_resolved(
        &self,
        symbols: RawRef,
        num_pairs: usize,
    ) -> (operation: Pending<Check>)
        ensures
            operation.call == (Call::MaterializationResponsibilityNotifyResolved {
                responsibility: self.raw(),
                symbols,
                num_pairs,
            }),
            operation.next.phase is Status,
            operation.wf(),
            operation.owned() == Multiset::<Resource>::empty(),
    {
        let call = Call::MaterializationResponsibilityNotifyResolved {
            responsibility: self.raw,
            symbols,
            num_pairs,
        };
        Pending { call, next: Check { phase: Phase::Status } }
    }

    /// Tells LLVM that the symbols are safe to use.
    ///
    /// LLVM 18 takes no dependence groups; from release 19 on it takes an array
    /// of them.
    pub fn notify_emitted(&self, groups: Option<DependenceGroups>) -> (operation: Pending<Check>)
        ensures
            operation.call == (Call::MaterializationResponsibilityNotifyEmitted {
                responsibility: self.raw(),
                groups,
            }),
            operation.next.phase is Status,
            operation.wf(),
            operation.owned() == Multiset::<Resource>::empty(),
    {
        let call = Call::MaterializationResponsibilityNotifyEmitted {
            responsibility: self.raw,
            groups,
        };
        Pending { call, next: Check { phase: Phase::Status } }
    }

    /// Claims more symbols that came up while materializing.
    pub fn define_materializing(
        &self,
        pairs: RawRef,
        num_pairs: usize,
    ) -> (operation: Pending<Check>)
        ensures
            operation.call == (Call::MaterializationResponsibilityDefineMaterializing {
                responsibility: self.raw(),
                pairs,
                num_pairs,
            }),
            operation.next.phase is Status,
            operation.wf(),
            operation.owned() == Multiset::<Resource>::empty(),
    {
        let call = Call::MaterializationResponsibilityDefineMaterializing {
            responsibility: self.raw,
            pairs,
            num_pairs,
        };
        Pending { call, next: Check { phase: Phase::Status } }
    }

    /// Reports that materializing has failed, and consumes the responsibility: its
    /// symbols are in error, and whoever waits for them is told so.
    pub fn fail_materialization(self) -> (operation: Pending<Finish>)
        ensures
            operation.call == (Call::MaterializationResponsibilityFailMaterialization {
                responsibility: self.raw(),
            }),
            operation.wf(),
            operation.owned() == self.owned(),
    {
        let call = Call::MaterializationResponsibilityFailMaterialization {
            responsibility: self.raw,
        };
        Pending { call, next: Finish }
    }

    /// Hands the symbols back as another unit, and consumes that unit.
    pub fn replace(&self, mu: MaterializationUnit) -> (operation: Pending<Check>)
        ensures
            operation.call == (Call::MaterializationResponsibilityReplace {
                responsibility: self.raw(),
                unit: mu.raw(),
            }),
            operation.next.phase is Status,
            operation.wf(),
            operation.owned() == mu.owned(),
    {
        let call = Call::MaterializationResponsibilityReplace {
            responsibility: self.raw,
            unit: mu.into_raw(),
        };
        Pending { call, next: Check { phase: Phase::Status } }
    }

    /// Hands some of the symbols to a new responsibility.
    pub fn delegate(
        &self,
        symbols: RawRef,
        num_symbols: usize,
    ) -> (operation: Pending<Open<MaterializationResponsibility>>)
        ensures
            operation.call == (Call::MaterializationResponsibilityDelegate {
                responsibility: self.raw(),
                symbols,
                num_symbols,
            }),
            operation.next.phase is Status,
            operation.wf(),
            operation.owned() == Multiset::<Resource>::empty(),
    {
        let call = Call::MaterializationResponsibilityDelegate {
            responsibility: self.raw,
            symbols,
            num_symbols,
        };
        Pending { call, next: Open { phase: Phase::Status, marker: PhantomData } }
    }

    /// Gives the reference to LLVM.
    pub(crate) fn into_raw(self) -> (raw: RawRef)
        ensures
            raw == self.raw(),
    {
        self.raw
    }

    /// Disposes of the responsibility. LLVM fails whoever waits for its symbols,
    /// unless they were emitted.
    pub fn drop(self) -> (operation: Pending<Finish>)
        ensures
            operation.call == (Call::DisposeMaterializationResponsibility {
                responsibility: self.raw(),
            }),
            operation.wf(),
            operation.owned() == self.owned(),
    {
        let call = Call::DisposeMaterializationResponsibility { responsibility: self.raw };
        Pending { call, next: Finish }
    }

    /// The reference. It is not the receiver's to dispose of.
    pub fn as_raw(&self) -> (raw: RawRef)
        ensures
            raw == self.raw(),
    {
        self.raw
    }
}

/// An array of symbols that LLVM allocated.
#[derive(Debug, PartialEq, Eq)]
pub struct SymbolArray {
    pub kind: Kind,
    pub start: RawRef,
    pub len: usize,
}

impl Owns for SymbolArray {
    open spec fn owned(&self) -> Multiset<Resource> {
        Resource::of(Some(self.kind), self.start)
    }
}

/// Waits for an array.
#[derive(Debug)]
pub struct ReadArray {
    pub kind: Kind,
}

impl Operation for ReadArray {
    type Output = SymbolArray;

    open spec fn awaits(self, call: Call) -> bool {
        call.answer() == crate::call::Answer::Array(self.kind)
    }

    open spec fn expects(self, reply: Reply) -> bool {
        reply is Array
    }

    open spec fn held(self) -> Multiset<Resource> {
        Multiset::empty()
    }

    open spec fn calls_left(self) -> nat {
        0
    }

    open spec fn resumes_to(self, reply: Reply, step: Step<Self, Self::Output>) -> bool {
        &&& reply matches Reply::Array { start, len }
        &&& step == Step::<Self, SymbolArray>::Done(SymbolArray { kind: self.kind, start, len })
    }

    proof fn goes_on_well(self, call: Call, reply: Reply, step: Step<Self, Self::Output>) {
        if let Step::Done(output) = step {
            assert(self.held().add(call.creates(reply)) == output.owned());
        }
    }

    fn check(&self, reply: &Reply) -> (fits: bool) {
        matches!(reply, Reply::Array { .. })
    }

    fn resume(self, reply: Reply) -> (step: Step<Self, Self::Output>) {
        match reply {
            Reply::Array { start, len } => Step::Done(SymbolArray { kind: self.kind, start, len }),
            _ => unreached(),
        }
    }
}

/// Frees what [`MaterializationResponsibility::get_symbols`] gave.
pub fn dispose_symbol_flags_map(pairs: RawRef) -> (operation: Pending<Finish>)
    ensures
        operation.call == (Call::DisposeCSymbolFlagsMap { pairs }),
        operation.wf(),
        operation.owned() == Resource::of(Some(Kind::SymbolFlagsMap), pairs),
{
    Pending { call: Call::DisposeCSymbolFlagsMap { pairs }, next: Finish }
}

/// Frees what [`MaterializationResponsibility::get_requested_symbols`] gave.
pub fn dispose_symbols(symbols: RawRef) -> (operation: Pending<Finish>)
    ensures
        operation.call == (Call::DisposeSymbols { symbols }),
        operation.wf(),
        operation.owned() == Resource::of(Some(Kind::Symbols), symbols),
{
    Pending { call: Call::DisposeSymbols { symbols }, next: Finish }
}

} // verus!
