//! JIT dynamic libraries, what tracks their contents, and what finds symbols
//! for them.

use crate::call::{Call, Callback, Kind, RawRef, Resource};
use crate::continuation::{Finish, Open, Wrap};
use crate::error::{Check, Phase};
use crate::layer::ObjectLayer;
use crate::lljit::LLJit;
use crate::materialization::MaterializationUnit;
use crate::operation::{Handle, Owns, Pending, Reference};
use crate::text::to_c_str;
use std::marker::PhantomData;
use vstd::multiset::Multiset;
use vstd::prelude::*;

verus! {

broadcast use crate::call::group_adding_nothing;

/// A reference to a JIT dynamic library, which scopes symbols.
///
/// The library belongs to the execution session.
#[derive(Debug, Clone, Copy)]
pub struct JitDylib<'jit> {
    raw: RawRef,
    marker: PhantomData<&'jit LLJit>,
}

impl<'jit> Owns for JitDylib<'jit> {
    open spec fn owned(&self) -> Multiset<Resource> {
        Multiset::empty()
    }
}

impl<'jit> Reference for JitDylib<'jit> {
    closed spec fn raw(&self) -> RawRef {
        self.raw
    }
}

impl<'jit> Handle for JitDylib<'jit> {
    open spec fn kind() -> Option<Kind> {
        None
    }

    open spec fn never_null() -> bool {
        true
    }

    proof fn owns_its_reference(&self) {
    }

    fn wrap(raw: RawRef) -> (handle: Self) {
        JitDylib { raw, marker: PhantomData }
    }

    fn rejects_null() -> (answer: bool) {
        true
    }
}

impl<'jit> PartialEq for JitDylib<'jit> {
    fn eq(&self, other: &Self) -> (same: bool) {
        self.raw == other.raw
    }
}

impl<'jit> vstd::std_specs::cmp::PartialEqSpecImpl for JitDylib<'jit> {
    open spec fn obeys_eq_spec() -> bool {
        true
    }

    open spec fn eq_spec(&self, other: &Self) -> bool {
        self.raw() == other.raw()
    }
}

impl<'jit> Eq for JitDylib<'jit> {

}

impl<'jit> JitDylib<'jit> {
    #[verifier::type_invariant]
    spec fn is_not_null(self) -> bool {
        self.raw != 0
    }

    /// Creates a resource tracker for this library.
    pub fn create_resource_tracker(&self) -> (operation: Pending<Wrap<ResourceTracker<'jit>>>)
        ensures
            operation.call == (Call::JITDylibCreateResourceTracker { dylib: self.raw() }),
            operation.wf(),
            operation.owned() == Multiset::<Resource>::empty(),
    {
        let call = Call::JITDylibCreateResourceTracker { dylib: self.raw };
        Pending { call, next: Wrap { marker: PhantomData } }
    }

    /// The library's default resource tracker.
    pub fn get_default_resource_tracker(
        &self,
    ) -> (operation: Pending<Wrap<ResourceTracker<'jit>>>)
        ensures
            operation.call == (Call::JITDylibGetDefaultResourceTracker { dylib: self.raw() }),
            operation.wf(),
            operation.owned() == Multiset::<Resource>::empty(),
    {
        let call = Call::JITDylibGetDefaultResourceTracker { dylib: self.raw };
        Pending { call, next: Wrap { marker: PhantomData } }
    }

    /// Defines the symbols of a unit in this library, and consumes the unit, also
    /// where LLVM refuses it because a symbol is defined already.
    pub fn define(&self, mu: MaterializationUnit) -> (operation: Pending<Check>)
        ensures
            operation.call == (Call::JITDylibDefine { dylib: self.raw(), unit: mu.raw() }),
            operation.next.phase is Status,
            operation.wf(),
            operation.owned() == mu.owned(),
    {
        let call = Call::JITDylibDefine { dylib: self.raw, unit: mu.into_raw() };
        Pending { call, next: Check { phase: Phase::Status } }
    }

    /// Removes all definitions from this library.
    pub fn clear(&self) -> (operation: Pending<Check>)
        ensures
            operation.call == (Call::JITDylibClear { dylib: self.raw() }),
            operation.next.phase is Status,
            operation.wf(),
            operation.owned() == Multiset::<Resource>::empty(),
    {
        let call = Call::JITDylibClear { dylib: self.raw };
        Pending { call, next: Check { phase: Phase::Status } }
    }

    /// Adds a generator, which LLVM asks for symbols that it does not find, and
    /// consumes it.
    pub fn add_generator(&self, generator: DefinitionGenerator) -> (operation: Pending<Finish>)
        ensures
            operation.call == (Call::JITDylibAddGenerator {
                dylib: self.raw(),
                generator: generator.raw(),
            }),
            operation.wf(),
            operation.owned() == generator.owned(),
    {
        let call = Call::JITDylibAddGenerator {
            dylib: self.raw,
            generator: generator.into_raw(),
        };
        Pending { call, next: Finish }
    }

    /// The reference. It is not the receiver's to dispose of.
    pub fn as_raw(&self) -> (raw: RawRef)
        ensures
            raw == self.raw(),
            raw != 0,
    {
        proof {
            use_type_invariant(self);
        }
        self.raw
    }
}

/// Tracks what is added to a library, so that it can be removed again.
#[derive(Debug)]
pub struct ResourceTracker<'jit> {
    raw: RawRef,
    marker: PhantomData<&'jit LLJit>,
}

impl<'jit> Owns for ResourceTracker<'jit> {
    open spec fn owned(&self) -> Multiset<Resource> {
        Resource::of(Some(Kind::ResourceTracker), self.raw())
    }
}

impl<'jit> Reference for ResourceTracker<'jit> {
    closed spec fn raw(&self) -> RawRef {
        self.raw
    }
}

impl<'jit> Handle for ResourceTracker<'jit> {
    open spec fn kind() -> Option<Kind> {
        Some(Kind::ResourceTracker)
    }

    open spec fn never_null() -> bool {
        true
    }

    proof fn owns_its_reference(&self) {
    }

    fn wrap(raw: RawRef) -> (handle: Self) {
        ResourceTracker { raw, marker: PhantomData }
    }

    fn rejects_null() -> (answer: bool) {
        true
    }
}

impl<'jit> PartialEq for ResourceTracker<'jit> {
    fn eq(&self, other: &Self) -> (same: bool) {
        self.raw == other.raw
    }
}

impl<'jit> vstd::std_specs::cmp::PartialEqSpecImpl for ResourceTracker<'jit> {
    open spec fn obeys_eq_spec() -> bool {
        true
    }

    open spec fn eq_spec(&self, other: &Self) -> bool {
        self.raw() == other.raw()
    }
}

impl<'jit> Eq for ResourceTracker<'jit> {

}

impl<'jit> ResourceTracker<'jit> {
    #[verifier::type_invariant]
    spec fn is_not_null(self) -> bool {
        self.raw != 0
    }

    /// Removes everything that is tracked.
    pub fn remove(&self) -> (operation: Pending<Check>)
        ensures
            operation.call == (Call::ResourceTrackerRemove { tracker: self.raw() }),
            operation.next.phase is Status,
            operation.wf(),
            operation.owned() == Multiset::<Resource>::empty(),
    {
        let call = Call::ResourceTrackerRemove { tracker: self.raw };
        Pending { call, next: Check { phase: Phase::Status } }
    }

    /// Hands everything that is tracked over to another tracker.
    pub fn transfer_to(&self, dest: &ResourceTracker<'jit>) -> (operation: Pending<Finish>)
        ensures
            operation.call == (Call::ResourceTrackerTransferTo {
                source: self.raw(),
                target: dest.raw(),
            }),
            operation.wf(),
            operation.owned() == Multiset::<Resource>::empty(),
    {
        let call = Call::ResourceTrackerTransferTo { source: self.raw, target: dest.raw };
        Pending { call, next: Finish }
    }

    /// Releases the tracker.
    pub fn drop(self) -> (operation: Pending<Finish>)
        ensures
            operation.call == (Call::ReleaseResourceTracker { tracker: self.raw() }),
            operation.wf(),
            operation.owned() == self.owned(),
    {
        Pending { call: Call::ReleaseResourceTracker { tracker: self.raw }, next: Finish }
    }

    /// The reference. It is not the receiver's to dispose of.
    pub fn as_raw(&self) -> (raw: RawRef)
        ensures
            raw == self.raw(),
            raw != 0,
    {
        proof {
            use_type_invariant(self);
        }
        self.raw
    }
}

/// The byte that stands for a symbol prefix: the low byte of its code point.
pub open spec fn prefix_byte_of(prefix: char) -> u8 {
    (prefix as u32 % 256) as u8
}

/// The byte that stands for a symbol prefix.
pub fn prefix_byte(prefix: char) -> (byte: u8)
    ensures
        byte == prefix_byte_of(prefix),
{
    (prefix as u32 % 256) as u8
}

/// Finds symbols that a library does not define itself.
///
/// [`JitDylib::add_generator`] consumes it.
#[derive(Debug)]
pub struct DefinitionGenerator {
    raw: RawRef,
}

impl Owns for DefinitionGenerator {
    open spec fn owned(&self) -> Multiset<Resource> {
        Resource::of(Some(Kind::DefinitionGenerator), self.raw())
    }
}

impl Reference for DefinitionGenerator {
    closed spec fn raw(&self) -> RawRef {
        self.raw
    }
}

impl Handle for DefinitionGenerator {
    open spec fn kind() -> Option<Kind> {
        Some(Kind::DefinitionGenerator)
    }

    open spec fn never_null() -> bool {
        false
    }

    proof fn owns_its_reference(&self) {
    }

    fn wrap(raw: RawRef) -> (handle: Self) {
        DefinitionGenerator { raw }
    }

    fn rejects_null() -> (answer: bool) {
        false
    }
}

impl DefinitionGenerator {
    /// A generator that searches the host process, so that JIT-compiled code can
    /// call what the process has.
    ///
    /// `global_prefix` stands before every symbol name on the target; LLVM takes
    /// the low byte of it.
    pub fn for_process(global_prefix: char) -> (operation: Pending<Open<DefinitionGenerator>>)
        ensures
            operation.call == (Call::CreateDynamicLibrarySearchGeneratorForProcess {
                global_prefix: prefix_byte_of(global_prefix),
                filter: None::<Callback>,
                filter_ctx: 0,
            }),
            operation.next.phase is Status,
            operation.wf(),
            operation.owned() == Multiset::<Resource>::empty(),
    {
        let call = Call::CreateDynamicLibrarySearchGeneratorForProcess {
            global_prefix: prefix_byte(global_prefix),
            filter: None,
            filter_ctx: 0,
        };
        Pending { call, next: Open { phase: Phase::Status, marker: PhantomData } }
    }

    /// A generator that searches the dynamic library at `path`. LLVM refuses a
    /// library that it cannot load.
    pub fn for_dynamic_library(
        path: &str,
        global_prefix: char,
    ) -> (operation: Pending<Open<DefinitionGenerator>>)
        ensures
            ({
                &&& operation.call matches Call::CreateDynamicLibrarySearchGeneratorForPath {
                    file_name: c_path,
                    global_prefix: given_global_prefix,
                    filter,
                    filter_ctx,
                }
                &&& c_path@ == crate::text::c_text(path@)
                &&& given_global_prefix == prefix_byte_of(global_prefix)
                &&& filter == None::<Callback>
                &&& filter_ctx == 0
            }),
            operation.next.phase is Status,
            operation.wf(),
            operation.owned() == Multiset::<Resource>::empty(),
    {
        let call = Call::CreateDynamicLibrarySearchGeneratorForPath {
            file_name: to_c_str(path),
            global_prefix: prefix_byte(global_prefix),
            filter: None,
            filter_ctx: 0,
        };
        Pending { call, next: Open { phase: Phase::Status, marker: PhantomData } }
    }

    /// A generator that searches the static library at `path`. LLVM refuses a
    /// library that it cannot load.
    pub fn for_static_library(
        obj_layer: &ObjectLayer<'_>,
        path: &str,
        target_triple: &str,
    ) -> (operation: Pending<Open<DefinitionGenerator>>)
        ensures
            ({
                &&& operation.call matches Call::CreateStaticLibrarySearchGeneratorForPath {
                    object_layer,
                    file_name: c_path,
                    target_triple: c_triple,
                }
                &&& object_layer == obj_layer.raw()
                &&& c_path@ == crate::text::c_text(path@)
                &&& c_triple@ == crate::text::c_text(target_triple@)
            }),
            operation.next.phase is Status,
            operation.wf(),
            operation.owned() == Multiset::<Resource>::empty(),
    {
        let call = Call::CreateStaticLibrarySearchGeneratorForPath {
            object_layer: obj_layer.as_raw(),
            file_name: to_c_str(path),
            target_triple: to_c_str(target_triple),
        };
        Pending { call, next: Open { phase: Phase::Status, marker: PhantomData } }
    }

    /// A generator that asks a callback for symbols.
    ///
    /// The callbacks have to be valid for `ctx`.
    pub fn custom(
        try_to_generate: Callback,
        ctx: RawRef,
        dispose: Callback,
    ) -> (operation: Pending<Wrap<DefinitionGenerator>>)
        ensures
            operation.call == (Call::CreateCustomCAPIDefinitionGenerator {
                try_to_generate,
                ctx,
                dispose,
            }),
            operation.wf(),
            operation.owned() == Multiset::<Resource>::empty(),
    {
        let call = Call::CreateCustomCAPIDefinitionGenerator {
            try_to_generate,
            ctx,
            dispose,
        };
        Pending { call, next: Wrap { marker: PhantomData } }
    }

    /// Disposes of the generator.
    pub fn drop(self) -> (operation: Pending<Finish>)
        ensures
            operation.call == (Call::DisposeDefinitionGenerator { generator: self.raw() }),
            operation.wf(),
            operation.owned() == self.owned(),
    {
        Pending { call: Call::DisposeDefinitionGenerator { generator: self.raw }, next: Finish }
    }

    /// Gives the reference to LLVM.
    pub(crate) fn into_raw(self) -> (raw: RawRef)
        ensures
            raw == self.raw(),
    {
        self.raw
    }
}

} // verus!
