//! The layers that modules and objects pass through on their way into a library.

use crate::call::{Call, Callback, Kind, RawRef, Resource};
use crate::context::ThreadSafeModule;
use crate::continuation::{Finish, Wrap};
use crate::dylib::{JitDylib, ResourceTracker};
use crate::error::{Check, Phase};
use crate::lljit::LLJit;
use crate::materialization::MaterializationResponsibility;
use crate::operation::{Handle, Owns, Pending, Reference};
use crate::session::ExecutionSession;
use std::marker::PhantomData;
use vstd::multiset::Multiset;
use vstd::prelude::*;

verus! {

broadcast use crate::call::group_adding_nothing;

/// A buffer that holds an object file.
#[derive(Debug)]
pub struct MemoryBuffer {
    raw: RawRef,
}

impl Owns for MemoryBuffer {
    open spec fn owned(&self) -> Multiset<Resource> {
        Resource::of(Some(Kind::MemoryBuffer), self.raw())
    }
}

impl Reference for MemoryBuffer {
    closed spec fn raw(&self) -> RawRef {
        self.raw
    }
}

impl Handle for MemoryBuffer {
    open spec fn kind() -> Option<Kind> {
        Some(Kind::MemoryBuffer)
    }

    open spec fn never_null() -> bool {
        false
    }

    proof fn owns_its_reference(&self) {
    }

    fn wrap(raw: RawRef) -> (handle: Self) {
        MemoryBuffer { raw }
    }

    fn rejects_null() -> (answer: bool) {
        false
    }
}

impl MemoryBuffer {
    /// Gives the reference to LLVM.
    pub(crate) fn into_raw(self) -> (raw: RawRef)
        ensures
            raw == self.raw(),
    {
        self.raw
    }

    /// The reference. It is not the receiver's to dispose of.
    pub fn as_raw(&self) -> (raw: RawRef)
        ensures
            raw == self.raw(),
    {
        self.raw
    }
}

/// A reference to an object linking layer.
#[derive(Debug, Clone, Copy)]
pub struct ObjectLayer<'jit> {
    raw: RawRef,
    marker: PhantomData<&'jit LLJit>,
}

impl<'jit> Owns for ObjectLayer<'jit> {
    open spec fn owned(&self) -> Multiset<Resource> {
        Multiset::empty()
    }
}

impl<'jit> Reference for ObjectLayer<'jit> {
    closed spec fn raw(&self) -> RawRef {
        self.raw
    }
}

impl<'jit> Handle for ObjectLayer<'jit> {
    open spec fn kind() -> Option<Kind> {
        None
    }

    open spec fn never_null() -> bool {
        true
    }

    proof fn owns_its_reference(&self) {
    }

    fn wrap(raw: RawRef) -> (handle: Self) {
        ObjectLayer { raw, marker: PhantomData }
    }

    fn rejects_null() -> (answer: bool) {
        true
    }
}

impl<'jit> PartialEq for ObjectLayer<'jit> {
    fn eq(&self, other: &Self) -> (same: bool) {
        self.raw == other.raw
    }
}

impl<'jit> vstd::std_specs::cmp::PartialEqSpecImpl for ObjectLayer<'jit> {
    open spec fn obeys_eq_spec() -> bool {
        true
    }

    open spec fn eq_spec(&self, other: &Self) -> bool {
        self.raw() == other.raw()
    }
}

impl<'jit> Eq for ObjectLayer<'jit> {

}

impl<'jit> ObjectLayer<'jit> {
    #[verifier::type_invariant]
    spec fn is_not_null(self) -> bool {
        self.raw != 0
    }

    /// Adds an object file to a library, and consumes the buffer.
    pub fn add_object_file(
        &self,
        jd: &JitDylib<'jit>,
        obj_buffer: MemoryBuffer,
    ) -> (operation: Pending<Check>)
        ensures
            operation.call == (Call::ObjectLayerAddObjectFile {
                layer: self.raw(),
                dylib: jd.raw(),
                buffer: obj_buffer.raw(),
            }),
            operation.next.phase is Status,
            operation.wf(),
            operation.owned() == obj_buffer.owned(),
    {
        let call = Call::ObjectLayerAddObjectFile {
            layer: self.raw,
            dylib: jd.as_raw(),
            buffer: obj_buffer.into_raw(),
        };
        Pending { call, next: Check { phase: Phase::Status } }
    }

    /// Adds an object file under a resource tracker, and consumes the buffer.
    pub fn add_object_file_with_rt(
        &self,
        rt: &ResourceTracker<'jit>,
        obj_buffer: MemoryBuffer,
    ) -> (operation: Pending<Check>)
        ensures
            operation.call == (Call::ObjectLayerAddObjectFileWithRT {
                layer: self.raw(),
                tracker: rt.raw(),
                buffer: obj_buffer.raw(),
            }),
            operation.next.phase is Status,
            operation.wf(),
            operation.owned() == obj_buffer.owned(),
    {
        let call = Call::ObjectLayerAddObjectFileWithRT {
            layer: self.raw,
            tracker: rt.as_raw(),
            buffer: obj_buffer.into_raw(),
        };
        Pending { call, next: Check { phase: Phase::Status } }
    }

    /// Emits an object for a responsibility, and consumes both.
    pub fn emit(
        &self,
        mr: MaterializationResponsibility,
        obj_buffer: MemoryBuffer,
    ) -> (operation: Pending<Finish>)
        ensures
            operation.call == (Call::ObjectLayerEmit {
                layer: self.raw(),
                responsibility: mr.raw(),
                buffer: obj_buffer.raw(),
            }),
            operation.wf(),
            operation.owned() == mr.owned().add(obj_buffer.owned()),
    {
        let call = Call::ObjectLayerEmit {
            layer: self.raw,
            responsibility: mr.into_raw(),
            buffer: obj_buffer.into_raw(),
        };
        Pending { call, next: Finish }
    }

    /// The reference. It is not the receiver's to dispose of.
    pub fn as_raw(&self) -> (raw: RawRef)
        ensures
            raw == self.raw(),
            raw != 0,
    {
        proof {
            use_type_invariant(self);
        }
        self.raw
    }
}

/// A reference to a layer that transforms modules before they are compiled.
#[derive(Debug, Clone, Copy)]
pub struct IRTransformLayer<'jit> {
    raw: RawRef,
    marker: PhantomData<&'jit LLJit>,
}

impl<'jit> Owns for IRTransformLayer<'jit> {
    open spec fn owned(&self) -> Multiset<Resource> {
        Multiset::empty()
    }
}

impl<'jit> Reference for IRTransformLayer<'jit> {
    closed spec fn raw(&self) -> RawRef {
        self.raw
    }
}

impl<'jit> Handle for IRTransformLayer<'jit> {
    open spec fn kind() -> Option<Kind> {
        None
    }

    open spec fn never_null() -> bool {
        true
    }

    proof fn owns_its_reference(&self) {
    }

    fn wrap(raw: RawRef) -> (handle: Self) {
        IRTransformLayer { raw, marker: PhantomData }
    }

    fn rejects_null() -> (answer: bool) {
        true
    }
}

impl<'jit> PartialEq for IRTransformLayer<'jit> {
    fn eq(&self, other: &Self) -> (same: bool) {
        self.raw == other.raw
    }
}

impl<'jit> vstd::std_specs::cmp::PartialEqSpecImpl for IRTransformLayer<'jit> {
    open spec fn obeys_eq_spec() -> bool {
        true
    }

    open spec fn eq_spec(&self, other: &Self) -> bool {
        self.raw() == other.raw()
    }
}

impl<'jit> Eq for IRTransformLayer<'jit> {

}

impl<'jit> IRTransformLayer<'jit> {
    #[verifier::type_invariant]
    spec fn is_not_null(self) -> bool {
        self.raw != 0
    }

    /// Sets the callback that transforms each module before it is compiled.
    ///
    /// The callback and `ctx` have to stay valid as long as the [`LLJit`].
    pub fn set_transform(&self, transform: Callback, ctx: RawRef) -> (operation: Pending<Finish>)
        ensures
            operation.call == (Call::IRTransformLayerSetTransform {
                layer: self.raw(),
                transform,
                ctx,
            }),
            operation.wf(),
            operation.owned() == Multiset::<Resource>::empty(),
    {
        let call = Call::IRTransformLayerSetTransform { layer: self.raw, transform, ctx };
        Pending { call, next: Finish }
    }

    /// Emits a module for a responsibility, and consumes both.
    pub fn emit(
        &self,
        mr: MaterializationResponsibility,
        tsm: ThreadSafeModule,
    ) -> (operation: Pending<Finish>)
        ensures
            operation.call == (Call::IRTransformLayerEmit {
                layer: self.raw(),
                responsibility: mr.raw(),
                module: tsm.raw(),
            }),
            operation.wf(),
            operation.owned() == mr.owned().add(tsm.owned()),
    {
        let call = Call::IRTransformLayerEmit {
            layer: self.raw,
            responsibility: mr.into_raw(),
            module: tsm.into_raw(),
        };
        Pending { call, next: Finish }
    }

    /// The reference. It is not the receiver's to dispose of.
    pub fn as_raw(&self) -> (raw: RawRef)
        ensures
            raw == self.raw(),
            raw != 0,
    {
        proof {
            use_type_invariant(self);
        }
        self.raw
    }
}

/// A reference to a layer that transforms objects after they are compiled.
#[derive(Debug, Clone, Copy)]
pub struct ObjectTransformLayer<'jit> {
    raw: RawRef,
    marker: PhantomData<&'jit LLJit>,
}

impl<'jit> Owns for ObjectTransformLayer<'jit> {
    open spec fn owned(&self) -> Multiset<Resource> {
        Multiset::empty()
    }
}

impl<'jit> Reference for ObjectTransformLayer<'jit> {
    closed spec fn raw(&self) -> RawRef {
        self.raw
    }
}

impl<'jit> Handle for ObjectTransformLayer<'jit> {
    open spec fn kind() -> Option<Kind> {
        None
    }

    open spec fn never_null() -> bool {
        true
    }

    proof fn owns_its_reference(&self) {
    }

    fn wrap(raw: RawRef) -> (handle: Self) {
        ObjectTransformLayer { raw, marker: PhantomData }
    }

    fn rejects_null() -> (answer: bool) {
        true
    }
}

impl<'jit> PartialEq for ObjectTransformLayer<'jit> {
    fn eq(&self, other: &Self) -> (same: bool) {
        self.raw == other.raw
    }
}

impl<'jit> vstd::std_specs::cmp::PartialEqSpecImpl for ObjectTransformLayer<'jit> {
    open spec fn obeys_eq_spec() -> bool {
        true
    }

    open spec fn eq_spec(&self, other: &Self) -> bool {
        self.raw() == other.raw()
    }
}

impl<'jit> Eq for ObjectTransformLayer<'jit> {

}

impl<'jit> ObjectTransformLayer<'jit> {
    #[verifier::type_invariant]
    spec fn is_not_null(self) -> bool {
        self.raw != 0
    }

    /// Sets the callback that transforms each object before it is linked.
    ///
    /// The callback and `ctx` have to stay valid as long as the [`LLJit`].
    pub fn set_transform(&self, transform: Callback, ctx: RawRef) -> (operation: Pending<Finish>)
        ensures
            operation.call == (Call::ObjectTransformLayerSetTransform {
                layer: self.raw(),
                transform,
                ctx,
            }),
            operation.wf(),
            operation.owned() == Multiset::<Resource>::empty(),
    {
        let call = Call::ObjectTransformLayerSetTransform {
            layer: self.raw,
            transform,
            ctx,
        };
        Pending { call, next: Finish }
    }

    /// The reference. It is not the receiver's to dispose of.
    pub fn as_raw(&self) -> (raw: RawRef)
        ensures
            raw == self.raw(),
            raw != 0,
    {
        proof {
            use_type_invariant(self);
        }
        self.raw
    }
}

/// An object linking layer that no [`LLJit`] has taken over yet.
#[derive(Debug)]
pub struct RawObjectLayer {
    raw: RawRef,
}

impl Owns for RawObjectLayer {
    open spec fn owned(&self) -> Multiset<Resource> {
        Resource::of(Some(Kind::ObjectLayer), self.raw())
    }
}

impl Reference for RawObjectLayer {
    closed spec fn raw(&self) -> RawRef {
        self.raw
    }
}

impl Handle for RawObjectLayer {
    open spec fn kind() -> Option<Kind> {
        Some(Kind::ObjectLayer)
    }

    open spec fn never_null() -> bool {
        false
    }

    proof fn owns_its_reference(&self) {
    }

    fn wrap(raw: RawRef) -> (handle: Self) {
        RawObjectLayer { raw }
    }

    fn rejects_null() -> (answer: bool) {
        false
    }
}

impl RawObjectLayer {
    /// Gives the reference to LLVM.
    pub fn into_raw(self) -> (raw: RawRef)
        ensures
            raw == self.raw(),
    {
        self.raw
    }

    /// The reference.
    pub fn as_raw(&self) -> (raw: RawRef)
        ensures
            raw == self.raw(),
    {
        self.raw
    }
}

/// Creates a linking layer that allocates memory by sections.
pub fn create_rtdyld_object_linking_layer_with_section_memory_manager(
    es: &ExecutionSession<'_>,
) -> (operation: Pending<Wrap<RawObjectLayer>>)
    ensures
        operation.call == (Call::CreateRTDyldObjectLinkingLayerWithSectionMemoryManager {
            session: es.raw(),
        }),
        operation.wf(),
        operation.owned() == Multiset::<Resource>::empty(),
{
    let call = Call::CreateRTDyldObjectLinkingLayerWithSectionMemoryManager {
        session: es.as_raw(),
    };
    Pending { call, next: Wrap { marker: PhantomData } }
}

/// Creates a linking layer that allocates memory through callbacks, all of which
/// have to be valid; LLVM does without a `destroy`.
pub fn create_rtdyld_object_linking_layer_with_callbacks(
    es: &ExecutionSession<'_>,
    create_context: Callback,
    notify_terminating: Callback,
    allocate_code_section: Callback,
    allocate_data_section: Callback,
    finalize_memory: Callback,
    destroy: Callback,
) -> (operation: Pending<Wrap<RawObjectLayer>>)
    ensures
        operation.call == (Call::CreateRTDyldObjectLinkingLayerWithMCJITMemoryManagerLikeCallbacks {
            session: es.raw(),
            create_context,
            notify_terminating,
            allocate_code_section,
            allocate_data_section,
            finalize_memory,
            destroy,
        }),
        operation.wf(),
        operation.owned() == Multiset::<Resource>::empty(),
{
    let call = Call::CreateRTDyldObjectLinkingLayerWithMCJITMemoryManagerLikeCallbacks {
        session: es.as_raw(),
        create_context,
        notify_terminating,
        allocate_code_section,
        allocate_data_section,
        finalize_memory,
        destroy,
    };
    Pending { call, next: Wrap { marker: PhantomData } }
}

/// Registers a listener with a layer that
/// [`create_rtdyld_object_linking_layer_with_section_memory_manager`] or
/// [`create_rtdyld_object_linking_layer_with_callbacks`] created.
pub fn rtdyld_object_linking_layer_register_jit_event_listener(
    layer: RawRef,
    listener: RawRef,
) -> (operation: Pending<Finish>)
    ensures
        operation.call == (Call::RTDyldObjectLinkingLayerRegisterJITEventListener {
            layer,
            listener,
        }),
        operation.wf(),
        operation.owned() == Multiset::<Resource>::empty(),
{
    let call = Call::RTDyldObjectLinkingLayerRegisterJITEventListener { layer, listener };
    Pending { call, next: Finish }
}

} // verus!
