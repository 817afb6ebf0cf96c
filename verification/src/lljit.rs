//! The JIT compiler.

use crate::call::{Call, Callback, Kind, RawRef, Reply, Resource};
use crate::context::ThreadSafeModule;
use crate::continuation::{Finish, Open, ReadText, Wrap};
use crate::dylib::{DefinitionGenerator, JitDylib, ResourceTracker};
use crate::error::{Check, LLVMString, Phase};
use crate::layer::{IRTransformLayer, MemoryBuffer, ObjectLayer, ObjectTransformLayer};
use crate::operation::{Handle, Operation, Owns, Pending, Reference, Step};
use crate::session::{ExecutionSession, SymbolStringPoolEntry};
use crate::target::JitTargetMachineBuilder;
use crate::text::{decode_lossy, to_c_str};
use std::marker::PhantomData;
use vstd::multiset::Multiset;
use vstd::pervasive::unreached;
use vstd::prelude::*;
use vstd::string::StringExecFns;

verus! {

broadcast use crate::call::group_adding_nothing;

/// Configures and builds an [`LLJit`].
///
/// [`LLJit::create`] does with the default settings.
#[derive(Debug, PartialEq, Eq, Structural)]
pub struct LLJitBuilder {
    raw: RawRef,
}

impl Owns for LLJitBuilder {
    open spec fn owned(&self) -> Multiset<Resource> {
        Resource::of(Some(Kind::LLJitBuilder), self.raw())
    }
}

impl Reference for LLJitBuilder {
    closed spec fn raw(&self) -> RawRef {
        self.raw
    }
}

impl Handle for LLJitBuilder {
    open spec fn kind() -> Option<Kind> {
        Some(Kind::LLJitBuilder)
    }

    open spec fn never_null() -> bool {
        true
    }

    proof fn owns_its_reference(&self) {
    }

    fn wrap(raw: RawRef) -> (handle: Self) {
        LLJitBuilder { raw }
    }

    fn rejects_null() -> (answer: bool) {
        true
    }
}

impl LLJitBuilder {
    #[verifier::type_invariant]
    spec fn is_not_null(self) -> bool {
        self.raw != 0
    }

    /// Creates a builder with default settings.
    pub fn create() -> (operation: Pending<Wrap<LLJitBuilder>>)
        ensures
            operation.call == Call::CreateLLJITBuilder,
            operation.wf(),
            operation.owned() == Multiset::<Resource>::empty(),
    {
        Pending { call: Call::CreateLLJITBuilder, next: Wrap { marker: PhantomData } }
    }

    /// Sets the target, in place of the host, and consumes it.
    pub fn set_jit_target_machine_builder(
        &mut self,
        jtmb: JitTargetMachineBuilder,
    ) -> (operation: Pending<Finish>)
        ensures
            operation.call == (Call::LLJITBuilderSetJITTargetMachineBuilder {
                builder: old(self).raw(),
                target: jtmb.raw(),
            }),
            *final(self) == *old(self),
            operation.wf(),
            operation.owned() == jtmb.owned(),
    {
        let call = Call::LLJITBuilderSetJITTargetMachineBuilder {
            builder: self.raw,
            target: jtmb.into_raw(),
        };
        Pending { call, next: Finish }
    }

    /// Sets the callback that creates the object linking layer.
    ///
    /// The callback and `ctx` have to stay valid as long as the [`LLJit`].
    pub fn set_object_linking_layer_creator(
        &mut self,
        creator: Callback,
        ctx: RawRef,
    ) -> (operation: Pending<Finish>)
        ensures
            operation.call == (Call::LLJITBuilderSetObjectLinkingLayerCreator {
                builder: old(self).raw(),
                creator,
                ctx,
            }),
            *final(self) == *old(self),
            operation.wf(),
            operation.owned() == Multiset::<Resource>::empty(),
    {
        let call = Call::LLJITBuilderSetObjectLinkingLayerCreator {
            builder: self.raw,
            creator,
            ctx,
        };
        Pending { call, next: Finish }
    }

    /// Builds the JIT compiler, and consumes the builder, also where LLVM fails.
    pub fn build(self) -> (operation: Pending<Open<LLJit>>)
        ensures
            operation.call == (Call::CreateLLJIT { builder: self.raw() }),
            operation.next.phase is Status,
            operation.wf(),
            operation.owned() == self.owned(),
    {
        let call = Call::CreateLLJIT { builder: self.raw };
        Pending { call, next: Open { phase: Phase::Status, marker: PhantomData } }
    }

    /// Disposes of the builder.
    pub fn drop(self) -> (operation: Pending<Finish>)
        ensures
            operation.call == (Call::DisposeLLJITBuilder { builder: self.raw() }),
            operation.wf(),
            operation.owned() == self.owned(),
    {
        Pending { call: Call::DisposeLLJITBuilder { builder: self.raw }, next: Finish }
    }
}

/// The JIT compiler, assembled from ORC's layers.
#[derive(Debug)]
pub struct LLJit {
    raw: RawRef,
}

impl Owns for LLJit {
    open spec fn owned(&self) -> Multiset<Resource> {
        Resource::of(Some(Kind::LLJit), self.raw())
    }
}

impl Reference for LLJit {
    closed spec fn raw(&self) -> RawRef {
        self.raw
    }
}

impl Handle for LLJit {
    open spec fn kind() -> Option<Kind> {
        Some(Kind::LLJit)
    }

    open spec fn never_null() -> bool {
        true
    }

    proof fn owns_its_reference(&self) {
    }

    fn wrap(raw: RawRef) -> (handle: Self) {
        LLJit { raw }
    }

    fn rejects_null() -> (answer: bool) {
        true
    }
}

impl LLJit {
    #[verifier::type_invariant]
    spec fn is_not_null(self) -> bool {
        self.raw != 0
    }

    /// Builds a JIT compiler with default settings. The native target has to be
    /// initialized.
    pub fn create() -> (operation: Pending<CreateJit>)
        ensures
            operation.call == Call::CreateLLJITBuilder,
            operation.next == CreateJit::Builder,
            operation.wf(),
            operation.owned() == Multiset::<Resource>::empty(),
    {
        Pending { call: LLJitBuilder::create().call, next: CreateJit::Builder }
    }

    /// The execution session.
    pub fn execution_session(&self) -> (operation: Pending<Wrap<ExecutionSession<'_>>>)
        ensures
            operation.call == (Call::LLJITGetExecutionSession { jit: self.raw() }),
            operation.wf(),
            operation.owned() == Multiset::<Resource>::empty(),
    {
        let call = Call::LLJITGetExecutionSession { jit: self.raw };
        Pending { call, next: Wrap { marker: PhantomData } }
    }

    /// The main library.
    pub fn main_jit_dylib(&self) -> (operation: Pending<Wrap<JitDylib<'_>>>)
        ensures
            operation.call == (Call::LLJITGetMainJITDylib { jit: self.raw() }),
            operation.wf(),
            operation.owned() == Multiset::<Resource>::empty(),
    {
        let call = Call::LLJITGetMainJITDylib { jit: self.raw };
        Pending { call, next: Wrap { marker: PhantomData } }
    }

    /// The target triple. LLVM keeps it as UTF-8.
    pub fn get_triple_string(&self) -> (operation: Pending<ReadText>)
        ensures
            operation.call == (Call::LLJITGetTripleString { jit: self.raw() }),
            operation.wf(),
            operation.owned() == Multiset::<Resource>::empty(),
    {
        Pending { call: Call::LLJITGetTripleString { jit: self.raw }, next: ReadText }
    }

    /// The character that stands before every symbol name on the target.
    pub fn get_global_prefix(&self) -> (operation: Pending<ReadPrefix>)
        ensures
            operation.call == (Call::LLJITGetGlobalPrefix { jit: self.raw() }),
            operation.wf(),
            operation.owned() == Multiset::<Resource>::empty(),
    {
        Pending { call: Call::LLJITGetGlobalPrefix { jit: self.raw }, next: ReadPrefix }
    }

    /// The data layout. LLVM keeps it as UTF-8.
    pub fn get_data_layout_str(&self) -> (operation: Pending<ReadText>)
        ensures
            operation.call == (Call::LLJITGetDataLayoutStr { jit: self.raw() }),
            operation.wf(),
            operation.owned() == Multiset::<Resource>::empty(),
    {
        Pending { call: Call::LLJITGetDataLayoutStr { jit: self.raw }, next: ReadText }
    }

    /// Interns the name that a symbol has on the target.
    pub fn mangle_and_intern(
        &self,
        name: &str,
    ) -> (operation: Pending<Wrap<SymbolStringPoolEntry>>)
        ensures
            ({
                &&& operation.call matches Call::LLJITMangleAndIntern { jit, name: c_name }
                &&& jit == self.raw()
                &&& c_name@ == crate::text::c_text(name@)
            }),
            operation.wf(),
            operation.owned() == Multiset::<Resource>::empty(),
    {
        let call = Call::LLJITMangleAndIntern { jit: self.raw, name: to_c_str(name) };
        Pending { call, next: Wrap { marker: PhantomData } }
    }

    /// Adds a module to a library, and consumes it. It is compiled when one of its
    /// symbols is looked up.
    pub fn add_module(
        &self,
        jit_dylib: &JitDylib<'_>,
        module: ThreadSafeModule,
    ) -> (operation: Pending<Check>)
        ensures
            operation.call == (Call::LLJITAddLLVMIRModule {
                jit: self.raw(),
                dylib: jit_dylib.raw(),
                module: module.raw(),
            }),
            operation.next.phase is Status,
            operation.wf(),
            operation.owned() == module.owned(),
    {
        let call = Call::LLJITAddLLVMIRModule {
            jit: self.raw,
            dylib: jit_dylib.as_raw(),
            module: module.into_raw(),
        };
        Pending { call, next: Check { phase: Phase::Status } }
    }

    /// Adds a module under a resource tracker, by which it can be removed again,
    /// and consumes it.
    pub fn add_module_with_rt(
        &self,
        rt: &ResourceTracker<'_>,
        module: ThreadSafeModule,
    ) -> (operation: Pending<Check>)
        ensures
            operation.call == (Call::LLJITAddLLVMIRModuleWithRT {
                jit: self.raw(),
                tracker: rt.raw(),
                module: module.raw(),
            }),
            operation.next.phase is Status,
            operation.wf(),
            operation.owned() == module.owned(),
    {
        let call = Call::LLJITAddLLVMIRModuleWithRT {
            jit: self.raw,
            tracker: rt.as_raw(),
            module: module.into_raw(),
        };
        Pending { call, next: Check { phase: Phase::Status } }
    }

    /// Adds a compiled object to a library, and consumes the buffer.
    pub fn add_object_file(
        &self,
        jit_dylib: &JitDylib<'_>,
        obj_buffer: MemoryBuffer,
    ) -> (operation: Pending<Check>)
        ensures
            operation.call == (Call::LLJITAddObjectFile {
                jit: self.raw(),
                dylib: jit_dylib.raw(),
                buffer: obj_buffer.raw(),
            }),
            operation.next.phase is Status,
            operation.wf(),
            operation.owned() == obj_buffer.owned(),
    {
        let call = Call::LLJITAddObjectFile {
            jit: self.raw,
            dylib: jit_dylib.as_raw(),
            buffer: obj_buffer.into_raw(),
        };
        Pending { call, next: Check { phase: Phase::Status } }
    }

    /// Adds a compiled object under a resource tracker, and consumes the buffer.
    pub fn add_object_file_with_rt(
        &self,
        rt: &ResourceTracker<'_>,
        obj_buffer: MemoryBuffer,
    ) -> (operation: Pending<Check>)
        ensures
            operation.call == (Call::LLJITAddObjectFileWithRT {
                jit: self.raw(),
                tracker: rt.raw(),
                buffer: obj_buffer.raw(),
            }),
            operation.next.phase is Status,
            operation.wf(),
            operation.owned() == obj_buffer.owned(),
    {
        let call = Call::LLJITAddObjectFileWithRT {
            jit: self.raw,
            tracker: rt.as_raw(),
            buffer: obj_buffer.into_raw(),
        };
        Pending { call, next: Check { phase: Phase::Status } }
    }

    /// Looks up the address of a symbol, and compiles what that needs. LLVM fails
    /// where there is no such symbol.
    pub fn lookup(&self, name: &str) -> (operation: Pending<LookUp>)
        ensures
            ({
                &&& operation.call matches Call::LLJITLookup { jit, name: c_name }
                &&& jit == self.raw()
                &&& c_name@ == crate::text::c_text(name@)
            }),
            operation.next.phase is Status,
            operation.wf(),
            operation.owned() == Multiset::<Resource>::empty(),
    {
        let call = Call::LLJITLookup { jit: self.raw, name: to_c_str(name) };
        Pending { call, next: LookUp { phase: Phase::Status } }
    }

    /// Looks up a function.
    ///
    /// `F` has to be the type of the function that was compiled.
    pub fn get_function<F>(&self, name: &str) -> (operation: Pending<GetFunction<'_, F>>)
        ensures
            ({
                &&& operation.call matches Call::LLJITLookup { jit, name: c_name }
                &&& jit == self.raw()
                &&& c_name@ == crate::text::c_text(name@)
            }),
            operation.next.lookup.phase is Status,
            operation.wf(),
            operation.owned() == Multiset::<Resource>::empty(),
    {
        let call = Call::LLJITLookup { jit: self.raw, name: to_c_str(name) };
        let lookup = LookUp { phase: Phase::Status };
        Pending { call, next: GetFunction { lookup, marker: PhantomData } }
    }

    /// The object linking layer.
    pub fn get_obj_linking_layer(&self) -> (operation: Pending<Wrap<ObjectLayer<'_>>>)
        ensures
            operation.call == (Call::LLJITGetObjLinkingLayer { jit: self.raw() }),
            operation.wf(),
            operation.owned() == Multiset::<Resource>::empty(),
    {
        let call = Call::LLJITGetObjLinkingLayer { jit: self.raw };
        Pending { call, next: Wrap { marker: PhantomData } }
    }

    /// The object transform layer.
    pub fn get_obj_transform_layer(&self) -> (operation: Pending<Wrap<ObjectTransformLayer<'_>>>)
        ensures
            operation.call == (Call::LLJITGetObjTransformLayer { jit: self.raw() }),
            operation.wf(),
            operation.owned() == Multiset::<Resource>::empty(),
    {
        let call = Call::LLJITGetObjTransformLayer { jit: self.raw };
        Pending { call, next: Wrap { marker: PhantomData } }
    }

    /// The IR transform layer.
    pub fn get_ir_transform_layer(&self) -> (operation: Pending<Wrap<IRTransformLayer<'_>>>)
        ensures
            operation.call == (Call::LLJITGetIRTransformLayer { jit: self.raw() }),
            operation.wf(),
            operation.owned() == Multiset::<Resource>::empty(),
    {
        let call = Call::LLJITGetIRTransformLayer { jit: self.raw };
        Pending { call, next: Wrap { marker: PhantomData } }
    }

    /// Lets a library find the symbols of the host process.
    ///
    /// A combination of [`get_global_prefix`](Self::get_global_prefix),
    /// [`DefinitionGenerator::for_process`] and [`JitDylib::add_generator`].
    pub fn add_process_symbols_generator<'a>(
        &self,
        jit_dylib: &JitDylib<'a>,
    ) -> (operation: Pending<AddProcessSymbols<'a>>)
        ensures
            operation.call == (Call::LLJITGetGlobalPrefix { jit: self.raw() }),
            operation.next == (AddProcessSymbols::Prefix { dylib: *jit_dylib }),
            operation.wf(),
            operation.owned() == Multiset::<Resource>::empty(),
    {
        let next = AddProcessSymbols::Prefix { dylib: *jit_dylib };
        Pending { call: self.get_global_prefix().call, next }
    }

    /// Disposes of the JIT compiler. An error of LLVM is printed as a warning.
    pub fn drop(self) -> (operation: Pending<DisposeJit>)
        ensures
            operation.call == (Call::DisposeLLJIT { jit: self.raw() }),
            operation.next == DisposeJit::Status,
            operation.wf(),
            operation.owned() == self.owned(),
    {
        Pending { call: Call::DisposeLLJIT { jit: self.raw }, next: DisposeJit::Status }
    }

    /// The reference. It is not the receiver's to dispose of.
    pub fn as_raw(&self) -> (raw: RawRef)
        ensures
            raw == self.raw(),
            raw != 0,
    {
        proof {
            use_type_invariant(self);
        }
        self.raw
    }
}

/// Waits for a builder, then for what it builds.
#[derive(Debug)]
pub enum CreateJit {
    Builder,
    Build { opening: Open<LLJit> },
}

impl Operation for CreateJit {
    type Output = Result<LLJit, LLVMString>;

    open spec fn awaits(self, call: Call) -> bool {
        match self {
            CreateJit::Builder => call == Call::CreateLLJITBuilder,
            CreateJit::Build { opening } => opening.awaits(call),
        }
    }

    open spec fn expects(self, reply: Reply) -> bool {
        match self {
            CreateJit::Builder => reply matches Reply::Reference(raw) && raw != 0,
            CreateJit::Build { opening } => opening.expects(reply),
        }
    }

    open spec fn held(self) -> Multiset<Resource> {
        match self {
            CreateJit::Builder => Multiset::empty(),
            CreateJit::Build { opening } => opening.held(),
        }
    }

    open spec fn calls_left(self) -> nat {
        match self {
            CreateJit::Builder => 2,
            CreateJit::Build { opening } => opening.calls_left(),
        }
    }

    open spec fn resumes_to(self, reply: Reply, step: Step<Self, Self::Output>) -> bool {
        match self {
            CreateJit::Builder => {
                &&& reply matches Reply::Reference(raw)
                &&& step matches Step::Pending(pending)
                &&& pending.call == Call::CreateLLJIT { builder: raw }
                &&& pending.next matches CreateJit::Build { opening }
                &&& opening.phase is Status
            },
            CreateJit::Build { opening } => match step {
                Step::Pending(pending) => {
                    &&& pending.next matches CreateJit::Build { opening: rest }
                    &&& opening.resumes_to(
                        reply,
                        Step::Pending(Pending { call: pending.call, next: rest }),
                    )
                },
                Step::Done(output) => opening.resumes_to(reply, Step::Done(output)),
            },
        }
    }

    proof fn goes_on_well(self, call: Call, reply: Reply, step: Step<Self, Self::Output>) {
        if let CreateJit::Build { opening } = self {
            match step {
                Step::Pending(pending) => {
                    let rest = pending.next->opening;
                    opening.goes_on_well(
                        call,
                        reply,
                        Step::Pending(Pending { call: pending.call, next: rest }),
                    );
                },
                Step::Done(output) => opening.goes_on_well(call, reply, Step::Done(output)),
            }
        }
        if let Step::Done(output) = step {
            assert(self.held().add(call.creates(reply)) == output.owned());
        }
    }

    fn check(&self, reply: &Reply) -> (fits: bool) {
        match (self, reply) {
            (CreateJit::Builder, Reply::Reference(raw)) => *raw != 0,
            (CreateJit::Builder, _) => false,
            (CreateJit::Build { opening }, _) => opening.check(reply),
        }
    }

    fn resume(self, reply: Reply) -> (step: Step<Self, Self::Output>) {
        match (self, reply) {
            (CreateJit::Builder, Reply::Reference(raw)) => {
                let build = LLJitBuilder::wrap(raw).build();
                let next = CreateJit::Build { opening: build.next };
                Step::Pending(Pending { call: build.call, next })
            },
            (CreateJit::Build { opening }, reply) => match opening.resume(reply) {
                Step::Pending(rest) => {
                    let next = CreateJit::Build { opening: rest.next };
                    Step::Pending(Pending { call: rest.call, next })
                },
                Step::Done(output) => Step::Done(output),
            },
            _ => unreached(),
        }
    }
}

/// Waits for a C character.
#[derive(Debug)]
pub struct ReadPrefix;

impl Operation for ReadPrefix {
    type Output = char;

    open spec fn awaits(self, call: Call) -> bool {
        call.answer() is Character
    }

    open spec fn expects(self, reply: Reply) -> bool {
        reply is Character
    }

    open spec fn held(self) -> Multiset<Resource> {
        Multiset::empty()
    }

    open spec fn calls_left(self) -> nat {
        0
    }

    open spec fn resumes_to(self, reply: Reply, step: Step<Self, Self::Output>) -> bool {
        &&& reply matches Reply::Character(byte)
        &&& step == Step::<Self, char>::Done(byte as char)
    }

    proof fn goes_on_well(self, call: Call, reply: Reply, step: Step<Self, Self::Output>) {
        if let Step::Done(output) = step {
            assert(self.held().add(call.creates(reply)) == output.owned());
        }
    }

    fn check(&self, reply: &Reply) -> (fits: bool) {
        matches!(reply, Reply::Character(_))
    }

    fn resume(self, reply: Reply) -> (step: Step<Self, Self::Output>) {
        match reply {
            Reply::Character(byte) => Step::Done(byte as char),
            _ => unreached(),
        }
    }
}

/// Waits for the address of a symbol.
#[derive(Debug)]
pub struct LookUp {
    pub phase: Phase,
}

impl Operation for LookUp {
    type Output = Result<u64, LLVMString>;

    open spec fn awaits(self, call: Call) -> bool {
        match self.phase {
            Phase::Status => call.answer() is Address,
            Phase::Message => call is GetErrorMessage,
        }
    }

    open spec fn expects(self, reply: Reply) -> bool {
        match self.phase {
            Phase::Status => reply is Address,
            Phase::Message => reply is Text,
        }
    }

    open spec fn held(self) -> Multiset<Resource> {
        Multiset::empty()
    }

    open spec fn calls_left(self) -> nat {
        match self.phase {
            Phase::Status => 1,
            Phase::Message => 0,
        }
    }

    open spec fn resumes_to(self, reply: Reply, step: Step<Self, Self::Output>) -> bool {
        match reply {
            Reply::Address { error, address } => if error == 0 {
                step == Step::<Self, Self::Output>::Done(Ok(address))
            } else {
                &&& step matches Step::Pending(pending)
                &&& pending.call == Call::GetErrorMessage { error }
                &&& pending.next.phase is Message
            },
            Reply::Text { start, bytes } => {
                &&& step matches Step::Done(Err(message))
                &&& message.start() == start
                &&& message.bytes() == bytes@
            },
            _ => false,
        }
    }

    proof fn goes_on_well(self, call: Call, reply: Reply, step: Step<Self, Self::Output>) {
        if let Step::Done(output) = step {
            assert(self.held().add(call.creates(reply)) == output.owned());
        }
    }

    fn check(&self, reply: &Reply) -> (fits: bool) {
        match (self.phase, reply) {
            (Phase::Status, Reply::Address { .. }) => true,
            (Phase::Message, Reply::Text { .. }) => true,
            _ => false,
        }
    }

    fn resume(self, reply: Reply) -> (step: Step<Self, Self::Output>) {
        match reply {
            Reply::Address { error, address } => if error == 0 {
                Step::Done(Ok(address))
            } else {
                let next = LookUp { phase: Phase::Message };
                Step::Pending(Pending { call: Call::GetErrorMessage { error }, next })
            },
            Reply::Text { start, bytes } => Step::Done(Err(LLVMString::new(start, bytes))),
            _ => unreached(),
        }
    }
}

/// A function that was JIT-compiled, by its address.
///
/// The lifetime keeps the [`LLJit`] in place, and `F` is the function's type.
#[derive(Debug)]
pub struct LLJitFunction<'jit, F> {
    inner: usize,
    marker: PhantomData<(&'jit LLJit, F)>,
}

impl<'jit, F: Clone> Clone for LLJitFunction<'jit, F> {
    fn clone(&self) -> (copy: Self)
        ensures
            copy.address() == self.address(),
    {
        LLJitFunction { inner: self.inner, marker: PhantomData }
    }
}

impl<'jit, F> Owns for LLJitFunction<'jit, F> {
    open spec fn owned(&self) -> Multiset<Resource> {
        Multiset::empty()
    }
}

impl<'jit, F> LLJitFunction<'jit, F> {
    /// The function's address.
    pub closed spec fn address(&self) -> usize {
        self.inner
    }

    /// The function's address. What was compiled has to be there still.
    pub fn into_raw(self) -> (address: usize)
        ensures
            address == self.address(),
    {
        self.inner
    }

    /// The function's address. What was compiled has to be there still.
    pub fn as_raw(&self) -> (address: usize)
        ensures
            address == self.address(),
    {
        self.inner
    }
}

/// Waits for a function. `F` has to be as large as an address.
#[derive(Debug)]
pub struct GetFunction<'jit, F> {
    pub lookup: LookUp,
    pub marker: PhantomData<(&'jit LLJit, F)>,
}

impl<'jit, F> Operation for GetFunction<'jit, F> {
    type Output = Result<LLJitFunction<'jit, F>, LLVMString>;

    open spec fn awaits(self, call: Call) -> bool {
        self.lookup.awaits(call)
    }

    open spec fn expects(self, reply: Reply) -> bool {
        &&& self.lookup.expects(reply)
        &&& match reply {
            Reply::Address { error, .. } => error == 0 ==> vstd::layout::size_of::<F>()
                == vstd::layout::size_of::<usize>(),
            _ => true,
        }
    }

    open spec fn held(self) -> Multiset<Resource> {
        Multiset::empty()
    }

    open spec fn calls_left(self) -> nat {
        self.lookup.calls_left()
    }

    open spec fn resumes_to(self, reply: Reply, step: Step<Self, Self::Output>) -> bool {
        match step {
            Step::Pending(pending) => {
                let rest = Pending { call: pending.call, next: pending.next.lookup };
                self.lookup.resumes_to(reply, Step::Pending(rest))
            },
            Step::Done(Ok(function)) => {
                &&& reply matches Reply::Address { address, .. }
                &&& self.lookup.resumes_to(reply, Step::Done(Ok(address)))
                &&& function.address() == address as usize
            },
            Step::Done(Err(message)) => self.lookup.resumes_to(reply, Step::Done(Err(message))),
        }
    }

    proof fn goes_on_well(self, call: Call, reply: Reply, step: Step<Self, Self::Output>) {
        match step {
            Step::Pending(pending) => {
                let rest = Pending { call: pending.call, next: pending.next.lookup };
                self.lookup.goes_on_well(call, reply, Step::Pending(rest));
            },
            Step::Done(Ok(function)) => {
                let address = reply->Address_address;
                self.lookup.goes_on_well(call, reply, Step::Done(Ok(address)));
            },
            Step::Done(Err(message)) => {
                self.lookup.goes_on_well(call, reply, Step::Done(Err(message)));
            },
        }
        if let Step::Done(output) = step {
            assert(self.held().add(call.creates(reply)) == output.owned());
        }
    }

    fn check(&self, reply: &Reply) -> (fits: bool) {
        self.lookup.check(reply) && match reply {
            Reply::Address { error, .. } => *error != 0 || std::mem::size_of::<F>()
                == std::mem::size_of::<usize>(),
            _ => true,
        }
    }

    fn resume(self, reply: Reply) -> (step: Step<Self, Self::Output>) {
        match self.lookup.resume(reply) {
            Step::Pending(rest) => {
                let next = GetFunction { lookup: rest.next, marker: PhantomData };
                Step::Pending(Pending { call: rest.call, next })
            },
            Step::Done(Ok(address)) => {
                Step::Done(Ok(LLJitFunction { inner: address as usize, marker: PhantomData }))
            },
            Step::Done(Err(message)) => Step::Done(Err(message)),
        }
    }
}

/// Waits for a library to be given the symbols of the host process.
#[derive(Debug)]
pub enum AddProcessSymbols<'a> {
    /// Waits for the symbol prefix.
    Prefix { dylib: JitDylib<'a> },
    /// Waits for the generator.
    Generator { dylib: JitDylib<'a>, opening: Open<DefinitionGenerator> },
    /// Waits for the generator to be added.
    Add,
}

impl<'a> Operation for AddProcessSymbols<'a> {
    type Output = Result<(), LLVMString>;

    open spec fn awaits(self, call: Call) -> bool {
        match self {
            AddProcessSymbols::Prefix { .. } => call.answer() is Character,
            AddProcessSymbols::Generator { opening, .. } => opening.awaits(call),
            AddProcessSymbols::Add => call.answer() is Nothing,
        }
    }

    open spec fn expects(self, reply: Reply) -> bool {
        match self {
            AddProcessSymbols::Prefix { .. } => reply is Character,
            AddProcessSymbols::Generator { opening, .. } => opening.expects(reply),
            AddProcessSymbols::Add => reply is Nothing,
        }
    }

    open spec fn held(self) -> Multiset<Resource> {
        Multiset::empty()
    }

    open spec fn calls_left(self) -> nat {
        match self {
            AddProcessSymbols::Prefix { .. } => 3,
            AddProcessSymbols::Generator { opening, .. } => 1 + opening.calls_left(),
            AddProcessSymbols::Add => 0,
        }
    }

    open spec fn resumes_to(self, reply: Reply, step: Step<Self, Self::Output>) -> bool {
        match (self, reply) {
            (AddProcessSymbols::Prefix { dylib }, Reply::Character(byte)) => {
                &&& step matches Step::Pending(pending)
                &&& pending.call == Call::CreateDynamicLibrarySearchGeneratorForProcess {
                    global_prefix: byte,
                    filter: None,
                    filter_ctx: 0,
                }
                &&& pending.next matches AddProcessSymbols::Generator { dylib: kept, opening }
                &&& kept == dylib
                &&& opening.phase is Status
            },
            (AddProcessSymbols::Generator { dylib, .. }, Reply::Opened { error, out }) => {
                &&& step matches Step::Pending(pending)
                &&& if error == 0 {
                    &&& pending.call == Call::JITDylibAddGenerator {
                        dylib: dylib.raw(),
                        generator: out,
                    }
                    &&& pending.next is Add
                } else {
                    &&& pending.call == Call::GetErrorMessage { error }
                    &&& pending.next matches AddProcessSymbols::Generator { dylib: kept, opening }
                    &&& kept == dylib
                    &&& opening.phase is Message
                }
            },
            (AddProcessSymbols::Generator { .. }, Reply::Text { start, bytes }) => {
                &&& step matches Step::Done(Err(message))
                &&& message.start() == start
                &&& message.bytes() == bytes@
            },
            (AddProcessSymbols::Add, Reply::Nothing) => {
                step == Step::<Self, Self::Output>::Done(Ok(()))
            },
            _ => false,
        }
    }

    proof fn goes_on_well(self, call: Call, reply: Reply, step: Step<Self, Self::Output>) {
        if let Step::Done(output) = step {
            assert(self.held().add(call.creates(reply)) == output.owned());
        }
    }

    fn check(&self, reply: &Reply) -> (fits: bool) {
        match (self, reply) {
            (AddProcessSymbols::Prefix { .. }, Reply::Character(_)) => true,
            (AddProcessSymbols::Generator { opening, .. }, _) => opening.check(reply),
            (AddProcessSymbols::Add, Reply::Nothing) => true,
            _ => false,
        }
    }

    fn resume(self, reply: Reply) -> (step: Step<Self, Self::Output>) {
        match (self, reply) {
            (AddProcessSymbols::Prefix { dylib }, Reply::Character(byte)) => {
                let generator = DefinitionGenerator::for_process(byte as char);
                let next = AddProcessSymbols::Generator { dylib, opening: generator.next };
                Step::Pending(Pending { call: generator.call, next })
            },
            (AddProcessSymbols::Generator { dylib, opening }, reply) => {
                match opening.resume(reply) {
                    Step::Pending(rest) => {
                        let next = AddProcessSymbols::Generator { dylib, opening: rest.next };
                        Step::Pending(Pending { call: rest.call, next })
                    },
                    Step::Done(Ok(generator)) => {
                        let call = dylib.add_generator(generator).call;
                        Step::Pending(Pending { call, next: AddProcessSymbols::Add })
                    },
                    Step::Done(Err(message)) => Step::Done(Err(message)),
                }
            },
            (AddProcessSymbols::Add, Reply::Nothing) => Step::Done(Ok(())),
            _ => unreached(),
        }
    }
}

/// The line that is printed where a JIT compiler could not be disposed of.
pub open spec fn warning(bytes: Seq<u8>) -> Seq<char> {
    "Warning: LLVMOrcDisposeLLJIT failed: "@ + crate::text::utf8_lossy(bytes)
}

/// Waits for a JIT compiler to be disposed of.
#[derive(Debug)]
pub enum DisposeJit {
    /// Waits for the status.
    Status,
    /// Waits for the message of an error.
    Message,
    /// Waits for the warning to be printed.
    Warn { message: RawRef },
    /// Waits for the message to be given back.
    Dispose,
}

impl Operation for DisposeJit {
    type Output = ();

    open spec fn awaits(self, call: Call) -> bool {
        match self {
            DisposeJit::Status => call.answer() is Status,
            DisposeJit::Message => call is GetErrorMessage,
            DisposeJit::Warn { .. } => call is PrintWarning,
            DisposeJit::Dispose => call is DisposeErrorMessage,
        }
    }

    open spec fn expects(self, reply: Reply) -> bool {
        match self {
            DisposeJit::Status => reply is Status,
            DisposeJit::Message => reply is Text,
            DisposeJit::Warn { .. } | DisposeJit::Dispose => reply is Nothing,
        }
    }

    open spec fn held(self) -> Multiset<Resource> {
        match self {
            DisposeJit::Warn { message } => Resource::of(Some(Kind::Message), message),
            _ => Multiset::empty(),
        }
    }

    open spec fn calls_left(self) -> nat {
        match self {
            DisposeJit::Status => 3,
            DisposeJit::Message => 2,
            DisposeJit::Warn { .. } => 1,
            DisposeJit::Dispose => 0,
        }
    }

    open spec fn resumes_to(self, reply: Reply, step: Step<Self, Self::Output>) -> bool {
        match (self, reply) {
            (DisposeJit::Status, Reply::Status(error)) => if error == 0 {
                step == Step::<Self, ()>::Done(())
            } else {
                &&& step matches Step::Pending(pending)
                &&& pending.call == Call::GetErrorMessage { error }
                &&& pending.next is Message
            },
            (DisposeJit::Message, Reply::Text { start, bytes }) => {
                &&& step matches Step::Pending(pending)
                &&& pending.call matches Call::PrintWarning { line }
                &&& line@ == warning(bytes@)
                &&& pending.next == DisposeJit::Warn { message: start }
            },
            (DisposeJit::Warn { message }, Reply::Nothing) => {
                &&& step matches Step::Pending(pending)
                &&& pending.call == Call::DisposeErrorMessage { message }
                &&& pending.next is Dispose
            },
            (DisposeJit::Dispose, Reply::Nothing) => step == Step::<Self, ()>::Done(()),
            _ => false,
        }
    }

    proof fn goes_on_well(self, call: Call, reply: Reply, step: Step<Self, Self::Output>) {
        if let Step::Done(output) = step {
            assert(self.held().add(call.creates(reply)) == output.owned());
        }
    }

    fn check(&self, reply: &Reply) -> (fits: bool) {
        match (self, reply) {
            (DisposeJit::Status, Reply::Status(_)) => true,
            (DisposeJit::Message, Reply::Text { .. }) => true,
            (DisposeJit::Warn { .. }, Reply::Nothing) => true,
            (DisposeJit::Dispose, Reply::Nothing) => true,
            _ => false,
        }
    }

    fn resume(self, reply: Reply) -> (step: Step<Self, Self::Output>) {
        match (self, reply) {
            (DisposeJit::Status, Reply::Status(error)) => {
                if error == 0 {
                    return Step::Done(());
                }
                let call = Call::GetErrorMessage { error };
                Step::Pending(Pending { call, next: DisposeJit::Message })
            },
            (DisposeJit::Message, Reply::Text { start, bytes }) => {
                let mut line = "Warning: LLVMOrcDisposeLLJIT failed: ".to_owned();
                line.append(decode_lossy(&bytes).as_str());
                let call = Call::PrintWarning { line };
                Step::Pending(Pending { call, next: DisposeJit::Warn { message: start } })
            },
            (DisposeJit::Warn { message }, Reply::Nothing) => {
                let call = Call::DisposeErrorMessage { message };
                Step::Pending(Pending { call, next: DisposeJit::Dispose })
            },
            (DisposeJit::Dispose, Reply::Nothing) => Step::Done(()),
            _ => unreached(),
        }
    }
}

} // verus!
