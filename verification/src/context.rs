//! Contexts and modules that threads can share.

use crate::call::{Call, Callback, Kind, RawRef, Reply, Resource};
use crate::continuation::{Finish, Wrap};
use crate::error::{Check, Phase};
use crate::operation::{Handle, Operation, Owns, Pending, Reference, Step};
use std::marker::PhantomData;
use vstd::multiset::Multiset;
use vstd::pervasive::unreached;
use vstd::prelude::*;

verus! {

broadcast use crate::call::group_adding_nothing;

/// A reference to an LLVM context, for building modules in it.
#[derive(Debug, Clone, Copy)]
pub struct ContextRef<'ctx> {
    raw: RawRef,
    marker: PhantomData<&'ctx ()>,
}

impl<'ctx> Owns for ContextRef<'ctx> {
    open spec fn owned(&self) -> Multiset<Resource> {
        Multiset::empty()
    }
}

impl<'ctx> Reference for ContextRef<'ctx> {
    closed spec fn raw(&self) -> RawRef {
        self.raw
    }
}

impl<'ctx> Handle for ContextRef<'ctx> {
    open spec fn kind() -> Option<Kind> {
        None
    }

    open spec fn never_null() -> bool {
        true
    }

    proof fn owns_its_reference(&self) {
    }

    fn wrap(raw: RawRef) -> (handle: Self) {
        ContextRef { raw, marker: PhantomData }
    }

    fn rejects_null() -> (answer: bool) {
        true
    }
}

impl<'ctx> ContextRef<'ctx> {
    #[verifier::type_invariant]
    spec fn is_not_null(self) -> bool {
        self.raw != 0
    }

    /// The reference. It is not the receiver's to dispose of.
    pub fn as_raw(&self) -> (raw: RawRef)
        ensures
            raw == self.raw(),
            raw != 0,
    {
        proof {
            use_type_invariant(self);
        }
        self.raw
    }
}

/// A module under construction.
#[derive(Debug)]
pub struct Module<'ctx> {
    raw: RawRef,
    marker: PhantomData<&'ctx ()>,
}

impl<'ctx> Owns for Module<'ctx> {
    open spec fn owned(&self) -> Multiset<Resource> {
        Resource::of(Some(Kind::Module), self.raw())
    }
}

impl<'ctx> Reference for Module<'ctx> {
    closed spec fn raw(&self) -> RawRef {
        self.raw
    }
}

impl<'ctx> Handle for Module<'ctx> {
    open spec fn kind() -> Option<Kind> {
        Some(Kind::Module)
    }

    open spec fn never_null() -> bool {
        false
    }

    proof fn owns_its_reference(&self) {
    }

    fn wrap(raw: RawRef) -> (handle: Self) {
        Module { raw, marker: PhantomData }
    }

    fn rejects_null() -> (answer: bool) {
        false
    }
}

impl<'ctx> Module<'ctx> {
    /// Gives the reference to LLVM.
    pub(crate) fn into_raw(self) -> (raw: RawRef)
        ensures
            raw == self.raw(),
    {
        self.raw
    }

    /// The reference. It is not the receiver's to dispose of.
    pub fn as_raw(&self) -> (raw: RawRef)
        ensures
            raw == self.raw(),
    {
        self.raw
    }
}

/// A context that threads can share.
///
/// [`context`](Self::context) gives access for building modules,
/// [`create_thread_safe_module`](Self::create_thread_safe_module) wraps finished
/// ones for the JIT compiler.
#[derive(Debug)]
pub struct ThreadSafeContext {
    raw: RawRef,
    llvm_ctx: RawRef,
}

impl Owns for ThreadSafeContext {
    open spec fn owned(&self) -> Multiset<Resource> {
        Resource::of(Some(Kind::ThreadSafeContext), self.raw())
    }
}

impl ThreadSafeContext {
    #[verifier::type_invariant]
    spec fn is_not_null(self) -> bool {
        self.raw != 0 && self.llvm_ctx != 0
    }

    /// The reference.
    pub closed spec fn raw(&self) -> RawRef {
        self.raw
    }

    /// The context that is shared.
    pub closed spec fn llvm_context(&self) -> RawRef {
        self.llvm_ctx
    }

    /// Creates a context.
    ///
    /// Before release 21, LLVM creates the shared context and tells which context
    /// it shares. From release 21 on it has a context wrapped that was created
    /// before.
    pub fn create(major: u32) -> (operation: Pending<CreateContext>)
        ensures
            major < 21 ==> {
                &&& operation.call == Call::CreateNewThreadSafeContext
                &&& operation.next == CreateContext::Shared
            },
            major >= 21 ==> {
                &&& operation.call == Call::ContextCreate
                &&& operation.next == CreateContext::Plain
            },
            operation.wf(),
            operation.owned() == Multiset::<Resource>::empty(),
    {
        if major < 21 {
            Pending { call: Call::CreateNewThreadSafeContext, next: CreateContext::Shared }
        } else {
            Pending { call: Call::ContextCreate, next: CreateContext::Plain }
        }
    }

    /// The context, for building modules in it.
    pub fn context(&self) -> (context: ContextRef<'_>)
        ensures
            context.raw() == self.llvm_context(),
    {
        proof {
            use_type_invariant(self);
        }
        ContextRef::wrap(self.llvm_ctx)
    }

    /// Wraps a module, and consumes it. A module of another context is given
    /// back: LLVM would not notice.
    pub fn create_thread_safe_module<'m>(
        &self,
        module: Module<'m>,
    ) -> (operation: Pending<WrapModule<'m>>)
        ensures
            operation.call == (Call::GetModuleContext { module: module.raw() }),
            operation.next == (WrapModule::Compare {
                context: self.raw(),
                llvm_context: self.llvm_context(),
                module,
            }),
            operation.wf(),
            operation.owned() == module.owned(),
    {
        let call = Call::GetModuleContext { module: module.as_raw() };
        let next = WrapModule::Compare { context: self.raw, llvm_context: self.llvm_ctx, module };
        Pending { call, next }
    }

    /// Wraps the module behind a reference, and consumes it.
    ///
    /// The module has to be of this context, and nobody else's.
    pub fn wrap_module(&self, module: RawRef) -> (operation: Pending<Wrap<ThreadSafeModule>>)
        ensures
            operation.call == (Call::CreateNewThreadSafeModule { module, context: self.raw() }),
            operation.wf(),
            operation.owned() == Resource::of(Some(Kind::Module), module),
    {
        let call = Call::CreateNewThreadSafeModule { module, context: self.raw };
        Pending { call, next: Wrap { marker: PhantomData } }
    }

    /// The reference. It is not the receiver's to dispose of.
    pub fn as_raw(&self) -> (raw: RawRef)
        ensures
            raw == self.raw(),
            raw != 0,
    {
        proof {
            use_type_invariant(self);
        }
        self.raw
    }

    /// Disposes of the context.
    pub fn drop(self) -> (operation: Pending<Finish>)
        ensures
            operation.call == (Call::DisposeThreadSafeContext { context: self.raw() }),
            operation.wf(),
            operation.owned() == self.owned(),
    {
        Pending { call: Call::DisposeThreadSafeContext { context: self.raw }, next: Finish }
    }
}

/// Waits for a context to be created.
#[derive(Debug)]
pub enum CreateContext {
    /// Waits for the shared context.
    Shared,
    /// Waits to hear which context `context` shares.
    ContextOf { context: RawRef },
    /// Waits for a context that is not shared yet.
    Plain,
    /// Waits for `llvm_context` to be wrapped.
    Wrapped { llvm_context: RawRef },
}

impl Operation for CreateContext {
    type Output = ThreadSafeContext;

    open spec fn awaits(self, call: Call) -> bool {
        match self {
            CreateContext::Shared => call == Call::CreateNewThreadSafeContext,
            CreateContext::ContextOf { context } => {
                call == Call::ThreadSafeContextGetContext { context }
            },
            CreateContext::Plain => call == Call::ContextCreate,
            CreateContext::Wrapped { llvm_context } => {
                call == Call::CreateNewThreadSafeContextFromLLVMContext { llvm_context }
            },
        }
    }

    open spec fn expects(self, reply: Reply) -> bool {
        reply matches Reply::Reference(raw) && raw != 0 && match self {
            CreateContext::ContextOf { context } => context != 0,
            CreateContext::Wrapped { llvm_context } => llvm_context != 0,
            _ => true,
        }
    }

    open spec fn held(self) -> Multiset<Resource> {
        match self {
            CreateContext::ContextOf { context } => {
                Resource::of(Some(Kind::ThreadSafeContext), context)
            },
            _ => Multiset::empty(),
        }
    }

    open spec fn calls_left(self) -> nat {
        match self {
            CreateContext::Shared | CreateContext::Plain => 1,
            CreateContext::ContextOf { .. } | CreateContext::Wrapped { .. } => 0,
        }
    }

    open spec fn resumes_to(self, reply: Reply, step: Step<Self, Self::Output>) -> bool {
        &&& reply matches Reply::Reference(raw)
        &&& match self {
            CreateContext::Shared => {
                &&& step matches Step::Pending(pending)
                &&& pending.call == Call::ThreadSafeContextGetContext { context: raw }
                &&& pending.next == CreateContext::ContextOf { context: raw }
            },
            CreateContext::ContextOf { context } => {
                &&& step matches Step::Done(created)
                &&& created.raw() == context
                &&& created.llvm_context() == raw
            },
            CreateContext::Plain => {
                &&& step matches Step::Pending(pending)
                &&& pending.call == Call::CreateNewThreadSafeContextFromLLVMContext {
                    llvm_context: raw,
                }
                &&& pending.next == CreateContext::Wrapped { llvm_context: raw }
            },
            CreateContext::Wrapped { llvm_context } => {
                &&& step matches Step::Done(created)
                &&& created.raw() == raw
                &&& created.llvm_context() == llvm_context
            },
        }
    }

    proof fn goes_on_well(self, call: Call, reply: Reply, step: Step<Self, Self::Output>) {
        if let Step::Done(output) = step {
            assert(self.held().add(call.creates(reply)) == output.owned());
        }
    }

    fn check(&self, reply: &Reply) -> (fits: bool) {
        match (self, reply) {
            (CreateContext::ContextOf { context: known }, Reply::Reference(raw))
            | (CreateContext::Wrapped { llvm_context: known }, Reply::Reference(raw)) => {
                *raw != 0 && *known != 0
            },
            (_, Reply::Reference(raw)) => *raw != 0,
            _ => false,
        }
    }

    fn resume(self, reply: Reply) -> (step: Step<Self, Self::Output>) {
        match (self, reply) {
            (CreateContext::Shared, Reply::Reference(raw)) => {
                let call = Call::ThreadSafeContextGetContext { context: raw };
                Step::Pending(Pending { call, next: CreateContext::ContextOf { context: raw } })
            },
            (CreateContext::ContextOf { context }, Reply::Reference(raw)) => {
                Step::Done(ThreadSafeContext { raw: context, llvm_ctx: raw })
            },
            (CreateContext::Plain, Reply::Reference(raw)) => {
                let call = Call::CreateNewThreadSafeContextFromLLVMContext { llvm_context: raw };
                Step::Pending(Pending { call, next: CreateContext::Wrapped { llvm_context: raw } })
            },
            (CreateContext::Wrapped { llvm_context }, Reply::Reference(raw)) => {
                Step::Done(ThreadSafeContext { raw, llvm_ctx: llvm_context })
            },
            _ => unreached(),
        }
    }
}

/// Waits for a module to be wrapped.
#[derive(Debug)]
pub enum WrapModule<'m> {
    /// Waits to hear which context `module` belongs to.
    Compare { context: RawRef, llvm_context: RawRef, module: Module<'m> },
    /// Waits for the wrapped module.
    Create,
}

impl<'m> Operation for WrapModule<'m> {
    type Output = Result<ThreadSafeModule, Module<'m>>;

    open spec fn awaits(self, call: Call) -> bool {
        match self {
            WrapModule::Compare { module, .. } => {
                call == Call::GetModuleContext { module: module.raw() }
            },
            WrapModule::Create => call is CreateNewThreadSafeModule,
        }
    }

    open spec fn expects(self, reply: Reply) -> bool {
        &&& reply matches Reply::Reference(raw)
        &&& self is Create ==> raw != 0
    }

    open spec fn held(self) -> Multiset<Resource> {
        match self {
            WrapModule::Compare { module, .. } => module.owned(),
            WrapModule::Create => Multiset::empty(),
        }
    }

    open spec fn calls_left(self) -> nat {
        match self {
            WrapModule::Compare { .. } => 1,
            WrapModule::Create => 0,
        }
    }

    open spec fn resumes_to(self, reply: Reply, step: Step<Self, Self::Output>) -> bool {
        &&& reply matches Reply::Reference(raw)
        &&& match self {
            WrapModule::Compare { context, llvm_context, module } => if raw == llvm_context {
                &&& step matches Step::Pending(pending)
                &&& pending.call == Call::CreateNewThreadSafeModule {
                    module: module.raw(),
                    context,
                }
                &&& pending.next is Create
            } else {
                step == Step::<Self, Self::Output>::Done(Err(module))
            },
            WrapModule::Create => {
                &&& step matches Step::Done(Ok(wrapped))
                &&& wrapped.raw() == raw
            },
        }
    }

    proof fn goes_on_well(self, call: Call, reply: Reply, step: Step<Self, Self::Output>) {
        if let Step::Done(output) = step {
            assert(self.held().add(call.creates(reply)) == output.owned());
        }
    }

    fn check(&self, reply: &Reply) -> (fits: bool) {
        match (self, reply) {
            (WrapModule::Compare { .. }, Reply::Reference(_)) => true,
            (WrapModule::Create, Reply::Reference(raw)) => *raw != 0,
            _ => false,
        }
    }

    fn resume(self, reply: Reply) -> (step: Step<Self, Self::Output>) {
        match (self, reply) {
            (WrapModule::Compare { context, llvm_context, module }, Reply::Reference(raw)) => {
                if raw != llvm_context {
                    return Step::Done(Err(module));
                }
                let call = Call::CreateNewThreadSafeModule { module: module.into_raw(), context };
                Step::Pending(Pending { call, next: WrapModule::Create })
            },
            (WrapModule::Create, Reply::Reference(raw)) => {
                Step::Done(Ok(ThreadSafeModule::wrap(raw)))
            },
            _ => unreached(),
        }
    }
}

/// A module that threads can share.
///
/// It can be reached only through [`with_module_do`](Self::with_module_do), and is
/// consumed by [`LLJit::add_module`](crate::lljit::LLJit::add_module).
#[derive(Debug, PartialEq, Eq, Structural)]
pub struct ThreadSafeModule {
    raw: RawRef,
}

impl Owns for ThreadSafeModule {
    open spec fn owned(&self) -> Multiset<Resource> {
        Resource::of(Some(Kind::ThreadSafeModule), self.raw())
    }
}

impl Reference for ThreadSafeModule {
    closed spec fn raw(&self) -> RawRef {
        self.raw
    }
}

impl Handle for ThreadSafeModule {
    open spec fn kind() -> Option<Kind> {
        Some(Kind::ThreadSafeModule)
    }

    open spec fn never_null() -> bool {
        true
    }

    proof fn owns_its_reference(&self) {
    }

    fn wrap(raw: RawRef) -> (handle: Self) {
        ThreadSafeModule { raw }
    }

    fn rejects_null() -> (answer: bool) {
        true
    }
}

impl ThreadSafeModule {
    #[verifier::type_invariant]
    spec fn is_not_null(self) -> bool {
        self.raw != 0
    }

    /// Runs a callback on the module inside, under the lock of its context.
    ///
    /// The callback must not keep the module.
    pub fn with_module_do(&self, f: Callback, ctx: RawRef) -> (operation: Pending<Check>)
        ensures
            operation.call == (Call::ThreadSafeModuleWithModuleDo {
                module: self.raw(),
                operation: f,
                ctx,
            }),
            operation.next.phase is Status,
            operation.wf(),
            operation.owned() == Multiset::<Resource>::empty(),
    {
        let call = Call::ThreadSafeModuleWithModuleDo {
            module: self.raw,
            operation: f,
            ctx,
        };
        Pending { call, next: Check { phase: Phase::Status } }
    }

    /// Disposes of the module.
    pub fn drop(self) -> (operation: Pending<Finish>)
        ensures
            operation.call == (Call::DisposeThreadSafeModule { module: self.raw() }),
            operation.wf(),
            operation.owned() == self.owned(),
    {
        Pending { call: Call::DisposeThreadSafeModule { module: self.raw }, next: Finish }
    }

    /// Gives the reference to LLVM.
    pub(crate) fn into_raw(self) -> (raw: RawRef)
        ensures
            raw == self.raw(),
    {
        self.raw
    }

    /// The reference. It is not the receiver's to dispose of.
    pub fn as_raw(&self) -> (raw: RawRef)
        ensures
            raw == self.raw(),
            raw != 0,
    {
        proof {
            use_type_invariant(self);
        }
        self.raw
    }
}

} // verus!
