//! The requests that the library makes of LLVM, the replies that it takes, and
//! who is responsible for what around each of them.

use crate::text::CText;
use vstd::multiset::Multiset;
use vstd::prelude::*;

verus! {

/// The address of an LLVM object; zero is the null reference.
pub type RawRef = usize;

/// The address of a C function that LLVM will call; zero where a function may be
/// left out and is.
pub type Callback = usize;

/// Which rules a symbol search follows: static linking's or `dlsym`'s.
#[derive(Debug, Clone, Copy, PartialEq, Eq)]
pub enum LookupKind {
    Static,
    DLSym,
}

/// An array of symbol dependence groups, which LLVM takes from release 19 on.
#[derive(Debug, Clone, Copy, PartialEq, Eq)]
pub struct DependenceGroups {
    pub start: RawRef,
    pub len: usize,
}

/// What a reference can make its holder responsible for.
#[derive(Debug, Clone, Copy, PartialEq, Eq)]
pub enum Kind {
    Context,
    ThreadSafeContext,
    Module,
    ThreadSafeModule,
    Error,
    Message,
    SymbolStringPoolEntry,
    ResourceTracker,
    DefinitionGenerator,
    MaterializationUnit,
    MaterializationResponsibility,
    SymbolFlagsMap,
    Symbols,
    TargetMachine,
    JitTargetMachineBuilder,
    MemoryBuffer,
    ObjectLayer,
    IndirectStubsManager,
    LazyCallThroughManager,
    DumpObjects,
    LookupState,
    LLJitBuilder,
    LLJit,
}

/// One responsibility: the duty to dispose of, release or hand on one reference.
pub struct Resource {
    pub kind: Kind,
    pub raw: RawRef,
}

impl Resource {
    /// The responsibility for one reference: none where the kind is `None`.
    pub open spec fn of(kind: Option<Kind>, raw: RawRef) -> Multiset<Resource> {
        match kind {
            Some(kind) => Multiset::singleton(Resource { kind, raw }),
            None => Multiset::empty(),
        }
    }

    /// The responsibility for an error: none where it is null, which stands for
    /// success.
    pub open spec fn of_error(error: RawRef) -> Multiset<Resource> {
        if error == 0 {
            Multiset::empty()
        } else {
            Resource::of(Some(Kind::Error), error)
        }
    }
}

/// To add no responsibility on the right changes nothing.
pub broadcast proof fn lemma_adding_nothing_right(held: Multiset<Resource>)
    ensures
        #[trigger] held.add(Multiset::empty()) == held,
{
    assert(held.add(Multiset::empty()) =~= held);
}

/// To add no responsibility on the left changes nothing.
pub broadcast proof fn lemma_adding_nothing_left(held: Multiset<Resource>)
    ensures
        #[trigger] Multiset::empty().add(held) == held,
{
    assert(Multiset::empty().add(held) =~= held);
}

pub broadcast group group_adding_nothing {
    lemma_adding_nothing_right,
    lemma_adding_nothing_left,
}

/// A request to LLVM's C interface. Each variant has the name of the C function
/// without its `LLVM` or `LLVMOrc`, and its arguments but for those through
/// which the function returns something.
///
/// `PrintWarning` asks for one line on the standard error stream.
#[derive(Debug, PartialEq, Eq)]
pub enum Call {
    CreateNewThreadSafeContext,
    ThreadSafeContextGetContext { context: RawRef },
    ContextCreate,
    CreateNewThreadSafeContextFromLLVMContext { llvm_context: RawRef },
    DisposeThreadSafeContext { context: RawRef },
    GetModuleContext { module: RawRef },
    CreateNewThreadSafeModule { module: RawRef, context: RawRef },
    DisposeThreadSafeModule { module: RawRef },
    ThreadSafeModuleWithModuleDo { module: RawRef, operation: Callback, ctx: RawRef },
    GetErrorMessage { error: RawRef },
    DisposeErrorMessage { message: RawRef },
    DisposeMessage { message: RawRef },
    PrintWarning { line: String },
    ExecutionSessionIntern { session: RawRef, name: CText },
    ExecutionSessionSetErrorReporter { session: RawRef, report_error: Callback, ctx: RawRef },
    ExecutionSessionGetSymbolStringPool { session: RawRef },
    ExecutionSessionCreateBareJITDylib { session: RawRef, name: CText },
    ExecutionSessionCreateJITDylib { session: RawRef, name: CText },
    ExecutionSessionGetJITDylibByName { session: RawRef, name: CText },
    ExecutionSessionLookup {
        session: RawRef,
        kind: LookupKind,
        search_order: RawRef,
        search_order_size: usize,
        symbols: RawRef,
        symbols_size: usize,
        handle_result: Callback,
        ctx: RawRef,
    },
    SymbolStringPoolClearDeadEntries { pool: RawRef },
    SymbolStringPoolEntryStr { entry: RawRef },
    RetainSymbolStringPoolEntry { entry: RawRef },
    ReleaseSymbolStringPoolEntry { entry: RawRef },
    JITDylibCreateResourceTracker { dylib: RawRef },
    JITDylibGetDefaultResourceTracker { dylib: RawRef },
    JITDylibDefine { dylib: RawRef, unit: RawRef },
    JITDylibClear { dylib: RawRef },
    JITDylibAddGenerator { dylib: RawRef, generator: RawRef },
    ResourceTrackerRemove { tracker: RawRef },
    ResourceTrackerTransferTo { source: RawRef, target: RawRef },
    ReleaseResourceTracker { tracker: RawRef },
    CreateDynamicLibrarySearchGeneratorForProcess {
        global_prefix: u8,
        filter: Option<Callback>,
        filter_ctx: RawRef,
    },
    CreateDynamicLibrarySearchGeneratorForPath {
        file_name: CText,
        global_prefix: u8,
        filter: Option<Callback>,
        filter_ctx: RawRef,
    },
    CreateStaticLibrarySearchGeneratorForPath {
        object_layer: RawRef,
        file_name: CText,
        target_triple: CText,
    },
    CreateCustomCAPIDefinitionGenerator {
        try_to_generate: Callback,
        ctx: RawRef,
        dispose: Callback,
    },
    DisposeDefinitionGenerator { generator: RawRef },
    AbsoluteSymbols { syms: RawRef, num_pairs: usize },
    LazyReexports {
        call_through_manager: RawRef,
        stubs_manager: RawRef,
        source: RawRef,
        callable_aliases: RawRef,
        num_pairs: usize,
    },
    CreateCustomMaterializationUnit {
        name: CText,
        ctx: RawRef,
        syms: RawRef,
        num_syms: usize,
        init_sym: RawRef,
        materialize: Callback,
        discard: Callback,
        destroy: Callback,
    },
    DisposeMaterializationUnit { unit: RawRef },
    MaterializationResponsibilityGetTargetDylib { responsibility: RawRef },
    MaterializationResponsibilityGetExecutionSession { responsibility: RawRef },
    MaterializationResponsibilityGetSymbols { responsibility: RawRef },
    MaterializationResponsibilityGetInitializerSymbol { responsibility: RawRef },
    MaterializationResponsibilityGetRequestedSymbols { responsibility: RawRef },
    MaterializationResponsibilityNotifyResolved {
        responsibility: RawRef,
        symbols: RawRef,
        num_pairs: usize,
    },
    MaterializationResponsibilityNotifyEmitted {
        responsibility: RawRef,
        groups: Option<DependenceGroups>,
    },
    MaterializationResponsibilityDefineMaterializing {
        responsibility: RawRef,
        pairs: RawRef,
        num_pairs: usize,
    },
    MaterializationResponsibilityFailMaterialization { responsibility: RawRef },
    MaterializationResponsibilityReplace { responsibility: RawRef, unit: RawRef },
    MaterializationResponsibilityDelegate {
        responsibility: RawRef,
        symbols: RawRef,
        num_symbols: usize,
    },
    DisposeMaterializationResponsibility { responsibility: RawRef },
    DisposeCSymbolFlagsMap { pairs: RawRef },
    DisposeSymbols { symbols: RawRef },
    JITTargetMachineBuilderDetectHost,
    JITTargetMachineBuilderCreateFromTargetMachine { machine: RawRef },
    JITTargetMachineBuilderGetTargetTriple { builder: RawRef },
    JITTargetMachineBuilderSetTargetTriple { builder: RawRef, triple: CText },
    DisposeJITTargetMachineBuilder { builder: RawRef },
    ObjectLayerAddObjectFile { layer: RawRef, dylib: RawRef, buffer: RawRef },
    ObjectLayerAddObjectFileWithRT { layer: RawRef, tracker: RawRef, buffer: RawRef },
    ObjectLayerEmit { layer: RawRef, responsibility: RawRef, buffer: RawRef },
    IRTransformLayerSetTransform { layer: RawRef, transform: Callback, ctx: RawRef },
    IRTransformLayerEmit { layer: RawRef, responsibility: RawRef, module: RawRef },
    ObjectTransformLayerSetTransform { layer: RawRef, transform: Callback, ctx: RawRef },
    CreateRTDyldObjectLinkingLayerWithSectionMemoryManager { session: RawRef },
    CreateRTDyldObjectLinkingLayerWithMCJITMemoryManagerLikeCallbacks {
        session: RawRef,
        create_context: Callback,
        notify_terminating: Callback,
        allocate_code_section: Callback,
        allocate_data_section: Callback,
        finalize_memory: Callback,
        destroy: Callback,
    },
    RTDyldObjectLinkingLayerRegisterJITEventListener { layer: RawRef, listener: RawRef },
    CreateLocalIndirectStubsManager { target_triple: CText },
    DisposeIndirectStubsManager { manager: RawRef },
    CreateLocalLazyCallThroughManager {
        target_triple: CText,
        session: RawRef,
        error_handler_addr: u64,
    },
    DisposeLazyCallThroughManager { manager: RawRef },
    CreateDumpObjects { dump_dir: CText, identifier_override: CText },
    DumpObjectsCallOperator { dump: RawRef, buffer: RawRef },
    DisposeDumpObjects { dump: RawRef },
    LookupStateContinueLookup { state: RawRef, error: RawRef },
    CreateLLJITBuilder,
    LLJITBuilderSetJITTargetMachineBuilder { builder: RawRef, target: RawRef },
    LLJITBuilderSetObjectLinkingLayerCreator { builder: RawRef, creator: Callback, ctx: RawRef },
    DisposeLLJITBuilder { builder: RawRef },
    CreateLLJIT { builder: RawRef },
    DisposeLLJIT { jit: RawRef },
    LLJITGetExecutionSession { jit: RawRef },
    LLJITGetMainJITDylib { jit: RawRef },
    LLJITGetTripleString { jit: RawRef },
    LLJITGetGlobalPrefix { jit: RawRef },
    LLJITGetDataLayoutStr { jit: RawRef },
    LLJITMangleAndIntern { jit: RawRef, name: CText },
    LLJITAddLLVMIRModule { jit: RawRef, dylib: RawRef, module: RawRef },
    LLJITAddLLVMIRModuleWithRT { jit: RawRef, tracker: RawRef, module: RawRef },
    LLJITAddObjectFile { jit: RawRef, dylib: RawRef, buffer: RawRef },
    LLJITAddObjectFileWithRT { jit: RawRef, tracker: RawRef, buffer: RawRef },
    LLJITLookup { jit: RawRef, name: CText },
    LLJITGetObjLinkingLayer { jit: RawRef },
    LLJITGetObjTransformLayer { jit: RawRef },
    LLJITGetIRTransformLayer { jit: RawRef },
}

/// What came back from a request.
#[derive(Debug, PartialEq, Eq)]
pub enum Reply {
    /// The C function returns nothing.
    Nothing,
    /// A reference.
    Reference(RawRef),
    /// An error, null for success.
    Status(RawRef),
    /// An error, null for success, and the reference that was written in case
    /// of success.
    Opened { error: RawRef, out: RawRef },
    /// An error, null for success, and the address that was written in case of
    /// success.
    Address { error: RawRef, address: u64 },
    /// A null-terminated string: where it starts, and the bytes before its
    /// terminator.
    Text { start: RawRef, bytes: Vec<u8> },
    /// A C character.
    Character(u8),
    /// An array: where it starts, and its length.
    Array { start: RawRef, len: usize },
}

/// The form of the reply to a request, with the kind of the reference in it
/// where it makes the receiver responsible for something.
pub enum Answer {
    Nothing,
    /// Nothing comes back, but the caller has one more share in what it named.
    Retained,
    Reference(Option<Kind>),
    Status,
    Opened(Option<Kind>),
    Address,
    Text(Option<Kind>),
    Character,
    Array(Kind),
}

impl Call {
    /// The form of the reply.
    pub open spec fn answer(self) -> Answer {
        match self {
            Call::CreateNewThreadSafeContext
            | Call::CreateNewThreadSafeContextFromLLVMContext { .. } => {
                Answer::Reference(Some(Kind::ThreadSafeContext))
            },
            Call::ThreadSafeContextGetContext { .. }
            | Call::GetModuleContext { .. }
            | Call::ExecutionSessionGetSymbolStringPool { .. }
            | Call::ExecutionSessionCreateBareJITDylib { .. }
            | Call::ExecutionSessionGetJITDylibByName { .. }
            | Call::MaterializationResponsibilityGetTargetDylib { .. }
            | Call::MaterializationResponsibilityGetExecutionSession { .. }
            | Call::MaterializationResponsibilityGetInitializerSymbol { .. }
            | Call::LLJITGetExecutionSession { .. }
            | Call::LLJITGetMainJITDylib { .. }
            | Call::LLJITGetObjLinkingLayer { .. }
            | Call::LLJITGetObjTransformLayer { .. }
            | Call::LLJITGetIRTransformLayer { .. } => Answer::Reference(None),
            Call::ContextCreate => Answer::Reference(Some(Kind::Context)),
            Call::CreateNewThreadSafeModule { .. } => {
                Answer::Reference(Some(Kind::ThreadSafeModule))
            },
            Call::ThreadSafeModuleWithModuleDo { .. }
            | Call::JITDylibDefine { .. }
            | Call::JITDylibClear { .. }
            | Call::ResourceTrackerRemove { .. }
            | Call::MaterializationResponsibilityNotifyResolved { .. }
            | Call::MaterializationResponsibilityNotifyEmitted { .. }
            | Call::MaterializationResponsibilityDefineMaterializing { .. }
            | Call::MaterializationResponsibilityReplace { .. }
            | Call::ObjectLayerAddObjectFile { .. }
            | Call::ObjectLayerAddObjectFileWithRT { .. }
            | Call::DumpObjectsCallOperator { .. }
            | Call::DisposeLLJIT { .. }
            | Call::LLJITAddLLVMIRModule { .. }
            | Call::LLJITAddLLVMIRModuleWithRT { .. }
            | Call::LLJITAddObjectFile { .. }
            | Call::LLJITAddObjectFileWithRT { .. } => Answer::Status,
            Call::GetErrorMessage { .. }
            | Call::JITTargetMachineBuilderGetTargetTriple { .. } => {
                Answer::Text(Some(Kind::Message))
            },
            Call::ExecutionSessionIntern { .. }
            | Call::LLJITMangleAndIntern { .. } => {
                Answer::Reference(Some(Kind::SymbolStringPoolEntry))
            },
            Call::ExecutionSessionCreateJITDylib { .. } => Answer::Opened(None),
            Call::SymbolStringPoolEntryStr { .. }
            | Call::LLJITGetTripleString { .. }
            | Call::LLJITGetDataLayoutStr { .. } => Answer::Text(None),
            Call::JITDylibCreateResourceTracker { .. }
            | Call::JITDylibGetDefaultResourceTracker { .. } => {
                Answer::Reference(Some(Kind::ResourceTracker))
            },
            Call::CreateDynamicLibrarySearchGeneratorForProcess { .. }
            | Call::CreateDynamicLibrarySearchGeneratorForPath { .. }
            | Call::CreateStaticLibrarySearchGeneratorForPath { .. } => {
                Answer::Opened(Some(Kind::DefinitionGenerator))
            },
            Call::CreateCustomCAPIDefinitionGenerator { .. } => {
                Answer::Reference(Some(Kind::DefinitionGenerator))
            },
            Call::AbsoluteSymbols { .. }
            | Call::LazyReexports { .. }
            | Call::CreateCustomMaterializationUnit { .. } => {
                Answer::Reference(Some(Kind::MaterializationUnit))
            },
            Call::MaterializationResponsibilityGetSymbols { .. } => {
                Answer::Array(Kind::SymbolFlagsMap)
            },
            Call::MaterializationResponsibilityGetRequestedSymbols { .. } => {
                Answer::Array(Kind::Symbols)
            },
            Call::MaterializationResponsibilityDelegate { .. } => {
                Answer::Opened(Some(Kind::MaterializationResponsibility))
            },
            Call::JITTargetMachineBuilderDetectHost => {
                Answer::Opened(Some(Kind::JitTargetMachineBuilder))
            },
            Call::JITTargetMachineBuilderCreateFromTargetMachine { .. } => {
                Answer::Reference(Some(Kind::JitTargetMachineBuilder))
            },
            Call::CreateRTDyldObjectLinkingLayerWithSectionMemoryManager { .. }
            | Call::CreateRTDyldObjectLinkingLayerWithMCJITMemoryManagerLikeCallbacks { .. } => {
                Answer::Reference(Some(Kind::ObjectLayer))
            },
            Call::CreateLocalIndirectStubsManager { .. } => {
                Answer::Reference(Some(Kind::IndirectStubsManager))
            },
            Call::CreateLocalLazyCallThroughManager { .. } => {
                Answer::Opened(Some(Kind::LazyCallThroughManager))
            },
            Call::CreateDumpObjects { .. } => Answer::Reference(Some(Kind::DumpObjects)),
            Call::CreateLLJITBuilder => Answer::Reference(Some(Kind::LLJitBuilder)),
            Call::CreateLLJIT { .. } => Answer::Opened(Some(Kind::LLJit)),
            Call::LLJITGetGlobalPrefix { .. } => Answer::Character,
            Call::LLJITLookup { .. } => Answer::Address,
            Call::RetainSymbolStringPoolEntry { .. } => Answer::Retained,
            _ => Answer::Nothing,
        }
    }

    /// What the caller gives up with the request, whatever the reply.
    ///
    /// A thing that LLVM takes and then refuses is given up too: no caller gets
    /// it back.
    pub open spec fn consumes(self) -> Multiset<Resource> {
        match self {
            Call::CreateNewThreadSafeContextFromLLVMContext { llvm_context } => {
                Resource::of(Some(Kind::Context), llvm_context)
            },
            Call::DisposeThreadSafeContext { context } => {
                Resource::of(Some(Kind::ThreadSafeContext), context)
            },
            Call::CreateNewThreadSafeModule { module, .. } => {
                Resource::of(Some(Kind::Module), module)
            },
            Call::DisposeThreadSafeModule { module } => {
                Resource::of(Some(Kind::ThreadSafeModule), module)
            },
            Call::GetErrorMessage { error } => Resource::of(Some(Kind::Error), error),
            Call::DisposeErrorMessage { message } => Resource::of(Some(Kind::Message), message),
            Call::DisposeMessage { message } => Resource::of(Some(Kind::Message), message),
            Call::ReleaseSymbolStringPoolEntry { entry } => {
                Resource::of(Some(Kind::SymbolStringPoolEntry), entry)
            },
            Call::JITDylibDefine { unit, .. } => {
                Resource::of(Some(Kind::MaterializationUnit), unit)
            },
            Call::JITDylibAddGenerator { generator, .. } => {
                Resource::of(Some(Kind::DefinitionGenerator), generator)
            },
            Call::ReleaseResourceTracker { tracker } => {
                Resource::of(Some(Kind::ResourceTracker), tracker)
            },
            Call::DisposeDefinitionGenerator { generator } => {
                Resource::of(Some(Kind::DefinitionGenerator), generator)
            },
            Call::DisposeMaterializationUnit { unit } => {
                Resource::of(Some(Kind::MaterializationUnit), unit)
            },
            Call::MaterializationResponsibilityFailMaterialization { responsibility } => {
                Resource::of(Some(Kind::MaterializationResponsibility), responsibility)
            },
            Call::MaterializationResponsibilityReplace { unit, .. } => {
                Resource::of(Some(Kind::MaterializationUnit), unit)
            },
            Call::DisposeMaterializationResponsibility { responsibility } => {
                Resource::of(Some(Kind::MaterializationResponsibility), responsibility)
            },
            Call::DisposeCSymbolFlagsMap { pairs } => {
                Resource::of(Some(Kind::SymbolFlagsMap), pairs)
            },
            Call::DisposeSymbols { symbols } => Resource::of(Some(Kind::Symbols), symbols),
            Call::JITTargetMachineBuilderCreateFromTargetMachine { machine } => {
                Resource::of(Some(Kind::TargetMachine), machine)
            },
            Call::DisposeJITTargetMachineBuilder { builder } => {
                Resource::of(Some(Kind::JitTargetMachineBuilder), builder)
            },
            Call::ObjectLayerAddObjectFile { buffer, .. } => {
                Resource::of(Some(Kind::MemoryBuffer), buffer)
            },
            Call::ObjectLayerAddObjectFileWithRT { buffer, .. } => {
                Resource::of(Some(Kind::MemoryBuffer), buffer)
            },
            Call::ObjectLayerEmit { responsibility, buffer, .. } =>
                Resource::of(Some(Kind::MaterializationResponsibility), responsibility).add(
                    Resource::of(Some(Kind::MemoryBuffer), buffer),
                ),
            Call::IRTransformLayerEmit { responsibility, module, .. } =>
                Resource::of(Some(Kind::MaterializationResponsibility), responsibility).add(
                    Resource::of(Some(Kind::ThreadSafeModule), module),
                ),
            Call::DisposeIndirectStubsManager { manager } => {
                Resource::of(Some(Kind::IndirectStubsManager), manager)
            },
            Call::DisposeLazyCallThroughManager { manager } => {
                Resource::of(Some(Kind::LazyCallThroughManager), manager)
            },
            Call::DisposeDumpObjects { dump } => Resource::of(Some(Kind::DumpObjects), dump),
            Call::LookupStateContinueLookup { state, error } => {
                Resource::of(Some(Kind::LookupState), state).add(Resource::of_error(error))
            },
            Call::LLJITBuilderSetJITTargetMachineBuilder { target, .. } => {
                Resource::of(Some(Kind::JitTargetMachineBuilder), target)
            },
            Call::DisposeLLJITBuilder { builder } => {
                Resource::of(Some(Kind::LLJitBuilder), builder)
            },
            Call::CreateLLJIT { builder } => Resource::of(Some(Kind::LLJitBuilder), builder),
            Call::DisposeLLJIT { jit } => Resource::of(Some(Kind::LLJit), jit),
            Call::LLJITAddLLVMIRModule { module, .. } => {
                Resource::of(Some(Kind::ThreadSafeModule), module)
            },
            Call::LLJITAddLLVMIRModuleWithRT { module, .. } => {
                Resource::of(Some(Kind::ThreadSafeModule), module)
            },
            Call::LLJITAddObjectFile { buffer, .. } => {
                Resource::of(Some(Kind::MemoryBuffer), buffer)
            },
            Call::LLJITAddObjectFileWithRT { buffer, .. } => {
                Resource::of(Some(Kind::MemoryBuffer), buffer)
            },
            _ => Multiset::empty(),
        }
    }

    /// What the reply makes the caller responsible for.
    pub open spec fn creates(self, reply: Reply) -> Multiset<Resource> {
        match (self.answer(), reply) {
            (Answer::Reference(kind), Reply::Reference(raw)) => Resource::of(kind, raw),
            (Answer::Status, Reply::Status(error)) => Resource::of_error(error),
            (Answer::Opened(kind), Reply::Opened { error, out }) => if error == 0 {
                Resource::of(kind, out)
            } else {
                Resource::of_error(error)
            },
            (Answer::Address, Reply::Address { error, .. }) => Resource::of_error(error),
            (Answer::Text(kind), Reply::Text { start, .. }) => Resource::of(kind, start),
            (Answer::Array(kind), Reply::Array { start, .. }) => Resource::of(Some(kind), start),
            (Answer::Retained, Reply::Nothing) => match self {
                Call::RetainSymbolStringPoolEntry { entry } =>
                    Resource::of(Some(Kind::SymbolStringPoolEntry), entry),
                _ => Multiset::empty(),
            },
            _ => Multiset::empty(),
        }
    }
}

} // verus!
