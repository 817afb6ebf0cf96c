//! The request that each operation starts with, and what it makes of each reply.

use orc2::call::{Call, DependenceGroups, Kind, LookupKind, Reply};
use orc2::context::{Module, ThreadSafeContext, ThreadSafeModule, WrapModule};
use orc2::dump::DumpObjects;
use orc2::dylib::{prefix_byte, DefinitionGenerator, JitDylib, ResourceTracker};
use orc2::error::{into_result, Check, Phase};
use orc2::layer::{
    create_rtdyld_object_linking_layer_with_callbacks,
    create_rtdyld_object_linking_layer_with_section_memory_manager,
    rtdyld_object_linking_layer_register_jit_event_listener, IRTransformLayer, MemoryBuffer,
    ObjectLayer, ObjectTransformLayer, RawObjectLayer,
};
use orc2::lazy::{IndirectStubsManager, LazyCallThroughManager, LookupState};
use orc2::lljit::{GetFunction, LLJit, LLJitBuilder};
use orc2::materialization::{
    absolute_symbols, custom_materialization_unit, dispose_symbol_flags_map, dispose_symbols,
    lazy_reexports, MaterializationResponsibility, MaterializationUnit,
};
use orc2::operation::{Handle, Operation, Pending, Step};
use orc2::session::{ExecutionSession, SymbolStringPool, SymbolStringPoolEntry};
use orc2::target::JitTargetMachineBuilder;
use orc2::text::to_c_str;

fn done<K: Operation>(operation: Pending<K>, reply: Reply) -> K::Output {
    assert!(operation.next.check(&reply));
    match operation.next.resume(reply) {
        Step::Done(output) => output,
        Step::Pending(pending) => panic!("one more request: {:?}", pending.call),
    }
}

fn more<K: Operation>(operation: Pending<K>, reply: Reply) -> Pending<K> {
    assert!(operation.next.check(&reply));
    match operation.next.resume(reply) {
        Step::Done(_) => panic!("done"),
        Step::Pending(pending) => pending,
    }
}

fn text(start: usize, text: &str) -> Reply {
    Reply::Text { start, bytes: text.as_bytes().to_vec() }
}

fn context() -> ThreadSafeContext {
    let shared = more(ThreadSafeContext::create(18), Reply::Reference(1));
    assert_eq!(shared.call, Call::ThreadSafeContextGetContext { context: 1 });
    done(shared, Reply::Reference(2))
}

#[test]
fn errors_become_results() {
    match into_result(0) {
        Step::Done(result) => assert!(result.is_ok()),
        Step::Pending(pending) => panic!("{:?}", pending),
    }
    match into_result(5) {
        Step::Pending(pending) => {
            assert_eq!(pending.call, Call::GetErrorMessage { error: 5 });
            let message = done(pending, text(6, "broken")).unwrap_err();
            assert_eq!(message.to_string(), "broken");
            let operation = message.drop();
            assert_eq!(operation.call, Call::DisposeMessage { message: 6 });
            done(operation, Reply::Nothing);
        }
        Step::Done(result) => panic!("{:?}", result),
    }
}

#[test]
fn replies_of_another_form_are_told_apart() {
    let status = Check { phase: Phase::Status };
    assert!(status.check(&Reply::Status(3)));
    assert!(!status.check(&Reply::Reference(3)));
    assert!(!status.check(&text(1, "")));
    let message = Check { phase: Phase::Message };
    assert!(message.check(&text(1, "")));
    assert!(!message.check(&Reply::Status(3)));
}

#[test]
fn null_is_refused_where_llvm_always_gives_something() {
    let jit = LLJit::wrap(1);
    let null = Reply::Reference(0);
    assert!(!jit.main_jit_dylib().next.check(&null));
    assert!(!jit.execution_session().next.check(&null));
    assert!(!jit.get_obj_linking_layer().next.check(&null));
    assert!(!jit.get_obj_transform_layer().next.check(&null));
    assert!(!jit.get_ir_transform_layer().next.check(&null));
    assert!(!LLJitBuilder::create().next.check(&null));
    assert!(!LLJit::create().next.check(&null));
    assert!(!JitDylib::wrap(1).create_resource_tracker().next.check(&null));
    assert!(!JitDylib::wrap(1).get_default_resource_tracker().next.check(&null));
    assert!(!ExecutionSession::wrap(1).create_bare_jit_dylib("x").next.check(&null));
    assert!(!ThreadSafeContext::create(18).next.check(&null));
    assert!(!ThreadSafeContext::create(22).next.check(&null));
    assert!(!context().wrap_module(4).next.check(&null));
    let opened = Reply::Opened { error: 0, out: 0 };
    assert!(!ExecutionSession::wrap(1).create_jit_dylib("x").next.check(&opened));
    assert!(!LLJitBuilder::wrap(1).build().next.check(&opened));
    assert!(ExecutionSession::wrap(1).intern("x").next.check(&null));
    assert!(DefinitionGenerator::for_process('_').next.check(&opened));
}

#[test]
fn null_may_come_with_an_error() {
    let refused = Reply::Opened { error: 9, out: 0 };
    let operation = more(LLJitBuilder::wrap(1).build(), refused);
    assert_eq!(operation.call, Call::GetErrorMessage { error: 9 });
    assert!(done(operation, text(2, "no")).is_err());
}

#[test]
fn contexts_and_modules() {
    let context = context();
    assert_eq!(context.as_raw(), 1);
    assert_eq!(context.context().as_raw(), 2);

    let operation = context.create_thread_safe_module(Module::wrap(7));
    assert_eq!(operation.call, Call::GetModuleContext { module: 7 });
    assert!(matches!(operation.next, WrapModule::Compare { .. }));
    let operation = more(operation, Reply::Reference(2));
    assert_eq!(operation.call, Call::CreateNewThreadSafeModule { module: 7, context: 1 });
    assert!(!operation.next.check(&Reply::Reference(0)));
    assert_eq!(done(operation, Reply::Reference(8)).unwrap().as_raw(), 8);

    let operation = context.create_thread_safe_module(Module::wrap(7));
    let module = done(operation, Reply::Reference(3)).unwrap_err();
    assert_eq!(module.as_raw(), 7);
    let operation = context.create_thread_safe_module(module);
    assert!(done(operation, Reply::Reference(0)).is_err());

    let operation = context.wrap_module(7);
    assert_eq!(operation.call, Call::CreateNewThreadSafeModule { module: 7, context: 1 });
    let module = done(operation, Reply::Reference(8));
    assert_eq!(module, ThreadSafeModule::wrap(8));
    let operation = module.with_module_do(11, 12);
    let call = Call::ThreadSafeModuleWithModuleDo { module: 8, operation: 11, ctx: 12 };
    assert_eq!(operation.call, call);
    assert!(done(operation, Reply::Status(0)).is_ok());
    assert_eq!(module.drop().call, Call::DisposeThreadSafeModule { module: 8 });
    assert_eq!(context.drop().call, Call::DisposeThreadSafeContext { context: 1 });
}

#[test]
fn sessions() {
    let session = ExecutionSession::wrap(1);
    assert_eq!(session.as_raw(), 1);
    let operation = session.intern("a\0b");
    assert_eq!(operation.call, Call::ExecutionSessionIntern { session: 1, name: to_c_str("a") });
    assert_eq!(done(operation, Reply::Reference(2)).as_raw(), 2);

    let operation = session.set_error_reporter(3, 4);
    let call = Call::ExecutionSessionSetErrorReporter { session: 1, report_error: 3, ctx: 4 };
    assert_eq!(operation.call, call);
    done(operation, Reply::Nothing);

    let operation = session.get_symbol_string_pool();
    assert_eq!(operation.call, Call::ExecutionSessionGetSymbolStringPool { session: 1 });
    let pool = done(operation, Reply::Reference(5));
    assert_eq!(pool, SymbolStringPool::wrap(5));
    let operation = pool.clear_dead_entries();
    assert_eq!(operation.call, Call::SymbolStringPoolClearDeadEntries { pool: 5 });

    let operation = session.create_bare_jit_dylib("bare");
    let call = Call::ExecutionSessionCreateBareJITDylib { session: 1, name: to_c_str("bare") };
    assert_eq!(operation.call, call);
    assert_eq!(done(operation, Reply::Reference(6)), JitDylib::wrap(6));

    let operation = session.create_jit_dylib("lib");
    let call = Call::ExecutionSessionCreateJITDylib { session: 1, name: to_c_str("lib") };
    assert_eq!(operation.call, call);
    assert_eq!(done(operation, Reply::Opened { error: 0, out: 7 }).unwrap(), JitDylib::wrap(7));

    let operation = session.get_jit_dylib_by_name("lib");
    let call = Call::ExecutionSessionGetJITDylibByName { session: 1, name: to_c_str("lib") };
    assert_eq!(operation.call, call);
    assert_eq!(done(operation, Reply::Reference(7)), Some(JitDylib::wrap(7)));
    assert_eq!(done(session.get_jit_dylib_by_name("lib"), Reply::Reference(0)), None);

    let operation = session.lookup(LookupKind::Static, 10, 11, 12, 13, 14, 15);
    assert_eq!(
        operation.call,
        Call::ExecutionSessionLookup {
            session: 1,
            kind: LookupKind::Static,
            search_order: 10,
            search_order_size: 11,
            symbols: 12,
            symbols_size: 13,
            handle_result: 14,
            ctx: 15,
        }
    );
    done(operation, Reply::Nothing);
}

#[test]
fn pool_entries() {
    let entry = SymbolStringPoolEntry::wrap(1);
    let operation = entry.as_str();
    assert_eq!(operation.call, Call::SymbolStringPoolEntryStr { entry: 1 });
    assert_eq!(done(operation, text(2, "main")), "main");
    assert!(!entry.as_str().next.check(&Reply::Text { start: 2, bytes: vec![0xff] }));
    let operation = entry.clone();
    assert_eq!(operation.call, Call::RetainSymbolStringPoolEntry { entry: 1 });
    assert_eq!(done(operation, Reply::Nothing).as_raw(), 1);
    assert_eq!(entry.drop().call, Call::ReleaseSymbolStringPoolEntry { entry: 1 });
}

#[test]
fn libraries_and_trackers() {
    let dylib = JitDylib::wrap(1);
    assert_eq!(dylib.as_raw(), 1);
    let operation = dylib.create_resource_tracker();
    assert_eq!(operation.call, Call::JITDylibCreateResourceTracker { dylib: 1 });
    assert_eq!(done(operation, Reply::Reference(2)), ResourceTracker::wrap(2));
    let operation = dylib.get_default_resource_tracker();
    assert_eq!(operation.call, Call::JITDylibGetDefaultResourceTracker { dylib: 1 });
    let operation = dylib.define(MaterializationUnit::wrap(3));
    assert_eq!(operation.call, Call::JITDylibDefine { dylib: 1, unit: 3 });
    assert_eq!(dylib.clear().call, Call::JITDylibClear { dylib: 1 });
    let operation = dylib.add_generator(DefinitionGenerator::wrap(4));
    assert_eq!(operation.call, Call::JITDylibAddGenerator { dylib: 1, generator: 4 });

    let tracker = ResourceTracker::wrap(2);
    assert_eq!(tracker.as_raw(), 2);
    assert_eq!(tracker.remove().call, Call::ResourceTrackerRemove { tracker: 2 });
    let operation = tracker.transfer_to(&ResourceTracker::wrap(5));
    assert_eq!(operation.call, Call::ResourceTrackerTransferTo { source: 2, target: 5 });
    assert_eq!(tracker.drop().call, Call::ReleaseResourceTracker { tracker: 2 });
}

#[test]
fn generators() {
    assert_eq!(prefix_byte('_'), b'_');
    assert_eq!(prefix_byte('\0'), 0);
    assert_eq!(prefix_byte('\u{ff}'), 0xff);
    assert_eq!(prefix_byte('\u{141}'), 0x41);
    assert_eq!(
        DefinitionGenerator::for_process('_').call,
        Call::CreateDynamicLibrarySearchGeneratorForProcess {
            global_prefix: b'_',
            filter: None,
            filter_ctx: 0,
        }
    );
    assert_eq!(
        DefinitionGenerator::for_dynamic_library("libm.so", '\u{141}').call,
        Call::CreateDynamicLibrarySearchGeneratorForPath {
            file_name: to_c_str("libm.so"),
            global_prefix: 0x41,
            filter: None,
            filter_ctx: 0,
        }
    );
    let layer = ObjectLayer::wrap(1);
    assert_eq!(
        DefinitionGenerator::for_static_library(&layer, "libm.a", "x86_64").call,
        Call::CreateStaticLibrarySearchGeneratorForPath {
            object_layer: 1,
            file_name: to_c_str("libm.a"),
            target_triple: to_c_str("x86_64"),
        }
    );
    let operation = DefinitionGenerator::custom(2, 3, 4);
    assert_eq!(
        operation.call,
        Call::CreateCustomCAPIDefinitionGenerator { try_to_generate: 2, ctx: 3, dispose: 4 }
    );
    let generator = done(operation, Reply::Reference(5));
    assert_eq!(generator.drop().call, Call::DisposeDefinitionGenerator { generator: 5 });
}

#[test]
fn units() {
    let operation = absolute_symbols(1, 2);
    assert_eq!(operation.call, Call::AbsoluteSymbols { syms: 1, num_pairs: 2 });
    let unit = done(operation, Reply::Reference(3));
    assert_eq!(unit.as_raw(), 3);
    assert_eq!(unit.drop().call, Call::DisposeMaterializationUnit { unit: 3 });
    let operation = lazy_reexports(
        &LazyCallThroughManager::wrap(1),
        &IndirectStubsManager::wrap(2),
        &JitDylib::wrap(3),
        4,
        5,
    );
    assert_eq!(
        operation.call,
        Call::LazyReexports {
            call_through_manager: 1,
            stubs_manager: 2,
            source: 3,
            callable_aliases: 4,
            num_pairs: 5,
        }
    );
    let operation = custom_materialization_unit("unit", 1, 2, 3, 4, 5, 6, 7);
    assert_eq!(
        operation.call,
        Call::CreateCustomMaterializationUnit {
            name: to_c_str("unit"),
            ctx: 1,
            syms: 2,
            num_syms: 3,
            init_sym: 4,
            materialize: 5,
            discard: 6,
            destroy: 7,
        }
    );
}

#[test]
fn responsibilities() {
    let duty = MaterializationResponsibility::from_raw(1);
    assert_eq!(duty.as_raw(), 1);
    let operation = duty.get_target_dylib();
    let call = Call::MaterializationResponsibilityGetTargetDylib { responsibility: 1 };
    assert_eq!(operation.call, call);
    assert_eq!(done(operation, Reply::Reference(2)), 2);
    let operation = duty.get_execution_session();
    let call = Call::MaterializationResponsibilityGetExecutionSession { responsibility: 1 };
    assert_eq!(operation.call, call);
    let operation = duty.get_initializer_symbol();
    let call = Call::MaterializationResponsibilityGetInitializerSymbol { responsibility: 1 };
    assert_eq!(operation.call, call);
    assert_eq!(done(operation, Reply::Reference(0)), 0);

    let operation = duty.get_symbols();
    let call = Call::MaterializationResponsibilityGetSymbols { responsibility: 1 };
    assert_eq!(operation.call, call);
    let symbols = done(operation, Reply::Array { start: 3, len: 4 });
    assert_eq!((symbols.kind, symbols.start, symbols.len), (Kind::SymbolFlagsMap, 3, 4));
    let operation = dispose_symbol_flags_map(symbols.start);
    assert_eq!(operation.call, Call::DisposeCSymbolFlagsMap { pairs: 3 });

    let operation = duty.get_requested_symbols();
    let call = Call::MaterializationResponsibilityGetRequestedSymbols { responsibility: 1 };
    assert_eq!(operation.call, call);
    let symbols = done(operation, Reply::Array { start: 5, len: 6 });
    assert_eq!((symbols.kind, symbols.start, symbols.len), (Kind::Symbols, 5, 6));
    assert_eq!(dispose_symbols(symbols.start).call, Call::DisposeSymbols { symbols: 5 });

    let operation = duty.notify_resolved(7, 8);
    assert_eq!(
        operation.call,
        Call::MaterializationResponsibilityNotifyResolved {
            responsibility: 1,
            symbols: 7,
            num_pairs: 8,
        }
    );
    let groups = Some(DependenceGroups { start: 9, len: 10 });
    assert_eq!(
        duty.notify_emitted(groups).call,
        Call::MaterializationResponsibilityNotifyEmitted { responsibility: 1, groups }
    );
    assert_eq!(
        duty.notify_emitted(None).call,
        Call::MaterializationResponsibilityNotifyEmitted { responsibility: 1, groups: None }
    );
    assert_eq!(
        duty.define_materializing(11, 12).call,
        Call::MaterializationResponsibilityDefineMaterializing {
            responsibility: 1,
            pairs: 11,
            num_pairs: 12,
        }
    );
    assert_eq!(
        duty.replace(MaterializationUnit::wrap(13)).call,
        Call::MaterializationResponsibilityReplace { responsibility: 1, unit: 13 }
    );
    let operation = duty.delegate(14, 15);
    assert_eq!(
        operation.call,
        Call::MaterializationResponsibilityDelegate {
            responsibility: 1,
            symbols: 14,
            num_symbols: 15,
        }
    );
    let part = done(operation, Reply::Opened { error: 0, out: 16 }).unwrap();
    assert_eq!(
        part.fail_materialization().call,
        Call::MaterializationResponsibilityFailMaterialization { responsibility: 16 }
    );
    let call = Call::DisposeMaterializationResponsibility { responsibility: 1 };
    assert_eq!(duty.drop().call, call);
}

#[test]
fn targets() {
    let operation = JitTargetMachineBuilder::detect_host();
    assert_eq!(operation.call, Call::JITTargetMachineBuilderDetectHost);
    let detected = done(operation, Reply::Opened { error: 0, out: 1 }).unwrap();
    let operation = JitTargetMachineBuilder::from_target_machine(2);
    let call = Call::JITTargetMachineBuilderCreateFromTargetMachine { machine: 2 };
    assert_eq!(operation.call, call);
    let mut taken = done(operation, Reply::Reference(1));
    assert_eq!(taken, detected);
    let operation = taken.set_target_triple("wasm32");
    assert_eq!(
        operation.call,
        Call::JITTargetMachineBuilderSetTargetTriple { builder: 1, triple: to_c_str("wasm32") }
    );
    let operation = taken.get_target_triple();
    assert_eq!(operation.call, Call::JITTargetMachineBuilderGetTargetTriple { builder: 1 });
    let operation = more(operation, text(3, "wasm32"));
    assert_eq!(operation.call, Call::DisposeMessage { message: 3 });
    assert_eq!(done(operation, Reply::Nothing), "wasm32");
    assert_eq!(taken.drop().call, Call::DisposeJITTargetMachineBuilder { builder: 1 });
}

#[test]
fn layers() {
    let layer = ObjectLayer::wrap(1);
    assert_eq!(layer.as_raw(), 1);
    let buffer = MemoryBuffer::wrap(3);
    assert_eq!(buffer.as_raw(), 3);
    assert_eq!(
        layer.add_object_file(&JitDylib::wrap(2), buffer).call,
        Call::ObjectLayerAddObjectFile { layer: 1, dylib: 2, buffer: 3 }
    );
    assert_eq!(
        layer.add_object_file_with_rt(&ResourceTracker::wrap(2), MemoryBuffer::wrap(3)).call,
        Call::ObjectLayerAddObjectFileWithRT { layer: 1, tracker: 2, buffer: 3 }
    );
    let duty = MaterializationResponsibility::from_raw(4);
    assert_eq!(
        layer.emit(duty, MemoryBuffer::wrap(3)).call,
        Call::ObjectLayerEmit { layer: 1, responsibility: 4, buffer: 3 }
    );

    let layer = IRTransformLayer::wrap(5);
    assert_eq!(layer.as_raw(), 5);
    assert_eq!(
        layer.set_transform(6, 7).call,
        Call::IRTransformLayerSetTransform { layer: 5, transform: 6, ctx: 7 }
    );
    let duty = MaterializationResponsibility::from_raw(8);
    assert_eq!(
        layer.emit(duty, ThreadSafeModule::wrap(9)).call,
        Call::IRTransformLayerEmit { layer: 5, responsibility: 8, module: 9 }
    );

    let layer = ObjectTransformLayer::wrap(10);
    assert_eq!(layer.as_raw(), 10);
    assert_eq!(
        layer.set_transform(11, 12).call,
        Call::ObjectTransformLayerSetTransform { layer: 10, transform: 11, ctx: 12 }
    );

    let session = ExecutionSession::wrap(13);
    let operation = create_rtdyld_object_linking_layer_with_section_memory_manager(&session);
    let call = Call::CreateRTDyldObjectLinkingLayerWithSectionMemoryManager { session: 13 };
    assert_eq!(operation.call, call);
    let layer: RawObjectLayer = done(operation, Reply::Reference(14));
    assert_eq!(layer.as_raw(), 14);
    assert_eq!(
        rtdyld_object_linking_layer_register_jit_event_listener(layer.into_raw(), 15).call,
        Call::RTDyldObjectLinkingLayerRegisterJITEventListener { layer: 14, listener: 15 }
    );
    assert_eq!(
        create_rtdyld_object_linking_layer_with_callbacks(&session, 1, 2, 3, 4, 5, 6).call,
        Call::CreateRTDyldObjectLinkingLayerWithMCJITMemoryManagerLikeCallbacks {
            session: 13,
            create_context: 1,
            notify_terminating: 2,
            allocate_code_section: 3,
            allocate_data_section: 4,
            finalize_memory: 5,
            destroy: 6,
        }
    );
}

#[test]
fn lazy_compilation() {
    let operation = IndirectStubsManager::create("x86_64");
    let call = Call::CreateLocalIndirectStubsManager { target_triple: to_c_str("x86_64") };
    assert_eq!(operation.call, call);
    let stubs = done(operation, Reply::Reference(1));
    assert_eq!(stubs.as_raw(), 1);
    assert_eq!(stubs.drop().call, Call::DisposeIndirectStubsManager { manager: 1 });

    let operation = LazyCallThroughManager::create("x86_64", &ExecutionSession::wrap(2), 3);
    assert_eq!(
        operation.call,
        Call::CreateLocalLazyCallThroughManager {
            target_triple: to_c_str("x86_64"),
            session: 2,
            error_handler_addr: 3,
        }
    );
    let manager = done(operation, Reply::Opened { error: 0, out: 4 }).unwrap();
    assert_eq!(manager.as_raw(), 4);
    assert_eq!(manager.drop().call, Call::DisposeLazyCallThroughManager { manager: 4 });

    let operation = LookupState::wrap(5).continue_lookup(0);
    assert_eq!(operation.call, Call::LookupStateContinueLookup { state: 5, error: 0 });
    let operation = LookupState::wrap(5).continue_lookup(6);
    assert_eq!(operation.call, Call::LookupStateContinueLookup { state: 5, error: 6 });
}

#[test]
fn dumps() {
    let operation = DumpObjects::create("/tmp", "");
    assert_eq!(
        operation.call,
        Call::CreateDumpObjects { dump_dir: to_c_str("/tmp"), identifier_override: to_c_str("") }
    );
    let dump = done(operation, Reply::Reference(1));
    assert_eq!(dump.as_raw(), 1);
    let operation = dump.call(2);
    assert_eq!(operation.call, Call::DumpObjectsCallOperator { dump: 1, buffer: 2 });
    assert!(done(operation, Reply::Status(0)).is_ok());
    assert_eq!(dump.drop().call, Call::DisposeDumpObjects { dump: 1 });
}

#[test]
fn builders() {
    assert_eq!(LLJitBuilder::create().call, Call::CreateLLJITBuilder);
    let mut builder = LLJitBuilder::wrap(1);
    assert_eq!(
        builder.set_jit_target_machine_builder(JitTargetMachineBuilder::wrap(2)).call,
        Call::LLJITBuilderSetJITTargetMachineBuilder { builder: 1, target: 2 }
    );
    assert_eq!(
        builder.set_object_linking_layer_creator(3, 4).call,
        Call::LLJITBuilderSetObjectLinkingLayerCreator { builder: 1, creator: 3, ctx: 4 }
    );
    assert_eq!(builder, LLJitBuilder::wrap(1));
    assert_eq!(builder.build().call, Call::CreateLLJIT { builder: 1 });
    assert_eq!(LLJitBuilder::wrap(5).drop().call, Call::DisposeLLJITBuilder { builder: 5 });
}

#[test]
fn jits() {
    let jit = LLJit::wrap(1);
    assert_eq!(jit.as_raw(), 1);
    assert_eq!(jit.execution_session().call, Call::LLJITGetExecutionSession { jit: 1 });
    assert_eq!(jit.main_jit_dylib().call, Call::LLJITGetMainJITDylib { jit: 1 });
    assert_eq!(jit.get_triple_string().call, Call::LLJITGetTripleString { jit: 1 });
    assert_eq!(jit.get_data_layout_str().call, Call::LLJITGetDataLayoutStr { jit: 1 });
    assert_eq!(done(jit.get_data_layout_str(), text(2, "e-m:e")), "e-m:e");
    assert_eq!(jit.get_global_prefix().call, Call::LLJITGetGlobalPrefix { jit: 1 });
    assert_eq!(done(jit.get_global_prefix(), Reply::Character(0)), '\0');
    assert_eq!(done(jit.get_global_prefix(), Reply::Character(0xe9)), 'é');
    let call = Call::LLJITMangleAndIntern { jit: 1, name: to_c_str("f") };
    assert_eq!(jit.mangle_and_intern("f").call, call);
    assert_eq!(
        jit.add_module(&JitDylib::wrap(2), ThreadSafeModule::wrap(3)).call,
        Call::LLJITAddLLVMIRModule { jit: 1, dylib: 2, module: 3 }
    );
    assert_eq!(
        jit.add_module_with_rt(&ResourceTracker::wrap(2), ThreadSafeModule::wrap(3)).call,
        Call::LLJITAddLLVMIRModuleWithRT { jit: 1, tracker: 2, module: 3 }
    );
    assert_eq!(
        jit.add_object_file(&JitDylib::wrap(2), MemoryBuffer::wrap(3)).call,
        Call::LLJITAddObjectFile { jit: 1, dylib: 2, buffer: 3 }
    );
    assert_eq!(
        jit.add_object_file_with_rt(&ResourceTracker::wrap(2), MemoryBuffer::wrap(3)).call,
        Call::LLJITAddObjectFileWithRT { jit: 1, tracker: 2, buffer: 3 }
    );
    let operation = jit.lookup("f");
    assert_eq!(operation.call, Call::LLJITLookup { jit: 1, name: to_c_str("f") });
    let address = done(operation, Reply::Address { error: 0, address: 0x4000_0000 });
    assert_eq!(address.unwrap(), 0x4000_0000);
    assert_eq!(jit.get_obj_linking_layer().call, Call::LLJITGetObjLinkingLayer { jit: 1 });
    assert_eq!(jit.get_obj_transform_layer().call, Call::LLJITGetObjTransformLayer { jit: 1 });
    assert_eq!(jit.get_ir_transform_layer().call, Call::LLJITGetIRTransformLayer { jit: 1 });
    assert_eq!(jit.drop().call, Call::DisposeLLJIT { jit: 1 });
}

#[test]
fn functions() {
    let jit = LLJit::wrap(1);
    let found = Reply::Address { error: 0, address: 0x4000 };
    let operation: Pending<GetFunction<'_, fn()>> = jit.get_function("f");
    assert_eq!(operation.call, Call::LLJITLookup { jit: 1, name: to_c_str("f") });
    let function = done(operation, found).unwrap();
    assert_eq!(function.as_raw(), 0x4000);
    assert_eq!(function.clone().into_raw(), 0x4000);

    let operation = more(jit.get_function::<fn()>("f"), Reply::Address { error: 2, address: 0 });
    assert_eq!(operation.call, Call::GetErrorMessage { error: 2 });
    assert_eq!(done(operation, text(3, "not there")).unwrap_err().to_string(), "not there");
}

#[test]
fn functions_are_as_large_as_an_address() {
    let jit = LLJit::wrap(1);
    let found = Reply::Address { error: 0, address: 0x4000 };
    let missing = Reply::Address { error: 2, address: 0 };
    assert!(jit.get_function::<fn()>("f").next.check(&found));
    assert!(!jit.get_function::<u8>("f").next.check(&found));
    assert!(jit.get_function::<u8>("f").next.check(&missing));
}
