//! Whole sessions against a stand-in for LLVM that keeps track of what it handed
//! out.

use orc2::call::{Call, LookupKind, Reply};
use orc2::context::{Module, ThreadSafeContext, ThreadSafeModule};
use orc2::dylib::{DefinitionGenerator, JitDylib};
use orc2::error::LLVMString;
use orc2::layer::MemoryBuffer;
use orc2::lljit::{LLJit, LLJitBuilder, LLJitFunction};
use orc2::operation::{Handle, Operation, Pending, Step};
use orc2::target::JitTargetMachineBuilder;
use std::collections::BTreeMap;
use std::collections::HashMap;

type Body = fn(&[u64]) -> u64;

const MAIN_DYLIB: usize = 0x900;
const SESSION: usize = 0x901;

struct Llvm {
    next: usize,
    live: BTreeMap<(&'static str, usize), usize>,
    contexts: HashMap<usize, usize>,
    modules: HashMap<usize, (usize, Vec<(String, Body)>)>,
    wrapped: HashMap<usize, Vec<(String, Body)>>,
    symbols: Vec<(usize, String, u64, Body)>,
    names: HashMap<usize, String>,
    errors: HashMap<usize, String>,
    dylibs: Vec<(String, usize)>,
    generators: Vec<(usize, usize)>,
    printed: Vec<String>,
    triple: Vec<u8>,
    refuses_generators: bool,
    refuses_to_build: bool,
    refuses_to_close: bool,
    trace: Vec<String>,
}

impl Llvm {
    fn new() -> Llvm {
        Llvm {
            next: 0x1000,
            live: BTreeMap::new(),
            contexts: HashMap::new(),
            modules: HashMap::new(),
            wrapped: HashMap::new(),
            symbols: Vec::new(),
            names: HashMap::new(),
            errors: HashMap::new(),
            dylibs: Vec::new(),
            generators: Vec::new(),
            printed: Vec::new(),
            triple: b"x86_64-unknown-linux-gnu".to_vec(),
            refuses_generators: false,
            refuses_to_build: false,
            refuses_to_close: false,
            trace: Vec::new(),
        }
    }

    fn fresh(&mut self, kind: &'static str) -> usize {
        self.next += 0x10;
        let raw = self.next;
        self.gain(kind, raw);
        raw
    }

    fn gain(&mut self, kind: &'static str, raw: usize) {
        *self.live.entry((kind, raw)).or_insert(0) += 1;
    }

    fn lose(&mut self, kind: &'static str, raw: usize) {
        let count = self.live.get_mut(&(kind, raw)).expect("nobody holds that");
        *count -= 1;
        if *count == 0 {
            self.live.remove(&(kind, raw));
        }
    }

    fn fail(&mut self, message: &str) -> usize {
        let error = self.fresh("error");
        self.errors.insert(error, message.to_string());
        error
    }

    fn text(name: &orc2::text::CText) -> String {
        let bytes = name.as_bytes_with_nul();
        String::from_utf8(bytes[..bytes.len() - 1].to_vec()).unwrap()
    }

    fn add(&mut self, owner: usize, module: usize) -> Reply {
        self.lose("tsm", module);
        for (name, body) in self.wrapped.remove(&module).unwrap() {
            self.next += 0x10;
            let address = self.next as u64;
            self.symbols.push((owner, name, address, body));
        }
        Reply::Status(0)
    }

    fn intern(&mut self, name: String) -> Reply {
        let entry = self.fresh("entry");
        self.names.insert(entry, name);
        Reply::Reference(entry)
    }

    fn perform(&mut self, call: &Call) -> Reply {
        self.trace.push(format!("{:?}", call).split(' ').next().unwrap().to_string());
        match call {
            Call::CreateNewThreadSafeContext => {
                let raw = self.fresh("tsc");
                self.contexts.insert(raw, raw + 1);
                Reply::Reference(raw)
            }
            Call::ThreadSafeContextGetContext { context } => {
                Reply::Reference(self.contexts[context])
            }
            Call::ContextCreate => Reply::Reference(self.fresh("context")),
            Call::CreateNewThreadSafeContextFromLLVMContext { llvm_context } => {
                self.lose("context", *llvm_context);
                let raw = self.fresh("tsc");
                self.contexts.insert(raw, *llvm_context);
                Reply::Reference(raw)
            }
            Call::DisposeThreadSafeContext { context } => {
                self.lose("tsc", *context);
                Reply::Nothing
            }
            Call::GetModuleContext { module } => Reply::Reference(self.modules[module].0),
            Call::CreateNewThreadSafeModule { module, context } => {
                assert_eq!(self.modules[module].0, self.contexts[context]);
                self.lose("module", *module);
                let raw = self.fresh("tsm");
                let (_, functions) = self.modules.remove(module).unwrap();
                self.wrapped.insert(raw, functions);
                Reply::Reference(raw)
            }
            Call::DisposeThreadSafeModule { module } => {
                self.lose("tsm", *module);
                Reply::Nothing
            }
            Call::GetErrorMessage { error } => {
                self.lose("error", *error);
                let bytes = self.errors.remove(error).unwrap().into_bytes();
                Reply::Text { start: self.fresh("message"), bytes }
            }
            Call::DisposeErrorMessage { message } | Call::DisposeMessage { message } => {
                self.lose("message", *message);
                Reply::Nothing
            }
            Call::PrintWarning { line } => {
                self.printed.push(line.clone());
                Reply::Nothing
            }
            Call::CreateLLJITBuilder => Reply::Reference(self.fresh("builder")),
            Call::LLJITBuilderSetJITTargetMachineBuilder { target, .. } => {
                self.lose("jtmb", *target);
                Reply::Nothing
            }
            Call::DisposeLLJITBuilder { builder } => {
                self.lose("builder", *builder);
                Reply::Nothing
            }
            Call::CreateLLJIT { builder } => {
                self.lose("builder", *builder);
                if self.refuses_to_build {
                    Reply::Opened { error: self.fail("no target"), out: 0 }
                } else {
                    Reply::Opened { error: 0, out: self.fresh("jit") }
                }
            }
            Call::DisposeLLJIT { jit } => {
                self.lose("jit", *jit);
                if self.refuses_to_close {
                    Reply::Status(self.fail("still in use"))
                } else {
                    Reply::Status(0)
                }
            }
            Call::LLJITGetMainJITDylib { .. } => Reply::Reference(MAIN_DYLIB),
            Call::LLJITGetExecutionSession { .. } => Reply::Reference(SESSION),
            Call::LLJITGetTripleString { .. } => {
                Reply::Text { start: 0x700, bytes: self.triple.clone() }
            }
            Call::LLJITGetGlobalPrefix { .. } => Reply::Character(b'_'),
            Call::LLJITMangleAndIntern { name, .. } => {
                let mangled = format!("_{}", Llvm::text(name));
                self.intern(mangled)
            }
            Call::ExecutionSessionIntern { name, .. } => {
                let name = Llvm::text(name);
                self.intern(name)
            }
            Call::SymbolStringPoolEntryStr { entry } => {
                Reply::Text { start: *entry, bytes: self.names[entry].clone().into_bytes() }
            }
            Call::RetainSymbolStringPoolEntry { entry } => {
                self.gain("entry", *entry);
                Reply::Nothing
            }
            Call::ReleaseSymbolStringPoolEntry { entry } => {
                self.lose("entry", *entry);
                Reply::Nothing
            }
            Call::ExecutionSessionCreateJITDylib { name, .. } => {
                let name = Llvm::text(name);
                if self.dylibs.iter().any(|(taken, _)| *taken == name) {
                    Reply::Opened { error: self.fail("name is taken"), out: 0 }
                } else {
                    self.next += 0x10;
                    self.dylibs.push((name, self.next));
                    Reply::Opened { error: 0, out: self.next }
                }
            }
            Call::ExecutionSessionGetJITDylibByName { name, .. } => {
                let name = Llvm::text(name);
                let found = self.dylibs.iter().find(|(taken, _)| *taken == name);
                Reply::Reference(found.map_or(0, |(_, raw)| *raw))
            }
            Call::JITDylibCreateResourceTracker { .. } => Reply::Reference(self.fresh("tracker")),
            Call::JITDylibAddGenerator { dylib, generator } => {
                self.lose("generator", *generator);
                self.generators.push((*dylib, *generator));
                Reply::Nothing
            }
            Call::CreateDynamicLibrarySearchGeneratorForProcess { global_prefix, .. } => {
                assert_eq!(*global_prefix, b'_');
                if self.refuses_generators {
                    Reply::Opened { error: self.fail("no such process"), out: 0 }
                } else {
                    Reply::Opened { error: 0, out: self.fresh("generator") }
                }
            }
            Call::DisposeDefinitionGenerator { generator } => {
                self.lose("generator", *generator);
                Reply::Nothing
            }
            Call::ResourceTrackerRemove { tracker } => {
                self.symbols.retain(|(owner, _, _, _)| owner != tracker);
                Reply::Status(0)
            }
            Call::ReleaseResourceTracker { tracker } => {
                self.lose("tracker", *tracker);
                Reply::Nothing
            }
            Call::LLJITAddLLVMIRModule { dylib, module, .. } => self.add(*dylib, *module),
            Call::LLJITAddLLVMIRModuleWithRT { tracker, module, .. } => {
                self.add(*tracker, *module)
            }
            Call::LLJITAddObjectFile { buffer, .. } => {
                self.lose("buffer", *buffer);
                Reply::Status(self.fail("not an object"))
            }
            Call::LLJITLookup { name, .. } => {
                let name = Llvm::text(name);
                let found = self.symbols.iter().find(|(_, known, _, _)| *known == name);
                match found.map(|(_, _, address, _)| *address) {
                    Some(address) => Reply::Address { error: 0, address },
                    None => {
                        let message = format!("Symbols not found: [ {} ]", name);
                        Reply::Address { error: self.fail(&message), address: 0 }
                    }
                }
            }
            Call::JITTargetMachineBuilderDetectHost => {
                Reply::Opened { error: 0, out: self.fresh("jtmb") }
            }
            Call::JITTargetMachineBuilderGetTargetTriple { .. } => {
                Reply::Text { start: self.fresh("message"), bytes: self.triple.clone() }
            }
            Call::JITTargetMachineBuilderSetTargetTriple { triple, .. } => {
                self.triple = Llvm::text(triple).into_bytes();
                Reply::Nothing
            }
            Call::DisposeJITTargetMachineBuilder { builder } => {
                self.lose("jtmb", *builder);
                Reply::Nothing
            }
            other => panic!("unforeseen request {:?}", other),
        }
    }

    fn run<K: Operation>(&mut self, operation: Pending<K>) -> K::Output {
        let mut step = Step::Pending(operation);
        loop {
            match step {
                Step::Done(output) => return output,
                Step::Pending(Pending { call, next }) => {
                    let reply = self.perform(&call);
                    assert!(next.check(&reply), "{:?} does not answer {:?}", reply, call);
                    step = next.resume(reply);
                }
            }
        }
    }

    fn context(&mut self) -> ThreadSafeContext {
        self.run(ThreadSafeContext::create(21))
    }

    fn module(
        &mut self,
        context: &ThreadSafeContext,
        functions: &[(&str, Body)],
    ) -> Module<'static> {
        let raw = self.fresh("module");
        let functions = functions.iter().map(|(name, body)| (name.to_string(), *body)).collect();
        self.modules.insert(raw, (context.context().as_raw(), functions));
        Module::wrap(raw)
    }

    fn wrapped(
        &mut self,
        context: &ThreadSafeContext,
        functions: &[(&str, Body)],
    ) -> ThreadSafeModule {
        let module = self.module(context, functions);
        self.run(context.create_thread_safe_module(module)).unwrap()
    }

    fn invoke<F>(&self, function: &LLJitFunction<'_, F>, args: &[u64]) -> u64 {
        let address = function.as_raw() as u64;
        let found = self.symbols.iter().find(|(_, _, known, _)| *known == address);
        (found.unwrap().3)(args)
    }

    fn drop_message(&mut self, message: LLVMString) -> String {
        let text = message.to_string();
        self.run(message.drop());
        text
    }
}

fn sum(args: &[u64]) -> u64 {
    args[0] + args[1] + args[2]
}

fn identity(args: &[u64]) -> u64 {
    args[0]
}

fn add(args: &[u64]) -> u64 {
    args[0] + args[1]
}

fn mul(args: &[u64]) -> u64 {
    args[0] * args[1]
}

fn dummy(_: &[u64]) -> u64 {
    0
}

type SumFunc = fn(u64, u64, u64) -> u64;
type IdentityFunc = fn(u64) -> u64;
type BinFunc = fn(u64, u64) -> u64;

#[test]
fn test_lljit_sum() {
    let mut llvm = Llvm::new();
    let tsc = llvm.context();
    let tsm = llvm.wrapped(&tsc, &[("sum", sum)]);
    let lljit = llvm.run(LLJit::create()).expect("Failed to create LLJIT");
    let dylib = llvm.run(lljit.main_jit_dylib());
    llvm.run(lljit.add_module(&dylib, tsm)).expect("Failed to add module");

    let sum_fn = llvm.run(lljit.get_function::<SumFunc>("sum")).unwrap();
    assert_eq!(llvm.invoke(&sum_fn, &[1, 2, 3]), 6);
    assert_eq!(llvm.invoke(&sum_fn, &[0, 0, 0]), 0);
    assert_eq!(llvm.invoke(&sum_fn, &[100, 200, 300]), 600);

    llvm.run(lljit.drop());
    llvm.run(tsc.drop());
    assert!(llvm.live.is_empty());
    assert!(llvm.printed.is_empty());
}

#[test]
fn test_lljit_lookup_missing_symbol() {
    let mut llvm = Llvm::new();
    let tsc = llvm.context();
    let tsm = llvm.wrapped(&tsc, &[("dummy", dummy)]);
    let lljit = llvm.run(LLJit::create()).unwrap();
    let dylib = llvm.run(lljit.main_jit_dylib());
    llvm.run(lljit.add_module(&dylib, tsm)).unwrap();

    let missing = llvm.run(lljit.lookup("nonexistent_symbol"));
    assert!(missing.is_err());
    let text = llvm.drop_message(missing.unwrap_err());
    assert_eq!(text, "Symbols not found: [ nonexistent_symbol ]");

    llvm.run(lljit.drop());
    llvm.run(tsc.drop());
    assert!(llvm.live.is_empty());
}

#[test]
fn test_lljit_resource_tracker() {
    let mut llvm = Llvm::new();
    let tsc = llvm.context();
    let tsm = llvm.wrapped(&tsc, &[("identity", identity)]);
    let lljit = llvm.run(LLJit::create()).unwrap();
    let jd = llvm.run(lljit.main_jit_dylib());
    let rt = llvm.run(jd.create_resource_tracker());
    llvm.run(lljit.add_module_with_rt(&rt, tsm)).unwrap();

    let func = llvm.run(lljit.get_function::<IdentityFunc>("identity")).unwrap();
    assert_eq!(llvm.invoke(&func, &[42]), 42);
    drop(func);

    llvm.run(rt.remove()).unwrap();
    let gone = llvm.run(lljit.lookup("identity"));
    assert!(gone.is_err());

    llvm.drop_message(gone.unwrap_err());
    llvm.run(rt.drop());
    llvm.run(lljit.drop());
    llvm.run(tsc.drop());
    assert!(llvm.live.is_empty());
}

#[test]
fn test_lljit_multiple_modules() {
    let mut llvm = Llvm::new();
    let tsc = llvm.context();
    let m1 = llvm.module(&tsc, &[("add", add)]);
    let m2 = llvm.module(&tsc, &[("mul", mul)]);
    let tsms = vec![
        llvm.run(tsc.create_thread_safe_module(m1)).unwrap(),
        llvm.run(tsc.create_thread_safe_module(m2)).unwrap(),
    ];

    let lljit = llvm.run(LLJit::create()).unwrap();
    let jd = llvm.run(lljit.main_jit_dylib());
    for tsm in tsms {
        llvm.run(lljit.add_module(&jd, tsm)).unwrap();
    }

    let add_fn = llvm.run(lljit.get_function::<BinFunc>("add")).unwrap();
    let mul_fn = llvm.run(lljit.get_function::<BinFunc>("mul")).unwrap();
    assert_eq!(llvm.invoke(&add_fn, &[3, 4]), 7);
    assert_eq!(llvm.invoke(&mul_fn, &[3, 4]), 12);

    llvm.run(lljit.drop());
    llvm.run(tsc.drop());
    assert!(llvm.live.is_empty());
}

#[test]
fn test_create_thread_safe_module_rejects_wrong_context() {
    let mut llvm = Llvm::new();
    let tsc1 = llvm.context();
    let tsc2 = llvm.context();

    let module = llvm.module(&tsc1, &[]);
    let raw = module.as_raw();

    // Wrapping tsc1's module with tsc2 must fail
    let result = llvm.run(tsc2.create_thread_safe_module(module));
    assert!(result.is_err(), "should reject module from a different context");

    // The module is returned back in the Err
    let module = result.unwrap_err();
    assert_eq!(module.as_raw(), raw);

    // Wrapping with the correct tsc1 must succeed
    let result = llvm.run(tsc1.create_thread_safe_module(module));
    assert!(result.is_ok(), "should accept module from the correct context");

    llvm.run(result.unwrap().drop());
    llvm.run(tsc1.drop());
    llvm.run(tsc2.drop());
    assert!(llvm.live.is_empty());
}

#[test]
fn contexts_are_created_in_either_order() {
    let mut llvm = Llvm::new();
    let sooner = llvm.run(ThreadSafeContext::create(20));
    assert_eq!(llvm.contexts[&sooner.as_raw()], sooner.context().as_raw());
    assert_eq!(llvm.trace, ["CreateNewThreadSafeContext", "ThreadSafeContextGetContext"]);

    llvm.trace.clear();
    let later = llvm.run(ThreadSafeContext::create(21));
    assert_eq!(llvm.contexts[&later.as_raw()], later.context().as_raw());
    assert_eq!(llvm.trace, ["ContextCreate", "CreateNewThreadSafeContextFromLLVMContext"]);

    llvm.run(sooner.drop());
    llvm.run(later.drop());
    assert!(llvm.live.is_empty());
}

#[test]
fn a_builder_is_used_up_when_building_fails() {
    let mut llvm = Llvm::new();
    llvm.refuses_to_build = true;
    let failed = llvm.run(LLJit::create());
    let text = llvm.drop_message(failed.unwrap_err());
    assert_eq!(text, "no target");
    assert_eq!(
        llvm.trace,
        ["CreateLLJITBuilder", "CreateLLJIT", "GetErrorMessage", "DisposeMessage"]
    );
    assert!(llvm.live.is_empty());
}

#[test]
fn a_builder_takes_its_target() {
    let mut llvm = Llvm::new();
    let mut target = llvm.run(JitTargetMachineBuilder::detect_host()).unwrap();
    assert_eq!(llvm.run(target.get_target_triple()), "x86_64-unknown-linux-gnu");
    llvm.run(target.set_target_triple("aarch64-apple-darwin"));
    assert_eq!(llvm.run(target.get_target_triple()), "aarch64-apple-darwin");

    let mut builder = llvm.run(LLJitBuilder::create());
    llvm.run(builder.set_jit_target_machine_builder(target));
    let lljit = llvm.run(builder.build()).unwrap();
    llvm.run(lljit.drop());
    assert!(llvm.live.is_empty());
}

#[test]
fn a_triple_that_is_not_utf8_is_mended() {
    let mut llvm = Llvm::new();
    llvm.triple = vec![b'x', 0xc3];
    let target = llvm.run(JitTargetMachineBuilder::detect_host()).unwrap();
    assert_eq!(llvm.run(target.get_target_triple()), "x\u{FFFD}");
    llvm.run(target.drop());
    assert!(llvm.live.is_empty());
}

#[test]
fn a_failure_to_dispose_is_printed() {
    let mut llvm = Llvm::new();
    let lljit = llvm.run(LLJit::create()).unwrap();
    llvm.refuses_to_close = true;
    llvm.trace.clear();
    llvm.run(lljit.drop());
    assert_eq!(llvm.printed, ["Warning: LLVMOrcDisposeLLJIT failed: still in use"]);
    assert_eq!(
        llvm.trace,
        ["DisposeLLJIT", "GetErrorMessage", "PrintWarning", "DisposeErrorMessage"]
    );
    assert!(llvm.live.is_empty());
}

#[test]
fn process_symbols_are_added() {
    let mut llvm = Llvm::new();
    let lljit = llvm.run(LLJit::create()).unwrap();
    let jd = llvm.run(lljit.main_jit_dylib());
    llvm.trace.clear();
    assert!(llvm.run(lljit.add_process_symbols_generator(&jd)).is_ok());
    assert_eq!(
        llvm.trace,
        [
            "LLJITGetGlobalPrefix",
            "CreateDynamicLibrarySearchGeneratorForProcess",
            "JITDylibAddGenerator"
        ]
    );
    assert_eq!(llvm.generators.len(), 1);
    assert_eq!(llvm.generators[0].0, MAIN_DYLIB);
    llvm.run(lljit.drop());
    assert!(llvm.live.is_empty());
}

#[test]
fn process_symbols_can_be_refused() {
    let mut llvm = Llvm::new();
    let lljit = llvm.run(LLJit::create()).unwrap();
    let jd = llvm.run(lljit.main_jit_dylib());
    llvm.refuses_generators = true;
    let refused = llvm.run(lljit.add_process_symbols_generator(&jd));
    let text = llvm.drop_message(refused.unwrap_err());
    assert_eq!(text, "no such process");
    assert!(llvm.generators.is_empty());
    llvm.run(lljit.drop());
    assert!(llvm.live.is_empty());
}

#[test]
fn a_prefix_goes_back_as_the_same_byte() {
    let mut llvm = Llvm::new();
    let lljit = llvm.run(LLJit::create()).unwrap();
    let prefix = llvm.run(lljit.get_global_prefix());
    assert_eq!(prefix, '_');
    let generator = llvm.run(DefinitionGenerator::for_process(prefix)).unwrap();
    llvm.run(generator.drop());
    llvm.run(lljit.drop());
    assert!(llvm.live.is_empty());
}

#[test]
fn names_are_retained_and_released() {
    let mut llvm = Llvm::new();
    let lljit = llvm.run(LLJit::create()).unwrap();
    let es = llvm.run(lljit.execution_session());
    let name = llvm.run(es.intern("prïntf"));
    let copy = llvm.run(name.clone());
    assert_eq!(copy.as_raw(), name.as_raw());
    assert_eq!(llvm.live[&("entry", name.as_raw())], 2);
    assert_eq!(llvm.run(name.as_str()), "prïntf");
    llvm.run(name.drop());
    assert_eq!(llvm.run(copy.as_str()), "prïntf");
    llvm.run(copy.drop());

    let mangled = llvm.run(lljit.mangle_and_intern("puts\0tail"));
    assert_eq!(llvm.run(mangled.as_str()), "_puts");
    llvm.run(mangled.drop());
    llvm.run(lljit.drop());
    assert!(llvm.live.is_empty());
}

#[test]
fn libraries_are_found_by_name() {
    let mut llvm = Llvm::new();
    let lljit = llvm.run(LLJit::create()).unwrap();
    let es = llvm.run(lljit.execution_session());
    assert!(llvm.run(es.get_jit_dylib_by_name("lib")).is_none());
    let created = llvm.run(es.create_jit_dylib("lib")).unwrap();
    assert_eq!(llvm.run(es.get_jit_dylib_by_name("lib")), Some(created));
    let taken = llvm.run(es.create_jit_dylib("lib"));
    let text = llvm.drop_message(taken.unwrap_err());
    assert_eq!(text, "name is taken");
    llvm.run(lljit.drop());
    assert!(llvm.live.is_empty());
}

#[test]
fn a_refused_object_is_consumed_all_the_same() {
    let mut llvm = Llvm::new();
    let lljit = llvm.run(LLJit::create()).unwrap();
    let jd = llvm.run(lljit.main_jit_dylib());
    let buffer = MemoryBuffer::wrap(llvm.fresh("buffer"));
    let refused = llvm.run(lljit.add_object_file(&jd, buffer));
    let text = llvm.drop_message(refused.unwrap_err());
    assert_eq!(text, "not an object");
    llvm.run(lljit.drop());
    assert!(llvm.live.is_empty());
}

#[test]
fn the_triple_of_the_jit_is_read() {
    let mut llvm = Llvm::new();
    let lljit = llvm.run(LLJit::create()).unwrap();
    assert_eq!(llvm.run(lljit.get_triple_string()), "x86_64-unknown-linux-gnu");
    llvm.run(lljit.drop());
    assert!(llvm.live.is_empty());
}

#[test]
fn a_lookup_can_be_left_to_a_callback() {
    let mut llvm = Llvm::new();
    let lljit = llvm.run(LLJit::create()).unwrap();
    let es = llvm.run(lljit.execution_session());
    let pending = es.lookup(LookupKind::DLSym, 1, 2, 3, 4, 5, 6);
    assert_eq!(
        pending.call,
        Call::ExecutionSessionLookup {
            session: SESSION,
            kind: LookupKind::DLSym,
            search_order: 1,
            search_order_size: 2,
            symbols: 3,
            symbols_size: 4,
            handle_result: 5,
            ctx: 6,
        }
    );
    llvm.run(lljit.drop());
    assert!(llvm.live.is_empty());
}

#[test]
fn handles_compare_by_reference() {
    assert_eq!(JitDylib::wrap(3), JitDylib::wrap(3));
    assert_ne!(JitDylib::wrap(3), JitDylib::wrap(4));
}
