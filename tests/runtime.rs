use mun_host::module::{ExportEntry, ImportEntry, ModuleImage};
use mun_host::registry::FunctionRegistry;
use mun_host::runtime::{call_signature, marshal_return, RuntimeInstance, RuntimeState};
use mun_host::types::{RuntimeError, Signature, TypeTag, Value};

fn sig(args: Vec<TypeTag>, ret: TypeTag) -> Signature {
    Signature::new(args, ret)
}

fn export(name: &str, s: Signature, address: u64) -> ExportEntry {
    ExportEntry { name: name.to_string(), signature: s, address }
}

fn import(name: &str, s: Signature) -> ImportEntry {
    ImportEntry { name: name.to_string(), signature: s }
}

/// The module `main`: exports `random_bool`, imports the native `random`.
fn main_module() -> ModuleImage {
    ModuleImage {
        exports: vec![export("random_bool", sig(vec![], TypeTag::Bool), 0x1000)],
        imports: vec![import("random", sig(vec![], TypeTag::I64))],
    }
}

fn registry_with_random() -> FunctionRegistry {
    let mut reg = FunctionRegistry::new();
    reg.register("random".to_string(), sig(vec![], TypeTag::I64), 0x42).unwrap();
    reg
}

#[test]
fn lookup_returns_registered_descriptor() {
    let mut reg = FunctionRegistry::new();
    assert!(reg.lookup(&"add".to_string()).is_none());
    reg.register("add".to_string(), sig(vec![TypeTag::I32, TypeTag::I32], TypeTag::I32), 7).unwrap();
    reg.register("neg".to_string(), sig(vec![TypeTag::I64], TypeTag::I64), 9).unwrap();
    let d = reg.lookup(&"add".to_string()).unwrap();
    assert_eq!(d.name, "add");
    assert_eq!(d.entry_point, 7);
    assert_eq!(d.signature.args, vec![TypeTag::I32, TypeTag::I32]);
    assert_eq!(d.signature.ret, TypeTag::I32);
    assert_eq!(reg.lookup(&"neg".to_string()).unwrap().entry_point, 9);
    assert_eq!(reg.len(), 2);
}

#[test]
fn duplicate_registration_is_refused() {
    let mut reg = registry_with_random();
    let r = reg.register("random".to_string(), sig(vec![TypeTag::U8], TypeTag::Bool), 0x99);
    assert_eq!(r, Err(RuntimeError::DuplicateName));
    assert_eq!(reg.len(), 1);
    let d = reg.lookup(&"random".to_string()).unwrap();
    assert_eq!(d.entry_point, 0x42);
    assert_eq!(d.signature.ret, TypeTag::I64);
}

#[test]
fn random_bool_scenario_succeeds() {
    let rt = RuntimeInstance::build(registry_with_random(), "main.munlib".to_string(), Some(main_module())).unwrap();
    assert_eq!(rt.state(), RuntimeState::Ready);
    assert_eq!(rt.module().path(), "main.munlib");
    assert_eq!(rt.module().binding(0), Some(0x42));
    assert_eq!(rt.module().binding(1), None);
    let addr = rt.invoke(&"random_bool".to_string(), &vec![], TypeTag::Bool).unwrap();
    assert_eq!(addr, 0x1000);
    assert_eq!(marshal_return(TypeTag::Bool, Value::Bool(true)), Ok(Value::Bool(true)));
    assert_eq!(rt.resolve_native(&"random".to_string(), &sig(vec![], TypeTag::I64)), Ok(0x42));
}

#[test]
fn missing_random_fails_at_construction() {
    let r = RuntimeInstance::build(FunctionRegistry::new(), "main.munlib".to_string(), Some(main_module()));
    assert_eq!(r.unwrap_err(), RuntimeError::MissingDependency);
}

#[test]
fn import_signature_mismatch_is_missing_dependency() {
    let mut reg = FunctionRegistry::new();
    reg.register("random".to_string(), sig(vec![], TypeTag::I32), 0x42).unwrap();
    let r = RuntimeInstance::build(reg, "main.munlib".to_string(), Some(main_module()));
    assert_eq!(r.unwrap_err(), RuntimeError::MissingDependency);
}

#[test]
fn absent_artifact_is_file_not_found() {
    let r = RuntimeInstance::build(registry_with_random(), "main.munlib".to_string(), None);
    assert_eq!(r.unwrap_err(), RuntimeError::FileNotFound);
}

#[test]
fn duplicate_exports_are_invalid_format() {
    let img = ModuleImage {
        exports: vec![
            export("f", sig(vec![], TypeTag::Unit), 1),
            export("g", sig(vec![], TypeTag::Unit), 2),
            export("f", sig(vec![], TypeTag::Bool), 3),
        ],
        imports: vec![],
    };
    let r = RuntimeInstance::build(FunctionRegistry::new(), "m".to_string(), Some(img));
    assert_eq!(r.unwrap_err(), RuntimeError::InvalidFormat);
}

#[test]
fn absent_function_is_not_found_and_wrong_types_mismatch() {
    let rt = RuntimeInstance::build(registry_with_random(), "main.munlib".to_string(), Some(main_module())).unwrap();
    assert_eq!(rt.invoke(&"nope".to_string(), &vec![], TypeTag::Bool), Err(RuntimeError::FunctionNotFound));
    assert_eq!(rt.invoke(&"random_bool".to_string(), &vec![], TypeTag::I64), Err(RuntimeError::TypeMismatch));
    assert_eq!(
        rt.invoke(&"random_bool".to_string(), &vec![Value::I32(1)], TypeTag::Bool),
        Err(RuntimeError::TypeMismatch)
    );
    assert_eq!(rt.resolve_native(&"other".to_string(), &sig(vec![], TypeTag::I64)), Err(RuntimeError::FunctionNotFound));
    assert_eq!(rt.resolve_native(&"random".to_string(), &sig(vec![], TypeTag::U64)), Err(RuntimeError::TypeMismatch));
}

#[test]
fn returned_value_of_wrong_type_is_mismatch() {
    assert_eq!(marshal_return(TypeTag::Bool, Value::I64(3)), Err(RuntimeError::TypeMismatch));
    assert_eq!(marshal_return(TypeTag::I64, Value::I64(-3)), Ok(Value::I64(-3)));
}

#[test]
fn terminated_runtime_is_unavailable() {
    let mut rt = RuntimeInstance::build(registry_with_random(), "main.munlib".to_string(), Some(main_module())).unwrap();
    rt.terminate();
    assert_eq!(rt.state(), RuntimeState::Terminated);
    assert_eq!(rt.invoke(&"random_bool".to_string(), &vec![], TypeTag::Bool), Err(RuntimeError::RuntimeUnavailable));
    assert_eq!(rt.reload(Some(main_module())), Err(RuntimeError::RuntimeUnavailable));
}

fn module_v2() -> ModuleImage {
    let mut img = main_module();
    img.exports.push(export("fib", sig(vec![TypeTag::I64], TypeTag::I64), 0x2000));
    img
}

#[test]
fn reload_exposes_new_function() {
    let mut rt = RuntimeInstance::build(registry_with_random(), "main.munlib".to_string(), Some(main_module())).unwrap();
    let args = vec![Value::I64(10)];
    assert_eq!(rt.invoke(&"fib".to_string(), &args, TypeTag::I64), Err(RuntimeError::FunctionNotFound));
    assert_eq!(rt.reload(Some(module_v2())), Ok(()));
    assert_eq!(rt.invoke(&"fib".to_string(), &args, TypeTag::I64), Ok(0x2000));
    assert_eq!(rt.invoke(&"random_bool".to_string(), &vec![], TypeTag::Bool), Ok(0x1000));
}

#[test]
fn failed_reload_keeps_active_module() {
    let mut rt = RuntimeInstance::build(registry_with_random(), "main.munlib".to_string(), Some(main_module())).unwrap();
    let bad = ModuleImage {
        exports: vec![export("fib", sig(vec![], TypeTag::I64), 1), export("fib", sig(vec![], TypeTag::I64), 2)],
        imports: vec![],
    };
    assert_eq!(rt.reload(Some(bad)), Err(RuntimeError::InvalidFormat));
    assert_eq!(rt.reload(None), Err(RuntimeError::FileNotFound));
    let unresolved = ModuleImage { exports: vec![], imports: vec![import("clock", sig(vec![], TypeTag::U64))] };
    assert_eq!(rt.reload(Some(unresolved)), Err(RuntimeError::SymbolResolutionError));
    assert_eq!(rt.state(), RuntimeState::Ready);
    assert_eq!(rt.invoke(&"random_bool".to_string(), &vec![], TypeTag::Bool), Ok(0x1000));
}

/// Three reload cycles, of which only the third brings `fib`.
fn pending_three() -> Vec<Option<ModuleImage>> {
    vec![Some(main_module()), None, Some(module_v2())]
}

#[test]
fn retry_with_sufficient_budget_succeeds() {
    let mut rt = RuntimeInstance::build(registry_with_random(), "main.munlib".to_string(), Some(main_module())).unwrap();
    let s = sig(vec![TypeTag::I64], TypeTag::I64);
    assert_eq!(rt.invoke_or_retry(&"fib".to_string(), &s, pending_three(), 3), Ok(0x2000));
    assert_eq!(rt.resolve(&"fib".to_string(), &s), Ok(0x2000));
}

#[test]
fn retry_with_larger_budget_stops_at_success() {
    let mut rt = RuntimeInstance::build(registry_with_random(), "main.munlib".to_string(), Some(main_module())).unwrap();
    let s = sig(vec![TypeTag::I64], TypeTag::I64);
    assert_eq!(rt.invoke_or_retry(&"fib".to_string(), &s, pending_three(), 10), Ok(0x2000));
}

#[test]
fn retry_with_short_budget_fails_with_last_error() {
    let mut rt = RuntimeInstance::build(registry_with_random(), "main.munlib".to_string(), Some(main_module())).unwrap();
    let s = sig(vec![TypeTag::I64], TypeTag::I64);
    assert_eq!(rt.invoke_or_retry(&"fib".to_string(), &s, pending_three(), 2), Err(RuntimeError::FunctionNotFound));
    assert_eq!(rt.resolve(&"fib".to_string(), &s), Err(RuntimeError::FunctionNotFound));
}

#[test]
fn retry_does_not_retry_type_mismatch() {
    let mut rt = RuntimeInstance::build(registry_with_random(), "main.munlib".to_string(), Some(main_module())).unwrap();
    let s = sig(vec![], TypeTag::I64);
    assert_eq!(rt.invoke_or_retry(&"random_bool".to_string(), &s, pending_three(), 3), Err(RuntimeError::TypeMismatch));
}

#[test]
fn call_signature_follows_argument_values() {
    let s = call_signature(&vec![Value::Bool(false), Value::U16(4), Value::Unit], TypeTag::U32);
    assert_eq!(s.args, vec![TypeTag::Bool, TypeTag::U16, TypeTag::Unit]);
    assert_eq!(s.ret, TypeTag::U32);
    assert_eq!(Value::I8(-1).type_tag(), TypeTag::I8);
}

#[test]
fn signatures_compare_and_copy() {
    let a = sig(vec![TypeTag::I32, TypeTag::U64], TypeTag::Unit);
    let b = sig(vec![TypeTag::I32, TypeTag::U64], TypeTag::Unit);
    let c = sig(vec![TypeTag::I32], TypeTag::Unit);
    let d = sig(vec![TypeTag::I32, TypeTag::U32], TypeTag::Unit);
    assert!(a.same_as(&b));
    assert!(!a.same_as(&c));
    assert!(!a.same_as(&d));
    let e = a.duplicate();
    assert_eq!(e.args, a.args);
    assert!(e.same_as(&a));
}
