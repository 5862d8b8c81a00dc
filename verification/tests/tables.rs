use runestick::context::{Context, Handler, OptionTypes, ResultTypes};
use runestick::error::VmError;
use runestick::hash;
use runestick::inst::Inst;
use runestick::object::Object;
use runestick::table::Table;
use runestick::unit::{
    CompilationUnit, TypeInfo, UnitFnCall, UnitFnInfo, UnitFnKind, UnitFnSignature,
};
use runestick::value::{Value, ValueType};

#[test]
fn table_keeps_the_first_entry_of_a_hash() {
    let mut table: Table<u8> = Table::new();
    let a = hash::Hash::new(1);
    let b = hash::Hash::new(2);
    assert_eq!(table.get(a), None);
    assert!(table.insert(a, 10));
    assert!(table.insert(b, 20));
    assert!(!table.insert(a, 30));
    assert_eq!(table.get(a), Some(10));
    assert_eq!(table.get(b), Some(20));
    assert_eq!(table.get(hash::Hash::new(3)), None);
}

#[test]
fn unit_lookups() {
    let mut unit = CompilationUnit::new();
    assert_eq!(unit.instruction_at(0), None);
    assert_eq!(unit.push_instruction(Inst::Unit), 0);
    assert_eq!(unit.push_instruction(Inst::Return), 1);
    assert_eq!(unit.instruction_at(1), Some(Inst::Return));
    assert_eq!(unit.instruction_at(2), None);
    let key = hash::Hash::function(&["main"]);
    let info = UnitFnInfo {
        kind: UnitFnKind::Offset { offset: 0, call: UnitFnCall::Async },
        signature: UnitFnSignature { args: 0 },
    };
    assert_eq!(unit.lookup(key), None);
    assert!(unit.new_function(key, info));
    assert!(!unit.new_function(
        key,
        UnitFnInfo { kind: UnitFnKind::Tuple { ty: key }, signature: UnitFnSignature { args: 1 } }
    ));
    assert_eq!(unit.lookup(key), Some(info));
    let ty = hash::Hash::of("int");
    assert_eq!(unit.lookup_type(ty), None);
    assert!(unit.new_type(ty, TypeInfo { value_type: ValueType::Integer }));
    assert!(!unit.new_type(ty, TypeInfo { value_type: ValueType::Float }));
    assert_eq!(unit.lookup_type(ty), Some(TypeInfo { value_type: ValueType::Integer }));
    assert_eq!(unit.lookup_string(0), Err(VmError::MissingStaticString { slot: 0 }));
    assert_eq!(unit.new_static_string("a"), 0);
    assert_eq!(unit.new_static_string("b"), 1);
    assert_eq!(unit.new_static_string("a"), 0);
    assert_eq!(unit.lookup_string(1).map(|s| s.as_str()), Ok("b"));
    assert_eq!(unit.lookup_string(2), Err(VmError::MissingStaticString { slot: 2 }));
    assert_eq!(unit.lookup_bytes(0), Err(VmError::MissingStaticBytes { slot: 0 }));
    assert_eq!(unit.new_static_bytes(vec![1, 2]), 0);
    assert_eq!(unit.lookup_bytes(0), Ok(&vec![1u8, 2]));
    assert_eq!(unit.lookup_object_keys(0), None);
    assert_eq!(unit.new_static_object_keys(vec!["x".to_owned(), "y".to_owned()]), 0);
    assert_eq!(unit.lookup_object_keys(0), Some(&vec!["x".to_owned(), "y".to_owned()]));
    assert_eq!(unit.lookup_object_keys(1), None);
}

#[test]
fn context_lookups() {
    let mut context = Context::new();
    let key = hash::Hash::of("print");
    assert_eq!(context.lookup(key), None);
    assert!(context.install_handler(key, Handler { id: 1 }));
    assert!(!context.install_handler(key, Handler { id: 2 }));
    assert_eq!(context.lookup(key), Some(Handler { id: 1 }));
    assert_eq!(context.lookup_type(key), None);
    assert!(context.install_type(key, TypeInfo { value_type: ValueType::Unit }));
    assert!(!context.install_type(key, TypeInfo { value_type: ValueType::Bool }));
    assert_eq!(context.lookup_type(key), Some(TypeInfo { value_type: ValueType::Unit }));
    assert_eq!(context.option_types(), None);
    assert_eq!(context.result_types(), None);
    let option = OptionTypes { some_type: hash::Hash::new(1), none_type: hash::Hash::new(2) };
    let result = ResultTypes { ok_type: hash::Hash::new(3), err_type: hash::Hash::new(4) };
    context.install_option_types(option);
    context.install_result_types(result);
    assert_eq!(context.option_types(), Some(option));
    assert_eq!(context.result_types(), Some(result));
}

#[test]
fn object_keeps_insertion_order() {
    let mut object = Object::with_capacity(2);
    assert_eq!(object.len(), 0);
    assert_eq!(object.insert("b".to_owned(), Value::Integer(1)), None);
    assert_eq!(object.insert("a".to_owned(), Value::Integer(2)), None);
    assert_eq!(object.insert("b".to_owned(), Value::Integer(3)), Some(Value::Integer(1)));
    assert_eq!(object.len(), 2);
    assert_eq!(object.key_at(0).map(|key| key.as_str()), Some("b"));
    assert_eq!(object.key_at(1).map(|key| key.as_str()), Some("a"));
    assert_eq!(object.value_at(0), Some(Value::Integer(3)));
    assert_eq!(object.value_at(1), Some(Value::Integer(2)));
    assert_eq!(object.value_at(2), None);
    assert_eq!(object.get("a"), Some(Value::Integer(2)));
    assert_eq!(object.get("c"), None);
    assert!(object.contains_key("b"));
    assert!(!object.contains_key("c"));
    assert!(object.replace("a", Value::Unit));
    assert!(!object.replace("c", Value::Unit));
    assert_eq!(object.get("a"), Some(Value::Unit));
    assert_eq!(object.len(), 2);
}
