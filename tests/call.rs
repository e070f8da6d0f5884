use lune_std_ffi::{
    int_from_value, read_int_value, write_int_value, AssociationTable, CallArg, CallableData,
    FfiError, MemoryHandle, Role, ScriptValue,
};

#[test]
fn missing_argument_is_arity_error() {
    let c = CallableData::new(2, 4);
    let result = MemoryHandle::new(4);
    let a = MemoryHandle::new(4);
    let r = c.prepare(result.as_call_arg(0), &vec![a.as_call_arg(1)]);
    assert_eq!(r.err(), Some(FfiError::ArityError { index: 1 }));
    let r = c.prepare(result.as_call_arg(0), &vec![]);
    assert_eq!(r.err(), Some(FfiError::ArityError { index: 0 }));
}

#[test]
fn non_handle_argument_is_type_mismatch() {
    let c = CallableData::new(2, 0);
    let a = MemoryHandle::new(4);
    let r = c.prepare(CallArg::Other, &vec![a.as_call_arg(1), CallArg::Other]);
    assert_eq!(r.err(), Some(FfiError::TypeMismatch));
    let r = c.prepare(CallArg::Other, &vec![CallArg::Other]);
    assert_eq!(r.err(), Some(FfiError::TypeMismatch));
}

#[test]
fn small_result_handle_is_boundary_error() {
    let c = CallableData::new(1, 8);
    let result = MemoryHandle::new(4);
    let a = MemoryHandle::new(4);
    let r = c.prepare(result.as_call_arg(0), &vec![a.as_call_arg(1)]);
    assert_eq!(r.err(), Some(FfiError::BoundaryError));
    // the result check comes before the arguments
    let r = c.prepare(result.as_call_arg(0), &vec![]);
    assert_eq!(r.err(), Some(FfiError::BoundaryError));
    let r = c.prepare(CallArg::Other, &vec![]);
    assert_eq!(r.err(), Some(FfiError::TypeMismatch));
}

#[test]
fn void_result_needs_no_handle() {
    let c = CallableData::new(0, 0);
    let plan = c.prepare(CallArg::Other, &vec![]).unwrap();
    assert_eq!(plan.result, None);
    assert!(plan.args.is_empty());
}

#[test]
fn many_arguments_are_planned_in_order() {
    let c = CallableData::new(14, 4);
    assert_eq!(c.arg_count(), 14);
    assert_eq!(c.result_size(), 4);
    let args: Vec<CallArg> = (0..15u64).map(|i| CallArg::Handle { id: i + 10, len: 8 }).collect();
    let plan = c.prepare(CallArg::Handle { id: 1, len: 4 }, &args).unwrap();
    assert_eq!(plan.result, Some(1));
    assert_eq!(plan.args, (10..24u64).collect::<Vec<u64>>());
    let r = c.prepare(CallArg::Handle { id: 1, len: 4 }, &args[..13].to_vec());
    assert_eq!(r.err(), Some(FfiError::ArityError { index: 13 }));
}

#[test]
fn add_two_ints_through_handles() {
    let mut a = MemoryHandle::new(4);
    let mut b = MemoryHandle::new(4);
    let mut result = MemoryHandle::new(4);
    write_int_value(&mut a, 0, &ScriptValue::Integer(2)).unwrap();
    write_int_value(&mut b, 0, &ScriptValue::Text(String::from("3"))).unwrap();
    let c = CallableData::new(2, 4);
    let plan = c.prepare(result.as_call_arg(0), &vec![a.as_call_arg(1), b.as_call_arg(2)]).unwrap();
    assert_eq!(plan.result, Some(0));
    assert_eq!(plan.args, vec![1, 2]);
    // what the native function does with the two argument handles
    let x = a.read_int(0).unwrap();
    let y = b.read_int(0).unwrap();
    result.write_int(0, x + y).unwrap();
    assert_eq!(read_int_value(&result, 0), Ok(5));
    assert_eq!(result.into_bytes(), vec![5, 0, 0, 0]);
}

#[test]
fn int_round_trip() {
    for v in [0i32, 1, -1, 5, 255, 256, -256, i32::MAX, i32::MIN, 123456789] {
        let mut h = MemoryHandle::new(8);
        write_int_value(&mut h, 2, &ScriptValue::Integer(v as i64)).unwrap();
        assert_eq!(read_int_value(&h, 2), Ok(v as i64));
    }
}

#[test]
fn int_bytes_are_little_endian() {
    let mut h = MemoryHandle::new(4);
    h.write_int(0, -2).unwrap();
    assert_eq!(h.into_bytes(), vec![0xfe, 0xff, 0xff, 0xff]);
    let h = MemoryHandle::from_bytes(vec![0x78, 0x56, 0x34, 0x12]);
    assert_eq!(h.read_int(0), Ok(0x12345678));
}

#[test]
fn integers_are_truncated() {
    assert_eq!(int_from_value(&ScriptValue::Integer(4294967301)), Ok(5));
    assert_eq!(int_from_value(&ScriptValue::Integer(2147483648)), Ok(i32::MIN));
    assert_eq!(int_from_value(&ScriptValue::Integer(-1)), Ok(-1));
}

#[test]
fn strings_are_parsed_in_base_ten() {
    assert_eq!(int_from_value(&ScriptValue::Text(String::from("123"))), Ok(123));
    assert_eq!(int_from_value(&ScriptValue::Text(String::from("-42"))), Ok(-42));
    assert_eq!(int_from_value(&ScriptValue::Text(String::from("+7"))), Ok(7));
    assert_eq!(int_from_value(&ScriptValue::Text(String::from("-2147483648"))), Ok(i32::MIN));
}

#[test]
fn bad_strings_are_parse_errors() {
    for s in ["", "abc", "12x", "-", "+", " 1", "2147483648", "1.5"] {
        assert_eq!(int_from_value(&ScriptValue::Text(String::from(s))), Err(FfiError::ParseError));
    }
}

#[test]
fn other_kinds_are_type_mismatch() {
    let mut h = MemoryHandle::new(4);
    let r = write_int_value(&mut h, 0, &ScriptValue::Other(String::from("boolean")));
    assert_eq!(r, Err(FfiError::TypeMismatch));
    assert_eq!(h.into_bytes(), vec![0, 0, 0, 0]);
}

#[test]
fn writes_outside_the_window_are_boundary_errors() {
    let mut h = MemoryHandle::new(6);
    assert!(h.check_boundary(2, 4));
    assert!(!h.check_boundary(3, 4));
    assert!(!h.check_boundary(usize::MAX, 4));
    assert_eq!(write_int_value(&mut h, 3, &ScriptValue::Integer(1)), Err(FfiError::BoundaryError));
    assert_eq!(read_int_value(&h, 3), Err(FfiError::BoundaryError));
    assert_eq!(h.len(), 6);
}

#[test]
fn associations_are_kept_per_owner_and_role() {
    let mut t = AssociationTable::new();
    assert_eq!(t.lookup(1, Role::ArrayInner), Err(FfiError::AssociationMissing));
    t.associate(1, Role::ArrayInner, 10);
    t.associate(1, Role::PointerInner, 20);
    t.associate(2, Role::StructInner, 30);
    assert_eq!(t.lookup(1, Role::ArrayInner), Ok(10));
    assert_eq!(t.lookup(1, Role::PointerInner), Ok(20));
    assert_eq!(t.lookup(2, Role::StructInner), Ok(30));
    assert_eq!(t.lookup(2, Role::ArrayInner), Err(FfiError::AssociationMissing));
    t.associate(1, Role::ArrayInner, 11);
    assert_eq!(t.lookup(1, Role::ArrayInner), Ok(11));
}
