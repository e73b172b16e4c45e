use ocaml::error::{CamlError, Error};
use ocaml::example::{ml_new_array, ml_new_list, ml_new_tuple, ml_raise_not_found, ml_send_int, ml_send_int64};
use ocaml::example_enums::{self, Enum11};
use ocaml::suite_conv::{self, array_conv, result_error, result_get_error, result_get_ok, result_ok, string_non_copying, Enum1};
use ocaml::suite_runtime::{mutable_parameter_with_more_than_five_arguments, raise_failure};
use ocaml::suite_types::list_nil;
use ocaml::conv::ToValue;
use ocaml::mlvalues::UNIT;
use ocaml::runtime::{GuardCount, Runtime, RuntimeState};
use ocaml::types::{Array, List};
use ocaml::conv::FromValue;
use ocaml::value::Value;

#[test]
fn example_functions() {
    assert_eq!(ml_send_int(5), 0xbeef);
    assert_eq!(ml_send_int64(32), 42);
    assert_eq!(ml_new_tuple(7), (7, 14, 21));
    assert_eq!(ml_new_array(3), vec![0, 3, 6, 9, 12]);
    assert_eq!(ml_new_list(-2), vec![0, -2, -4, -6, -8]);
    assert_eq!(ml_raise_not_found(), Err(Error::Caml(CamlError::NotFound)));
}

#[test]
fn example_enum() {
    assert!(example_enums::enum1_is_empty(example_enums::enum1_empty()));
    assert!(!example_enums::enum1_is_empty(example_enums::enum1_first(3)));
    assert!(example_enums::enum1_get_second_value(example_enums::enum1_first(3)).is_none());
    let arr: Array<&'static str> = Array::from_value(Value::new(0x800));
    assert!(example_enums::enum1_get_second_value(Enum11::Second(arr)).is_some());
}

#[test]
fn test_library_enum() {
    assert!(suite_conv::enum1_is_empty(suite_conv::enum1_empty()));
    match suite_conv::enum1_first(Value::from_int(9)) {
        Enum1::First(9) => {}
        _ => panic!("expected First(9)"),
    }
    let arr: Array<String> = Array::from_value(Value::new(0x800));
    let mut st = RuntimeState::new();
    let mut g = GuardCount::new();
    let (rt, _, _) = Runtime::init(&mut st, &mut g, true);
    match suite_conv::enum1_get_second_value(Enum1::Second(arr)) {
        Some(a) => assert_eq!(a.to_value(&rt), Value::new(0x800)),
        None => panic!("expected the array"),
    }
    assert!(suite_conv::enum1_get_second_value(Enum1::Empty).is_none());
}

#[test]
fn results_and_bytes() {
    let v = Value::from_int(4);
    assert_eq!(result_ok(v), Ok(v));
    assert_eq!(result_error(v), Err(v));
    assert_eq!(result_get_ok(Ok(v)), Some(v));
    assert_eq!(result_get_ok(Err(v)), None);
    assert_eq!(result_get_error(Err(v)), Some(v));
    assert_eq!(result_get_error(Ok(v)), None);
    assert_eq!(string_non_copying(v), v);
    assert_eq!(array_conv([1, 2, 3, 4, 5]), [1, 2, 3, 4, 5, 15, 255]);
}

#[test]
fn runtime_suite() {
    mutable_parameter_with_more_than_five_arguments(true, false, 1, 2, Some(3), None);
    assert_eq!(raise_failure(), Err(Error::Caml(CamlError::Failure("An error".to_string()))));
    let mut st = RuntimeState::new();
    let mut g = GuardCount::new();
    let (rt, _, _) = Runtime::init(&mut st, &mut g, true);
    let l: List<Value> = list_nil();
    assert!(l.is_empty());
    assert_eq!(l.to_value(&rt), Value::new(UNIT));
    let l2: List<Value> = List::from_value(Value::new(0x900));
    assert!(!l2.is_empty());
}
