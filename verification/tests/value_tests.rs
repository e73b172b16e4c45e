use ocaml::conv::{FromValue, Incr, ToValue};
use ocaml::mlvalues::{
    empty_list, extract_exception, int_val, is_block, is_exception_result, is_long,
    make_exception_result, tag_hd, val_int, wosize_hd, EMPTY_LIST, FALSE, NONE, TRUE, UNIT,
};
use ocaml::runtime::{GuardCount, Runtime, RuntimeState};
use ocaml::value::{Raw, Value};

#[test]
fn test_memory() {
    let caml_int = 7471857119 as usize; // if this is not cast, then it's a u32 and conversion will fail
    let x = Value::new(caml_int).int_val();
    assert_eq!(x, 0xdeadbeef);
}

#[test]
fn val_int_encodes_two_i_plus_one() {
    assert_eq!(val_int(0), 1);
    assert_eq!(val_int(1), 3);
    assert_eq!(val_int(21), 43);
    assert_eq!(val_int(-1), usize::MAX);
    assert_eq!(val_int(-2), usize::MAX - 2);
}

#[test]
fn int_val_reads_signed_words() {
    assert_eq!(int_val(1), 0);
    assert_eq!(int_val(43), 21);
    assert_eq!(int_val(usize::MAX), -1);
    assert_eq!(int_val(usize::MAX - 2), -2);
    assert_eq!(int_val(0), 0);
}

#[test]
fn int_roundtrip_at_the_limits() {
    let max_long = isize::MAX / 2;
    let min_long = isize::MIN / 2;
    for i in [0isize, 1, -1, 12345, -12345, max_long, min_long] {
        assert_eq!(int_val(val_int(i)), i);
    }
    // Past Max_long the top bit is lost.
    assert_ne!(int_val(val_int(isize::MAX)), isize::MAX);
}

#[test]
fn val_int_of_int_val_on_odd_words() {
    for v in [1usize, 3, 7471857119, usize::MAX, usize::MAX - 2, (usize::MAX / 2) | 1] {
        assert_eq!(val_int(int_val(v)), v);
    }
}

#[test]
fn long_and_block_words() {
    assert!(is_long(val_int(5)));
    assert!(!is_block(val_int(5)));
    assert!(is_block(0x1000));
    assert!(!is_long(0x1000));
}

#[test]
fn constants_are_encoded_integers() {
    assert_eq!(UNIT, val_int(0));
    assert_eq!(EMPTY_LIST, val_int(0));
    assert_eq!(TRUE, val_int(1));
    assert_eq!(FALSE, val_int(0));
    assert_eq!(NONE, val_int(0));
    assert_eq!(empty_list(), val_int(0));
}

#[test]
fn header_fields() {
    // wosize 3, colour 2, tag 247
    let hd: usize = (3 << 10) | (2 << 8) | 247;
    assert_eq!(wosize_hd(hd), 3);
    assert_eq!(tag_hd(hd), 247);
    assert_eq!(wosize_hd(1023), 0);
}

#[test]
fn exception_results() {
    let p: usize = 0x7f00_1230;
    let r = make_exception_result(p);
    assert_eq!(r, p + 2);
    assert!(is_exception_result(r));
    assert_eq!(extract_exception(r), p);
    assert!(!is_exception_result(p));
    assert!(!is_exception_result(val_int(17)));
    assert_eq!(make_exception_result(5), 7);
}

#[test]
fn value_exception_and_check_result() {
    let v = Value::new(0x4000 | 2);
    assert!(v.is_exception_result());
    assert_eq!(v.exception(), Some(Value::new(0x4000)));
    assert!(v.check_result().is_err());
    let w = Value::new(0x4000);
    assert_eq!(w.exception(), None);
    assert_eq!(w.check_result(), Ok(w));
}

#[test]
fn value_constructors() {
    assert_eq!(Value::from_int(7).raw(), Raw(15));
    assert_eq!(Value::uint(7).raw(), Raw(15));
    assert_eq!(Value::bool(true).raw(), Raw(3));
    assert_eq!(Value::bool(false).raw(), Raw(1));
    assert_eq!(Value::unit().raw(), Raw(UNIT));
    assert_eq!(Value::none().raw(), Raw(NONE));
    assert!(Value::from_int(3).is_long());
    assert!(Value::new(8).is_block());
    assert_eq!(Raw(9).as_value(), Value::new(9));
    let r: Raw = 11usize.into();
    assert_eq!(r, Raw(11));
    let u: usize = Raw(12).into();
    assert_eq!(u, 12);
    let v: Value = Raw(13).into();
    assert_eq!(v, Value::new(13));
}

#[test]
fn conversions_roundtrip() {
    let mut st = RuntimeState::new();
    let mut g = GuardCount::new();
    let (rt, _, _) = Runtime::init(&mut st, &mut g, true);
    for x in [i8::MIN, -1, 0, 1, i8::MAX] {
        assert_eq!(i8::from_value(x.to_value(&rt)), x);
    }
    for x in [u8::MIN, 1, u8::MAX] {
        assert_eq!(u8::from_value(x.to_value(&rt)), x);
    }
    for x in [i16::MIN, -300, 0, i16::MAX] {
        assert_eq!(i16::from_value(x.to_value(&rt)), x);
    }
    for x in [0u16, 300, u16::MAX] {
        assert_eq!(u16::from_value(x.to_value(&rt)), x);
    }
    for x in [isize::MIN / 2, -5, 0, 5, isize::MAX / 2] {
        assert_eq!(isize::from_value(x.to_value(&rt)), x);
    }
    for x in [0usize, 5, (isize::MAX / 2) as usize] {
        assert_eq!(usize::from_value(x.to_value(&rt)), x);
    }
    for x in [true, false] {
        assert_eq!(bool::from_value(x.to_value(&rt)), x);
    }
    assert_eq!(().to_value(&rt), Value::unit());
    assert_eq!(Value::new(99).to_value(&rt), Value::new(99));
    assert_eq!(Raw::from_value(Value::new(99)), Raw(99));
    assert_eq!(Raw(98).to_value(&rt), Value::new(98));
}

#[test]
fn narrow_conversions_truncate() {
    // An OCaml int read as a byte keeps its low eight bits.
    assert_eq!(u8::from_value(Value::from_int(257)), 1);
    assert_eq!(i8::from_value(Value::from_int(255)), -1);
    assert!(bool::from_value(Value::from_int(2)));
}

#[test]
fn incr_counts() {
    let mut i = Incr(0);
    assert_eq!(i.get(), 0);
    assert_eq!(i.get(), 1);
    assert_eq!(i.get(), 2);
    assert_eq!(i.0, 3);
}
