//! The conversion functions of the test library.
use vstd::prelude::*;
use crate::mlvalues::int_val_spec;
use crate::types::Array;
use crate::value::Value;

verus! {

pub enum Enum1 {
    Empty,
    First(isize),
    Second(Array<String>),
}

pub fn enum1_empty() -> (e: Enum1)
    ensures
        e is Empty,
{
    Enum1::Empty
}

/// The variant `First` of the OCaml `int` held by `i`.
pub fn enum1_first(i: Value) -> (e: Enum1)
    ensures
        e matches Enum1::First(n) && n as int == int_val_spec(i.0 as int),
{
    Enum1::First(i.int_val())
}

pub fn enum1_get_second_value(e: Enum1) -> (r: Option<Array<String>>)
    ensures
        match e {
            Enum1::Second(x) => r == Some(x),
            _ => r is None,
        },
{
    match e {
        Enum1::Second(x) => Some(x),
        Enum1::Empty | Enum1::First(_) => None,
    }
}

pub fn enum1_is_empty(e: Enum1) -> (b: bool)
    ensures
        b == e is Empty,
{
    matches!(e, Enum1::Empty)
}

pub fn string_non_copying(s: Value) -> (r: Value)
    ensures
        r == s,
{
    s
}

/// The five bytes, their sum, and 255.
pub fn array_conv(a: [u8; 5]) -> (b: [u8; 7])
    requires
        a@[0] + a@[1] + a@[2] + a@[3] + a@[4] <= 255,
    ensures
        forall|i: int| 0 <= i < 5 ==> b@[i] == a@[i],
        b@[5] == a@[0] + a@[1] + a@[2] + a@[3] + a@[4],
        b@[6] == 255,
{
    let mut b = [0u8; 7];
    let mut i: usize = 0;
    while i < 5
        invariant
            0 <= i <= 5,
            a@[0] + a@[1] + a@[2] + a@[3] + a@[4] <= 255,
            b@.len() == 7,
            forall|k: int| 0 <= k < i ==> b@[k] == a@[k],
            b@[5] == (if i > 0 { a@[0] as int } else { 0 }) + (if i > 1 { a@[1] as int } else { 0 }) + (if i > 2 {
                a@[2] as int
            } else {
                0
            }) + (if i > 3 { a@[3] as int } else { 0 }) + (if i > 4 { a@[4] as int } else { 0 }),
            b@[6] == 0,
        decreases 5 - i,
    {
        b.set(i, a[i]);
        let s = b[5] + a[i];
        b.set(5, s);
        i += 1;
    }
    b.set(6, 255);
    b
}

pub fn result_ok(x: Value) -> (r: Result<Value, Value>)
    ensures
        r == Ok::<Value, Value>(x),
{
    Ok(x)
}

pub fn result_error(x: Value) -> (r: Result<Value, Value>)
    ensures
        r == Err::<Value, Value>(x),
{
    Err(x)
}

pub fn result_get_ok(x: Result<Value, Value>) -> (r: Option<Value>)
    ensures
        r == (match x {
            Ok(v) => Some(v),
            Err(_) => None,
        }),
{
    match x {
        Ok(x) => Some(x),
        Err(_) => None,
    }
}

pub fn result_get_error(x: Result<Value, Value>) -> (r: Option<Value>)
    ensures
        r == (match x {
            Ok(_) => None,
            Err(v) => Some(v),
        }),
{
    match x {
        Ok(_) => None,
        Err(x) => Some(x),
    }
}

} // verus!
