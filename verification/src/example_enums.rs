//! The enum exported by the example library.
use vstd::prelude::*;
use crate::types::Array;

verus! {

pub enum Enum11 {
    Empty,
    First(isize),
    Second(Array<&'static str>),
}

pub fn enum1_empty() -> (e: Enum11)
    ensures
        e is Empty,
{
    Enum11::Empty
}

pub fn enum1_first(i: isize) -> (e: Enum11)
    ensures
        e == Enum11::First(i),
{
    Enum11::First(i)
}

pub fn enum1_get_second_value(e: Enum11) -> (r: Option<Array<&'static str>>)
    ensures
        match e {
            Enum11::Second(x) => r == Some(x),
            _ => r is None,
        },
{
    match e {
        Enum11::Second(x) => Some(x),
        Enum11::Empty | Enum11::First(_) => None,
    }
}

pub fn enum1_is_empty(e: Enum11) -> (b: bool)
    ensures
        b == e is Empty,
{
    match e {
        Enum11::Empty => true,
        _ => false,
    }
}

} // verus!
