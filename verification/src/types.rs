//! OCaml types used from Rust without conversion: arrays and lists,
//! and the element kinds of bigarrays.
use vstd::prelude::*;
use core::marker::PhantomData;
use crate::conv::{FromValue, ToValue};
use crate::error::{CamlError, Error};
use crate::mlvalues::UNIT;
use crate::runtime::Runtime;
use crate::value::Value;

verus! {

/// `Array<A>` wraps an OCaml `'a array` without converting it to Rust
pub struct Array<T>(pub Value, pub PhantomData<T>);

/// `List<A>` wraps an OCaml `'a list` without converting it to Rust
pub struct List<T>(pub Value, pub PhantomData<T>);

/// The refusal of an array access: an index past the end is an
/// `Invalid_argument "index out of bounds"` array-bound error.
pub open spec fn index_check(len: usize, i: usize) -> Result<(), Error> {
    if i >= len {
        Err(Error::Caml(CamlError::ArrayBoundError))
    } else {
        Ok(())
    }
}

/// The refusal of a float access: an index past the end first, then an
/// array that is not a float array.
pub open spec fn double_check(len: usize, i: usize, is_f64: bool) -> Result<(), Error> {
    if i >= len {
        Err(Error::Caml(CamlError::ArrayBoundError))
    } else if !is_f64 {
        Err(Error::NotDoubleArray)
    } else {
        Ok(())
    }
}

/// An index past the end is refused with `Invalid_argument "index out of
/// bounds"` (`ArrayBoundError`) by every access, whatever the array's kind;
/// `get` and `set` accept every other index; `get_f64` and `set_double`
/// accept exactly the indices in bounds of a float array, and refuse any
/// other array with `NotDoubleArray`.
pub proof fn lemma_array_access_checks(len: usize, i: usize, is_f64: bool)
    ensures
        i >= len ==> index_check(len, i) == Err::<(), Error>(Error::Caml(CamlError::ArrayBoundError)),
        i >= len ==> double_check(len, i, is_f64) == Err::<(), Error>(Error::Caml(CamlError::ArrayBoundError)),
        index_check(len, i) is Ok <==> i < len,
        double_check(len, i, is_f64) is Ok <==> i < len && is_f64,
        i < len && !is_f64 ==> double_check(len, i, is_f64) == Err::<(), Error>(Error::NotDoubleArray),
{
}

impl<T> Array<T> {
    /// Checks an index of `get` and `set` against the array length.
    pub fn check_index(len: usize, i: usize) -> (r: Result<(), Error>)
        ensures
            r == index_check(len, i),
    {
        if i >= len {
            return Err(Error::Caml(CamlError::ArrayBoundError));
        }
        Ok(())
    }

    /// Checks an index of `get_f64` and `set_double` against the array
    /// length and the array's kind.
    pub fn check_double(len: usize, i: usize, is_f64: bool) -> (r: Result<(), Error>)
        ensures
            r == double_check(len, i, is_f64),
    {
        if i >= len {
            return Err(Error::Caml(CamlError::ArrayBoundError));
        }
        if !is_f64 {
            return Err(Error::NotDoubleArray);
        }
        Ok(())
    }
}

impl<T> ToValue for Array<T> {
    open spec fn to_value_spec(&self) -> Value {
        self.0
    }

    fn to_value(&self, rt: &Runtime) -> (v: Value) {
        self.0
    }
}

impl<T> FromValue for Array<T> {
    open spec fn from_value_spec(v: Value) -> Array<T> {
        Array(v, PhantomData)
    }

    fn from_value(v: Value) -> (r: Array<T>) {
        Array(v, PhantomData)
    }
}

impl<T> List<T> {
    /// An empty list
    pub fn empty() -> (l: List<T>)
        ensures
            l.to_value_spec() == Value(UNIT),
    {
        List(Value::unit(), PhantomData)
    }

    /// Returns true when the list is empty
    pub fn is_empty(&self) -> (b: bool)
        ensures
            b == (self.0 == Value(UNIT)),
    {
        self.0.0 == UNIT
    }
}

impl<T> ToValue for List<T> {
    open spec fn to_value_spec(&self) -> Value {
        self.0
    }

    fn to_value(&self, rt: &Runtime) -> (v: Value) {
        self.0
    }
}

impl<T> FromValue for List<T> {
    open spec fn from_value_spec(v: Value) -> List<T> {
        List(v, PhantomData)
    }

    fn from_value(v: Value) -> (r: List<T>) {
        List(v, PhantomData)
    }
}

/// Element kinds of OCaml bigarrays (`caml_ba_kind`).
pub const FLOAT32: i32 = 0;
pub const FLOAT64: i32 = 1;
pub const SINT8: i32 = 2;
pub const UINT8: i32 = 3;
pub const SINT16: i32 = 4;
pub const UINT16: i32 = 5;
pub const INT32: i32 = 6;
pub const INT64: i32 = 7;
pub const CAML_INT: i32 = 8;
pub const NATIVE_INT: i32 = 9;
pub const COMPLEX32: i32 = 10;
pub const COMPLEX64: i32 = 11;
pub const CHAR: i32 = 12;

/// Bigarray kind
pub trait Kind {
    /// Array item type
    type T: Clone + Copy;

    /// The kind identifier of the item type.
    spec fn kind_spec() -> i32;

    /// OCaml bigarray type identifier
    fn kind() -> (k: i32)
        ensures
            k == Self::kind_spec(),
    ;
}

impl Kind for u8 {
    type T = u8;

    open spec fn kind_spec() -> i32 {
        UINT8
    }

    fn kind() -> (k: i32) {
        UINT8
    }
}

impl Kind for i8 {
    type T = i8;

    open spec fn kind_spec() -> i32 {
        SINT8
    }

    fn kind() -> (k: i32) {
        SINT8
    }
}

impl Kind for u16 {
    type T = u16;

    open spec fn kind_spec() -> i32 {
        UINT16
    }

    fn kind() -> (k: i32) {
        UINT16
    }
}

impl Kind for i16 {
    type T = i16;

    open spec fn kind_spec() -> i32 {
        SINT16
    }

    fn kind() -> (k: i32) {
        SINT16
    }
}

impl Kind for i64 {
    type T = i64;

    open spec fn kind_spec() -> i32 {
        INT64
    }

    fn kind() -> (k: i32) {
        INT64
    }
}

impl Kind for i32 {
    type T = i32;

    open spec fn kind_spec() -> i32 {
        INT32
    }

    fn kind() -> (k: i32) {
        INT32
    }
}

impl Kind for char {
    type T = char;

    open spec fn kind_spec() -> i32 {
        CHAR
    }

    fn kind() -> (k: i32) {
        CHAR
    }
}

} // verus!
