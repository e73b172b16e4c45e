//! OCaml values held by their machine word, and the operations on them
//! that depend on the word alone.
use vstd::prelude::*;
use crate::error::{CamlError, Error};
use crate::mlvalues::{
    extract_exception, int_val, int_val_spec, is_block, is_exception_result, is_long,
    is_long_spec, val_int, val_int_spec, NONE, UNIT,
};
use crate::tag::Tag;

verus! {

/// Wrapper around a raw OCaml word
#[derive(Debug, Clone, Copy, PartialEq, Eq, Structural)]
pub struct Raw(pub usize);

/// An OCaml value, held by its word.
#[derive(Debug, Clone, Copy, PartialEq, Eq, Structural)]
pub struct Value(pub usize);

impl Raw {
    /// The value with this word.
    pub fn as_value(&self) -> (v: Value)
        ensures
            v.0 == self.0,
    {
        Value(self.0)
    }
}

impl From<usize> for Raw {
    fn from(x: usize) -> (r: Raw) {
        Raw(x)
    }
}

impl vstd::std_specs::convert::FromSpecImpl<usize> for Raw {
    open spec fn obeys_from_spec() -> bool {
        true
    }

    open spec fn from_spec(x: usize) -> Raw {
        Raw(x)
    }
}

impl From<Raw> for usize {
    fn from(x: Raw) -> (r: usize) {
        x.0
    }
}

impl vstd::std_specs::convert::FromSpecImpl<Raw> for usize {
    open spec fn obeys_from_spec() -> bool {
        true
    }

    open spec fn from_spec(x: Raw) -> usize {
        x.0
    }
}

impl From<Raw> for Value {
    fn from(x: Raw) -> (r: Value) {
        Value(x.0)
    }
}

impl vstd::std_specs::convert::FromSpecImpl<Raw> for Value {
    open spec fn obeys_from_spec() -> bool {
        true
    }

    open spec fn from_spec(x: Raw) -> Value {
        Value(x.0)
    }
}

/// Whether a call with this tag is a call of a closure.
pub open spec fn is_closure(t: Tag) -> bool {
    t == Tag::Closure
}

impl Value {
    /// Create a new Value from an existing OCaml `value`
    pub fn new(v: usize) -> (r: Value)
        ensures
            r.0 == v,
    {
        Value(v)
    }

    /// Get raw OCaml value
    pub fn raw(&self) -> (r: Raw)
        ensures
            r.0 == self.0,
    {
        Raw(self.0)
    }

    /// Create an OCaml `int`
    pub fn from_int(i: isize) -> (v: Value)
        ensures
            v.0 as int == val_int_spec(i as int),
    {
        Value(val_int(i))
    }

    /// Create an OCaml `int` from an unsigned integer (reinterpreted as signed)
    pub fn uint(i: usize) -> (v: Value)
        ensures
            v.0 as int == val_int_spec((i as isize) as int),
    {
        Value(val_int(i as isize))
    }

    /// Convert a boolean to OCaml value
    pub fn bool(b: bool) -> (v: Value)
        ensures
            v.0 as int == val_int_spec(if b { 1 } else { 0 }),
    {
        Value::from_int(if b { 1 } else { 0 })
    }

    /// OCaml None value
    pub fn none() -> (v: Value)
        ensures
            v.0 == NONE,
    {
        Value(NONE)
    }

    /// OCaml Unit value
    pub fn unit() -> (v: Value)
        ensures
            v.0 == UNIT,
    {
        Value(UNIT)
    }

    /// Check if a Value is an integer or block, returning true if
    /// the underlying value is a block
    pub fn is_block(&self) -> (b: bool)
        ensures
            b == !is_long_spec(self.0 as int),
    {
        is_block(self.0)
    }

    /// Check if a Value is an integer or block, returning true if
    /// the underlying value is an integer
    pub fn is_long(&self) -> (b: bool)
        ensures
            b == is_long_spec(self.0 as int),
    {
        is_long(self.0)
    }

    /// Convert an OCaml `int` to `isize`
    pub fn int_val(&self) -> (i: isize)
        ensures
            i as int == int_val_spec(self.0 as int),
    {
        int_val(self.0)
    }

    /// Determines if the current value is an exception
    pub fn is_exception_result(&self) -> (b: bool)
        ensures
            b == (self.0 as int % 4 == 2),
    {
        is_exception_result(self.0)
    }

    /// Extract OCaml exception
    pub fn exception(&self) -> (r: Option<Value>)
        ensures
            r == (if self.0 as int % 4 == 2 {
                Some(Value((self.0 as int - self.0 as int % 4) as usize))
            } else {
                None
            }),
    {
        if !self.is_exception_result() {
            return None;
        }
        Some(Value(extract_exception(self.0)))
    }

    /// Convert value to Rust Result type depending on if the value is an
    /// exception or not
    pub fn check_result(self) -> (r: Result<Value, Error>)
        ensures
            r == (if self.0 as int % 4 == 2 {
                Err(Error::Caml(CamlError::Exception(Value((self.0 as int - self.0 as int % 4) as usize))))
            } else {
                Ok::<Value, Error>(self)
            }),
    {
        if !self.is_exception_result() {
            return Ok(self);
        }
        Err(Error::Caml(CamlError::Exception(Value(extract_exception(self.0)))))
    }

    /// The refusal of a call: only a closure can be called.
    pub fn check_callable(tag: Tag) -> (r: Result<(), Error>)
        ensures
            r == (if is_closure(tag) {
                Ok(())
            } else {
                Err::<(), Error>(Error::NotCallable)
            }),
    {
        if tag != Tag::Closure {
            return Err(Error::NotCallable);
        }
        Ok(())
    }
}

} // verus!
