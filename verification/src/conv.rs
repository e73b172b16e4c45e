//! Conversions between Rust values and OCaml values that are held in a
//! single word: integers, booleans, unit, and values themselves.
use vstd::prelude::*;
use crate::mlvalues::{int_val_spec, max_long, min_long, val_int_spec, UNIT};
use crate::runtime::Runtime;
use crate::value::{Raw, Value};

verus! {

/// `ToValue` is used to convert from Rust types to OCaml values
pub trait ToValue {
    /// The value this converts to.
    spec fn to_value_spec(&self) -> Value;

    /// Convert to OCaml value
    fn to_value(&self, rt: &Runtime) -> (v: Value)
        ensures
            v == self.to_value_spec(),
    ;
}

/// `FromValue` is used to convert from OCaml values to Rust types
pub trait FromValue: Sized {
    /// The Rust value read from an OCaml value.
    spec fn from_value_spec(v: Value) -> Self;

    /// Convert from OCaml value
    fn from_value(v: Value) -> (r: Self)
        ensures
            r == Self::from_value_spec(v),
    ;
}

/// The value of an OCaml `int`.
pub open spec fn int_value(i: int) -> Value {
    Value(val_int_spec(i) as usize)
}

impl ToValue for Value {
    open spec fn to_value_spec(&self) -> Value {
        *self
    }

    fn to_value(&self, rt: &Runtime) -> (v: Value) {
        *self
    }
}

impl FromValue for Value {
    open spec fn from_value_spec(v: Value) -> Value {
        v
    }

    fn from_value(v: Value) -> (r: Value) {
        v
    }
}

impl ToValue for Raw {
    open spec fn to_value_spec(&self) -> Value {
        Value(self.0)
    }

    fn to_value(&self, rt: &Runtime) -> (v: Value) {
        Value::new(self.0)
    }
}

impl FromValue for Raw {
    open spec fn from_value_spec(v: Value) -> Raw {
        Raw(v.0)
    }

    fn from_value(v: Value) -> (r: Raw) {
        v.raw()
    }
}

impl ToValue for isize {
    open spec fn to_value_spec(&self) -> Value {
        int_value(*self as int)
    }

    fn to_value(&self, rt: &Runtime) -> (v: Value) {
        Value::from_int(*self)
    }
}

impl FromValue for isize {
    open spec fn from_value_spec(v: Value) -> isize {
        int_val_spec(v.0 as int) as isize
    }

    fn from_value(v: Value) -> (r: isize) {
        v.int_val()
    }
}

impl ToValue for usize {
    open spec fn to_value_spec(&self) -> Value {
        int_value((*self as isize) as int)
    }

    fn to_value(&self, rt: &Runtime) -> (v: Value) {
        Value::from_int(*self as isize)
    }
}

impl FromValue for usize {
    open spec fn from_value_spec(v: Value) -> usize {
        int_val_spec(v.0 as int) as usize
    }

    fn from_value(v: Value) -> (r: usize) {
        v.int_val() as usize
    }
}

impl ToValue for i8 {
    open spec fn to_value_spec(&self) -> Value {
        int_value(*self as int)
    }

    fn to_value(&self, rt: &Runtime) -> (v: Value) {
        Value::from_int(*self as isize)
    }
}

impl FromValue for i8 {
    open spec fn from_value_spec(v: Value) -> i8 {
        int_val_spec(v.0 as int) as i8
    }

    fn from_value(v: Value) -> (r: i8) {
        v.int_val() as i8
    }
}

impl ToValue for u8 {
    open spec fn to_value_spec(&self) -> Value {
        int_value(*self as int)
    }

    fn to_value(&self, rt: &Runtime) -> (v: Value) {
        Value::from_int(*self as isize)
    }
}

impl FromValue for u8 {
    open spec fn from_value_spec(v: Value) -> u8 {
        int_val_spec(v.0 as int) as u8
    }

    fn from_value(v: Value) -> (r: u8) {
        v.int_val() as u8
    }
}

impl ToValue for i16 {
    open spec fn to_value_spec(&self) -> Value {
        int_value(*self as int)
    }

    fn to_value(&self, rt: &Runtime) -> (v: Value) {
        Value::from_int(*self as isize)
    }
}

impl FromValue for i16 {
    open spec fn from_value_spec(v: Value) -> i16 {
        int_val_spec(v.0 as int) as i16
    }

    fn from_value(v: Value) -> (r: i16) {
        v.int_val() as i16
    }
}

impl ToValue for u16 {
    open spec fn to_value_spec(&self) -> Value {
        int_value(*self as int)
    }

    fn to_value(&self, rt: &Runtime) -> (v: Value) {
        Value::from_int(*self as isize)
    }
}

impl FromValue for u16 {
    open spec fn from_value_spec(v: Value) -> u16 {
        int_val_spec(v.0 as int) as u16
    }

    fn from_value(v: Value) -> (r: u16) {
        v.int_val() as u16
    }
}

impl ToValue for bool {
    open spec fn to_value_spec(&self) -> Value {
        int_value(if *self { 1 } else { 0 })
    }

    fn to_value(&self, rt: &Runtime) -> (v: Value) {
        Value::from_int(if *self { 1 } else { 0 })
    }
}

impl FromValue for bool {
    open spec fn from_value_spec(v: Value) -> bool {
        int_val_spec(v.0 as int) != 0
    }

    fn from_value(v: Value) -> (r: bool) {
        v.int_val() != 0
    }
}

impl ToValue for () {
    open spec fn to_value_spec(&self) -> Value {
        Value(UNIT)
    }

    fn to_value(&self, rt: &Runtime) -> (v: Value) {
        Value::unit()
    }
}

impl FromValue for () {
    open spec fn from_value_spec(v: Value) -> () {
        ()
    }

    fn from_value(v: Value) -> (r: ()) {
    }
}

/// Counts the fields of a tuple as they are read.
pub struct Incr(pub usize);

impl Incr {
    /// The current index; the counter moves on by one.
    pub fn get(&mut self) -> (i: usize)
        requires
            old(self).0 < usize::MAX,
        ensures
            i == old(self).0,
            final(self).0 == old(self).0 + 1,
    {
        let i = self.0;
        self.0 = i + 1;
        i
    }
}

/// The word of the OCaml `int` holding `i`: `2 * i + 1` in two's
/// complement, which reads back as `i`.
pub open spec fn holds_int(v: Value, i: int) -> bool {
    &&& v.0 as int == (if i >= 0 {
        2 * i + 1
    } else {
        2 * i + 1 + crate::mlvalues::word_modulus()
    })
    &&& int_val_spec(v.0 as int) == i
}

proof fn lemma_int_value_holds(i: int)
    requires
        min_long() <= i <= max_long(),
    ensures
        holds_int(int_value(i), i),
{
    crate::mlvalues::lemma_val_int_encoding(i);
    crate::mlvalues::lemma_int_val_of_val_int(i);
}

/// Small integers, signed or not, become the OCaml `int` with the same
/// number (a negative one sign-extended), and booleans the `int` 1 or 0.
pub proof fn lemma_small_ints_to_value(a: i8, b: u8, c: i16, d: u16, e: bool)
    ensures
        holds_int(a.to_value_spec(), a as int),
        holds_int(b.to_value_spec(), b as int),
        holds_int(c.to_value_spec(), c as int),
        holds_int(d.to_value_spec(), d as int),
        holds_int(e.to_value_spec(), if e { 1 } else { 0 }),
{
    crate::mlvalues::lemma_word_facts();
    lemma_int_value_holds(a as int);
    lemma_int_value_holds(b as int);
    lemma_int_value_holds(c as int);
    lemma_int_value_holds(d as int);
    lemma_int_value_holds(if e { 1 } else { 0 });
}

/// Machine-word integers from `Min_long` to `Max_long` become the OCaml
/// `int` with the same number.
pub proof fn lemma_word_ints_to_value(a: isize, b: usize)
    ensures
        min_long() <= a <= max_long() ==> holds_int(a.to_value_spec(), a as int),
        b <= max_long() ==> holds_int(b.to_value_spec(), b as int),
{
    crate::mlvalues::lemma_word_facts();
    if min_long() <= a <= max_long() {
        lemma_int_value_holds(a as int);
    }
    if b <= max_long() {
        lemma_int_value_holds(b as int);
    }
}

/// Unit is the OCaml `()`, the `int` 0.
pub proof fn lemma_unit_to_value(u: ())
    ensures
        holds_int(u.to_value_spec(), 0),
{
    crate::mlvalues::lemma_word_facts();
    lemma_int_value_holds(0);
}

/// An OCaml `int` read as a Rust integer gives its number when the number
/// fits the type, and as a boolean whether it is not 0.
pub proof fn lemma_ints_from_value(v: Value, i: int)
    requires
        holds_int(v, i),
    ensures
        i8::MIN <= i <= i8::MAX ==> <i8 as FromValue>::from_value_spec(v) == i,
        u8::MIN <= i <= u8::MAX ==> <u8 as FromValue>::from_value_spec(v) == i,
        i16::MIN <= i <= i16::MAX ==> <i16 as FromValue>::from_value_spec(v) == i,
        u16::MIN <= i <= u16::MAX ==> <u16 as FromValue>::from_value_spec(v) == i,
        isize::MIN <= i <= isize::MAX ==> <isize as FromValue>::from_value_spec(v) == i,
        0 <= i <= usize::MAX ==> <usize as FromValue>::from_value_spec(v) == i,
        <bool as FromValue>::from_value_spec(v) == (i != 0),
{
}

/// An OCaml `int` converted to a value and back is the same integer, from
/// `Min_long` to `Max_long`.
pub proof fn lemma_isize_roundtrip(x: isize)
    requires
        min_long() <= x <= max_long(),
    ensures
        <isize as FromValue>::from_value_spec(x.to_value_spec()) == x,
{
    crate::mlvalues::lemma_word_facts();
    crate::mlvalues::lemma_int_val_of_val_int(x as int);
}

/// A `usize` up to `Max_long` converted to a value and back is the same.
pub proof fn lemma_usize_roundtrip(x: usize)
    requires
        x <= max_long(),
    ensures
        <usize as FromValue>::from_value_spec(x.to_value_spec()) == x,
{
    crate::mlvalues::lemma_word_facts();
    crate::mlvalues::lemma_int_val_of_val_int(x as int);
}

/// Every `i8` converts to a value and back unchanged.
pub proof fn lemma_i8_roundtrip(x: i8)
    ensures
        <i8 as FromValue>::from_value_spec(x.to_value_spec()) == x,
{
    crate::mlvalues::lemma_word_facts();
    crate::mlvalues::lemma_int_val_of_val_int(x as int);
}

/// Every `u8` converts to a value and back unchanged.
pub proof fn lemma_u8_roundtrip(x: u8)
    ensures
        <u8 as FromValue>::from_value_spec(x.to_value_spec()) == x,
{
    crate::mlvalues::lemma_word_facts();
    crate::mlvalues::lemma_int_val_of_val_int(x as int);
}

/// Every `i16` converts to a value and back unchanged.
pub proof fn lemma_i16_roundtrip(x: i16)
    ensures
        <i16 as FromValue>::from_value_spec(x.to_value_spec()) == x,
{
    crate::mlvalues::lemma_word_facts();
    crate::mlvalues::lemma_int_val_of_val_int(x as int);
}

/// Every `u16` converts to a value and back unchanged.
pub proof fn lemma_u16_roundtrip(x: u16)
    ensures
        <u16 as FromValue>::from_value_spec(x.to_value_spec()) == x,
{
    crate::mlvalues::lemma_word_facts();
    crate::mlvalues::lemma_int_val_of_val_int(x as int);
}

/// Every `bool` converts to a value and back unchanged.
pub proof fn lemma_bool_roundtrip(x: bool)
    ensures
        <bool as FromValue>::from_value_spec(x.to_value_spec()) == x,
{
    crate::mlvalues::lemma_word_facts();
    crate::mlvalues::lemma_int_val_of_val_int(if x { 1 } else { 0 });
}

} // verus!
