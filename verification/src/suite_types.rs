//! The list functions of the test library.
use vstd::prelude::*;
use crate::conv::ToValue;
use crate::mlvalues::UNIT;
use crate::types::List;
use crate::value::Value;

verus! {

/// The empty list.
pub fn list_nil() -> (l: List<Value>)
    ensures
        l.to_value_spec() == Value(UNIT),
{
    List::empty()
}

} // verus!
