//! The runtime functions of the test library.
use vstd::prelude::*;
use crate::error::{CamlError, Error};

verus! {

/// Takes six parameters, one of them mutable, and does nothing with them.
pub fn mutable_parameter_with_more_than_five_arguments(
    mut net: bool,
    data: bool,
    batch_size: u64,
    epochs: u64,
    print_loss: Option<u64>,
    _metrics: Option<i32>,
) {
    let _ = net;
    let _ = data;
    let _ = batch_size;
    let _ = epochs;
    let _ = print_loss;
    net = false;
    let _ = net;
}

/// Raises `Failure "An error"`.
pub fn raise_failure() -> (r: Result<(), Error>)
    ensures
        r matches Err(Error::Caml(CamlError::Failure(m))) && m@ == "An error"@,
{
    Error::failwith("An error")
}

} // verus!
