//! Plain structures shared with the C runtime.
use vstd::prelude::*;

verus! {

#[allow(non_camel_case_types)]
#[derive(Debug, Clone, Copy)]
pub struct caml_ref_table {
    pub _address: u8,
}

#[allow(non_camel_case_types)]
#[derive(Debug, Clone, Copy)]
pub struct caml_ephe_ref_table {
    pub _address: u8,
}

#[allow(non_camel_case_types)]
#[derive(Debug, Clone, Copy)]
pub struct caml_custom_table {
    pub _address: u8,
}

#[allow(non_camel_case_types)]
#[derive(Debug, Clone, Copy)]
pub struct longjmp_buffer {
    pub _address: u8,
}

/// The serialized sizes of a custom block of fixed length.
#[allow(non_camel_case_types)]
#[derive(Debug, Clone, Copy)]
pub struct custom_fixed_length {
    pub bsize_32: isize,
    pub bsize_64: isize,
}

} // verus!
