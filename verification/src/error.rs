//! Errors that become OCaml exceptions.
use vstd::prelude::*;
use crate::text::to_owned_text;
use crate::value::Value;

verus! {

pub const OUT_OF_MEMORY_EXN: i32 = 0;
pub const SYS_ERROR_EXN: i32 = 1;
pub const FAILURE_EXN: i32 = 2;
pub const INVALID_EXN: i32 = 3;
pub const END_OF_FILE_EXN: i32 = 4;
pub const ZERO_DIVIDE_EXN: i32 = 5;
pub const NOT_FOUND_EXN: i32 = 6;
pub const MATCH_FAILURE_EXN: i32 = 7;
pub const STACK_OVERFLOW_EXN: i32 = 8;
pub const SYS_BLOCKED_IO: i32 = 9;
pub const ASSERT_FAILURE_EXN: i32 = 10;
pub const UNDEFINIED_RECURSIVE_MODULE_EXN: i32 = 11;

/// Errors that are translated directly into OCaml exceptions
#[derive(Debug, Clone, PartialEq, Eq)]
pub enum CamlError {
    /// Not_found
    NotFound,
    /// Failure
    Failure(String),
    /// Invalid_argument
    InvalidArgument(String),
    /// Out_of_memory
    OutOfMemory,
    /// Stack_overflow
    StackOverflow,
    /// Sys_error
    SysError(String),
    /// End_of_file
    EndOfFile,
    /// Zero_divide
    ZeroDivide,
    /// Array bound error
    ArrayBoundError,
    /// Sys_blocked_io
    SysBlockedIo,
    /// A pre-allocated OCaml exception
    Exception(Value),
    /// An exception type and argument
    WithArg(Value, Value),
}

/// Error returned by `ocaml-rs` functions
#[derive(Debug, Clone, PartialEq, Eq)]
pub enum Error {
    /// A value cannot be called using callback functions
    NotCallable,
    /// Array is not a double array
    NotDoubleArray,
    /// Error message
    Message(String),
    /// General error, by the debug text of the underlying Rust error
    Error(String),
    /// OCaml exceptions
    Caml(CamlError),
}

/// How an error is raised in OCaml when a function returns it.
#[derive(Debug, Clone, PartialEq, Eq)]
pub enum Raise {
    /// `caml_raise` of the exception value.
    Exception(Value),
    /// `caml_raise_not_found`
    NotFound,
    /// `caml_array_bound_error`
    ArrayBoundError,
    /// `caml_raise_out_of_memory`
    OutOfMemory,
    /// `caml_raise_end_of_file`
    EndOfFile,
    /// `caml_raise_stack_overflow`
    StackOverflow,
    /// `caml_raise_zero_divide`
    ZeroDivide,
    /// `caml_raise_sys_blocked_io`
    SysBlockedIo,
    /// `caml_invalid_argument` with the message.
    InvalidArgument(String),
    /// `caml_raise_with_arg` of the exception and its argument.
    WithArg(Value, Value),
    /// `caml_raise_sys_error` with the message.
    SysError(String),
    /// `caml_failwith` with the message.
    Failwith(String),
}

impl From<CamlError> for Error {
    fn from(x: CamlError) -> (r: Error) {
        Error::Caml(x)
    }
}

impl vstd::std_specs::convert::FromSpecImpl<CamlError> for Error {
    open spec fn obeys_from_spec() -> bool {
        true
    }

    open spec fn from_spec(x: CamlError) -> Error {
        Error::Caml(x)
    }
}

/// The exception that an error is raised as: each OCaml exception by its
/// own primitive, messages and other errors as `Failure`.
pub open spec fn raises(e: Error, r: Raise) -> bool {
    match e {
        Error::Caml(CamlError::Exception(v)) => r == Raise::Exception(v),
        Error::Caml(CamlError::NotFound) => r == Raise::NotFound,
        Error::Caml(CamlError::ArrayBoundError) => r == Raise::ArrayBoundError,
        Error::Caml(CamlError::OutOfMemory) => r == Raise::OutOfMemory,
        Error::Caml(CamlError::EndOfFile) => r == Raise::EndOfFile,
        Error::Caml(CamlError::StackOverflow) => r == Raise::StackOverflow,
        Error::Caml(CamlError::ZeroDivide) => r == Raise::ZeroDivide,
        Error::Caml(CamlError::SysBlockedIo) => r == Raise::SysBlockedIo,
        Error::Caml(CamlError::InvalidArgument(s)) => r == Raise::InvalidArgument(s),
        Error::Caml(CamlError::WithArg(a, b)) => r == Raise::WithArg(a, b),
        Error::Caml(CamlError::SysError(s)) => r == Raise::SysError(s),
        Error::Message(s) => r == Raise::Failwith(s),
        Error::Caml(CamlError::Failure(s)) => r == Raise::Failwith(s),
        Error::Error(s) => r == Raise::Failwith(s),
        Error::NotDoubleArray => r matches Raise::Failwith(m) && m@ == "invalid double array"@,
        Error::NotCallable => r matches Raise::Failwith(m) && m@ == "value is not callable"@,
    }
}

impl Error {
    /// How this error is raised in OCaml when a function returns it.
    pub fn to_raise(&self) -> (r: Raise)
        ensures
            raises(*self, r),
    {
        match self {
            Error::Caml(CamlError::Exception(e)) => Raise::Exception(*e),
            Error::Caml(CamlError::NotFound) => Raise::NotFound,
            Error::Caml(CamlError::ArrayBoundError) => Raise::ArrayBoundError,
            Error::Caml(CamlError::OutOfMemory) => Raise::OutOfMemory,
            Error::Caml(CamlError::EndOfFile) => Raise::EndOfFile,
            Error::Caml(CamlError::StackOverflow) => Raise::StackOverflow,
            Error::Caml(CamlError::ZeroDivide) => Raise::ZeroDivide,
            Error::Caml(CamlError::SysBlockedIo) => Raise::SysBlockedIo,
            Error::Caml(CamlError::InvalidArgument(s)) => Raise::InvalidArgument(s.clone()),
            Error::Caml(CamlError::WithArg(a, b)) => Raise::WithArg(*a, *b),
            Error::Caml(CamlError::SysError(s)) => Raise::SysError(s.clone()),
            Error::Message(s) => Raise::Failwith(s.clone()),
            Error::Caml(CamlError::Failure(s)) => Raise::Failwith(s.clone()),
            Error::Error(s) => Raise::Failwith(s.clone()),
            Error::NotDoubleArray => Raise::Failwith(to_owned_text("invalid double array")),
            Error::NotCallable => Raise::Failwith(to_owned_text("value is not callable")),
        }
    }

    /// Re-raise an existing exception value
    pub fn reraise(exc: Value) -> (r: Result<(), Error>)
        ensures
            r == Err::<(), Error>(Error::Caml(CamlError::Exception(exc))),
    {
        Err(Error::Caml(CamlError::Exception(exc)))
    }

    /// Raise an exception registered with `Callback.register_exception`,
    /// given the registered value, with no arguments
    pub fn raise(exc: Value) -> (r: Result<(), Error>)
        ensures
            r == Err::<(), Error>(Error::Caml(CamlError::Exception(exc))),
    {
        Err(Error::Caml(CamlError::Exception(exc)))
    }

    /// Raise an exception registered with `Callback.register_exception`,
    /// given the registered value, with an argument
    pub fn raise_with_arg(exc: Value, arg: Value) -> (r: Result<(), Error>)
        ensures
            r == Err::<(), Error>(Error::Caml(CamlError::WithArg(exc, arg))),
    {
        Err(Error::Caml(CamlError::WithArg(exc, arg)))
    }

    /// Raise `Not_found`
    pub fn not_found() -> (r: Result<(), Error>)
        ensures
            r == Err::<(), Error>(Error::Caml(CamlError::NotFound)),
    {
        Err(Error::Caml(CamlError::NotFound))
    }

    /// Raise `Out_of_memory`
    pub fn out_of_memory() -> (r: Result<(), Error>)
        ensures
            r == Err::<(), Error>(Error::Caml(CamlError::OutOfMemory)),
    {
        Err(Error::Caml(CamlError::OutOfMemory))
    }

    /// Raise `Failure`
    pub fn failwith(s: &str) -> (r: Result<(), Error>)
        ensures
            r matches Err(Error::Caml(CamlError::Failure(m))) && m@ == s@,
    {
        Err(Error::Caml(CamlError::Failure(to_owned_text(s))))
    }

    /// Raise `Invalid_argument`
    pub fn invalid_argument(s: &str) -> (r: Result<(), Error>)
        ensures
            r matches Err(Error::Caml(CamlError::InvalidArgument(m))) && m@ == s@,
    {
        Err(Error::Caml(CamlError::InvalidArgument(to_owned_text(s))))
    }
}

/// Each error is raised as the OCaml exception it is named after: the
/// predefined exceptions by their own primitives (`Out_of_memory` as
/// `Out_of_memory`, `Invalid_argument` with its message), a registered
/// exception as itself, and every message as `Failure` with that text.
pub proof fn lemma_raised_as_named(e: Error, r: Raise)
    requires
        raises(e, r),
    ensures
        e == Error::Caml(CamlError::NotFound) ==> r == Raise::NotFound,
        e == Error::Caml(CamlError::ArrayBoundError) ==> r == Raise::ArrayBoundError,
        e == Error::Caml(CamlError::OutOfMemory) ==> r == Raise::OutOfMemory,
        e == Error::Caml(CamlError::EndOfFile) ==> r == Raise::EndOfFile,
        e == Error::Caml(CamlError::StackOverflow) ==> r == Raise::StackOverflow,
        e == Error::Caml(CamlError::ZeroDivide) ==> r == Raise::ZeroDivide,
        e == Error::Caml(CamlError::SysBlockedIo) ==> r == Raise::SysBlockedIo,
        e matches Error::Caml(CamlError::Exception(v)) ==> r == Raise::Exception(v),
        e matches Error::Caml(CamlError::WithArg(a, b)) ==> r == Raise::WithArg(a, b),
        e matches Error::Caml(CamlError::InvalidArgument(m)) ==> r == Raise::InvalidArgument(m),
        e matches Error::Caml(CamlError::SysError(m)) ==> r == Raise::SysError(m),
        e matches Error::Caml(CamlError::Failure(m)) ==> r == Raise::Failwith(m),
        e matches Error::Message(m) ==> r == Raise::Failwith(m),
        e matches Error::Error(m) ==> r == Raise::Failwith(m),
        e is NotDoubleArray ==> (r matches Raise::Failwith(m) && m@ == "invalid double array"@),
        e is NotCallable ==> (r matches Raise::Failwith(m) && m@ == "value is not callable"@),
{
}

} // verus!
