use ocaml::error::{CamlError, Error, Raise};
use ocaml::value::Value;
use ocaml::tag::Tag;
use ocaml::types::Array;

#[test]
fn constructors() {
    assert_eq!(Error::not_found(), Err(Error::Caml(CamlError::NotFound)));
    assert_eq!(Error::out_of_memory(), Err(Error::Caml(CamlError::OutOfMemory)));
    assert_eq!(Error::failwith("An error"), Err(Error::Caml(CamlError::Failure("An error".to_string()))));
    assert_eq!(Error::invalid_argument("bad"), Err(Error::Caml(CamlError::InvalidArgument("bad".to_string()))));
    let e = Value::new(0x1000);
    assert_eq!(Error::reraise(e), Err(Error::Caml(CamlError::Exception(e))));
    assert_eq!(Error::raise(e), Err(Error::Caml(CamlError::Exception(e))));
    let a = Value::from_int(3);
    assert_eq!(Error::raise_with_arg(e, a), Err(Error::Caml(CamlError::WithArg(e, a))));
    let from: Error = CamlError::ZeroDivide.into();
    assert_eq!(from, Error::Caml(CamlError::ZeroDivide));
}

#[test]
fn raised_as() {
    let e = Value::new(0x1000);
    let a = Value::from_int(1);
    let cases = vec![
        (Error::Caml(CamlError::Exception(e)), Raise::Exception(e)),
        (Error::Caml(CamlError::NotFound), Raise::NotFound),
        (Error::Caml(CamlError::ArrayBoundError), Raise::ArrayBoundError),
        (Error::Caml(CamlError::OutOfMemory), Raise::OutOfMemory),
        (Error::Caml(CamlError::EndOfFile), Raise::EndOfFile),
        (Error::Caml(CamlError::StackOverflow), Raise::StackOverflow),
        (Error::Caml(CamlError::ZeroDivide), Raise::ZeroDivide),
        (Error::Caml(CamlError::SysBlockedIo), Raise::SysBlockedIo),
        (Error::Caml(CamlError::InvalidArgument("i".to_string())), Raise::InvalidArgument("i".to_string())),
        (Error::Caml(CamlError::WithArg(e, a)), Raise::WithArg(e, a)),
        (Error::Caml(CamlError::SysError("s".to_string())), Raise::SysError("s".to_string())),
        (Error::Caml(CamlError::Failure("f".to_string())), Raise::Failwith("f".to_string())),
        (Error::Message("m".to_string()), Raise::Failwith("m".to_string())),
        (Error::Error("Custom { kind: Other }".to_string()), Raise::Failwith("Custom { kind: Other }".to_string())),
        (Error::NotDoubleArray, Raise::Failwith("invalid double array".to_string())),
        (Error::NotCallable, Raise::Failwith("value is not callable".to_string())),
    ];
    for (err, raise) in cases {
        assert_eq!(err.to_raise(), raise);
    }
}

#[test]
fn callable_only_closures() {
    assert_eq!(Value::check_callable(Tag::Closure), Ok(()));
    assert_eq!(Value::check_callable(Tag::Object), Err(Error::NotCallable));
    assert_eq!(Value::check_callable(Tag::Zero), Err(Error::NotCallable));
}

#[test]
fn array_checks() {
    assert_eq!(Array::<i64>::check_index(3, 2), Ok(()));
    assert_eq!(Array::<i64>::check_index(3, 3), Err(Error::Caml(CamlError::ArrayBoundError)));
    assert_eq!(Array::<f64>::check_double(3, 1, true), Ok(()));
    assert_eq!(Array::<f64>::check_double(3, 1, false), Err(Error::NotDoubleArray));
    assert_eq!(Array::<f64>::check_double(3, 5, false), Err(Error::Caml(CamlError::ArrayBoundError)));
}
