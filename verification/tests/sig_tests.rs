use ocaml::sig::{
    count_sig_args, count_sig_fields, count_sig_variants, ocaml_sig, SigAttribute, SigError,
    SigItem, SigItemKind,
};

fn lit(s: &str) -> SigAttribute {
    SigAttribute::Literal(s.to_string())
}

#[test]
fn arrows_outside_parentheses() {
    assert_eq!(count_sig_args("int -> bool"), 1);
    assert_eq!(count_sig_args("('a -> 'b) -> 'a -> 'b"), 2);
    assert_eq!(count_sig_args("(int list -> 'a) -> int -> int -> 'a"), 3);
    assert_eq!(count_sig_args("unit -> enum1"), 1);
    assert_eq!(count_sig_args("int"), 0);
    assert_eq!(count_sig_args(""), 0);
    assert_eq!(count_sig_args("int -> init:int -> (int, int8_unsigned_elt, c_layout) Array1.t"), 2);
}

#[test]
fn variants_outside_brackets() {
    assert_eq!(count_sig_variants("Empty | First of int | Second of string array"), 3);
    assert_eq!(count_sig_variants("| A | B"), 2);
    assert_eq!(count_sig_variants("  | A | B"), 2);
    assert_eq!(count_sig_variants("A of [ `X | `Y ] | B"), 2);
    assert_eq!(count_sig_variants("A"), 1);
}

#[test]
fn record_fields() {
    assert_eq!(count_sig_fields("{a: int; b: float; mutable c: string option; d: string array option;}"), 4);
    assert_eq!(count_sig_fields("{float_a: float; float_b: float}"), 2);
    assert_eq!(count_sig_fields(""), 0);
}

#[test]
fn sig_checks() {
    let f = |n| SigItem { kind: SigItemKind::Func, n };
    assert_eq!(ocaml_sig(f(1), &lit("int -> bool")), Ok(()));
    assert_eq!(ocaml_sig(f(0), &lit("unit -> enum1")), Ok(()));
    assert_eq!(ocaml_sig(f(0), &lit("  unit -> int")), Ok(()));
    assert_eq!(ocaml_sig(f(0), &lit("int -> enum1")), Err(SigError::ExpectedUnit));
    assert_eq!(ocaml_sig(f(0), &lit("unit -> int -> int")), Err(SigError::ArgCount { expected: 0, got: 2 }));
    // A count that differs for a function with arguments is let through.
    assert_eq!(ocaml_sig(f(3), &lit("int -> int")), Ok(()));
    assert_eq!(ocaml_sig(f(1), &SigAttribute::Empty), Err(SigError::NotStrLiteral));
    assert_eq!(ocaml_sig(f(1), &SigAttribute::Other), Err(SigError::NotStrLiteral));

    let e = |n| SigItem { kind: SigItemKind::Enum, n };
    assert_eq!(ocaml_sig(e(3), &lit("Empty | First of int | Second of string array")), Ok(()));
    assert_eq!(ocaml_sig(e(2), &lit("Empty | First of int | Second of string array")), Err(SigError::VariantCount { expected: 2, got: 3 }));
    assert_eq!(ocaml_sig(e(2), &lit("")), Ok(()));
    assert_eq!(ocaml_sig(e(2), &SigAttribute::Empty), Ok(()));

    let s = |n| SigItem { kind: SigItemKind::Struct, n };
    assert_eq!(ocaml_sig(s(2), &lit("{float_a: float; float_b: float}")), Ok(()));
    assert_eq!(ocaml_sig(s(3), &lit("{float_a: float; float_b: float}")), Err(SigError::FieldCount { expected: 3, got: 2 }));
    assert_eq!(ocaml_sig(s(3), &SigAttribute::Empty), Ok(()));

    let t = SigItem { kind: SigItemKind::Type, n: 0 };
    assert_eq!(ocaml_sig(t, &lit("anything")), Ok(()));
    assert_eq!(ocaml_sig(t, &SigAttribute::Other), Err(SigError::NotStrLiteral));
}
