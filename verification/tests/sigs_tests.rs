use ocaml::sigs::{
    chars_less, handle, is_sig_attribute, item_declarations, path_less, render, snake_case,
    parse_source_items, sort_sources, strip_quotes, AttrInfo, Dune, ItemKind, Sigs, SigsError,
    Source, SourceItem, GroupToken, ArgToken,
};

fn path(p: &[&str]) -> Vec<String> {
    p.iter().map(|s| s.to_string()).collect()
}

fn sig_attr(lit: &str) -> AttrInfo {
    AttrInfo { path: path(&["ocaml", "sig"]), tokens: vec![ArgToken::Group(vec![GroupToken::Literal(lit.to_string())])] }
}

#[test]
fn snake_case_names() {
    assert_eq!(snake_case("MyType"), "my_type");
    assert_eq!(snake_case("Enum1"), "enum1");
    assert_eq!(snake_case("AllFloatStruct"), "all_float_struct");
    assert_eq!(snake_case("HTTPServer"), "h_t_t_p_server");
    assert_eq!(snake_case("already_snake"), "already_snake");
    assert_eq!(snake_case(""), "");
}

#[test]
fn quotes_stripped() {
    assert_eq!(strip_quotes("\"int -> bool\""), "int -> bool");
    assert_eq!(strip_quotes("\"\"x\"\""), "x");
    assert_eq!(strip_quotes("\"\""), "");
    assert_eq!(strip_quotes("a\"b"), "a\"b");
}

#[test]
fn signature_attributes() {
    assert!(is_sig_attribute(&path(&["sig"])));
    assert!(is_sig_attribute(&path(&["ocaml", "sig"])));
    assert!(!is_sig_attribute(&path(&["ocaml", "func"])));
    assert!(!is_sig_attribute(&path(&["derive"])));
    assert_eq!(handle(&vec![sig_attr("\"int -> bool\"")]), Ok(vec!["int -> bool".to_string()]));
    assert_eq!(handle(&vec![AttrInfo { path: path(&["sig"]), tokens: vec![] }]), Ok(vec![String::new()]));
    assert_eq!(
        handle(&vec![AttrInfo { path: path(&["ocaml", "func"]), tokens: vec![ArgToken::Other] }, sig_attr("\"a\"")]),
        Ok(vec!["a".to_string()])
    );
    assert_eq!(
        handle(&vec![AttrInfo { path: path(&["sig"]), tokens: vec![ArgToken::Group(vec![GroupToken::Other])] }]),
        Ok(vec![])
    );
    assert_eq!(
        handle(&vec![AttrInfo { path: path(&["sig"]), tokens: vec![ArgToken::Group(vec![GroupToken::Other, GroupToken::Other])] }]),
        Err(SigsError::InvalidSignature)
    );
    assert_eq!(
        handle(&vec![AttrInfo { path: path(&["sig"]), tokens: vec![ArgToken::Other] }]),
        Err(SigsError::InvalidSignature)
    );
}

fn item(kind: ItemKind, ident: &str, attrs: Vec<AttrInfo>) -> SourceItem {
    SourceItem { kind, ident: ident.to_string(), attrs }
}

#[test]
fn declarations() {
    // The example of the build README.
    let f = item(ItemKind::Fn(1), "greater_than_zero", vec![sig_attr("\"int -> bool\"")]);
    assert_eq!(item_declarations(&f), Ok(vec!["external greater_than_zero: int -> bool = \"greater_than_zero\"".to_string()]));
    let six = item(ItemKind::Fn(6), "more", vec![sig_attr("\"a\"")]);
    assert_eq!(item_declarations(&six), Ok(vec!["external more: a = \"more_bytecode\" \"more\"".to_string()]));
    let s = item(ItemKind::Struct, "Struct1", vec![sig_attr("\"{a: int}\"")]);
    assert_eq!(item_declarations(&s), Ok(vec!["type struct1 = {a: int}".to_string()]));
    let s2 = item(ItemKind::Struct, "MyType", vec![AttrInfo { path: path(&["ocaml", "sig"]), tokens: vec![] }]);
    assert_eq!(item_declarations(&s2), Ok(vec!["type my_type".to_string()]));
    let s3 = item(ItemKind::Struct, "Pair", vec![sig_attr("\"int * int\"")]);
    assert_eq!(item_declarations(&s3), Ok(vec!["type pair = {int * int}".to_string()]));
    let e = item(ItemKind::Enum, "Enum1", vec![sig_attr("\"Empty | First of int\"")]);
    assert_eq!(item_declarations(&e), Ok(vec!["type enum1 = Empty | First of int".to_string()]));
    let t = item(ItemKind::Type, "File", vec![sig_attr("\"ignored\"")]);
    assert_eq!(item_declarations(&t), Ok(vec!["type file".to_string()]));
    let o = item(ItemKind::Other, "x", vec![AttrInfo { path: path(&["sig"]), tokens: vec![ArgToken::Other] }]);
    assert_eq!(item_declarations(&o), Ok(vec![]));
}

#[test]
fn path_order() {
    assert!(chars_less("a", "b"));
    assert!(chars_less("a", "ab"));
    assert!(!chars_less("ab", "a"));
    assert!(!chars_less("a", "a"));
    assert!(chars_less("Z", "a"));
    assert!(path_less(&path(&["a"]), &path(&["a", "b"])));
    assert!(path_less(&path(&["a", "z"]), &path(&["b"])));
    // Component order, not text order: "a/b" comes before "a-c".
    assert!(path_less(&path(&["a", "b"]), &path(&["a-c"])));
    assert!(!path_less(&path(&["lib.rs"]), &path(&["lib.rs"])));
}

fn source(p: &[&str], functions: &[&str], types: &[&str]) -> Source {
    Source { path: path(p), functions: path(functions), types: path(types) }
}

#[test]
fn sources_sorted() {
    let v = vec![source(&["types.rs"], &["f"], &[]), source(&["conv.rs"], &["g"], &[]), source(&["a", "x.rs"], &["h"], &[])];
    let s = sort_sources(v);
    let order: Vec<String> = s.iter().map(|x| x.path.join("/")).collect();
    assert_eq!(order, vec!["a/x.rs", "conv.rs", "types.rs"]);
}

#[test]
fn rendered_file() {
    let v = vec![source(&["conv.rs"], &["external f: int -> int = \"f\""], &["type t"])];
    assert_eq!(
        render(&v),
        "(* Generated by ocaml-rs *)\n\nopen! Bigarray\n\n(* file: conv.rs *)\n\ntype t\nexternal f: int -> int = \"f\"\n"
    );
    assert_eq!(render(&vec![]), "(* Generated by ocaml-rs *)\n\nopen! Bigarray\n");
}

#[test]
fn generator() {
    let sigs = Sigs::new("/crate", "src/rust.ml");
    assert_eq!(sigs.base_dir, "/crate/src");
    assert_eq!(sigs.output, "src/rust.ml");
    assert_eq!(Sigs::new("/crate/", "o").base_dir, "/crate/src");
    assert_eq!(Sigs::new("", "o").base_dir, "src");
    let mut sigs = sigs.with_source_dir("/elsewhere");
    assert_eq!(sigs.base_dir, "/elsewhere");

    let items_b = vec![item(ItemKind::Fn(1), "greater_than_zero", vec![sig_attr("\"int -> bool\"")])];
    assert_eq!(sigs.parse_file(path(&["b.rs"]), &items_b), Ok(()));
    let items_a = vec![
        item(ItemKind::Enum, "Color", vec![sig_attr("\"Red | Green\"")]),
        item(ItemKind::Fn(0), "no_sig", vec![]),
    ];
    assert_eq!(sigs.parse_file(path(&["a.rs"]), &items_a), Ok(()));
    // A file without declarations adds nothing.
    assert_eq!(sigs.parse_file(path(&["c.rs"]), &vec![item(ItemKind::Other, "m", vec![])]), Ok(()));
    assert_eq!(sigs.source.len(), 2);
    // A refused attribute leaves the generator as it was.
    let bad = vec![item(ItemKind::Fn(1), "f", vec![AttrInfo { path: path(&["sig"]), tokens: vec![ArgToken::Other] }])];
    assert_eq!(sigs.parse_file(path(&["d.rs"]), &bad), Err(SigsError::InvalidSignature));
    assert_eq!(sigs.source.len(), 2);

    assert_eq!(
        sigs.generate(),
        "(* Generated by ocaml-rs *)\n\nopen! Bigarray\n\n(* file: a.rs *)\n\ntype color = Red | Green\n\n(* file: b.rs *)\n\nexternal greater_than_zero: int -> bool = \"greater_than_zero\"\n"
    );
}

#[test]
fn dune_project() {
    let d = Dune::new("/crate", "lib");
    assert_eq!(d.root, "/crate");
    assert_eq!(d.library, "lib");
    let d = d.with_root("/other");
    assert_eq!(d.root, "/other");
    assert_eq!(d.library, "lib");
}

#[test]
fn parsed_sources() {
    // The struct example of the book: a signature without braces is a record body.
    let text = "#[ocaml::sig(\"lhs: float; rhs: float; op: bin_op\")]\npub struct Expr { lhs: f64, rhs: f64, op: BinOp }\n\n#[ocaml::func]\n#[ocaml::sig(\"int -> bool\")]\npub fn greater_than_zero(i: ocaml::Int) -> bool { i > 0 }\n\nmod m;\n";
    let items = parse_source_items(text).unwrap();
    assert_eq!(items.len(), 3);
    assert_eq!(items[0].kind, ItemKind::Struct);
    assert_eq!(items[0].ident, "Expr");
    assert_eq!(items[1].kind, ItemKind::Fn(1));
    assert_eq!(items[1].attrs.len(), 2);
    assert_eq!(items[1].attrs[1].path, path(&["ocaml", "sig"]));
    assert_eq!(items[2].kind, ItemKind::Other);

    let mut sigs = Sigs::new("/crate", "src/rust.ml");
    assert_eq!(sigs.parse_source(path(&["lib.rs"]), text), Ok(()));
    assert_eq!(sigs.source.len(), 1);
    assert_eq!(sigs.source[0].types, vec!["type expr = {lhs: float; rhs: float; op: bin_op}".to_string()]);
    assert_eq!(
        sigs.source[0].functions,
        vec!["external greater_than_zero: int -> bool = \"greater_than_zero\"".to_string()]
    );

    // Text that is not Rust is refused and leaves the generator unchanged.
    assert!(parse_source_items("fn (").is_none());
    assert_eq!(sigs.parse_source(path(&["bad.rs"]), "fn ("), Err(SigsError::Unparsable));
    assert_eq!(sigs.source.len(), 1);
    // A signature that is not one literal is refused.
    assert_eq!(
        sigs.parse_source(path(&["x.rs"]), "#[ocaml::sig(a b)] struct X;"),
        Err(SigsError::InvalidSignature)
    );
}
