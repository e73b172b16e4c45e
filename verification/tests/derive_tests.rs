use ocaml::derive::{
    attrs, decode_variant, derive_from_value, derive_to_value, is_double_array_struct, is_ocaml,
    variant_attrs, variant_key, AttrArgs, Attrs, DeriveError, DeriveItem, FieldInfo, FieldRead,
    FieldType, FieldWrite, FromValuePlan, MetaAttr, NestedMeta, ToValuePlan, ValueDecl,
    VariantAttr, VariantAttrs, VariantInfo, VariantToPlan,
};
use ocaml::mlvalues::val_int;

fn path(p: &[&str]) -> Vec<String> {
    p.iter().map(|s| s.to_string()).collect()
}

fn field(named: bool, ty: &[&str]) -> FieldInfo {
    FieldInfo { named, ty: FieldType::Path(path(ty)) }
}

#[test]
fn type_attributes() {
    assert_eq!(attrs(&vec![]), Ok(Attrs { float_array: false, unboxed: false }));
    assert_eq!(attrs(&vec![MetaAttr::Path(path(&["unboxed"]))]), Ok(Attrs { float_array: false, unboxed: true }));
    assert_eq!(attrs(&vec![MetaAttr::Path(path(&["float_array"])), MetaAttr::Other]), Ok(Attrs { float_array: true, unboxed: false }));
    assert_eq!(attrs(&vec![MetaAttr::Path(path(&["float_array"])), MetaAttr::Path(path(&["unboxed"]))]), Err(DeriveError::FloatArrayAndUnboxed));
    assert_eq!(attrs(&vec![MetaAttr::Path(path(&["derive"]))]), Ok(Attrs { float_array: false, unboxed: false }));
    assert_eq!(attrs(&vec![MetaAttr::Path(path(&["a", "unboxed"]))]), Ok(Attrs { float_array: false, unboxed: false }));
    assert_eq!(attrs(&vec![MetaAttr::Unparsable]), Err(DeriveError::InvalidAttribute));
}

#[test]
fn double_array_structs() {
    assert!(is_double_array_struct(&vec![field(true, &["ocaml", "Float"]), field(true, &["f64"])]));
    assert!(is_double_array_struct(&vec![field(true, &["Float"]), field(true, &["f32"])]));
    assert!(!is_double_array_struct(&vec![field(true, &["f64"]), field(true, &["i64"])]));
    assert!(!is_double_array_struct(&vec![FieldInfo { named: true, ty: FieldType::Other }]));
    assert!(!is_double_array_struct(&vec![field(true, &["std", "f64"])]));
    // No fields: all of them are floats.
    assert!(is_double_array_struct(&vec![]));
}

#[test]
fn struct_plans() {
    // struct Struct1 { a: Int, b: Float, c: Option<String>, d: Option<Array<String>> }
    let fields = vec![field(true, &["ocaml", "Int"]), field(true, &["ocaml", "Float"]), field(true, &["Option"]), field(true, &["Option"])];
    let item = DeriveItem::Struct(fields);
    match derive_from_value(&vec![], &item) {
        Ok(FromValuePlan::Struct(p)) => {
            assert!(!p.tuple_struct);
            assert_eq!(p.reads, vec![FieldRead::Field(0), FieldRead::Field(1), FieldRead::Field(2), FieldRead::Field(3)]);
        }
        _ => panic!("expected a struct plan"),
    }
    match derive_to_value(&vec![], &item) {
        Ok(ToValuePlan::Struct(p)) => {
            assert_eq!(p.decl, ValueDecl::Alloc(4, 0));
            assert_eq!(p.writes, vec![FieldWrite::StoreField(0), FieldWrite::StoreField(1), FieldWrite::StoreField(2), FieldWrite::StoreField(3)]);
        }
        _ => panic!("expected a struct plan"),
    }
}

#[test]
fn float_struct_plans() {
    // struct AllFloatStruct { float_a: Float, float_b: Float }
    let item = DeriveItem::Struct(vec![field(true, &["ocaml", "Float"]), field(true, &["ocaml", "Float"])]);
    match derive_to_value(&vec![], &item) {
        Ok(ToValuePlan::Struct(p)) => {
            assert_eq!(p.decl, ValueDecl::Alloc(2, 254));
            assert_eq!(p.writes, vec![FieldWrite::StoreDouble(0), FieldWrite::StoreDouble(1)]);
        }
        _ => panic!("expected a struct plan"),
    }
    match derive_from_value(&vec![], &item) {
        Ok(FromValuePlan::Struct(p)) => assert_eq!(p.reads, vec![FieldRead::DoubleField(0), FieldRead::DoubleField(1)]),
        _ => panic!("expected a struct plan"),
    }
}

#[test]
fn unboxed_struct_plans() {
    let unboxed = vec![MetaAttr::Path(path(&["unboxed"]))];
    let one = DeriveItem::Struct(vec![field(false, &["i64"])]);
    match derive_to_value(&unboxed, &one) {
        Ok(ToValuePlan::Struct(p)) => {
            assert_eq!(p.decl, ValueDecl::Unit);
            assert_eq!(p.writes, vec![FieldWrite::Assign]);
        }
        _ => panic!("expected a struct plan"),
    }
    match derive_from_value(&unboxed, &one) {
        Ok(FromValuePlan::Struct(p)) => {
            assert!(p.tuple_struct);
            assert_eq!(p.reads, vec![FieldRead::Whole]);
        }
        _ => panic!("expected a struct plan"),
    }
    let two = DeriveItem::Struct(vec![field(false, &["i64"]), field(false, &["i64"])]);
    assert_eq!(derive_to_value(&unboxed, &two), Err(DeriveError::UnboxedStructFields));
    assert_eq!(derive_from_value(&unboxed, &two), Err(DeriveError::UnboxedStructFields));
}

fn enum1() -> DeriveItem {
    // enum Enum1 { Empty, First(Int), Second(Array<String>) }
    DeriveItem::Enum(vec![
        VariantInfo { arity: 0, named: false },
        VariantInfo { arity: 1, named: false },
        VariantInfo { arity: 1, named: false },
    ])
}

#[test]
fn enum_tags() {
    match derive_from_value(&vec![], &enum1()) {
        Ok(FromValuePlan::Enum(ps)) => {
            let keys: Vec<(bool, u8)> = ps.iter().map(|p| (p.is_block, p.tag)).collect();
            assert_eq!(keys, vec![(false, 0), (true, 0), (true, 1)]);
            assert_eq!(ps[1].reads, vec![FieldRead::Field(0)]);
            for (i, p) in ps.iter().enumerate() {
                assert_eq!(decode_variant(&ps, p.is_block, p.tag), Some(i));
            }
            assert_eq!(decode_variant(&ps, false, 1), None);
            assert_eq!(decode_variant(&ps, true, 2), None);
            // Empty is written as the integer 0.
            let (b, t) = variant_key(val_int(0), 0);
            assert_eq!(decode_variant(&ps, b, t), Some(0));
            // Second is a block with tag 1.
            let (b, t) = variant_key(0x1000, 1);
            assert_eq!(decode_variant(&ps, b, t), Some(2));
        }
        _ => panic!("expected an enum plan"),
    }
    match derive_to_value(&vec![], &enum1()) {
        Ok(ToValuePlan::Enum(ps)) => {
            assert_eq!(ps[0], VariantToPlan::Immediate(0));
            assert_eq!(ps[1], VariantToPlan::Block { tuple: true, decl: ValueDecl::Alloc(1, 0), writes: vec![FieldWrite::StoreField(0)] });
            assert_eq!(ps[2], VariantToPlan::Block { tuple: true, decl: ValueDecl::Alloc(1, 1), writes: vec![FieldWrite::StoreField(0)] });
        }
        _ => panic!("expected an enum plan"),
    }
}

#[test]
fn enum_refusals() {
    let unboxed = vec![MetaAttr::Path(path(&["unboxed"]))];
    assert_eq!(derive_from_value(&unboxed, &enum1()), Err(DeriveError::UnboxedEnumVariants));
    assert_eq!(derive_to_value(&unboxed, &enum1()), Err(DeriveError::UnboxedEnumVariants));
    // ToValue also refuses an unboxed enum without variants; FromValue does not.
    let none = DeriveItem::Enum(vec![]);
    assert_eq!(derive_to_value(&unboxed, &none), Err(DeriveError::UnboxedEnumVariants));
    assert!(derive_from_value(&unboxed, &none).is_ok());
    // 255 variants without fields fit; 256 overflow the counter.
    let fit = DeriveItem::Enum(vec![VariantInfo { arity: 0, named: false }; 255]);
    assert!(derive_to_value(&vec![], &fit).is_ok());
    let over = DeriveItem::Enum(vec![VariantInfo { arity: 0, named: false }; 256]);
    assert_eq!(derive_to_value(&vec![], &over), Err(DeriveError::TagOverflow));
    assert_eq!(derive_from_value(&vec![], &over), Err(DeriveError::TagOverflow));
}

#[test]
fn variant_keys() {
    assert_eq!(variant_key(val_int(3), 200), (false, 3));
    assert_eq!(variant_key(val_int(-1), 0), (false, 255));
    assert_eq!(variant_key(0x2000, 7), (true, 7));
}

fn ocaml_attr(ns: Vec<NestedMeta>) -> VariantAttr {
    VariantAttr { path: path(&["ocaml"]), args: AttrArgs::List(ns) }
}

#[test]
fn ocaml_variant_attributes() {
    assert!(is_ocaml(&path(&["ocaml"])));
    assert!(!is_ocaml(&path(&["ocaml", "sig"])));
    assert!(!is_ocaml(&path(&["derive"])));
    assert_eq!(variant_attrs(&vec![]), Ok(VariantAttrs { unboxed: false, floats: false }));
    assert_eq!(variant_attrs(&vec![ocaml_attr(vec![NestedMeta::Path(path(&["unboxed"]))])]), Ok(VariantAttrs { unboxed: true, floats: false }));
    assert_eq!(variant_attrs(&vec![ocaml_attr(vec![NestedMeta::Path(path(&["floats_array"]))])]), Ok(VariantAttrs { unboxed: false, floats: true }));
    assert_eq!(
        variant_attrs(&vec![ocaml_attr(vec![NestedMeta::Path(path(&["unboxed"])), NestedMeta::Path(path(&["floats_array"]))])]),
        Err(DeriveError::FloatsAndUnboxed)
    );
    assert_eq!(variant_attrs(&vec![ocaml_attr(vec![NestedMeta::Path(path(&["boxed"]))])]), Err(DeriveError::UnexpectedParameter("boxed".to_string())));
    assert_eq!(variant_attrs(&vec![ocaml_attr(vec![NestedMeta::Other])]), Err(DeriveError::UnexpectedNested));
    assert_eq!(variant_attrs(&vec![VariantAttr { path: path(&["ocaml"]), args: AttrArgs::NotList }]), Err(DeriveError::NotAList));
    // Only the first `#[ocaml]` attribute counts.
    assert_eq!(
        variant_attrs(&vec![
            VariantAttr { path: path(&["doc"]), args: AttrArgs::NotList },
            ocaml_attr(vec![NestedMeta::Path(path(&["unboxed"]))]),
            VariantAttr { path: path(&["ocaml"]), args: AttrArgs::NotList },
        ]),
        Ok(VariantAttrs { unboxed: true, floats: false })
    );
}

use ocaml::derive::{fromvalue_derive, tovalue_derive, DerivedVariant, RecordArm, RecordToPlan};

fn dv(arity: usize, attrs: Vec<VariantAttr>) -> DerivedVariant {
    DerivedVariant { arity, attrs }
}

#[test]
fn attribute_driven_to_value() {
    // An enum: unit variants and block variants numbered separately.
    let e = vec![dv(0, vec![]), dv(2, vec![]), dv(0, vec![]), dv(1, vec![])];
    assert_eq!(
        tovalue_derive(&e),
        Ok(vec![RecordToPlan::Immediate(0), RecordToPlan::Block(2, 0), RecordToPlan::Immediate(1), RecordToPlan::Block(1, 1)])
    );
    // A struct of floats.
    let floats = vec![dv(3, vec![ocaml_attr(vec![NestedMeta::Path(path(&["floats_array"]))])])];
    assert_eq!(tovalue_derive(&floats), Ok(vec![RecordToPlan::FloatArray(3)]));
    // An unboxed struct of one field, and one of two.
    let unboxed1 = vec![dv(1, vec![ocaml_attr(vec![NestedMeta::Path(path(&["unboxed"]))])])];
    assert_eq!(tovalue_derive(&unboxed1), Ok(vec![RecordToPlan::Unboxed]));
    let unboxed2 = vec![dv(2, vec![ocaml_attr(vec![NestedMeta::Path(path(&["unboxed"]))])])];
    assert_eq!(tovalue_derive(&unboxed2), Err(DeriveError::UnboxedRecordFields));
    // Representations are for structs only.
    let on_enum = vec![dv(1, vec![ocaml_attr(vec![NestedMeta::Path(path(&["unboxed"]))])]), dv(0, vec![])];
    assert_eq!(tovalue_derive(&on_enum), Err(DeriveError::EnumRepresentation));
    let over: Vec<DerivedVariant> = (0..256).map(|_| dv(0, vec![])).collect();
    assert_eq!(tovalue_derive(&over), Err(DeriveError::TagOverflow));
}

#[test]
fn attribute_driven_from_value() {
    let e = vec![dv(0, vec![]), dv(2, vec![]), dv(0, vec![])];
    let p = fromvalue_derive(&e).ok().unwrap();
    assert!(!p.unboxed && !p.floats);
    assert_eq!(
        p.arms,
        vec![
            RecordArm { is_block: false, tag: 0, reads: vec![] },
            RecordArm { is_block: true, tag: 0, reads: vec![FieldRead::Field(0), FieldRead::Field(1)] },
            RecordArm { is_block: false, tag: 1, reads: vec![] },
        ]
    );
    let floats = vec![dv(2, vec![ocaml_attr(vec![NestedMeta::Path(path(&["floats_array"]))])])];
    let p = fromvalue_derive(&floats).ok().unwrap();
    assert!(p.floats);
    assert_eq!(p.arms[0].reads, vec![FieldRead::DoubleField(0), FieldRead::DoubleField(1)]);
    let unboxed = vec![dv(1, vec![ocaml_attr(vec![NestedMeta::Path(path(&["unboxed"]))])])];
    let p = fromvalue_derive(&unboxed).ok().unwrap();
    assert!(p.unboxed);
    assert_eq!(p.arms[0].reads, vec![FieldRead::Whole]);
    let bad = vec![dv(1, vec![ocaml_attr(vec![NestedMeta::Other])])];
    assert_eq!(fromvalue_derive(&bad).err(), Some(DeriveError::UnexpectedNested));
}

fn mirrors(r: &FieldRead, w: &FieldWrite) -> bool {
    match (r, w) {
        (FieldRead::DoubleField(i), FieldWrite::StoreDouble(j)) => i == j,
        (FieldRead::Whole, FieldWrite::Assign) => true,
        (FieldRead::Field(i), FieldWrite::StoreField(j)) => i == j,
        _ => false,
    }
}

#[test]
fn read_plans_mirror_write_plans() {
    // A float record: read from the double array it was written to.
    let floats = DeriveItem::Struct(vec![field(true, &["f64"]), field(true, &["f64"])]);
    let f = derive_from_value(&vec![], &floats).ok().unwrap();
    let t = derive_to_value(&vec![], &floats).ok().unwrap();
    match (f, t) {
        (FromValuePlan::Struct(f), ToValuePlan::Struct(t)) => {
            assert_eq!(t.decl, ValueDecl::Alloc(2, 254));
            assert_eq!(f.reads.len(), t.writes.len());
            assert!(f.reads.iter().zip(t.writes.iter()).all(|(r, w)| mirrors(r, w)));
            assert!(f.reads.iter().all(|r| matches!(r, FieldRead::DoubleField(_))));
        }
        _ => panic!("struct plans expected"),
    }
    // An enum: each variant is recognised by the key it was written with.
    let e = DeriveItem::Enum(vec![
        VariantInfo { arity: 0, named: false },
        VariantInfo { arity: 2, named: false },
        VariantInfo { arity: 0, named: false },
        VariantInfo { arity: 1, named: true },
    ]);
    let f = derive_from_value(&vec![], &e).ok().unwrap();
    let t = derive_to_value(&vec![], &e).ok().unwrap();
    match (f, t) {
        (FromValuePlan::Enum(fs), ToValuePlan::Enum(ts)) => {
            assert_eq!(fs.len(), ts.len());
            for (p, q) in fs.iter().zip(ts.iter()) {
                match q {
                    VariantToPlan::Immediate(tag) => {
                        assert!(!p.is_block);
                        assert_eq!(p.tag, *tag);
                    }
                    VariantToPlan::Block { tuple, decl, writes } => {
                        assert!(p.is_block);
                        assert_eq!(p.tuple, *tuple);
                        assert_eq!(*decl, ValueDecl::Alloc(writes.len(), p.tag));
                        assert!(p.reads.iter().zip(writes.iter()).all(|(r, w)| mirrors(r, w)));
                    }
                }
            }
            assert_eq!(decode_variant(&fs, true, 1), Some(3));
            assert_eq!(decode_variant(&fs, false, 1), Some(2));
        }
        _ => panic!("enum plans expected"),
    }
}

#[test]
fn leading_colon_attribute_is_no_ident() {
    // `#[::unboxed]` is not the bare identifier `unboxed`.
    assert_eq!(
        attrs(&vec![MetaAttr::Path(vec!["".to_string(), "unboxed".to_string()])]),
        Ok(Attrs { float_array: false, unboxed: false })
    );
}
