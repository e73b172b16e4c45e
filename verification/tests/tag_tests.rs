use ocaml::tag::{Tag, Abstract_tag, Closure_tag, Custom_tag, Double_array_tag, No_scan_tag};

#[test]
fn named_tags() {
    assert_eq!(Tag::new(0), Tag::Zero);
    assert_eq!(Tag::new(250), Tag::Forward);
    assert_eq!(Tag::new(249), Tag::Infix);
    assert_eq!(Tag::new(248), Tag::Object);
    assert_eq!(Tag::new(247), Tag::Closure);
    assert_eq!(Tag::new(246), Tag::Lazy);
    assert_eq!(Tag::new(251), Tag::Abstract);
    assert_eq!(Tag::new(252), Tag::String);
    assert_eq!(Tag::new(253), Tag::Double);
    assert_eq!(Tag::new(254), Tag::DoubleArray);
    assert_eq!(Tag::new(255), Tag::Custom);
    assert_eq!(Tag::new(1), Tag::Tag(1));
    assert_eq!(Tag::new(245), Tag::Tag(245));
}

#[test]
fn no_scan_is_abstract() {
    assert_eq!(Abstract_tag, No_scan_tag);
    assert_eq!(Tag::new(No_scan_tag as u8), Tag::Abstract);
}

#[test]
fn byte_tag_byte_roundtrip() {
    for i in 0..=255u8 {
        assert_eq!(u8::from(Tag::new(i)), i);
    }
}

#[test]
fn canonical_tags_roundtrip() {
    for t in [Tag::Zero, Tag::Closure, Tag::Custom, Tag::Tag(7), Tag::Abstract] {
        assert_eq!(Tag::new(u8::from(t)), t);
    }
    // Not canonical: Tag(0) is read back as Zero.
    assert_eq!(Tag::new(u8::from(Tag::Tag(0))), Tag::Zero);
}

#[test]
fn tag_bytes() {
    assert_eq!(u8::from(Tag::Closure), Closure_tag as u8);
    assert_eq!(u8::from(Tag::DoubleArray), Double_array_tag as u8);
    assert_eq!(u8::from(Tag::Custom), Custom_tag as u8);
    assert_eq!(u8::from(Tag::Zero), 0);
}
