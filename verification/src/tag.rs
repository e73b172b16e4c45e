//! Block tags: the byte in a block header that says what a block holds.
use vstd::prelude::*;

verus! {

#[allow(non_upper_case_globals)]
pub const Forward_tag: u32 = 250;
#[allow(non_upper_case_globals)]
pub const Infix_tag: u32 = 249;
#[allow(non_upper_case_globals)]
pub const Object_tag: u32 = 248;
#[allow(non_upper_case_globals)]
pub const Closure_tag: u32 = 247;
#[allow(non_upper_case_globals)]
pub const Lazy_tag: u32 = 246;
#[allow(non_upper_case_globals)]
pub const Abstract_tag: u32 = 251;
#[allow(non_upper_case_globals)]
pub const No_scan_tag: u32 = 251;
#[allow(non_upper_case_globals)]
pub const String_tag: u32 = 252;
#[allow(non_upper_case_globals)]
pub const Double_tag: u32 = 253;
#[allow(non_upper_case_globals)]
pub const Double_array_tag: u32 = 254;
#[allow(non_upper_case_globals)]
pub const Custom_tag: u32 = 255;

/// Tags are used to determine the type of value that is stored
/// in an OCaml value
#[derive(Debug, Clone, Copy, PartialEq, Eq, Structural, PartialOrd)]
pub enum Tag {
    Tag(u8),
    Zero,
    Forward,
    Infix,
    Object,
    Closure,
    Lazy,
    Abstract,
    String,
    Double,
    DoubleArray,
    Custom,
}

/// The tag named by a header byte: the reserved tags by name, zero as
/// `Zero`, every other byte as `Tag(n)`.
pub open spec fn tag_of_byte(i: u8) -> Tag {
    if i == 0 {
        Tag::Zero
    } else if i == 250 {
        Tag::Forward
    } else if i == 249 {
        Tag::Infix
    } else if i == 248 {
        Tag::Object
    } else if i == 247 {
        Tag::Closure
    } else if i == 246 {
        Tag::Lazy
    } else if i == 251 {
        Tag::Abstract
    } else if i == 252 {
        Tag::String
    } else if i == 253 {
        Tag::Double
    } else if i == 254 {
        Tag::DoubleArray
    } else if i == 255 {
        Tag::Custom
    } else {
        Tag::Tag(i)
    }
}

/// The header byte of a tag.
pub open spec fn byte_of_tag(t: Tag) -> u8 {
    match t {
        Tag::Tag(x) => x,
        Tag::Zero => 0,
        Tag::Forward => 250,
        Tag::Infix => 249,
        Tag::Object => 248,
        Tag::Closure => 247,
        Tag::Lazy => 246,
        Tag::Abstract => 251,
        Tag::String => 252,
        Tag::Double => 253,
        Tag::DoubleArray => 254,
        Tag::Custom => 255,
    }
}

/// A tag is canonical when it is the one that its byte reads back as:
/// `Tag(n)` is canonical only for the bytes that have no name.
pub open spec fn is_canonical(t: Tag) -> bool {
    match t {
        Tag::Tag(n) => 1 <= n < 246,
        _ => true,
    }
}

impl Tag {
    /// Create a `Tag` from the given `u8`
    pub fn new(i: u8) -> (t: Tag)
        ensures
            t == tag_of_byte(i),
    {
        let n = i as u32;
        if n == 0 {
            Tag::Zero
        } else if n == Forward_tag {
            Tag::Forward
        } else if n == Infix_tag {
            Tag::Infix
        } else if n == Object_tag {
            Tag::Object
        } else if n == Closure_tag {
            Tag::Closure
        } else if n == Lazy_tag {
            Tag::Lazy
        } else if n == Abstract_tag {
            Tag::Abstract
        } else if n == String_tag {
            Tag::String
        } else if n == Double_tag {
            Tag::Double
        } else if n == Double_array_tag {
            Tag::DoubleArray
        } else if n == Custom_tag {
            Tag::Custom
        } else {
            Tag::Tag(n as u8)
        }
    }
}

impl From<Tag> for u8 {
    fn from(t: Tag) -> (r: u8) {
        match t {
            Tag::Tag(x) => x,
            Tag::Zero => 0u8,
            Tag::Forward => Forward_tag as u8,
            Tag::Infix => Infix_tag as u8,
            Tag::Object => Object_tag as u8,
            Tag::Closure => Closure_tag as u8,
            Tag::Lazy => Lazy_tag as u8,
            Tag::Abstract => Abstract_tag as u8,
            Tag::String => String_tag as u8,
            Tag::Double => Double_tag as u8,
            Tag::DoubleArray => Double_array_tag as u8,
            Tag::Custom => Custom_tag as u8,
        }
    }
}

impl vstd::std_specs::convert::FromSpecImpl<Tag> for u8 {
    open spec fn obeys_from_spec() -> bool {
        true
    }

    open spec fn from_spec(t: Tag) -> u8 {
        byte_of_tag(t)
    }
}

/// The byte of the tag read from a byte is that byte again.
pub proof fn lemma_byte_tag_roundtrip(i: u8)
    ensures
        byte_of_tag(tag_of_byte(i)) == i,
{
}

/// A canonical tag is read back from its byte unchanged; `Tag(0)`, for
/// instance, is not canonical and reads back as `Zero`.
pub proof fn lemma_tag_byte_roundtrip(t: Tag)
    requires
        is_canonical(t),
    ensures
        tag_of_byte(byte_of_tag(t)) == t,
{
}

/// Two bytes name the same tag only if they are the same byte.
pub proof fn lemma_tag_of_byte_injective(i: u8, j: u8)
    requires
        tag_of_byte(i) == tag_of_byte(j),
    ensures
        i == j,
{
    lemma_byte_tag_roundtrip(i);
    lemma_byte_tag_roundtrip(j);
}

/// Every tag read from a byte is canonical.
pub proof fn lemma_tag_of_byte_canonical(i: u8)
    ensures
        is_canonical(tag_of_byte(i)),
{
}

/// The named tags are the runtime's tag numbers: each reads as, and is
/// written as, the byte of its constant.
pub proof fn lemma_tags_match_constants()
    ensures
        byte_of_tag(Tag::Forward) as u32 == Forward_tag && tag_of_byte(Forward_tag as u8) == Tag::Forward,
        byte_of_tag(Tag::Infix) as u32 == Infix_tag && tag_of_byte(Infix_tag as u8) == Tag::Infix,
        byte_of_tag(Tag::Object) as u32 == Object_tag && tag_of_byte(Object_tag as u8) == Tag::Object,
        byte_of_tag(Tag::Closure) as u32 == Closure_tag && tag_of_byte(Closure_tag as u8) == Tag::Closure,
        byte_of_tag(Tag::Lazy) as u32 == Lazy_tag && tag_of_byte(Lazy_tag as u8) == Tag::Lazy,
        byte_of_tag(Tag::Abstract) as u32 == Abstract_tag && tag_of_byte(Abstract_tag as u8) == Tag::Abstract,
        byte_of_tag(Tag::String) as u32 == String_tag && tag_of_byte(String_tag as u8) == Tag::String,
        byte_of_tag(Tag::Double) as u32 == Double_tag && tag_of_byte(Double_tag as u8) == Tag::Double,
        byte_of_tag(Tag::DoubleArray) as u32 == Double_array_tag && tag_of_byte(Double_array_tag as u8)
            == Tag::DoubleArray,
        byte_of_tag(Tag::Custom) as u32 == Custom_tag && tag_of_byte(Custom_tag as u8) == Tag::Custom,
        byte_of_tag(Tag::Zero) == 0 && tag_of_byte(0) == Tag::Zero,
        Abstract_tag == No_scan_tag,
        Lazy_tag < Closure_tag < Object_tag < Infix_tag < Forward_tag < No_scan_tag,
{
}

} // verus!
