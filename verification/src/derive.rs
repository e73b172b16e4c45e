//! The layout decisions of `#[derive(ToValue, FromValue)]`: which OCaml
//! representation a struct or enum gets, which tag each variant carries,
//! and how each field is read and written.
use vstd::prelude::*;
use crate::mlvalues::{int_val, is_block, val_int_spec, int_val_spec, is_long_spec, Value};
use crate::text::{text_eq, to_owned_text};

verus! {

/// Why a derive or an attribute macro refused its input.
#[derive(Debug, Clone, PartialEq, Eq)]
pub enum DeriveError {
    /// `float_array` and `unboxed` on the same type.
    FloatArrayAndUnboxed,
    /// An attribute that does not parse as a meta item.
    InvalidAttribute,
    /// `unboxed` on a struct with more than one field.
    UnboxedStructFields,
    /// `unboxed` on an enum with more (or, for `ToValue`, fewer) than one variant.
    UnboxedEnumVariants,
    /// More than 255 variants of one kind (with fields, or without): the tag counter overflows.
    TagOverflow,
    /// OCaml functions cannot be async.
    Async,
    /// OCaml functions cannot be variadic.
    Variadic,
    /// OCaml functions must be public.
    NotPublic,
    /// OCaml functions may not contain generics.
    Generics,
    /// OCaml functions cannot take a self argument.
    SelfArgument,
    /// In `#[ocaml(..)]`: a variant cannot be both float array and unboxed.
    FloatsAndUnboxed,
    /// In `#[ocaml(..)]`: an identifier other than `unboxed` and `floats_array`.
    UnexpectedParameter(String),
    /// In `#[ocaml(..)]`: an entry that is not a path.
    UnexpectedNested,
    /// `#[ocaml]` without a parenthesised list.
    NotAList,
    /// `#[ocaml(unboxed)]` or `#[ocaml(floats_array)]` on a variant of an
    /// enum with more than one variant.
    EnumRepresentation,
    /// `#[ocaml(unboxed)]` on a record with several fields.
    UnboxedRecordFields,
}

/// The type of a field, as far as the derives look at it.
pub enum FieldType {
    /// A path type, by its segments (`ocaml::Float` is `["ocaml", "Float"]`).
    Path(Vec<String>),
    /// Any other type.
    Other,
}

/// A field of a struct: whether it has a name, and its type.
pub struct FieldInfo {
    pub named: bool,
    pub ty: FieldType,
}

/// An attribute on the type, parsed as a meta item.
pub enum MetaAttr {
    /// A bare path, such as `#[unboxed]`, by its segments (a leading `::`
    /// counts as an empty first segment).
    Path(Vec<String>),
    /// A list or name-value attribute.
    Other,
    /// An attribute that does not parse as a meta item.
    Unparsable,
}

/// The type-level derive attributes.
#[derive(Debug, Clone, Copy, PartialEq, Eq, Structural)]
pub struct Attrs {
    pub float_array: bool,
    pub unboxed: bool,
}

/// The path segments folded with `::` the way the derives print a type path.
pub open spec fn path_text(segs: Seq<String>, k: int) -> Seq<char>
    decreases k,
{
    if k <= 0 {
        Seq::empty()
    } else {
        let acc = path_text(segs, k - 1);
        if acc.len() > 0 {
            acc + seq![':', ':'] + segs[k - 1]@
        } else {
            segs[k - 1]@
        }
    }
}

/// The type names that count as an OCaml `float`.
pub open spec fn is_float_type_name(t: Seq<char>) -> bool {
    t == "ocaml::Float"@ || t == "Float"@ || t == "f64"@ || t == "f32"@
}

pub open spec fn is_float_field(f: FieldInfo) -> bool {
    match f.ty {
        FieldType::Path(p) => is_float_type_name(path_text(p@, p@.len() as int)),
        FieldType::Other => false,
    }
}

/// A struct is stored as a double array when all its fields are floats
/// (which includes a struct without fields).
pub open spec fn all_float_fields(fields: Seq<FieldInfo>) -> bool {
    forall|i: int| 0 <= i < fields.len() ==> #[trigger] is_float_field(fields[i])
}

/// The single identifier of a bare path attribute.
pub open spec fn meta_ident(m: MetaAttr) -> Option<Seq<char>> {
    match m {
        MetaAttr::Path(p) => if p@.len() == 1 {
            Some(p@[0]@)
        } else {
            None
        },
        _ => None,
    }
}

pub open spec fn attrs_step(acc: Result<Attrs, DeriveError>, m: MetaAttr) -> Result<Attrs, DeriveError> {
    match acc {
        Err(e) => Err(e),
        Ok(a) => if m is Unparsable {
            Err(DeriveError::InvalidAttribute)
        } else if meta_ident(m) == Some("float_array"@) {
            if a.unboxed {
                Err(DeriveError::FloatArrayAndUnboxed)
            } else {
                Ok(Attrs { float_array: true, ..a })
            }
        } else if meta_ident(m) == Some("unboxed"@) {
            if a.float_array {
                Err(DeriveError::FloatArrayAndUnboxed)
            } else {
                Ok(Attrs { unboxed: true, ..a })
            }
        } else {
            Ok(a)
        },
    }
}

/// The attributes read from the first `k` meta items.
pub open spec fn attrs_spec(ms: Seq<MetaAttr>, k: int) -> Result<Attrs, DeriveError>
    decreases k,
{
    if k <= 0 {
        Ok(Attrs { float_array: false, unboxed: false })
    } else {
        attrs_step(attrs_spec(ms, k - 1), ms[k - 1])
    }
}

/// The identifier of a bare one-segment path attribute, if it is one.
fn meta_ident_of(m: &MetaAttr) -> (r: Option<&String>)
    ensures
        match r {
            Some(s) => meta_ident(*m) == Some(s@),
            None => meta_ident(*m) is None,
        },
{
    match m {
        MetaAttr::Path(p) => if p.len() == 1 {
            Some(&p[0])
        } else {
            None
        },
        _ => None,
    }
}

/// Reads `float_array` and `unboxed` from the type's attributes; the two
/// exclude each other.
pub fn attrs(ms: &Vec<MetaAttr>) -> (r: Result<Attrs, DeriveError>)
    ensures
        r == attrs_spec(ms@, ms@.len() as int),
{
    let mut acc = Attrs { float_array: false, unboxed: false };
    let mut i: usize = 0;
    while i < ms.len()
        invariant
            i <= ms@.len(),
            attrs_spec(ms@, i as int) == Ok::<Attrs, DeriveError>(acc),
        decreases ms@.len() - i,
    {
        let m = &ms[i];
        if let MetaAttr::Unparsable = m {
            proof {
                lemma_attrs_err_stays(ms@, i as int + 1, ms@.len() as int);
            }
            return Err(DeriveError::InvalidAttribute);
        }
        match meta_ident_of(m) {
            Some(ident) => {
                if text_eq(ident.as_str(), "float_array") {
                    if acc.unboxed {
                        proof {
                            lemma_attrs_err_stays(ms@, i as int + 1, ms@.len() as int);
                        }
                        return Err(DeriveError::FloatArrayAndUnboxed);
                    }
                    acc.float_array = true;
                } else if text_eq(ident.as_str(), "unboxed") {
                    if acc.float_array {
                        proof {
                            lemma_attrs_err_stays(ms@, i as int + 1, ms@.len() as int);
                        }
                        return Err(DeriveError::FloatArrayAndUnboxed);
                    }
                    acc.unboxed = true;
                }
            },
            None => {},
        }
        i += 1;
    }
    Ok(acc)
}

proof fn lemma_attrs_err_stays(ms: Seq<MetaAttr>, k: int, n: int)
    requires
        0 < k <= n,
        attrs_spec(ms, k) is Err,
    ensures
        attrs_spec(ms, n) == attrs_spec(ms, k),
    decreases n - k,
{
    if n > k {
        lemma_attrs_err_stays(ms, k, n - 1);
    }
}

/// The type path of a field printed as the derives print it.
fn path_string(p: &Vec<String>) -> (r: String)
    ensures
        r@ == path_text(p@, p@.len() as int),
{
    let mut acc = String::new();
    let mut i: usize = 0;
    while i < p.len()
        invariant
            i <= p@.len(),
            acc@ == path_text(p@, i as int),
        decreases p@.len() - i,
    {
        if acc.unicode_len() > 0 {
            acc.append("::");
            acc.append(p[i].as_str());
            proof {
                reveal_strlit("::");
            }
        } else {
            acc = to_owned_text(p[i].as_str());
        }
        i += 1;
    }
    acc
}

fn is_float_type(f: &FieldInfo) -> (r: bool)
    ensures
        r == is_float_field(*f),
{
    match &f.ty {
        FieldType::Path(p) => {
            let s = path_string(p);
            let t = s.as_str();
            text_eq(t, "ocaml::Float") || text_eq(t, "Float") || text_eq(t, "f64") || text_eq(t, "f32")
        },
        FieldType::Other => false,
    }
}

/// Whether every field of the struct is a float, so that the struct is
/// stored as an OCaml float array.
pub fn is_double_array_struct(fields: &Vec<FieldInfo>) -> (r: bool)
    ensures
        r == all_float_fields(fields@),
{
    let mut i: usize = 0;
    while i < fields.len()
        invariant
            i <= fields@.len(),
            forall|k: int| 0 <= k < i ==> #[trigger] is_float_field(fields@[k]),
        decreases fields@.len() - i,
    {
        if !is_float_type(&fields[i]) {
            return false;
        }
        i += 1;
    }
    true
}

// ----- Layout plans -----

/// How a generated `from_value` reads one field.
#[derive(Debug, Clone, Copy, PartialEq, Eq, Structural)]
pub enum FieldRead {
    /// `value.double_field(i)`
    DoubleField(usize),
    /// The whole value (unboxed).
    Whole,
    /// `value.field(i)`
    Field(usize),
}

/// How a generated `to_value` writes one field.
#[derive(Debug, Clone, Copy, PartialEq, Eq, Structural)]
pub enum FieldWrite {
    /// `value.store_double_field(i, ..)`
    StoreDouble(usize),
    /// `value = field.to_value(..)` (unboxed).
    Assign,
    /// `value.store_field(.., i, ..)`
    StoreField(usize),
}

/// How a generated `to_value` starts the value it fills.
#[derive(Debug, Clone, Copy, PartialEq, Eq, Structural)]
pub enum ValueDecl {
    /// `Value::unit()` (unboxed).
    Unit,
    /// `Value::alloc(n, tag)`
    Alloc(usize, u8),
}

/// The tag of a double array block.
pub const DOUBLE_ARRAY_TAG: u8 = 254;

/// What a generated `from_value` of a struct does.
#[derive(Debug, Clone, PartialEq, Eq)]
pub struct StructFromPlan {
    /// Whether the struct is built with `Self(..)` rather than `Self { .. }`.
    pub tuple_struct: bool,
    pub reads: Vec<FieldRead>,
}

/// What a generated `to_value` of a struct does.
#[derive(Debug, Clone, PartialEq, Eq)]
pub struct StructToPlan {
    pub decl: ValueDecl,
    pub writes: Vec<FieldWrite>,
}

pub open spec fn read_of(double: bool, unboxed: bool, i: int) -> FieldRead {
    if double {
        FieldRead::DoubleField(i as usize)
    } else if unboxed {
        FieldRead::Whole
    } else {
        FieldRead::Field(i as usize)
    }
}

pub open spec fn write_of(double: bool, unboxed: bool, i: int) -> FieldWrite {
    if double {
        FieldWrite::StoreDouble(i as usize)
    } else if unboxed {
        FieldWrite::Assign
    } else {
        FieldWrite::StoreField(i as usize)
    }
}

/// Whether a struct is built as a tuple struct: no fields, or an unnamed first field.
pub open spec fn is_tuple_fields(fields: Seq<FieldInfo>) -> bool {
    fields.len() == 0 || !fields[0].named
}

/// The `from_value` of a derived struct: an error exactly when the
/// attributes are refused or an unboxed struct has more than one field;
/// otherwise one read per field, from the float array, the whole value or
/// the numbered field.
pub open spec fn struct_from_spec(
    ms: Seq<MetaAttr>,
    fields: Seq<FieldInfo>,
    r: Result<StructFromPlan, DeriveError>,
) -> bool {
    match attrs_spec(ms, ms.len() as int) {
        Err(e) => r == Err::<StructFromPlan, DeriveError>(e),
        Ok(a) => if a.unboxed && fields.len() > 1 {
            r == Err::<StructFromPlan, DeriveError>(DeriveError::UnboxedStructFields)
        } else {
            let double = a.float_array || all_float_fields(fields);
            r matches Ok(p) && p.tuple_struct == is_tuple_fields(fields) && p.reads@.len()
                == fields.len() && forall|i: int|
                0 <= i < fields.len() ==> p.reads@[i] == read_of(double, a.unboxed, i)
        },
    }
}

/// The `to_value` of a derived struct: the same errors as `from_value`;
/// otherwise `Value::unit()` for an unboxed struct and an allocation of one
/// word per field, tagged as a double array or with tag 0, for the others;
/// then one write per field.
pub open spec fn struct_to_spec(
    ms: Seq<MetaAttr>,
    fields: Seq<FieldInfo>,
    r: Result<StructToPlan, DeriveError>,
) -> bool {
    match attrs_spec(ms, ms.len() as int) {
        Err(e) => r == Err::<StructToPlan, DeriveError>(e),
        Ok(a) => if a.unboxed && fields.len() > 1 {
            r == Err::<StructToPlan, DeriveError>(DeriveError::UnboxedStructFields)
        } else {
            let double = a.float_array || all_float_fields(fields);
            r matches Ok(p) && p.decl == (if a.unboxed {
                ValueDecl::Unit
            } else {
                ValueDecl::Alloc(fields.len() as usize, if double { DOUBLE_ARRAY_TAG } else { 0u8 })
            }) && p.writes@.len() == fields.len() && forall|i: int|
                0 <= i < fields.len() ==> p.writes@[i] == write_of(double, a.unboxed, i)
        },
    }
}

/// Plans the `FromValue` impl of a struct.
fn struct_from_value(ms: &Vec<MetaAttr>, fields: &Vec<FieldInfo>) -> (r: Result<StructFromPlan, DeriveError>)
    ensures
        struct_from_spec(ms@, fields@, r),
{
    let a = match attrs(ms) {
        Ok(a) => a,
        Err(e) => return Err(e),
    };
    let tuple_struct = fields.len() == 0 || !fields[0].named;
    let double = a.float_array || is_double_array_struct(fields);
    if a.unboxed && fields.len() > 1 {
        return Err(DeriveError::UnboxedStructFields);
    }
    let mut reads: Vec<FieldRead> = Vec::new();
    let mut i: usize = 0;
    while i < fields.len()
        invariant
            i <= fields@.len(),
            reads@.len() == i,
            forall|k: int| 0 <= k < i ==> reads@[k] == read_of(double, a.unboxed, k),
        decreases fields@.len() - i,
    {
        let r = if double {
            FieldRead::DoubleField(i)
        } else if a.unboxed {
            FieldRead::Whole
        } else {
            FieldRead::Field(i)
        };
        reads.push(r);
        i += 1;
    }
    Ok(StructFromPlan { tuple_struct, reads })
}

/// Plans the `ToValue` impl of a struct.
fn struct_to_value(ms: &Vec<MetaAttr>, fields: &Vec<FieldInfo>) -> (r: Result<StructToPlan, DeriveError>)
    ensures
        struct_to_spec(ms@, fields@, r),
{
    let a = match attrs(ms) {
        Ok(a) => a,
        Err(e) => return Err(e),
    };
    let double = a.float_array || is_double_array_struct(fields);
    if a.unboxed && fields.len() > 1 {
        return Err(DeriveError::UnboxedStructFields);
    }
    let mut writes: Vec<FieldWrite> = Vec::new();
    let mut i: usize = 0;
    while i < fields.len()
        invariant
            i <= fields@.len(),
            writes@.len() == i,
            forall|k: int| 0 <= k < i ==> writes@[k] == write_of(double, a.unboxed, k),
        decreases fields@.len() - i,
    {
        let w = if double {
            FieldWrite::StoreDouble(i)
        } else if a.unboxed {
            FieldWrite::Assign
        } else {
            FieldWrite::StoreField(i)
        };
        writes.push(w);
        i += 1;
    }
    let decl = if a.unboxed {
        ValueDecl::Unit
    } else {
        ValueDecl::Alloc(fields.len(), if double { DOUBLE_ARRAY_TAG } else { 0u8 })
    };
    Ok(StructToPlan { decl, writes })
}

// ----- Enums -----

/// A variant of an enum: its number of fields and whether the first one has a name.
#[derive(Debug, Clone, Copy, PartialEq, Eq, Structural)]
pub struct VariantInfo {
    pub arity: usize,
    pub named: bool,
}

/// The item a derive is applied to.
pub enum DeriveItem {
    Struct(Vec<FieldInfo>),
    Enum(Vec<VariantInfo>),
}

/// How a generated `from_value` recognises and reads one variant.
#[derive(Debug, Clone, PartialEq, Eq)]
pub struct VariantFromPlan {
    /// Whether the variant is stored as a block (it has fields) or as an immediate.
    pub is_block: bool,
    /// Its tag: the block tag, or the integer of the immediate.
    pub tag: u8,
    /// Whether it is built with `V(..)` rather than `V { .. }`.
    pub tuple: bool,
    pub reads: Vec<FieldRead>,
}

/// How a generated `to_value` writes one variant.
#[derive(Debug, Clone, PartialEq, Eq)]
pub enum VariantToPlan {
    /// A variant without fields: `Value::int(tag)`.
    Immediate(u8),
    /// A variant with fields.
    Block { tuple: bool, decl: ValueDecl, writes: Vec<FieldWrite> },
}

/// The plan of a generated `FromValue` impl.
#[derive(Debug, Clone, PartialEq, Eq)]
pub enum FromValuePlan {
    Struct(StructFromPlan),
    Enum(Vec<VariantFromPlan>),
}

/// The plan of a generated `ToValue` impl.
#[derive(Debug, Clone, PartialEq, Eq)]
pub enum ToValuePlan {
    Struct(StructToPlan),
    Enum(Vec<VariantToPlan>),
}

/// The number of variants among the first `k` that are blocks (`block`) or
/// immediates (`!block`).
pub open spec fn kind_count(vs: Seq<VariantInfo>, k: int, block: bool) -> int
    decreases k,
{
    if k <= 0 {
        0
    } else {
        kind_count(vs, k - 1, block) + if (vs[k - 1].arity > 0) == block {
            1int
        } else {
            0int
        }
    }
}

/// The tag of variant `i`: how many variants of its kind come before it.
/// Variants with fields and variants without are numbered separately.
pub open spec fn variant_tag(vs: Seq<VariantInfo>, i: int) -> int {
    kind_count(vs, i, vs[i].arity > 0)
}

/// Every tag fits in a byte and the counters do not overflow: at most 255
/// variants of each kind.
pub open spec fn tags_fit(vs: Seq<VariantInfo>) -> bool {
    kind_count(vs, vs.len() as int, false) <= 255 && kind_count(vs, vs.len() as int, true) <= 255
}

pub open spec fn is_tuple_variant(v: VariantInfo) -> bool {
    v.arity == 0 || !v.named
}

pub open spec fn variant_from_ok(vs: Seq<VariantInfo>, unboxed: bool, ps: Seq<VariantFromPlan>) -> bool {
    ps.len() == vs.len() && forall|i: int|
        0 <= i < vs.len() ==> {
            let p = #[trigger] ps[i];
            &&& p.is_block == (vs[i].arity > 0)
            &&& p.tag as int == variant_tag(vs, i)
            &&& p.tuple == is_tuple_variant(vs[i])
            &&& p.reads@.len() == vs[i].arity
            &&& forall|k: int|
                0 <= k < vs[i].arity ==> p.reads@[k] == (if unboxed {
                    FieldRead::Whole
                } else {
                    FieldRead::Field(k as usize)
                })
        }
}

pub open spec fn variant_to_ok(vs: Seq<VariantInfo>, unboxed: bool, ps: Seq<VariantToPlan>) -> bool {
    ps.len() == vs.len() && forall|i: int|
        0 <= i < vs.len() ==> {
            let p = #[trigger] ps[i];
            if vs[i].arity == 0 {
                p == VariantToPlan::Immediate(variant_tag(vs, i) as u8)
            } else {
                p matches VariantToPlan::Block { tuple, decl, writes } && tuple == is_tuple_variant(
                    vs[i],
                ) && decl == (if unboxed {
                    ValueDecl::Unit
                } else {
                    ValueDecl::Alloc(vs[i].arity, variant_tag(vs, i) as u8)
                }) && writes@.len() == vs[i].arity && forall|k: int|
                    0 <= k < vs[i].arity ==> writes@[k] == (if unboxed {
                        FieldWrite::Assign
                    } else {
                        FieldWrite::StoreField(k as usize)
                    })
            }
        }
}

/// The `FromValue` plan of a derived item: a refused attribute list, an
/// unboxed struct with several fields, an unboxed enum with several
/// variants, or a tag overflow is an error; otherwise the plan of each
/// field or variant.
pub open spec fn from_value_spec(ms: Seq<MetaAttr>, item: DeriveItem, r: Result<FromValuePlan, DeriveError>) -> bool {
    match item {
        DeriveItem::Struct(fields) => match attrs_spec(ms, ms.len() as int) {
            Err(e) => r == Err::<FromValuePlan, DeriveError>(e),
            Ok(_) => exists|q: Result<StructFromPlan, DeriveError>|
                struct_from_spec(ms, fields@, q) && r == (match q {
                    Ok(p) => Ok::<FromValuePlan, DeriveError>(FromValuePlan::Struct(p)),
                    Err(e) => Err(e),
                }),
        },
        DeriveItem::Enum(vs) => match attrs_spec(ms, ms.len() as int) {
            Err(e) => r == Err::<FromValuePlan, DeriveError>(e),
            Ok(a) => if a.unboxed && vs@.len() > 1 {
                r == Err::<FromValuePlan, DeriveError>(DeriveError::UnboxedEnumVariants)
            } else if !tags_fit(vs@) {
                r == Err::<FromValuePlan, DeriveError>(DeriveError::TagOverflow)
            } else {
                r matches Ok(FromValuePlan::Enum(ps)) && variant_from_ok(vs@, a.unboxed, ps@)
            },
        },
    }
}

/// The `ToValue` plan of a derived item; as for `FromValue`, except that
/// an unboxed enum must have exactly one variant.
pub open spec fn to_value_spec(ms: Seq<MetaAttr>, item: DeriveItem, r: Result<ToValuePlan, DeriveError>) -> bool {
    match item {
        DeriveItem::Struct(fields) => match attrs_spec(ms, ms.len() as int) {
            Err(e) => r == Err::<ToValuePlan, DeriveError>(e),
            Ok(_) => exists|q: Result<StructToPlan, DeriveError>|
                struct_to_spec(ms, fields@, q) && r == (match q {
                    Ok(p) => Ok::<ToValuePlan, DeriveError>(ToValuePlan::Struct(p)),
                    Err(e) => Err(e),
                }),
        },
        DeriveItem::Enum(vs) => match attrs_spec(ms, ms.len() as int) {
            Err(e) => r == Err::<ToValuePlan, DeriveError>(e),
            Ok(a) => if a.unboxed && vs@.len() != 1 {
                r == Err::<ToValuePlan, DeriveError>(DeriveError::UnboxedEnumVariants)
            } else if !tags_fit(vs@) {
                r == Err::<ToValuePlan, DeriveError>(DeriveError::TagOverflow)
            } else {
                r matches Ok(ToValuePlan::Enum(ps)) && variant_to_ok(vs@, a.unboxed, ps@)
            },
        },
    }
}

proof fn lemma_kind_count_mono(vs: Seq<VariantInfo>, i: int, j: int, block: bool)
    requires
        0 <= i <= j,
    ensures
        kind_count(vs, i, block) <= kind_count(vs, j, block),
    decreases j - i,
{
    if j > i {
        lemma_kind_count_mono(vs, i, j - 1, block);
    }
}

/// The tag of each variant, counting immediates and blocks separately;
/// `Err(TagOverflow)` when a counter would pass 255.
fn variant_tags(vs: &Vec<VariantInfo>) -> (r: Result<Vec<u8>, DeriveError>)
    ensures
        match r {
            Ok(tags) => tags_fit(vs@) && tags@.len() == vs@.len() && forall|i: int|
                0 <= i < vs@.len() ==> tags@[i] as int == variant_tag(vs@, i),
            Err(e) => !tags_fit(vs@) && e == DeriveError::TagOverflow,
        },
{
    let mut unit_tag: u8 = 0;
    let mut non_unit_tag: u8 = 0;
    let mut tags: Vec<u8> = Vec::new();
    let mut i: usize = 0;
    while i < vs.len()
        invariant
            i <= vs@.len(),
            unit_tag as int == kind_count(vs@, i as int, false),
            non_unit_tag as int == kind_count(vs@, i as int, true),
            tags@.len() == i,
            forall|k: int| 0 <= k < i ==> tags@[k] as int == variant_tag(vs@, k),
        decreases vs@.len() - i,
    {
        if vs[i].arity > 0 {
            if non_unit_tag == 255 {
                proof {
                    lemma_kind_count_mono(vs@, i + 1, vs@.len() as int, true);
                }
                return Err(DeriveError::TagOverflow);
            }
            tags.push(non_unit_tag);
            non_unit_tag += 1;
        } else {
            if unit_tag == 255 {
                proof {
                    lemma_kind_count_mono(vs@, i + 1, vs@.len() as int, false);
                }
                return Err(DeriveError::TagOverflow);
            }
            tags.push(unit_tag);
            unit_tag += 1;
        }
        i += 1;
    }
    Ok(tags)
}

fn enum_from_value(unboxed: bool, vs: &Vec<VariantInfo>, tags: &Vec<u8>) -> (ps: Vec<VariantFromPlan>)
    requires
        tags@.len() == vs@.len(),
        forall|i: int| 0 <= i < vs@.len() ==> tags@[i] as int == variant_tag(vs@, i),
    ensures
        variant_from_ok(vs@, unboxed, ps@),
{
    let mut ps: Vec<VariantFromPlan> = Vec::new();
    let mut i: usize = 0;
    while i < vs.len()
        invariant
            i <= vs@.len(),
            tags@.len() == vs@.len(),
            forall|k: int| 0 <= k < vs@.len() ==> tags@[k] as int == variant_tag(vs@, k),
            ps@.len() == i,
            variant_from_ok(vs@.subrange(0, i as int), unboxed, ps@),
            forall|k: int| 0 <= k < i ==> variant_tag(vs@.subrange(0, i as int), k) == variant_tag(vs@, k),
        decreases vs@.len() - i,
    {
        let v = vs[i];
        let mut reads: Vec<FieldRead> = Vec::new();
        let mut k: usize = 0;
        while k < v.arity
            invariant
                k <= v.arity,
                reads@.len() == k,
                forall|q: int| 0 <= q < k ==> reads@[q] == (if unboxed {
                    FieldRead::Whole
                } else {
                    FieldRead::Field(q as usize)
                }),
            decreases v.arity - k,
        {
            reads.push(if unboxed { FieldRead::Whole } else { FieldRead::Field(k) });
            k += 1;
        }
        ps.push(VariantFromPlan { is_block: v.arity > 0, tag: tags[i], tuple: v.arity == 0 || !v.named, reads });
        proof {
            let pre = vs@.subrange(0, i + 1);
            lemma_kind_count_prefix(vs@, i + 1);
            assert forall|k: int| 0 <= k < i + 1 implies variant_tag(pre, k) == variant_tag(vs@, k) by {
                lemma_kind_count_prefix_at(vs@, i + 1, k);
            }
        }
        i += 1;
    }
    assert(vs@.subrange(0, vs@.len() as int) =~= vs@);
    ps
}

proof fn lemma_kind_count_prefix(vs: Seq<VariantInfo>, n: int)
    requires
        0 <= n <= vs.len(),
    ensures
        forall|k: int, b: bool| 0 <= k <= n ==> #[trigger] kind_count(vs.subrange(0, n), k, b) == kind_count(vs, k, b),
{
    assert forall|k: int, b: bool| 0 <= k <= n implies #[trigger] kind_count(vs.subrange(0, n), k, b) == kind_count(vs, k, b) by {
        lemma_kind_count_prefix_k(vs, n, k, b);
    }
}

proof fn lemma_kind_count_prefix_k(vs: Seq<VariantInfo>, n: int, k: int, b: bool)
    requires
        0 <= k <= n <= vs.len(),
    ensures
        kind_count(vs.subrange(0, n), k, b) == kind_count(vs, k, b),
    decreases k,
{
    if k > 0 {
        lemma_kind_count_prefix_k(vs, n, k - 1, b);
    }
}

proof fn lemma_kind_count_prefix_at(vs: Seq<VariantInfo>, n: int, k: int)
    requires
        0 <= k < n <= vs.len(),
    ensures
        variant_tag(vs.subrange(0, n), k) == variant_tag(vs, k),
{
    lemma_kind_count_prefix_k(vs, n, k, vs[k].arity > 0);
}

pub open spec fn variant_to_at(vs: Seq<VariantInfo>, unboxed: bool, i: int, p: VariantToPlan) -> bool {
    if vs[i].arity == 0 {
        p == VariantToPlan::Immediate(variant_tag(vs, i) as u8)
    } else {
        p matches VariantToPlan::Block { tuple, decl, writes } && tuple == is_tuple_variant(vs[i])
            && decl == (if unboxed {
            ValueDecl::Unit
        } else {
            ValueDecl::Alloc(vs[i].arity, variant_tag(vs, i) as u8)
        }) && writes@.len() == vs[i].arity && forall|k: int|
            0 <= k < vs[i].arity ==> writes@[k] == (if unboxed {
                FieldWrite::Assign
            } else {
                FieldWrite::StoreField(k as usize)
            })
    }
}

fn enum_to_value(unboxed: bool, vs: &Vec<VariantInfo>, tags: &Vec<u8>) -> (ps: Vec<VariantToPlan>)
    requires
        tags@.len() == vs@.len(),
        forall|i: int| 0 <= i < vs@.len() ==> tags@[i] as int == variant_tag(vs@, i),
    ensures
        variant_to_ok(vs@, unboxed, ps@),
{
    let mut ps: Vec<VariantToPlan> = Vec::new();
    let mut i: usize = 0;
    while i < vs.len()
        invariant
            i <= vs@.len(),
            tags@.len() == vs@.len(),
            forall|k: int| 0 <= k < vs@.len() ==> tags@[k] as int == variant_tag(vs@, k),
            ps@.len() == i,
            forall|k: int| 0 <= k < i ==> variant_to_at(vs@, unboxed, k, #[trigger] ps@[k]),
        decreases vs@.len() - i,
    {
        let v = vs[i];
        if v.arity == 0 {
            ps.push(VariantToPlan::Immediate(tags[i]));
        } else {
            let mut writes: Vec<FieldWrite> = Vec::new();
            let mut k: usize = 0;
            while k < v.arity
                invariant
                    k <= v.arity,
                    writes@.len() == k,
                    forall|q: int| 0 <= q < k ==> writes@[q] == (if unboxed {
                        FieldWrite::Assign
                    } else {
                        FieldWrite::StoreField(q as usize)
                    }),
                decreases v.arity - k,
            {
                writes.push(if unboxed { FieldWrite::Assign } else { FieldWrite::StoreField(k) });
                k += 1;
            }
            let decl = if unboxed { ValueDecl::Unit } else { ValueDecl::Alloc(v.arity, tags[i]) };
            ps.push(VariantToPlan::Block { tuple: !v.named, decl, writes });
        }
        i += 1;
    }
    assert forall|i: int| 0 <= i < vs@.len() implies #[trigger] variant_to_at(vs@, unboxed, i, ps@[i]) by {}
    ps
}

/// Plans the `FromValue` impl that `#[derive(FromValue)]` writes for a
/// struct or an enum with the given type attributes.
pub fn derive_from_value(ms: &Vec<MetaAttr>, item: &DeriveItem) -> (r: Result<FromValuePlan, DeriveError>)
    ensures
        from_value_spec(ms@, *item, r),
{
    match item {
        DeriveItem::Struct(fields) => {
            let q = struct_from_value(ms, fields);
            match q {
                Ok(p) => Ok(FromValuePlan::Struct(p)),
                Err(e) => Err(e),
            }
        },
        DeriveItem::Enum(vs) => {
            let a = match attrs(ms) {
                Ok(a) => a,
                Err(e) => return Err(e),
            };
            if a.unboxed && vs.len() > 1 {
                return Err(DeriveError::UnboxedEnumVariants);
            }
            let tags = match variant_tags(vs) {
                Ok(t) => t,
                Err(e) => return Err(e),
            };
            Ok(FromValuePlan::Enum(enum_from_value(a.unboxed, vs, &tags)))
        },
    }
}

/// Plans the `ToValue` impl that `#[derive(ToValue)]` writes for a struct
/// or an enum with the given type attributes.
pub fn derive_to_value(ms: &Vec<MetaAttr>, item: &DeriveItem) -> (r: Result<ToValuePlan, DeriveError>)
    ensures
        to_value_spec(ms@, *item, r),
{
    match item {
        DeriveItem::Struct(fields) => {
            let q = struct_to_value(ms, fields);
            match q {
                Ok(p) => Ok(ToValuePlan::Struct(p)),
                Err(e) => Err(e),
            }
        },
        DeriveItem::Enum(vs) => {
            let a = match attrs(ms) {
                Ok(a) => a,
                Err(e) => return Err(e),
            };
            if a.unboxed && vs.len() != 1 {
                return Err(DeriveError::UnboxedEnumVariants);
            }
            let tags = match variant_tags(vs) {
                Ok(t) => t,
                Err(e) => return Err(e),
            };
            let ps = enum_to_value(a.unboxed, vs, &tags);
            proof {
                assert forall|i: int| 0 <= i < vs@.len() implies {
                    let p = #[trigger] ps@[i];
                    if vs@[i].arity == 0 {
                        p == VariantToPlan::Immediate(variant_tag(vs@, i) as u8)
                    } else {
                        p matches VariantToPlan::Block { tuple, decl, writes } && tuple == is_tuple_variant(vs@[i])
                            && decl == (if a.unboxed {
                            ValueDecl::Unit
                        } else {
                            ValueDecl::Alloc(vs@[i].arity, variant_tag(vs@, i) as u8)
                        }) && writes@.len() == vs@[i].arity && forall|k: int|
                            0 <= k < vs@[i].arity ==> writes@[k] == (if a.unboxed {
                                FieldWrite::Assign
                            } else {
                                FieldWrite::StoreField(k as usize)
                            })
                    }
                } by {
                    assert(variant_to_at(vs@, a.unboxed, i, ps@[i]));
                }
            }
            Ok(ToValuePlan::Enum(ps))
        },
    }
}

// ----- Reading a variant back -----

/// The pair a generated `from_value` matches on: whether the word is a
/// block, and its tag (the block's tag byte, or the integer of an
/// immediate, truncated to a byte).
pub open spec fn variant_key_spec(v: int, block_tag: u8) -> (bool, u8) {
    if !is_long_spec(v) {
        (true, block_tag)
    } else {
        (false, (int_val_spec(v) % 256) as u8)
    }
}

/// Computes the pair `(is_block, tag)` that a generated `from_value`
/// matches on, from the word and the tag byte in its header (which is only
/// read for a block).
pub fn variant_key(v: Value, block_tag: u8) -> (r: (bool, u8))
    ensures
        r == variant_key_spec(v as int, block_tag),
{
    let b = is_block(v);
    let tag = if !b {
        let i = int_val(v);
        proof {
            assert((i as u8) as int == (i as int) % 256) by (bit_vector);
        }
        i as u8
    } else {
        block_tag
    };
    (b, tag)
}

/// Finds the variant whose pair `(is_block, tag)` matches, as the match in a
/// generated `from_value` does; `None` where the generated code panics.
pub fn decode_variant(ps: &Vec<VariantFromPlan>, is_block: bool, tag: u8) -> (r: Option<usize>)
    ensures
        match r {
            Some(i) => i < ps@.len() && ps@[i as int].is_block == is_block && ps@[i as int].tag == tag
                && forall|j: int| 0 <= j < i ==> !(ps@[j].is_block == is_block && ps@[j].tag == tag),
            None => forall|j: int| 0 <= j < ps@.len() ==> !(ps@[j].is_block == is_block && ps@[j].tag == tag),
        },
{
    let mut i: usize = 0;
    while i < ps.len()
        invariant
            i <= ps@.len(),
            forall|j: int| 0 <= j < i ==> !(ps@[j].is_block == is_block && ps@[j].tag == tag),
        decreases ps@.len() - i,
    {
        if ps[i].is_block == is_block && ps[i].tag == tag {
            return Some(i);
        }
        i += 1;
    }
    None
}

/// Distinct variants of a derived enum get distinct pairs `(is_block, tag)`.
pub proof fn lemma_variant_keys_distinct(vs: Seq<VariantInfo>, i: int, j: int)
    requires
        0 <= i < vs.len(),
        0 <= j < vs.len(),
        i != j,
    ensures
        (vs[i].arity > 0) != (vs[j].arity > 0) || variant_tag(vs, i) != variant_tag(vs, j),
{
    if (vs[i].arity > 0) == (vs[j].arity > 0) {
        let b = vs[i].arity > 0;
        if i < j {
            lemma_kind_count_mono(vs, i + 1, j, b);
        } else {
            lemma_kind_count_mono(vs, j + 1, i, b);
        }
    }
}

/// What a derived `FromValue` matches on identifies the variant that a
/// derived `ToValue` wrote: in a plan of a derived enum, the variant with
/// the pair of variant `i` is variant `i` alone.
pub proof fn lemma_decode_finds_variant(vs: Seq<VariantInfo>, ps: Seq<VariantFromPlan>, unboxed: bool, i: int, j: int)
    requires
        variant_from_ok(vs, unboxed, ps),
        0 <= i < ps.len(),
        0 <= j < ps.len(),
        ps[j].is_block == ps[i].is_block,
        ps[j].tag == ps[i].tag,
    ensures
        j == i,
{
    if j != i {
        lemma_variant_keys_distinct(vs, i, j);
        assert(ps[i].is_block == (vs[i].arity > 0));
        assert(ps[j].is_block == (vs[j].arity > 0));
    }
}

/// A variant without fields written as `Value::int(tag)` is read back as
/// the immediate with that tag.
pub proof fn lemma_immediate_variant_key(tag: u8, block_tag: u8)
    ensures
        variant_key_spec(val_int_spec(tag as int), block_tag) == (false, tag),
{
    crate::mlvalues::lemma_val_int_is_long(tag as int);
    crate::mlvalues::lemma_int_val_of_val_int(tag as int);
}

/// A block is read back with the tag in its header.
pub proof fn lemma_block_variant_key(v: int, tag: u8)
    requires
        !is_long_spec(v),
    ensures
        variant_key_spec(v, tag) == (true, tag),
{
}

/// A read of a derived `from_value` takes back what the write at the same
/// position of the derived `to_value` stored: the same double field, the
/// whole value, or the same field.
pub open spec fn read_mirrors(r: FieldRead, w: FieldWrite) -> bool {
    match (r, w) {
        (FieldRead::DoubleField(i), FieldWrite::StoreDouble(j)) => i == j,
        (FieldRead::Whole, FieldWrite::Assign) => true,
        (FieldRead::Field(i), FieldWrite::StoreField(j)) => i == j,
        _ => false,
    }
}

/// The fields read are those written, position by position.
pub open spec fn reads_mirror(reads: Seq<FieldRead>, writes: Seq<FieldWrite>) -> bool {
    reads.len() == writes.len() && forall|k: int|
        0 <= k < writes.len() ==> #[trigger] read_mirrors(reads[k], writes[k])
}

/// The variant that `to` writes is recognised by `from` and read back
/// field by field: an immediate as the immediate with its tag; a block
/// allocated with a tag as the block with that tag, built the same way.
pub open spec fn variant_mirrors(from: VariantFromPlan, to: VariantToPlan) -> bool {
    match to {
        VariantToPlan::Immediate(t) => !from.is_block && from.tag == t && from.reads@.len() == 0,
        VariantToPlan::Block { tuple, decl, writes } => {
            &&& from.is_block
            &&& from.tuple == tuple
            &&& reads_mirror(from.reads@, writes@)
            &&& decl matches ValueDecl::Alloc(n, t) ==> from.tag == t && n == writes@.len()
        },
    }
}

/// The read plan mirrors the write plan: a struct's fields are read from
/// where they were written (from a double array exactly when one was
/// allocated); each variant of an enum is recognised by the key it was
/// written with, which no other variant has, and read back field by field.
pub open spec fn plans_mirror(fp: FromValuePlan, tp: ToValuePlan) -> bool {
    match (fp, tp) {
        (FromValuePlan::Struct(f), ToValuePlan::Struct(t)) => {
            &&& reads_mirror(f.reads@, t.writes@)
            &&& t.decl matches ValueDecl::Alloc(n, tag) ==> (tag == DOUBLE_ARRAY_TAG ==> forall|k: int|
                0 <= k < f.reads@.len() ==> f.reads@[k] is DoubleField)
        },
        (FromValuePlan::Enum(fs), ToValuePlan::Enum(ts)) => {
            &&& fs.len() == ts.len()
            &&& forall|i: int| 0 <= i < ts.len() ==> #[trigger] variant_mirrors(fs@[i], ts@[i])
            &&& forall|i: int, j: int|
                0 <= i < fs.len() && 0 <= j < fs.len() && i != j ==> #[trigger] fs@[i].is_block
                    != #[trigger] fs@[j].is_block || fs@[i].tag != fs@[j].tag
        },
        _ => false,
    }
}

/// Derived `FromValue` reads back what derived `ToValue` writes: when both
/// derives accept the same item with the same attributes, every field and
/// every variant is read from where it was written.
pub proof fn lemma_derived_plans_mirror(ms: Seq<MetaAttr>, item: DeriveItem, fp: FromValuePlan, tp: ToValuePlan)
    requires
        from_value_spec(ms, item, Ok(fp)),
        to_value_spec(ms, item, Ok(tp)),
    ensures
        plans_mirror(fp, tp),
{
    match item {
        DeriveItem::Struct(fields) => {
            let qf = choose|q: Result<StructFromPlan, DeriveError>|
                struct_from_spec(ms, fields@, q) && Ok::<FromValuePlan, DeriveError>(fp) == (match q {
                    Ok(p) => Ok::<FromValuePlan, DeriveError>(FromValuePlan::Struct(p)),
                    Err(e) => Err(e),
                });
            let qt = choose|q: Result<StructToPlan, DeriveError>|
                struct_to_spec(ms, fields@, q) && Ok::<ToValuePlan, DeriveError>(tp) == (match q {
                    Ok(p) => Ok::<ToValuePlan, DeriveError>(ToValuePlan::Struct(p)),
                    Err(e) => Err(e),
                });
            let f = qf->Ok_0;
            let t = qt->Ok_0;
            assert(fp == FromValuePlan::Struct(f));
            assert(tp == ToValuePlan::Struct(t));
            let a = attrs_spec(ms, ms.len() as int)->Ok_0;
            let double = a.float_array || all_float_fields(fields@);
            assert forall|k: int| 0 <= k < t.writes@.len() implies #[trigger] read_mirrors(
                f.reads@[k],
                t.writes@[k],
            ) by {
                assert(f.reads@[k] == read_of(double, a.unboxed, k));
                assert(t.writes@[k] == write_of(double, a.unboxed, k));
            }
            match t.decl {
                ValueDecl::Alloc(n, tag) => {
                    if tag == DOUBLE_ARRAY_TAG {
                        assert(double);
                        assert forall|k: int| 0 <= k < f.reads@.len() implies f.reads@[k] is DoubleField by {
                            assert(f.reads@[k] == read_of(double, a.unboxed, k));
                        }
                    }
                },
                ValueDecl::Unit => {},
            }
            assert(reads_mirror(f.reads@, t.writes@));
        },
        DeriveItem::Enum(vs) => {
            let a = attrs_spec(ms, ms.len() as int)->Ok_0;
            let fs = fp->Enum_0;
            let ts = tp->Enum_0;
            assert forall|i: int| 0 <= i < ts.len() implies #[trigger] variant_mirrors(fs@[i], ts@[i]) by {
                let pf = fs@[i];
                assert(pf == fs@[i]);
                if vs@[i].arity > 0 {
                    let pt = ts@[i];
                    assert(pt == ts@[i]);
                    let w = pt->writes;
                    assert forall|k: int| 0 <= k < w@.len() implies #[trigger] read_mirrors(
                        pf.reads@[k],
                        w@[k],
                    ) by {}
                }
            }
            assert forall|i: int, j: int|
                0 <= i < fs.len() && 0 <= j < fs.len() && i != j implies #[trigger] fs@[i].is_block
                    != #[trigger] fs@[j].is_block || fs@[i].tag != fs@[j].tag by {
                lemma_variant_keys_distinct(vs@, i, j);
                let pi = fs@[i];
                let pj = fs@[j];
                assert(pi == fs@[i]);
                assert(pj == fs@[j]);
            }
        },
    }
}

/// Reading the type attributes: `float_array` and `unboxed` never both
/// hold, and each holds once an attribute with that bare name was read.
pub proof fn lemma_attrs_flags(ms: Seq<MetaAttr>, k: int)
    requires
        0 <= k <= ms.len(),
        attrs_spec(ms, k) is Ok,
    ensures
        !(attrs_spec(ms, k)->Ok_0.float_array && attrs_spec(ms, k)->Ok_0.unboxed),
        forall|j: int| 0 <= j < k && #[trigger] meta_ident(ms[j]) == Some("float_array"@)
            ==> attrs_spec(ms, k)->Ok_0.float_array,
        forall|j: int| 0 <= j < k && #[trigger] meta_ident(ms[j]) == Some("unboxed"@)
            ==> attrs_spec(ms, k)->Ok_0.unboxed,
    decreases k,
{
    reveal_strlit("float_array");
    reveal_strlit("unboxed");
    assert("unboxed"@[0] != "float_array"@[0]);
    assert("unboxed"@ != "float_array"@);
    if k > 0 {
        assert(attrs_spec(ms, k - 1) is Ok);
        lemma_attrs_flags(ms, k - 1);
    }
}

/// The layout of a derived struct, as `ToValue` writes it: with
/// `float_array`, or when every field is a float, a flat float record (one
/// double per field in a block tagged `Double_array_tag`); with `unboxed`,
/// the single field's own value; otherwise a block tagged 0 with one field
/// per field, in order.
pub proof fn lemma_struct_to_layout(ms: Seq<MetaAttr>, fields: Vec<FieldInfo>, tp: ToValuePlan)
    requires
        to_value_spec(ms, DeriveItem::Struct(fields), Ok(tp)),
    ensures
        attrs_spec(ms, ms.len() as int) is Ok,
        tp is Struct,
        tp->Struct_0.writes@.len() == fields@.len(),
        ({
            let a = attrs_spec(ms, ms.len() as int)->Ok_0;
            let p = tp->Struct_0;
            &&& a.float_array || all_float_fields(fields@) ==> !a.unboxed ==> p.decl == ValueDecl::Alloc(
                fields@.len() as usize,
                254u8,
            ) && forall|i: int| 0 <= i < fields@.len() ==> p.writes@[i] == FieldWrite::StoreDouble(i as usize)
            &&& a.float_array ==> !a.unboxed
            &&& a.unboxed ==> p.decl == ValueDecl::Unit && fields@.len() <= 1
            &&& a.unboxed && !all_float_fields(fields@) ==> forall|i: int|
                0 <= i < fields@.len() ==> p.writes@[i] == FieldWrite::Assign
            &&& !a.float_array && !a.unboxed && !all_float_fields(fields@) ==> p.decl == ValueDecl::Alloc(
                fields@.len() as usize,
                0u8,
            ) && forall|i: int| 0 <= i < fields@.len() ==> p.writes@[i] == FieldWrite::StoreField(i as usize)
        }),
{
    lemma_attrs_flags(ms, ms.len() as int);
    let q = choose|q: Result<StructToPlan, DeriveError>|
        struct_to_spec(ms, fields@, q) && Ok::<ToValuePlan, DeriveError>(tp) == (match q {
            Ok(p) => Ok::<ToValuePlan, DeriveError>(ToValuePlan::Struct(p)),
            Err(e) => Err(e),
        });
    assert(tp == ToValuePlan::Struct(q->Ok_0));
}

/// The layout of a derived struct, as `FromValue` reads it: the same three
/// layouts as `ToValue` writes.
pub proof fn lemma_struct_from_layout(ms: Seq<MetaAttr>, fields: Vec<FieldInfo>, fp: FromValuePlan)
    requires
        from_value_spec(ms, DeriveItem::Struct(fields), Ok(fp)),
    ensures
        attrs_spec(ms, ms.len() as int) is Ok,
        fp is Struct,
        fp->Struct_0.reads@.len() == fields@.len(),
        ({
            let a = attrs_spec(ms, ms.len() as int)->Ok_0;
            let p = fp->Struct_0;
            &&& a.float_array || all_float_fields(fields@) ==> forall|i: int|
                0 <= i < fields@.len() ==> p.reads@[i] == FieldRead::DoubleField(i as usize)
            &&& a.unboxed && !all_float_fields(fields@) ==> fields@.len() <= 1 && forall|i: int|
                0 <= i < fields@.len() ==> p.reads@[i] == FieldRead::Whole
            &&& !a.float_array && !a.unboxed && !all_float_fields(fields@) ==> forall|i: int|
                0 <= i < fields@.len() ==> p.reads@[i] == FieldRead::Field(i as usize)
        }),
{
    lemma_attrs_flags(ms, ms.len() as int);
    let q = choose|q: Result<StructFromPlan, DeriveError>|
        struct_from_spec(ms, fields@, q) && Ok::<FromValuePlan, DeriveError>(fp) == (match q {
            Ok(p) => Ok::<FromValuePlan, DeriveError>(FromValuePlan::Struct(p)),
            Err(e) => Err(e),
        });
    assert(fp == FromValuePlan::Struct(q->Ok_0));
}

proof fn lemma_kind_count_flat(vs: Seq<VariantInfo>, i: int, j: int, b: bool)
    requires
        0 <= i <= j <= vs.len(),
        forall|k: int| i <= k < j ==> (vs[k].arity > 0) != b,
    ensures
        kind_count(vs, j, b) == kind_count(vs, i, b),
    decreases j - i,
{
    if j > i {
        lemma_kind_count_flat(vs, i, j - 1, b);
    }
}

/// How a derived `FromValue` tells variants apart: a variant with fields is
/// a block and one without an immediate; within each kind the variants are
/// numbered in declaration order from 0: the first of its kind has tag 0,
/// and the next one of the same kind has the following tag.
pub proof fn lemma_variant_numbering(ms: Seq<MetaAttr>, vs: Vec<VariantInfo>, fp: FromValuePlan)
    requires
        from_value_spec(ms, DeriveItem::Enum(vs), Ok(fp)),
    ensures
        fp is Enum,
        fp->Enum_0@.len() == vs@.len(),
        forall|i: int| 0 <= i < vs@.len() ==> (#[trigger] fp->Enum_0@[i]).is_block == (vs@[i].arity > 0),
        forall|i: int|
            0 <= i < vs@.len() && (forall|k: int| 0 <= k < i ==> (vs@[k].arity > 0) != (vs@[i].arity > 0))
                ==> (#[trigger] fp->Enum_0@[i]).tag == 0,
        forall|i: int, j: int|
            0 <= i < j < vs@.len() && (vs@[i].arity > 0) == (vs@[j].arity > 0) && (forall|k: int|
                i < k < j ==> (vs@[k].arity > 0) != (vs@[i].arity > 0)) ==> (#[trigger] fp->Enum_0@[j]).tag
                == (#[trigger] fp->Enum_0@[i]).tag + 1,
{
    let ps = fp->Enum_0@;
    assert forall|i: int|
        0 <= i < vs@.len() && (forall|k: int| 0 <= k < i ==> (vs@[k].arity > 0) != (vs@[i].arity > 0))
            implies (#[trigger] fp->Enum_0@[i]).tag == 0 by {
        lemma_kind_count_flat(vs@, 0, i, vs@[i].arity > 0);
        assert(ps[i] == fp->Enum_0@[i]);
    }
    assert forall|i: int, j: int|
        0 <= i < j < vs@.len() && (vs@[i].arity > 0) == (vs@[j].arity > 0) && (forall|k: int|
            i < k < j ==> (vs@[k].arity > 0) != (vs@[i].arity > 0)) implies (#[trigger] fp->Enum_0@[j]).tag
            == (#[trigger] fp->Enum_0@[i]).tag + 1 by {
        let b = vs@[i].arity > 0;
        lemma_kind_count_flat(vs@, i + 1, j, b);
        assert(ps[i] == fp->Enum_0@[i]);
        assert(ps[j] == fp->Enum_0@[j]);
    }
}

// ----- `#[ocaml(..)]` attributes on a variant or record -----

/// An entry of the list in `#[ocaml(..)]`.
pub enum NestedMeta {
    /// A path, by its segments.
    Path(Vec<String>),
    /// A literal or a nested list.
    Other,
}

/// The arguments of an attribute.
pub enum AttrArgs {
    /// A parenthesised list.
    List(Vec<NestedMeta>),
    /// A bare path, a name-value pair, or something that does not parse.
    NotList,
}

/// An attribute on a variant: its path and its arguments.
pub struct VariantAttr {
    pub path: Vec<String>,
    pub args: AttrArgs,
}

/// The representation options of a variant.
#[derive(Debug, Clone, Copy, PartialEq, Eq, Structural)]
pub struct VariantAttrs {
    pub unboxed: bool,
    pub floats: bool,
}

/// Whether a path is the single segment `ocaml`.
pub open spec fn is_ocaml_path(p: Seq<String>) -> bool {
    p.len() == 1 && p[0]@ == "ocaml"@
}

/// Whether the attribute path is `ocaml`.
pub fn is_ocaml(path: &Vec<String>) -> (r: bool)
    ensures
        r == is_ocaml_path(path@),
{
    path.len() == 1 && text_eq(path[0].as_str(), "ocaml")
}

/// The position of the first `#[ocaml]` attribute at or after `k`.
pub open spec fn find_ocaml(attrs: Seq<VariantAttr>, k: int) -> Option<int>
    decreases attrs.len() - k,
{
    if k < 0 || k >= attrs.len() {
        None
    } else if is_ocaml_path(attrs[k].path@) {
        Some(k)
    } else {
        find_ocaml(attrs, k + 1)
    }
}

pub open spec fn variant_step(acc: Result<VariantAttrs, DeriveError>, n: NestedMeta) -> Result<VariantAttrs, DeriveError> {
    match acc {
        Err(e) => Err(e),
        Ok(a) => match n {
            NestedMeta::Path(p) => if p@.len() == 1 {
                if p@[0]@ == "unboxed"@ {
                    if a.floats {
                        Err(DeriveError::FloatsAndUnboxed)
                    } else {
                        Ok(VariantAttrs { unboxed: true, ..a })
                    }
                } else if p@[0]@ == "floats_array"@ {
                    if a.unboxed {
                        Err(DeriveError::FloatsAndUnboxed)
                    } else {
                        Ok(VariantAttrs { floats: true, ..a })
                    }
                } else {
                    Err(DeriveError::UnexpectedParameter(p@[0]))
                }
            } else {
                Ok(a)
            },
            NestedMeta::Other => Err(DeriveError::UnexpectedNested),
        },
    }
}

/// The options read from the first `k` entries of an `#[ocaml(..)]` list.
pub open spec fn variant_fold(ns: Seq<NestedMeta>, k: int) -> Result<VariantAttrs, DeriveError>
    decreases k,
{
    if k <= 0 {
        Ok(VariantAttrs { unboxed: false, floats: false })
    } else {
        variant_step(variant_fold(ns, k - 1), ns[k - 1])
    }
}

/// The options given by the first `#[ocaml(..)]` attribute of a variant;
/// the defaults when there is none.
pub open spec fn variant_attrs_spec(attrs: Seq<VariantAttr>) -> Result<VariantAttrs, DeriveError> {
    match find_ocaml(attrs, 0) {
        None => Ok(VariantAttrs { unboxed: false, floats: false }),
        Some(i) => match attrs[i].args {
            AttrArgs::List(ns) => variant_fold(ns@, ns@.len() as int),
            AttrArgs::NotList => Err(DeriveError::NotAList),
        },
    }
}

proof fn lemma_variant_fold_err_stays(ns: Seq<NestedMeta>, k: int, n: int)
    requires
        0 < k <= n,
        variant_fold(ns, k) is Err,
    ensures
        variant_fold(ns, n) == variant_fold(ns, k),
    decreases n - k,
{
    if n > k {
        lemma_variant_fold_err_stays(ns, k, n - 1);
    }
}

/// Reads the `unboxed` and `floats_array` options of a variant from its
/// first `#[ocaml(..)]` attribute.
pub fn variant_attrs(attrs: &Vec<VariantAttr>) -> (r: Result<VariantAttrs, DeriveError>)
    ensures
        r == variant_attrs_spec(attrs@),
{
    let mut i: usize = 0;
    while i < attrs.len()
        invariant
            i <= attrs@.len(),
            find_ocaml(attrs@, 0) == find_ocaml(attrs@, i as int),
        ensures
            i <= attrs@.len(),
            find_ocaml(attrs@, 0) == find_ocaml(attrs@, i as int),
            i < attrs@.len() ==> is_ocaml_path(attrs@[i as int].path@),
        decreases attrs@.len() - i,
    {
        if is_ocaml(&attrs[i].path) {
            break;
        }
        i += 1;
    }
    if i == attrs.len() {
        return Ok(VariantAttrs { unboxed: false, floats: false });
    }
    assert(find_ocaml(attrs@, i as int) == Some(i as int));
    let ns = match &attrs[i].args {
        AttrArgs::List(ns) => ns,
        AttrArgs::NotList => return Err(DeriveError::NotAList),
    };
    let mut acc = VariantAttrs { unboxed: false, floats: false };
    let mut k: usize = 0;
    while k < ns.len()
        invariant
            k <= ns@.len(),
            variant_fold(ns@, k as int) == Ok::<VariantAttrs, DeriveError>(acc),
            i < attrs@.len(),
            find_ocaml(attrs@, 0) == Some(i as int),
            attrs@[i as int].args == AttrArgs::List(*ns),
        decreases ns@.len() - k,
    {
        match &ns[k] {
            NestedMeta::Path(p) => {
                if p.len() == 1 {
                    let ident = &p[0];
                    if text_eq(ident.as_str(), "unboxed") {
                        if acc.floats {
                            proof {
                                lemma_variant_fold_err_stays(ns@, k as int + 1, ns@.len() as int);
                            }
                            return Err(DeriveError::FloatsAndUnboxed);
                        }
                        acc.unboxed = true;
                    } else if text_eq(ident.as_str(), "floats_array") {
                        if acc.unboxed {
                            proof {
                                lemma_variant_fold_err_stays(ns@, k as int + 1, ns@.len() as int);
                            }
                            return Err(DeriveError::FloatsAndUnboxed);
                        }
                        acc.floats = true;
                    } else {
                        proof {
                            lemma_variant_fold_err_stays(ns@, k as int + 1, ns@.len() as int);
                        }
                        return Err(DeriveError::UnexpectedParameter(ident.clone()));
                    }
                }
            },
            NestedMeta::Other => {
                proof {
                    lemma_variant_fold_err_stays(ns@, k as int + 1, ns@.len() as int);
                }
                return Err(DeriveError::UnexpectedNested);
            },
        }
        k += 1;
    }
    Ok(acc)
}

// ----- Derives driven by `#[ocaml(..)]` variant attributes -----

/// A variant (or the single variant of a struct) with its attributes.
pub struct DerivedVariant {
    pub arity: usize,
    pub attrs: Vec<VariantAttr>,
}

/// How `tovalue_derive` writes one variant.
#[derive(Debug, Clone, Copy, PartialEq, Eq, Structural)]
pub enum RecordToPlan {
    /// A variant without fields: `Value::int(tag)`.
    Immediate(u8),
    /// A float array of this many fields, each set as a double.
    FloatArray(usize),
    /// The value of the single field itself.
    Unboxed,
    /// A block of this many fields with this tag, first filled with unit.
    Block(usize, u8),
}

/// How `fromvalue_derive` reads one variant.
#[derive(Debug, Clone, PartialEq, Eq)]
pub struct RecordArm {
    pub is_block: bool,
    pub tag: u8,
    pub reads: Vec<FieldRead>,
}

/// What `fromvalue_derive` generates: the arms, and whether the value is
/// read unboxed or checked to be a float array (the options of the single
/// variant of a struct).
#[derive(Debug, Clone, PartialEq, Eq)]
pub struct RecordFromPlan {
    pub unboxed: bool,
    pub floats: bool,
    pub arms: Vec<RecordArm>,
}

pub open spec fn arities_of(vs: Seq<DerivedVariant>) -> Seq<VariantInfo> {
    Seq::new(vs.len(), |i: int| VariantInfo { arity: vs[i].arity, named: false })
}

/// What `tovalue_derive` does with variant `k`: the tag counter of its
/// kind moves on first (and overflows past 255), then its attributes are
/// read; unboxed and float-array representations are for structs only.
pub open spec fn to_step(vs: Seq<DerivedVariant>, k: int) -> Result<RecordToPlan, DeriveError> {
    let tag = variant_tag(arities_of(vs), k);
    if tag == 255 {
        Err(DeriveError::TagOverflow)
    } else {
        match variant_attrs_spec(vs[k].attrs@) {
            Err(e) => Err(e),
            Ok(a) => if (a.floats || a.unboxed) && vs.len() != 1 {
                Err(DeriveError::EnumRepresentation)
            } else if vs[k].arity == 0 {
                Ok(RecordToPlan::Immediate(tag as u8))
            } else if a.floats {
                Ok(RecordToPlan::FloatArray(vs[k].arity))
            } else if a.unboxed {
                if vs[k].arity > 1 {
                    Err(DeriveError::UnboxedRecordFields)
                } else {
                    Ok(RecordToPlan::Unboxed)
                }
            } else {
                Ok(RecordToPlan::Block(vs[k].arity, tag as u8))
            },
        }
    }
}

/// The plans of the first `k` variants, or the first error.
pub open spec fn to_fold(vs: Seq<DerivedVariant>, k: int) -> Result<Seq<RecordToPlan>, DeriveError>
    decreases k,
{
    if k <= 0 {
        Ok(Seq::empty())
    } else {
        match to_fold(vs, k - 1) {
            Err(e) => Err(e),
            Ok(ps) => match to_step(vs, k - 1) {
                Err(e) => Err(e),
                Ok(p) => Ok(ps.push(p)),
            },
        }
    }
}

proof fn lemma_to_fold_err_stays(vs: Seq<DerivedVariant>, k: int, n: int)
    requires
        0 < k <= n,
        to_fold(vs, k) is Err,
    ensures
        to_fold(vs, n) == to_fold(vs, k),
    decreases n - k,
{
    if n > k {
        lemma_to_fold_err_stays(vs, k, n - 1);
    }
}

/// Plans the `ToValue` impl of the `#[ocaml(..)]`-driven derive.
pub fn tovalue_derive(vs: &Vec<DerivedVariant>) -> (r: Result<Vec<RecordToPlan>, DeriveError>)
    ensures
        match r {
            Ok(ps) => to_fold(vs@, vs@.len() as int) == Ok::<Seq<RecordToPlan>, DeriveError>(ps@),
            Err(e) => to_fold(vs@, vs@.len() as int) == Err::<Seq<RecordToPlan>, DeriveError>(e),
        },
{
    let record_like = vs.len() == 1;
    let mut unit_tag: u8 = 0;
    let mut non_unit_tag: u8 = 0;
    let mut ps: Vec<RecordToPlan> = Vec::new();
    let mut i: usize = 0;
    while i < vs.len()
        invariant
            i <= vs@.len(),
            record_like == (vs@.len() == 1),
            unit_tag as int == kind_count(arities_of(vs@), i as int, false),
            non_unit_tag as int == kind_count(arities_of(vs@), i as int, true),
            to_fold(vs@, i as int) == Ok::<Seq<RecordToPlan>, DeriveError>(ps@),
        decreases vs@.len() - i,
    {
        let v = &vs[i];
        let arity = v.arity;
        proof {
            assert(arities_of(vs@)[i as int].arity == arity);
        }
        let tag = if arity > 0 { non_unit_tag } else { unit_tag };
        if tag == 255 {
            proof {
                lemma_to_fold_err_stays(vs@, i as int + 1, vs@.len() as int);
            }
            return Err(DeriveError::TagOverflow);
        }
        if arity > 0 {
            non_unit_tag += 1;
        } else {
            unit_tag += 1;
        }
        let a = match variant_attrs(&v.attrs) {
            Ok(a) => a,
            Err(e) => {
                proof {
                    lemma_to_fold_err_stays(vs@, i as int + 1, vs@.len() as int);
                }
                return Err(e);
            },
        };
        if (a.floats || a.unboxed) && !record_like {
            proof {
                lemma_to_fold_err_stays(vs@, i as int + 1, vs@.len() as int);
            }
            return Err(DeriveError::EnumRepresentation);
        }
        let p = if arity == 0 {
            RecordToPlan::Immediate(tag)
        } else if a.floats {
            RecordToPlan::FloatArray(arity)
        } else if a.unboxed {
            if arity > 1 {
                proof {
                    lemma_to_fold_err_stays(vs@, i as int + 1, vs@.len() as int);
                }
                return Err(DeriveError::UnboxedRecordFields);
            }
            RecordToPlan::Unboxed
        } else {
            RecordToPlan::Block(arity, tag)
        };
        ps.push(p);
        i += 1;
    }
    Ok(ps)
}

/// The reads of one variant: the whole value when unboxed, doubles of a
/// float array, or the numbered fields.
pub open spec fn record_read(a: VariantAttrs, k: int) -> FieldRead {
    if a.unboxed {
        FieldRead::Whole
    } else if a.floats {
        FieldRead::DoubleField(k as usize)
    } else {
        FieldRead::Field(k as usize)
    }
}

/// What `fromvalue_derive` does with variant `k`: its attributes are read
/// first, then the tag counter of its kind moves on.
pub open spec fn from_step(vs: Seq<DerivedVariant>, k: int) -> Result<(), DeriveError> {
    match variant_attrs_spec(vs[k].attrs@) {
        Err(e) => Err(e),
        Ok(a) => if (a.floats || a.unboxed) && vs.len() != 1 {
            Err(DeriveError::EnumRepresentation)
        } else if variant_tag(arities_of(vs), k) == 255 {
            Err(DeriveError::TagOverflow)
        } else if a.unboxed && vs[k].arity > 1 {
            Err(DeriveError::UnboxedRecordFields)
        } else {
            Ok(())
        },
    }
}

pub open spec fn arm_ok(vs: Seq<DerivedVariant>, k: int, arm: RecordArm) -> bool {
    match variant_attrs_spec(vs[k].attrs@) {
        Err(_) => false,
        Ok(a) => {
            &&& arm.is_block == (vs[k].arity != 0)
            &&& arm.tag as int == variant_tag(arities_of(vs), k)
            &&& arm.reads@.len() == vs[k].arity
            &&& forall|q: int| 0 <= q < vs[k].arity ==> arm.reads@[q] == record_read(a, q)
        },
    }
}

/// The first error among the first `k` variants, if any.
pub open spec fn from_first_err(vs: Seq<DerivedVariant>, k: int) -> Option<DeriveError>
    decreases k,
{
    if k <= 0 {
        None
    } else {
        match from_first_err(vs, k - 1) {
            Some(e) => Some(e),
            None => match from_step(vs, k - 1) {
                Err(e) => Some(e),
                Ok(()) => None,
            },
        }
    }
}

/// The options of the struct (the single variant's), or the defaults for an enum.
pub open spec fn record_attrs(vs: Seq<DerivedVariant>) -> Result<VariantAttrs, DeriveError> {
    if vs.len() == 1 {
        variant_attrs_spec(vs[0].attrs@)
    } else {
        Ok(VariantAttrs { unboxed: false, floats: false })
    }
}

proof fn lemma_from_err_stays(vs: Seq<DerivedVariant>, k: int, n: int)
    requires
        0 < k <= n,
        from_first_err(vs, k) is Some,
    ensures
        from_first_err(vs, n) == from_first_err(vs, k),
    decreases n - k,
{
    if n > k {
        lemma_from_err_stays(vs, k, n - 1);
    }
}

/// Plans the `FromValue` impl of the `#[ocaml(..)]`-driven derive.
pub fn fromvalue_derive(vs: &Vec<DerivedVariant>) -> (r: Result<RecordFromPlan, DeriveError>)
    ensures
        match record_attrs(vs@) {
            Err(e) => r == Err::<RecordFromPlan, DeriveError>(e),
            Ok(top) => match from_first_err(vs@, vs@.len() as int) {
                Some(e) => r == Err::<RecordFromPlan, DeriveError>(e),
                None => r matches Ok(p) && p.unboxed == top.unboxed && p.floats == top.floats
                    && p.arms@.len() == vs@.len() && forall|k: int|
                    0 <= k < vs@.len() ==> arm_ok(vs@, k, #[trigger] p.arms@[k]),
            },
        },
{
    let record_like = vs.len() == 1;
    let top = if record_like {
        match variant_attrs(&vs[0].attrs) {
            Ok(a) => a,
            Err(e) => return Err(e),
        }
    } else {
        VariantAttrs { unboxed: false, floats: false }
    };
    let mut unit_tag: u8 = 0;
    let mut non_unit_tag: u8 = 0;
    let mut arms: Vec<RecordArm> = Vec::new();
    let mut i: usize = 0;
    while i < vs.len()
        invariant
            i <= vs@.len(),
            record_like == (vs@.len() == 1),
            unit_tag as int == kind_count(arities_of(vs@), i as int, false),
            non_unit_tag as int == kind_count(arities_of(vs@), i as int, true),
            from_first_err(vs@, i as int) is None,
            arms@.len() == i,
            forall|k: int| 0 <= k < i ==> arm_ok(vs@, k, #[trigger] arms@[k]),
        decreases vs@.len() - i,
    {
        let v = &vs[i];
        let arity = v.arity;
        proof {
            assert(arities_of(vs@)[i as int].arity == arity);
        }
        let a = match variant_attrs(&v.attrs) {
            Ok(a) => a,
            Err(e) => {
                proof {
                    lemma_from_err_stays(vs@, i as int + 1, vs@.len() as int);
                }
                return Err(e);
            },
        };
        if (a.floats || a.unboxed) && !record_like {
            proof {
                lemma_from_err_stays(vs@, i as int + 1, vs@.len() as int);
            }
            return Err(DeriveError::EnumRepresentation);
        }
        let tag = if arity > 0 { non_unit_tag } else { unit_tag };
        if tag == 255 {
            proof {
                lemma_from_err_stays(vs@, i as int + 1, vs@.len() as int);
            }
            return Err(DeriveError::TagOverflow);
        }
        if arity > 0 {
            non_unit_tag += 1;
        } else {
            unit_tag += 1;
        }
        if a.unboxed && arity > 1 {
            proof {
                lemma_from_err_stays(vs@, i as int + 1, vs@.len() as int);
            }
            return Err(DeriveError::UnboxedRecordFields);
        }
        let mut reads: Vec<FieldRead> = Vec::new();
        let mut q: usize = 0;
        while q < arity
            invariant
                q <= arity,
                reads@.len() == q,
                forall|j: int| 0 <= j < q ==> reads@[j] == record_read(a, j),
            decreases arity - q,
        {
            reads.push(if a.unboxed {
                FieldRead::Whole
            } else if a.floats {
                FieldRead::DoubleField(q)
            } else {
                FieldRead::Field(q)
            });
            q += 1;
        }
        arms.push(RecordArm { is_block: arity != 0, tag, reads });
        i += 1;
    }
    Ok(RecordFromPlan { unboxed: top.unboxed, floats: top.floats, arms })
}

} // verus!
