//! Generation of an OCaml file of `external` declarations and type
//! declarations from the `ocaml::sig` attributes of a Rust source tree.
use vstd::prelude::*;
use vstd::string::*;
use vstd::multiset::Multiset;
use crate::func::{func_spec, FnInfo, FuncPlan};
use crate::text::{
    ascii_lower, char_is_uppercase, has_prefix, is_uppercase, join, join_texts, push_char,
    text_eq, to_ascii_lowercase, to_owned_text, trim_end_char, trim_matches_char, trim_start_char,
    trim_start_ws, trimmed_starts_with,
};

verus! {

/// `s` without its leading and trailing double quotes.
pub open spec fn strip_quotes_spec(s: Seq<char>) -> Seq<char> {
    trim_end_char(trim_start_char(s, '"'), '"')
}

proof fn lemma_trim_start_shape(s: Seq<char>, c: char) -> (i: int)
    ensures
        0 <= i <= s.len(),
        trim_start_char(s, c) == s.subrange(i, s.len() as int),
        forall|k: int| 0 <= k < i ==> s[k] == c,
        i < s.len() ==> s[i] != c,
    decreases s.len(),
{
    if s.len() > 0 && s[0] == c {
        let j = lemma_trim_start_shape(s.drop_first(), c);
        assert(s.drop_first().subrange(j, s.drop_first().len() as int) =~= s.subrange(j + 1, s.len() as int));
        assert forall|k: int| 0 <= k < j + 1 implies s[k] == c by {
            if k > 0 {
                assert(s[k] == s.drop_first()[k - 1]);
            }
        }
        if j + 1 < s.len() {
            assert(s[j + 1] == s.drop_first()[j]);
        }
        j + 1
    } else {
        assert(s.subrange(0, s.len() as int) =~= s);
        0
    }
}

proof fn lemma_trim_end_shape(s: Seq<char>, c: char) -> (j: int)
    ensures
        0 <= j <= s.len(),
        trim_end_char(s, c) == s.subrange(0, j),
        forall|k: int| j <= k < s.len() ==> s[k] == c,
        j > 0 ==> s[j - 1] != c,
    decreases s.len(),
{
    if s.len() > 0 && s.last() == c {
        let j = lemma_trim_end_shape(s.drop_last(), c);
        assert(s.drop_last().subrange(0, j) =~= s.subrange(0, j));
        assert forall|k: int| j <= k < s.len() implies s[k] == c by {
            if k < s.len() - 1 {
                assert(s[k] == s.drop_last()[k]);
            }
        }
        if j > 0 {
            assert(s[j - 1] == s.drop_last()[j - 1]);
        }
        j
    } else {
        assert(s.subrange(0, s.len() as int) =~= s);
        s.len() as int
    }
}

/// A stripped signature is the text between the quotes around it: the
/// literal is the result with only `"` before and after it, and the result
/// neither starts nor ends with `"`.
pub proof fn lemma_strip_quotes_shape(s: Seq<char>)
    ensures
        ({
            let r = strip_quotes_spec(s);
            &&& r.len() > 0 ==> r[0] != '"' && r.last() != '"'
            &&& exists|i: int|
                0 <= i && i + r.len() <= s.len() && #[trigger] s.subrange(i, i + r.len()) == r && (forall|k: int|
                    0 <= k < i ==> s[k] == '"') && (forall|k: int| i + r.len() <= k < s.len() ==> s[k] == '"')
        }),
{
    let i = lemma_trim_start_shape(s, '"');
    let t = trim_start_char(s, '"');
    let j = lemma_trim_end_shape(t, '"');
    let r = strip_quotes_spec(s);
    assert(r == t.subrange(0, j));
    assert(r =~= s.subrange(i, i + j));
    if r.len() > 0 {
        assert(r[0] == s[i]);
        assert(r.last() == t[j - 1]);
    }
    assert forall|k: int| i + r.len() <= k < s.len() implies s[k] == '"' by {
        assert(s[k] == t[k - i]);
    }
    assert(s.subrange(i, i + r.len()) == r);
}

/// Removes every leading and every trailing `"`.
pub fn strip_quotes(s: &str) -> (r: String)
    ensures
        r@ == strip_quotes_spec(s@),
{
    trim_matches_char(s, '"')
}

/// The snake-case form of a type name: an `_` before every upper-case
/// character that is not the first one, and ASCII letters in lower case.
pub open spec fn snake_case_spec(s: Seq<char>) -> Seq<char>
    decreases s.len(),
{
    if s.len() == 0 {
        Seq::empty()
    } else {
        let d = snake_case_spec(s.drop_last());
        let c = s.last();
        (if d.len() > 0 && char_is_uppercase(c) {
            d.push('_')
        } else {
            d
        }).push(ascii_lower(c))
    }
}

/// The number of upper-case characters among the first `k`, not counting
/// the first character of the name.
pub open spec fn inner_uppercase(s: Seq<char>, k: int) -> int
    decreases k,
{
    if k <= 1 {
        0
    } else {
        inner_uppercase(s, k - 1) + if char_is_uppercase(s[k - 1]) {
            1int
        } else {
            0int
        }
    }
}

/// A snake-case name holds no ASCII capital, and it is the name with one
/// `_` added before each upper-case character after the first.
pub proof fn lemma_snake_case_shape(s: Seq<char>)
    ensures
        forall|i: int| 0 <= i < snake_case_spec(s).len() ==> !('A' <= #[trigger] snake_case_spec(s)[i] <= 'Z'),
        snake_case_spec(s).len() == s.len() + inner_uppercase(s, s.len() as int),
        s.len() > 0 ==> snake_case_spec(s)[0] == ascii_lower(s[0]),
    decreases s.len(),
{
    if s.len() > 0 {
        let p = s.drop_last();
        lemma_snake_case_shape(p);
        assert forall|k: int| 0 <= k <= p.len() implies #[trigger] inner_uppercase(p, k) == inner_uppercase(s, k) by {
            lemma_inner_uppercase_prefix(s, p, k);
        }
        let c = s.last();
        assert(!('A' <= ascii_lower(c) <= 'Z'));
    }
}

proof fn lemma_inner_uppercase_prefix(s: Seq<char>, p: Seq<char>, k: int)
    requires
        s.len() > 0,
        p == s.drop_last(),
        0 <= k <= p.len(),
    ensures
        inner_uppercase(p, k) == inner_uppercase(s, k),
    decreases k,
{
    if k > 1 {
        lemma_inner_uppercase_prefix(s, p, k - 1);
        assert(p[k - 1] == s[k - 1]);
    }
}

/// Converts a type name such as `MyType` to `my_type`.
pub fn snake_case(s: &str) -> (r: String)
    ensures
        r@ == snake_case_spec(s@),
{
    let mut dest = String::new();
    let n = s.unicode_len();
    let mut i: usize = 0;
    while i < n
        invariant
            n == s@.len(),
            i <= n,
            dest@ == snake_case_spec(s@.subrange(0, i as int)),
        decreases n - i,
    {
        let c = s.get_char(i);
        proof {
            let pre = s@.subrange(0, i + 1);
            assert(pre.drop_last() =~= s@.subrange(0, i as int));
            assert(pre.last() == c);
        }
        if dest.unicode_len() > 0 && is_uppercase(c) {
            push_char(&mut dest, '_');
        }
        push_char(&mut dest, to_ascii_lowercase(c));
        i += 1;
    }
    assert(s@.subrange(0, n as int) =~= s@);
    dest
}

// ----- The source model -----

/// A token inside a delimited group of an attribute's arguments.
pub enum GroupToken {
    /// A literal, by its source text (a string literal keeps its quotes).
    Literal(String),
    /// An identifier, a punctuation character or a nested group.
    Other,
}

/// A token of an attribute's arguments.
pub enum ArgToken {
    /// A delimited group and the tokens directly inside it.
    Group(Vec<GroupToken>),
    /// A literal, by its source text (a string literal keeps its quotes).
    Literal(String),
    /// An identifier or a punctuation character.
    Other,
}

/// An attribute of an item: its path segments and its argument tokens.
pub struct AttrInfo {
    pub path: Vec<String>,
    pub tokens: Vec<ArgToken>,
}

/// The kind of a top-level item of a source file.
#[derive(Debug, Clone, Copy, PartialEq, Eq, Structural)]
pub enum ItemKind {
    /// A function, with its number of inputs.
    Fn(usize),
    Struct,
    Enum,
    Type,
    Other,
}

/// A top-level item of a source file: its kind, its name and its attributes.
pub struct SourceItem {
    pub kind: ItemKind,
    pub ident: String,
    pub attrs: Vec<AttrInfo>,
}

/// The declarations found in one source file.
pub struct Source {
    /// The file's path below the source directory, by its components.
    pub path: Vec<String>,
    pub functions: Vec<String>,
    pub types: Vec<String>,
}

/// The generator's state: where sources are read, where the result goes,
/// and the declarations found so far.
pub struct Sigs {
    pub base_dir: String,
    pub output: String,
    pub source: Vec<Source>,
}

/// Why a source tree was refused.
#[derive(Debug, Clone, Copy, PartialEq, Eq, Structural)]
pub enum SigsError {
    /// An `ocaml::sig` attribute whose argument is not a single literal.
    InvalidSignature,
    /// A source file that is not valid Rust.
    Unparsable,
}

/// Whether an attribute path is `sig` or `ocaml::sig`.
pub open spec fn is_sig_path(p: Seq<String>) -> bool {
    let t = join_texts(p, "::"@);
    t == "sig"@ || t == "ocaml::sig"@
}

/// Whether the attribute with these path segments is a signature attribute.
pub fn is_sig_attribute(path: &Vec<String>) -> (r: bool)
    ensures
        r == is_sig_path(path@),
{
    let name = join(path, "::");
    text_eq(name.as_str(), "sig") || text_eq(name.as_str(), "ocaml::sig")
}

/// What one attribute contributes: nothing when it is not a signature
/// attribute or its single token is not a literal; the literal without its
/// quotes; the empty text for `#[ocaml::sig]`; an error otherwise.
pub open spec fn sig_of_attr(a: AttrInfo) -> Result<Option<Seq<char>>, SigsError> {
    if !is_sig_path(a.path@) {
        Ok(None)
    } else if a.tokens@.len() == 0 {
        Ok(Some(Seq::empty()))
    } else if a.tokens@.len() == 1 && a.tokens@[0] is Group {
        let g = a.tokens@[0]->Group_0;
        if g@.len() != 1 {
            Err(SigsError::InvalidSignature)
        } else {
            match g@[0] {
                GroupToken::Literal(l) => Ok(Some(strip_quotes_spec(l@))),
                GroupToken::Other => Ok(None),
            }
        }
    } else {
        Err(SigsError::InvalidSignature)
    }
}

/// The signatures given by the first `k` attributes, in order.
pub open spec fn sigs_of_attrs(attrs: Seq<AttrInfo>, k: int) -> Result<Seq<Seq<char>>, SigsError>
    decreases k,
{
    if k <= 0 {
        Ok(Seq::empty())
    } else {
        match sigs_of_attrs(attrs, k - 1) {
            Err(e) => Err(e),
            Ok(pre) => match sig_of_attr(attrs[k - 1]) {
                Err(e) => Err(e),
                Ok(None) => Ok(pre),
                Ok(Some(t)) => Ok(pre.push(t)),
            },
        }
    }
}

fn sig_of(a: &AttrInfo) -> (r: Result<Option<String>, SigsError>)
    ensures
        match r {
            Ok(Some(s)) => sig_of_attr(*a) == Ok::<Option<Seq<char>>, SigsError>(Some(s@)),
            Ok(None) => sig_of_attr(*a) == Ok::<Option<Seq<char>>, SigsError>(None),
            Err(e) => sig_of_attr(*a) == Err::<Option<Seq<char>>, SigsError>(e),
        },
{
    if !is_sig_attribute(&a.path) {
        return Ok(None);
    }
    if a.tokens.len() == 0 {
        return Ok(Some(String::new()));
    }
    if a.tokens.len() == 1 {
        if let ArgToken::Group(g) = &a.tokens[0] {
            if g.len() != 1 {
                return Err(SigsError::InvalidSignature);
            }
            return match &g[0] {
                GroupToken::Literal(l) => Ok(Some(strip_quotes(l.as_str()))),
                GroupToken::Other => Ok(None),
            };
        }
    }
    Err(SigsError::InvalidSignature)
}

/// Collects the signatures of an item's `ocaml::sig` attributes.
pub fn handle(attrs: &Vec<AttrInfo>) -> (r: Result<Vec<String>, SigsError>)
    ensures
        match r {
            Ok(v) => sigs_of_attrs(attrs@, attrs@.len() as int) == Ok::<Seq<Seq<char>>, SigsError>(
                v@.map_values(|s: String| s@),
            ),
            Err(e) => sigs_of_attrs(attrs@, attrs@.len() as int) == Err::<Seq<Seq<char>>, SigsError>(e),
        },
{
    let mut out: Vec<String> = Vec::new();
    assert(out@.map_values(|s: String| s@) =~= Seq::<Seq<char>>::empty());
    let mut i: usize = 0;
    while i < attrs.len()
        invariant
            i <= attrs@.len(),
            sigs_of_attrs(attrs@, i as int) == Ok::<Seq<Seq<char>>, SigsError>(
                out@.map_values(|s: String| s@),
            ),
        decreases attrs@.len() - i,
    {
        match sig_of(&attrs[i]) {
            Err(e) => {
                proof {
                    lemma_sigs_err_stays(attrs@, i as int + 1, attrs@.len() as int);
                }
                return Err(e);
            },
            Ok(None) => {},
            Ok(Some(t)) => {
                let ghost before = out@;
                out.push(t);
                proof {
                    assert(out@.map_values(|s: String| s@) =~= before.map_values(|s: String| s@).push(
                        out@.last()@,
                    ));
                }
            },
        }
        i += 1;
    }
    Ok(out)
}

proof fn lemma_sigs_err_stays(attrs: Seq<AttrInfo>, k: int, n: int)
    requires
        0 < k <= n,
        sigs_of_attrs(attrs, k) is Err,
    ensures
        sigs_of_attrs(attrs, n) == sigs_of_attrs(attrs, k),
    decreases n - k,
{
    if n > k {
        lemma_sigs_err_stays(attrs, k, n - 1);
    }
}

// ----- Declarations -----

/// `external name: ty = "name"`, or with the bytecode stub first for a
/// function of more than five inputs.
pub open spec fn external_decl(name: Seq<char>, ty: Seq<char>, n_inputs: usize) -> Seq<char> {
    if n_inputs > 5 {
        "external "@ + name + ": "@ + ty + " = \""@ + name + "_bytecode\" \""@ + name + "\""@
    } else {
        "external "@ + name + ": "@ + ty + " = \""@ + name + "\""@
    }
}

/// The type declaration of a struct: abstract without a signature; a
/// signature that does not start with `{` is the body of a record type.
pub open spec fn struct_decl(name: Seq<char>, ty: Seq<char>) -> Seq<char> {
    if ty.len() == 0 {
        "type "@ + name
    } else if !has_prefix(trim_start_ws(ty), "{"@) {
        "type "@ + name + " = {"@ + ty + "}"@
    } else {
        "type "@ + name + " = "@ + ty
    }
}

/// The type declaration of an enum: abstract without a signature.
pub open spec fn enum_decl(name: Seq<char>, ty: Seq<char>) -> Seq<char> {
    if ty.len() == 0 {
        "type "@ + name
    } else {
        "type "@ + name + " = "@ + ty
    }
}

fn external_decl_text(name: &str, ty: &str, n_inputs: usize) -> (r: String)
    ensures
        r@ == external_decl(name@, ty@, n_inputs),
{
    let mut s = to_owned_text("external ");
    s.append(name);
    s.append(": ");
    s.append(ty);
    s.append(" = \"");
    s.append(name);
    if n_inputs > 5 {
        s.append("_bytecode\" \"");
        s.append(name);
    }
    s.append("\"");
    s
}

fn struct_decl_text(name: &str, ty: &str) -> (r: String)
    ensures
        r@ == struct_decl(name@, ty@),
{
    let mut s = to_owned_text("type ");
    if ty.unicode_len() == 0 {
        s.append(name);
    } else if !trimmed_starts_with(ty, "{") {
        s.append(name);
        s.append(" = {");
        s.append(ty);
        s.append("}");
    } else {
        s.append(name);
        s.append(" = ");
        s.append(ty);
    }
    s
}

fn enum_decl_text(name: &str, ty: &str) -> (r: String)
    ensures
        r@ == enum_decl(name@, ty@),
{
    let mut s = to_owned_text("type ");
    s.append(name);
    if ty.unicode_len() > 0 {
        s.append(" = ");
        s.append(ty);
    }
    s
}

/// The declarations an item contributes: a function gives one `external`
/// per signature; a struct, an enum or a type alias gives one type
/// declaration per signature, named in snake case; other items give none.
pub open spec fn item_decls(it: SourceItem, sigs: Seq<Seq<char>>) -> Seq<Seq<char>> {
    match it.kind {
        ItemKind::Fn(n) => Seq::new(sigs.len(), |i: int| external_decl(it.ident@, sigs[i], n)),
        ItemKind::Struct => Seq::new(sigs.len(), |i: int| struct_decl(snake_case_spec(it.ident@), sigs[i])),
        ItemKind::Enum => Seq::new(sigs.len(), |i: int| enum_decl(snake_case_spec(it.ident@), sigs[i])),
        ItemKind::Type => Seq::new(sigs.len(), |i: int| "type "@ + snake_case_spec(it.ident@)),
        ItemKind::Other => Seq::empty(),
    }
}

/// The external declarations of a function: one per signature, in order,
/// `external name: ty = "name"` for a function of at most five inputs, and
/// `external name: ty = "name_bytecode" "name"` (the bytecode stub first)
/// for more than five.
pub proof fn lemma_function_externals(it: SourceItem, n: usize, ds: Seq<Seq<char>>)
    requires
        it.kind == ItemKind::Fn(n),
        item_spec(it) == Ok::<Seq<Seq<char>>, SigsError>(ds),
    ensures
        sigs_of_attrs(it.attrs@, it.attrs@.len() as int) is Ok,
        ds.len() == sigs_of_attrs(it.attrs@, it.attrs@.len() as int)->Ok_0.len(),
        forall|i: int| 0 <= i < ds.len() ==> {
            let ty = sigs_of_attrs(it.attrs@, it.attrs@.len() as int)->Ok_0[i];
            let name = it.ident@;
            #[trigger] ds[i] == (if n <= 5 {
                "external "@ + name + ": "@ + ty + " = \""@ + name + "\""@
            } else {
                "external "@ + name + ": "@ + ty + " = \""@ + name + "_bytecode\" \""@ + name + "\""@
            })
        },
{
}

/// The external declaration of a function names exactly the functions
/// that `#[ocaml::func]` exports for it: the bytecode stub it plans, when it
/// plans one, then the native function.
pub proof fn lemma_externals_match_exports(
    it: SourceItem,
    ds: Seq<Seq<char>>,
    f: FnInfo,
    attr: Option<String>,
    p: FuncPlan,
)
    requires
        f.args@.len() <= usize::MAX,
        it.kind == ItemKind::Fn(f.args@.len() as usize),
        it.ident@ == f.name@,
        item_spec(it) == Ok::<Seq<Seq<char>>, SigsError>(ds),
        func_spec(f, attr, Ok(p)),
    ensures
        forall|i: int| 0 <= i < ds.len() ==> {
            let ty = sigs_of_attrs(it.attrs@, it.attrs@.len() as int)->Ok_0[i];
            let name = it.ident@;
            #[trigger] ds[i] == "external "@ + name + ": "@ + ty + " = \""@ + (match p.bytecode_name {
                Some(b) => b@ + "\" \""@ + name,
                None => name,
            }) + "\""@
        },
{
    let n = f.args@.len();
    assert(crate::func::raw_params(f.args@).len() > 5 <==> n > 5);
    lemma_function_externals(it, n as usize, ds);
    reveal_strlit("_bytecode\" \"");
    reveal_strlit("_bytecode");
    reveal_strlit("\" \"");
    assert("_bytecode\" \""@ =~= "_bytecode"@ + "\" \""@);
    assert forall|i: int| 0 <= i < ds.len() implies {
        let ty = sigs_of_attrs(it.attrs@, it.attrs@.len() as int)->Ok_0[i];
        let name = it.ident@;
        #[trigger] ds[i] == "external "@ + name + ": "@ + ty + " = \""@ + (match p.bytecode_name {
            Some(b) => b@ + "\" \""@ + name,
            None => name,
        }) + "\""@
    } by {
        let ty = sigs_of_attrs(it.attrs@, it.attrs@.len() as int)->Ok_0[i];
        let name = it.ident@;
        match p.bytecode_name {
            Some(b) => {
                assert(b@ + "\" \""@ + name =~= name + "_bytecode\" \""@ + name);
                assert("external "@ + name + ": "@ + ty + " = \""@ + (b@ + "\" \""@ + name) + "\""@
                    =~= "external "@ + name + ": "@ + ty + " = \""@ + name + "_bytecode\" \""@ + name + "\""@);
            },
            None => {
                assert("external "@ + name + ": "@ + ty + " = \""@ + name + "\""@
                    =~= "external "@ + name + ": "@ + ty + " = \""@ + name + "\""@);
            },
        }
    }
}

/// The declarations an item contributes, or the error of one of its
/// attributes (other items are not looked at).
pub open spec fn item_spec(it: SourceItem) -> Result<Seq<Seq<char>>, SigsError> {
    if it.kind is Other {
        Ok(Seq::empty())
    } else {
        match sigs_of_attrs(it.attrs@, it.attrs@.len() as int) {
            Err(e) => Err(e),
            Ok(sigs) => Ok(item_decls(it, sigs)),
        }
    }
}

pub open spec fn texts(v: Seq<String>) -> Seq<Seq<char>> {
    v.map_values(|s: String| s@)
}

/// The declarations of the item, in the order of its signatures.
pub fn item_declarations(it: &SourceItem) -> (r: Result<Vec<String>, SigsError>)
    ensures
        match r {
            Ok(v) => item_spec(*it) == Ok::<Seq<Seq<char>>, SigsError>(texts(v@)),
            Err(e) => item_spec(*it) == Err::<Seq<Seq<char>>, SigsError>(e),
        },
{
    if let ItemKind::Other = it.kind {
        let v: Vec<String> = Vec::new();
        assert(texts(v@) =~= Seq::<Seq<char>>::empty());
        return Ok(v);
    }
    let sigs = match handle(&it.attrs) {
        Ok(s) => s,
        Err(e) => return Err(e),
    };
    let snake = snake_case(it.ident.as_str());
    let mut out: Vec<String> = Vec::new();
    let mut i: usize = 0;
    while i < sigs.len()
        invariant
            i <= sigs@.len(),
            out@.len() == i,
            !(it.kind is Other),
            snake@ == snake_case_spec(it.ident@),
            forall|k: int| 0 <= k < i ==> (#[trigger] out@[k])@ == item_decls(*it, texts(sigs@))[k],
        decreases sigs@.len() - i,
    {
        let ty = sigs[i].as_str();
        let d = match it.kind {
            ItemKind::Fn(n) => external_decl_text(it.ident.as_str(), ty, n),
            ItemKind::Struct => struct_decl_text(snake.as_str(), ty),
            ItemKind::Enum => enum_decl_text(snake.as_str(), ty),
            _ => {
                let mut s = to_owned_text("type ");
                s.append(snake.as_str());
                s
            },
        };
        out.push(d);
        i += 1;
    }
    assert(texts(out@) =~= item_decls(*it, texts(sigs@)));
    Ok(out)
}

// ----- Ordering of source paths -----

/// Lexicographic order of texts by code point (the byte order of their
/// UTF-8 encodings).
pub open spec fn chars_lt(a: Seq<char>, b: Seq<char>) -> bool
    decreases a.len(),
{
    if b.len() == 0 {
        false
    } else if a.len() == 0 {
        true
    } else if a[0] != b[0] {
        (a[0] as u32) < (b[0] as u32)
    } else {
        chars_lt(a.drop_first(), b.drop_first())
    }
}

/// The order of paths: lexicographic over their components, each compared
/// as text.
pub open spec fn path_lt(a: Seq<String>, b: Seq<String>) -> bool
    decreases a.len(),
{
    if b.len() == 0 {
        false
    } else if a.len() == 0 {
        true
    } else if a[0]@ != b[0]@ {
        chars_lt(a[0]@, b[0]@)
    } else {
        path_lt(a.drop_first(), b.drop_first())
    }
}

/// Sources in order of their paths.
pub open spec fn sorted_by_path(s: Seq<Source>) -> bool {
    forall|i: int, j: int| 0 <= i < j < s.len() ==> !path_lt(s[j].path@, s[i].path@)
}

proof fn lemma_chars_lt_asym(a: Seq<char>, b: Seq<char>)
    requires
        chars_lt(a, b),
    ensures
        !chars_lt(b, a),
        a != b,
    decreases a.len(),
{
    if a.len() > 0 && b.len() > 0 && a[0] == b[0] {
        lemma_chars_lt_asym(a.drop_first(), b.drop_first());
    }
}

proof fn lemma_chars_lt_trans(a: Seq<char>, b: Seq<char>, c: Seq<char>)
    requires
        chars_lt(a, b),
        chars_lt(b, c),
    ensures
        chars_lt(a, c),
    decreases a.len(),
{
    if a.len() > 0 && b.len() > 0 && c.len() > 0 && a[0] == b[0] && b[0] == c[0] {
        lemma_chars_lt_trans(a.drop_first(), b.drop_first(), c.drop_first());
    }
}

proof fn lemma_path_lt_asym(a: Seq<String>, b: Seq<String>)
    requires
        path_lt(a, b),
    ensures
        !path_lt(b, a),
    decreases a.len(),
{
    if a.len() > 0 && b.len() > 0 {
        if a[0]@ != b[0]@ {
            lemma_chars_lt_asym(a[0]@, b[0]@);
        } else {
            lemma_path_lt_asym(a.drop_first(), b.drop_first());
        }
    }
}

proof fn lemma_path_lt_trans(a: Seq<String>, b: Seq<String>, c: Seq<String>)
    requires
        path_lt(a, b),
        path_lt(b, c),
    ensures
        path_lt(a, c),
    decreases a.len(),
{
    if a.len() > 0 && b.len() > 0 && c.len() > 0 {
        if a[0]@ != b[0]@ && b[0]@ != c[0]@ {
            lemma_chars_lt_trans(a[0]@, b[0]@, c[0]@);
            lemma_chars_lt_asym(a[0]@, c[0]@);
            if a[0]@ == c[0]@ {
                lemma_chars_lt_asym(a[0]@, b[0]@);
            }
        } else if a[0]@ == b[0]@ && b[0]@ == c[0]@ {
            lemma_path_lt_trans(a.drop_first(), b.drop_first(), c.drop_first());
        }
    }
}

/// Whether text `a` comes before text `b` in code-point order.
pub fn chars_less(a: &str, b: &str) -> (r: bool)
    ensures
        r == chars_lt(a@, b@),
{
    let n = a.unicode_len();
    let m = b.unicode_len();
    let mut i: usize = 0;
    assert(a@.skip(0) =~= a@ && b@.skip(0) =~= b@);
    while i < n && i < m && a.get_char(i) == b.get_char(i)
        invariant
            n == a@.len(),
            m == b@.len(),
            i <= n,
            i <= m,
            chars_lt(a@, b@) == chars_lt(a@.skip(i as int), b@.skip(i as int)),
        decreases n - i,
    {
        proof {
            assert(a@.skip(i as int).drop_first() =~= a@.skip(i + 1));
            assert(b@.skip(i as int).drop_first() =~= b@.skip(i + 1));
        }
        i += 1;
    }
    if i == m {
        false
    } else if i == n {
        true
    } else {
        (a.get_char(i) as u32) < (b.get_char(i) as u32)
    }
}

/// Whether path `a` comes before path `b`, component by component.
pub fn path_less(a: &Vec<String>, b: &Vec<String>) -> (r: bool)
    ensures
        r == path_lt(a@, b@),
{
    let n = a.len();
    let m = b.len();
    let mut i: usize = 0;
    assert(a@.skip(0) =~= a@ && b@.skip(0) =~= b@);
    while i < n && i < m && text_eq(a[i].as_str(), b[i].as_str())
        invariant
            n == a@.len(),
            m == b@.len(),
            i <= n,
            i <= m,
            path_lt(a@, b@) == path_lt(a@.skip(i as int), b@.skip(i as int)),
        decreases n - i,
    {
        proof {
            assert(a@.skip(i as int).drop_first() =~= a@.skip(i + 1));
            assert(b@.skip(i as int).drop_first() =~= b@.skip(i + 1));
        }
        i += 1;
    }
    if i == m {
        false
    } else if i == n {
        true
    } else {
        chars_less(a[i].as_str(), b[i].as_str())
    }
}

/// Sorts the sources by path: the result holds the same sources, in order.
pub fn sort_sources(v: Vec<Source>) -> (r: Vec<Source>)
    ensures
        r@.to_multiset() == v@.to_multiset(),
        sorted_by_path(r@),
{
    broadcast use vstd::seq_lib::group_to_multiset_ensures, vstd::multiset::group_multiset_axioms, vstd::multiset::lemma_multiset_empty_len;
    let mut input = v;
    let mut out: Vec<Source> = Vec::new();
    proof {
        assert(out@.to_multiset() =~= Multiset::empty());
    }
    while input.len() > 0
        invariant
            input@.to_multiset().add(out@.to_multiset()) == v@.to_multiset(),
            sorted_by_path(out@),
        decreases input@.len(),
    {
        let ghost before = input@;
        let x = input.pop().unwrap();
        proof {
            assert(before =~= input@.push(x));
            vstd::seq_lib::to_multiset_build(input@, x);
            assert(before.to_multiset() =~= input@.to_multiset().insert(x));
        }
        let mut p: usize = 0;
        while p < out.len() && !path_less(&x.path, &out[p].path)
            invariant
                p <= out@.len(),
                forall|k: int| 0 <= k < p ==> !path_lt(x.path@, (#[trigger] out@[k]).path@),
            decreases out@.len() - p,
        {
            p += 1;
        }
        let ghost old_out = out@;
        out.insert(p, x);
        proof {
            assert(out@ == old_out.insert(p as int, x));
            vstd::seq_lib::to_multiset_insert(old_out, p as int, x);
            assert(out@.to_multiset() =~= old_out.to_multiset().insert(x));
            assert(input@.to_multiset().add(out@.to_multiset()) =~= v@.to_multiset());
            assert forall|i: int, j: int| 0 <= i < j < out@.len() implies !path_lt(
                out@[j].path@,
                out@[i].path@,
            ) by {
                if j < p {
                    assert(out@[i] == old_out[i] && out@[j] == old_out[j]);
                } else if j == p {
                    assert(out@[i] == old_out[i]);
                } else if i == p {
                    let y = old_out[j - 1];
                    assert(out@[j] == y);
                    assert(path_lt(x.path@, old_out[p as int].path@));
                    if path_lt(y.path@, x.path@) {
                        if j - 1 > p {
                            lemma_path_lt_trans(y.path@, x.path@, old_out[p as int].path@);
                        } else {
                            lemma_path_lt_asym(x.path@, y.path@);
                        }
                    }
                } else if i < p {
                    assert(out@[i] == old_out[i] && out@[j] == old_out[j - 1]);
                } else {
                    assert(out@[i] == old_out[i - 1] && out@[j] == old_out[j - 1]);
                }
            }
        }
    }
    proof {
        assert(input@.to_multiset() =~= Multiset::empty());
        assert(out@.to_multiset() =~= v@.to_multiset());
    }
    out
}

// ----- The generator -----

/// `base.join(rel)` for a relative path: a `/` between the two unless
/// `base` is empty or already ends with one.
pub open spec fn path_join(base: Seq<char>, rel: Seq<char>) -> Seq<char> {
    if base.len() == 0 {
        rel
    } else if base.last() == '/' {
        base + rel
    } else {
        base + seq!['/'] + rel
    }
}

/// The declarations of the first `k` items of a file: those of functions
/// first in the pair, those of types second.
pub open spec fn file_decls(items: Seq<SourceItem>, k: int) -> Result<(Seq<Seq<char>>, Seq<Seq<char>>), SigsError>
    decreases k,
{
    if k <= 0 {
        Ok((Seq::empty(), Seq::empty()))
    } else {
        match file_decls(items, k - 1) {
            Err(e) => Err(e),
            Ok((fs, ts)) => match item_spec(items[k - 1]) {
                Err(e) => Err(e),
                Ok(d) => if items[k - 1].kind is Fn {
                    Ok((fs + d, ts))
                } else {
                    Ok((fs, ts + d))
                },
            },
        }
    }
}

/// One line per text.
pub open spec fn lines(v: Seq<String>) -> Seq<char>
    decreases v.len(),
{
    if v.len() == 0 {
        Seq::empty()
    } else {
        lines(v.drop_last()) + v.last()@ + "\n"@
    }
}

/// The part of the generated file that one source contributes: a comment
/// with its path, then its types, then its functions.
pub open spec fn render_source(s: Source) -> Seq<char> {
    "\n(* file: "@ + join_texts(s.path@, "/"@) + " *)\n\n"@ + lines(s.types@) + lines(s.functions@)
}

pub open spec fn render_sources(v: Seq<Source>) -> Seq<char>
    decreases v.len(),
{
    if v.len() == 0 {
        Seq::empty()
    } else {
        render_sources(v.drop_last()) + render_source(v.last())
    }
}

/// The generated file: a header, then every source in turn.
pub open spec fn render_spec(v: Seq<Source>) -> Seq<char> {
    "(* Generated by ocaml-rs *)\n\n"@ + "open! Bigarray\n"@ + render_sources(v)
}

fn append_lines(out: &mut String, v: &Vec<String>)
    ensures
        final(out)@ == old(out)@ + lines(v@),
{
    let mut i: usize = 0;
    let ghost start = out@;
    while i < v.len()
        invariant
            i <= v@.len(),
            out@ == start + lines(v@.subrange(0, i as int)),
        decreases v@.len() - i,
    {
        out.append(v[i].as_str());
        out.append("\n");
        proof {
            let pre = v@.subrange(0, i + 1);
            assert(pre.drop_last() =~= v@.subrange(0, i as int));
            assert(pre.last() == v@[i as int]);
        }
        i += 1;
    }
    assert(v@.subrange(0, v@.len() as int) =~= v@);
}

/// Writes the generated file for the sources in the order given.
pub fn render(sources: &Vec<Source>) -> (r: String)
    ensures
        r@ == render_spec(sources@),
{
    let mut out = to_owned_text("(* Generated by ocaml-rs *)\n\n");
    out.append("open! Bigarray\n");
    let ghost head = out@;
    let mut i: usize = 0;
    while i < sources.len()
        invariant
            i <= sources@.len(),
            head == "(* Generated by ocaml-rs *)\n\n"@ + "open! Bigarray\n"@,
            out@ == head + render_sources(sources@.subrange(0, i as int)),
        decreases sources@.len() - i,
    {
        let src = &sources[i];
        out.append("\n(* file: ");
        let p = join(&src.path, "/");
        out.append(p.as_str());
        out.append(" *)\n\n");
        append_lines(&mut out, &src.types);
        append_lines(&mut out, &src.functions);
        proof {
            let pre = sources@.subrange(0, i + 1);
            assert(pre.drop_last() =~= sources@.subrange(0, i as int));
            assert(pre.last() == sources@[i as int]);
        }
        i += 1;
    }
    assert(sources@.subrange(0, sources@.len() as int) =~= sources@);
    out
}

/// What reading the items of the file at `path` does to the generator:
/// an error of one of its attributes leaves it unchanged; otherwise the
/// file's declarations are added as a new source, unless it has none.
pub open spec fn file_added(
    before: Sigs,
    after: Sigs,
    path: Vec<String>,
    items: Seq<SourceItem>,
    r: Result<(), SigsError>,
) -> bool {
    match file_decls(items, items.len() as int) {
        Err(e) => r == Err::<(), SigsError>(e) && after == before,
        Ok((fs, ts)) => r is Ok && after.base_dir == before.base_dir && after.output == before.output
            && if fs.len() > 0 || ts.len() > 0 {
            &&& after.source@.len() == before.source@.len() + 1
            &&& after.source@.drop_last() =~= before.source@
            &&& after.source@.last().path == path
            &&& texts(after.source@.last().functions@) =~= fs
            &&& texts(after.source@.last().types@) =~= ts
        } else {
            after.source == before.source
        },
    }
}

/// The items of a Rust source file, as `syn` parses the text: `None` when
/// the text is not a valid file.
pub uninterp spec fn parsed_source_items(text: Seq<char>) -> Option<Seq<SourceItem>>;

#[verifier::external_type_specification]
#[verifier::external_body]
pub struct ExSynItem(syn::Item);

#[verifier::external_type_specification]
#[verifier::external_body]
pub struct ExSynAttribute(syn::Attribute);

#[verifier::external_type_specification]
#[verifier::external_body]
pub struct ExProcMacroTokenTree(proc_macro2::TokenTree);

/// Calls `syn::parse_str::<syn::File>` and converts each top-level item
/// with `source_item`. Claimed, not proved: the result is the value named
/// `parsed_source_items` of the text, `None` exactly when `syn` refuses it.
#[verifier::external_body]
pub fn parse_source_items(text: &str) -> (r: Option<Vec<SourceItem>>)
    ensures
        match r {
            Some(v) => parsed_source_items(text@) == Some(v@),
            None => parsed_source_items(text@) is None,
        },
{
    let file = syn::parse_str::<syn::File>(text).ok()?;
    Some(file.items.iter().map(source_item).collect())
}

/// Converts a `syn` item, one variant per arm: a function, struct, enum or
/// type alias keeps its name, its number of inputs (for a function) and its
/// attributes; any other item is `ItemKind::Other`. Nothing is claimed of
/// the result beyond what `parse_source_items` claims.
#[verifier::external_body]
fn source_item(i: &syn::Item) -> SourceItem {
    match i {
        syn::Item::Fn(f) => SourceItem { kind: ItemKind::Fn(f.sig.inputs.len()), ident: f.sig.ident.to_string(), attrs: attr_infos(&f.attrs) },
        syn::Item::Struct(s) => SourceItem { kind: ItemKind::Struct, ident: s.ident.to_string(), attrs: attr_infos(&s.attrs) },
        syn::Item::Enum(e) => SourceItem { kind: ItemKind::Enum, ident: e.ident.to_string(), attrs: attr_infos(&e.attrs) },
        syn::Item::Type(t) => SourceItem { kind: ItemKind::Type, ident: t.ident.to_string(), attrs: attr_infos(&t.attrs) },
        _ => SourceItem { kind: ItemKind::Other, ident: String::new(), attrs: Vec::new() },
    }
}

/// Converts `syn` attributes: the identifiers of the path's segments, and
/// the argument tokens. Nothing is claimed of the result beyond what
/// `parse_source_items` claims.
#[verifier::external_body]
fn attr_infos(v: &Vec<syn::Attribute>) -> Vec<AttrInfo> {
    v.iter().map(|a| AttrInfo {
        path: a.path.segments.iter().map(|s| s.ident.to_string()).collect(),
        tokens: a.tokens.clone().into_iter().map(arg_token).collect(),
    }).collect()
}

/// Converts a token, one variant per arm: a group keeps the tokens directly
/// inside it, a literal its source text. Nothing is claimed of the result
/// beyond what `parse_source_items` claims.
#[verifier::external_body]
fn arg_token(t: proc_macro2::TokenTree) -> ArgToken {
    match t {
        proc_macro2::TokenTree::Group(g) => ArgToken::Group(g.stream().into_iter().map(group_token).collect()),
        proc_macro2::TokenTree::Literal(l) => ArgToken::Literal(l.to_string()),
        _ => ArgToken::Other,
    }
}

/// Converts a token inside a group: a literal keeps its source text; a
/// nested group, an identifier or a punctuation character is `Other`.
#[verifier::external_body]
fn group_token(t: proc_macro2::TokenTree) -> GroupToken {
    match t {
        proc_macro2::TokenTree::Literal(l) => GroupToken::Literal(l.to_string()),
        _ => GroupToken::Other,
    }
}

impl Sigs {
    /// A generator that reads `src` below the crate directory
    /// `manifest_dir` and writes `output`.
    pub fn new(manifest_dir: &str, output: &str) -> (s: Sigs)
        ensures
            s.base_dir@ == path_join(manifest_dir@, "src"@),
            s.output@ == output@,
            s.source@.len() == 0,
    {
        let mut base_dir = to_owned_text(manifest_dir);
        let n = manifest_dir.unicode_len();
        if n > 0 && manifest_dir.get_char(n - 1) != '/' {
            push_char(&mut base_dir, '/');
        }
        base_dir.append("src");
        Sigs { base_dir, output: to_owned_text(output), source: Vec::new() }
    }

    /// Reads the sources from `p` instead.
    pub fn with_source_dir(self, p: &str) -> (s: Sigs)
        ensures
            s.base_dir@ == p@,
            s.output == self.output,
            s.source == self.source,
    {
        Sigs { base_dir: to_owned_text(p), ..self }
    }

    /// Reads the Rust source text of the file at `path` below the source
    /// directory: text that does not parse is refused with `Unparsable` and
    /// leaves the generator unchanged; otherwise its items are read as by
    /// `parse_file`.
    pub fn parse_source(&mut self, path: Vec<String>, text: &str) -> (r: Result<(), SigsError>)
        ensures
            match parsed_source_items(text@) {
                None => r == Err::<(), SigsError>(SigsError::Unparsable) && *final(self) == *old(self),
                Some(items) => file_added(*old(self), *final(self), path, items, r),
            },
    {
        match parse_source_items(text) {
            None => Err(SigsError::Unparsable),
            Some(items) => self.parse_file(path, &items),
        }
    }

    /// Adds the declarations of the items of one source file, found at
    /// `path` below the source directory. A file without declarations
    /// adds nothing; a refused attribute leaves the generator unchanged.
    pub fn parse_file(&mut self, path: Vec<String>, items: &Vec<SourceItem>) -> (r: Result<(), SigsError>)
        ensures
            file_added(*old(self), *final(self), path, items@, r),
    {
        let mut functions: Vec<String> = Vec::new();
        let mut types: Vec<String> = Vec::new();
        proof {
            assert(texts(functions@) =~= Seq::<Seq<char>>::empty());
            assert(texts(types@) =~= Seq::<Seq<char>>::empty());
        }
        let mut i: usize = 0;
        while i < items.len()
            invariant
                i <= items@.len(),
                file_decls(items@, i as int) == Ok::<(Seq<Seq<char>>, Seq<Seq<char>>), SigsError>(
                    (texts(functions@), texts(types@)),
                ),
            decreases items@.len() - i,
        {
            let it = &items[i];
            let d = match item_declarations(it) {
                Ok(d) => d,
                Err(e) => {
                    proof {
                        lemma_file_err_stays(items@, i as int + 1, items@.len() as int);
                    }
                    return Err(e);
                },
            };
            let is_fn = match it.kind {
                ItemKind::Fn(_) => true,
                _ => false,
            };
            let mut k: usize = 0;
            let ghost f0 = texts(functions@);
            let ghost t0 = texts(types@);
            while k < d.len()
                invariant
                    k <= d@.len(),
                    is_fn ==> texts(functions@) == f0 + texts(d@.subrange(0, k as int)) && texts(types@) == t0,
                    !is_fn ==> texts(types@) == t0 + texts(d@.subrange(0, k as int)) && texts(functions@) == f0,
                decreases d@.len() - k,
            {
                let ghost fb = functions@;
                let ghost tb = types@;
                if is_fn {
                    functions.push(d[k].clone());
                    proof {
                        assert(texts(functions@) =~= texts(fb).push(d@[k as int]@));
                    }
                } else {
                    types.push(d[k].clone());
                    proof {
                        assert(texts(types@) =~= texts(tb).push(d@[k as int]@));
                    }
                }
                proof {
                    assert(texts(d@.subrange(0, k + 1)) =~= texts(d@.subrange(0, k as int)).push(d@[k as int]@));
                }
                k += 1;
            }
            proof {
                assert(d@.subrange(0, d@.len() as int) =~= d@);
            }
            i += 1;
        }
        if functions.len() > 0 || types.len() > 0 {
            self.source.push(Source { path, functions, types });
        }
        Ok(())
    }

    /// The generated file: the sources sorted by path, then written out.
    /// The interface file gets the same text.
    pub fn generate(self) -> (r: String)
        ensures
            exists|s: Seq<Source>|
                s.to_multiset() == self.source@.to_multiset() && sorted_by_path(s) && r@ == render_spec(s),
    {
        let sorted = sort_sources(self.source);
        render(&sorted)
    }
}

proof fn lemma_file_err_stays(items: Seq<SourceItem>, k: int, n: int)
    requires
        0 < k <= n,
        file_decls(items, k) is Err,
    ensures
        file_decls(items, n) == file_decls(items, k),
    decreases n - k,
{
    if n > k {
        lemma_file_err_stays(items, k, n - 1);
    }
}

/// A dune project whose objects are linked into the crate.
pub struct Dune {
    pub root: String,
    pub library: String,
}

impl Dune {
    /// The project of `library`, built in the crate directory `manifest_dir`.
    pub fn new(manifest_dir: &str, library: &str) -> (d: Dune)
        ensures
            d.root@ == manifest_dir@,
            d.library@ == library@,
    {
        Dune { root: to_owned_text(manifest_dir), library: to_owned_text(library) }
    }

    /// Builds in `root` instead.
    pub fn with_root(self, root: &str) -> (d: Dune)
        ensures
            d.root@ == root@,
            d.library == self.library,
    {
        Dune { root: to_owned_text(root), ..self }
    }
}

} // verus!
