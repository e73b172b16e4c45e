//! Checks that an `ocaml::sig` signature string agrees with the Rust item it
//! is attached to: the number of arguments of a function, of variants of an
//! enum, of fields of a struct.
use vstd::prelude::*;
use crate::text::{has_prefix, trim_start_ws, trimmed_starts_with};

verus! {

/// The kind of item an `ocaml::sig` attribute is attached to.
#[derive(Debug, Clone, Copy, PartialEq, Eq, Structural)]
pub enum SigItemKind {
    Func,
    Struct,
    Enum,
    Type,
}

/// What the signature check needs to know of the item: its kind and its
/// count (arguments of a function, variants of an enum, fields of a struct;
/// zero for a type alias).
#[derive(Debug, Clone, Copy, PartialEq, Eq, Structural)]
pub struct SigItem {
    pub kind: SigItemKind,
    pub n: usize,
}

/// The attribute argument of `ocaml::sig`.
pub enum SigAttribute {
    /// No argument: `#[ocaml::sig]`
    Empty,
    /// A string literal, by its value.
    Literal(String),
    /// Anything else.
    Other,
}

/// Why a signature was refused.
#[derive(Debug, Clone, Copy, PartialEq, Eq, Structural)]
pub enum SigError {
    /// A function without arguments must have a signature that starts with `unit`.
    ExpectedUnit,
    /// The signature and the function do not have the same number of arguments.
    ArgCount { expected: usize, got: usize },
    /// The signature and the enum do not have the same number of variants.
    VariantCount { expected: usize, got: usize },
    /// The signature and the struct do not have the same number of fields.
    FieldCount { expected: usize, got: usize },
    /// The attribute argument is not a string literal (or is missing on a function).
    NotStrLiteral,
}

/// The nesting depth after the first `i` characters, counting `open` as +1
/// and `close` as -1.
pub open spec fn depth(s: Seq<char>, open: char, close: char, i: int) -> int
    decreases i,
{
    if i <= 0 {
        0
    } else {
        depth(s, open, close, i - 1) + if s[i - 1] == open {
            1int
        } else if s[i - 1] == close {
            -1int
        } else {
            0int
        }
    }
}

/// Whether position `i` holds the `>` of an arrow `->` outside all parentheses.
pub open spec fn is_top_arrow(s: Seq<char>, i: int) -> bool {
    1 <= i < s.len() && s[i] == '>' && s[i - 1] == '-' && depth(s, '(', ')', i + 1) == 0
}

/// The number of arrows outside all parentheses among the first `k` characters.
pub open spec fn top_arrows(s: Seq<char>, k: int) -> int
    decreases k,
{
    if k <= 0 {
        0
    } else {
        top_arrows(s, k - 1) + if is_top_arrow(s, k - 1) {
            1int
        } else {
            0int
        }
    }
}

/// Whether position `i` holds a `|` outside all square brackets.
pub open spec fn is_top_bar(s: Seq<char>, i: int) -> bool {
    0 <= i < s.len() && s[i] == '|' && depth(s, '[', ']', i + 1) == 0
}

/// The number of `|` outside all square brackets among the first `k` characters.
pub open spec fn top_bars(s: Seq<char>, k: int) -> int
    decreases k,
{
    if k <= 0 {
        0
    } else {
        top_bars(s, k - 1) + if is_top_bar(s, k - 1) {
            1int
        } else {
            0int
        }
    }
}

/// The number of `c` among the first `k` characters.
pub open spec fn occurrences(s: Seq<char>, c: char, k: int) -> int
    decreases k,
{
    if k <= 0 {
        0
    } else {
        occurrences(s, c, k - 1) + if s[k - 1] == c {
            1int
        } else {
            0int
        }
    }
}

/// The number of arguments a function signature declares: its arrows
/// outside parentheses.
pub open spec fn sig_arg_count(s: Seq<char>) -> int {
    top_arrows(s, s.len() as int)
}

/// The number of variants an enum signature declares: one more than its `|`
/// outside square brackets, less one when it starts with `|`.
pub open spec fn sig_variant_count(s: Seq<char>) -> int {
    1 + top_bars(s, s.len() as int) - if has_prefix(trim_start_ws(s), seq!['|']) {
        1int
    } else {
        0int
    }
}

/// The number of fields a record signature declares: its `:` characters.
pub open spec fn sig_field_count(s: Seq<char>) -> int {
    occurrences(s, ':', s.len() as int)
}

proof fn lemma_depth_bound(s: Seq<char>, open: char, close: char, i: int)
    requires
        0 <= i,
    ensures
        -i <= depth(s, open, close, i) <= i,
    decreases i,
{
    if i > 0 {
        lemma_depth_bound(s, open, close, i - 1);
    }
}

proof fn lemma_count_bound(s: Seq<char>, k: int)
    requires
        0 <= k,
    ensures
        0 <= top_arrows(s, k) <= k,
        0 <= top_bars(s, k) <= k,
        0 <= occurrences(s, ':', k) <= k,
    decreases k,
{
    if k > 0 {
        lemma_count_bound(s, k - 1);
    }
}

/// Counts the arrows `->` of a function signature that stand outside all
/// parentheses.
pub fn count_sig_args(s: &str) -> (n: usize)
    ensures
        n as int == sig_arg_count(s@),
{
    let len = s.unicode_len();
    let mut n_args: usize = 0;
    let mut prev: Option<char> = None;
    let mut paren_level: i128 = 0;
    let mut i: usize = 0;
    while i < len
        invariant
            len == s@.len(),
            i <= len,
            paren_level as int == depth(s@, '(', ')', i as int),
            n_args as int == top_arrows(s@, i as int),
            i == 0 ==> prev is None,
            i > 0 ==> prev == Some(s@[i - 1]),
        decreases len - i,
    {
        let ch = s.get_char(i);
        proof {
            lemma_depth_bound(s@, '(', ')', i as int);
            lemma_count_bound(s@, i as int);
        }
        if ch == '(' {
            paren_level += 1;
        } else if ch == ')' {
            paren_level -= 1;
        }
        if ch == '>' && prev == Some('-') && paren_level == 0 {
            n_args += 1;
        }
        prev = Some(ch);
        i += 1;
    }
    n_args
}

/// Counts the variants of an enum signature: one more than the `|` that
/// stand outside all square brackets, less one for a leading `|`.
pub fn count_sig_variants(s: &str) -> (n: usize)
    requires
        s@.len() < usize::MAX,
    ensures
        n as int == sig_variant_count(s@),
{
    let len = s.unicode_len();
    let mut n_variants: usize = 1;
    let mut bracket_level: i128 = 0;
    let mut i: usize = 0;
    while i < len
        invariant
            len == s@.len(),
            len < usize::MAX,
            i <= len,
            bracket_level as int == depth(s@, '[', ']', i as int),
            n_variants as int == 1 + top_bars(s@, i as int),
        decreases len - i,
    {
        let ch = s.get_char(i);
        proof {
            lemma_depth_bound(s@, '[', ']', i as int);
            lemma_count_bound(s@, i as int);
        }
        if ch == '[' {
            bracket_level += 1;
        } else if ch == ']' {
            bracket_level -= 1;
        }
        if ch == '|' && bracket_level == 0 {
            n_variants += 1;
        }
        i += 1;
    }
    proof {
        lemma_count_bound(s@, len as int);
        reveal_strlit("|");
        assert("|"@ =~= seq!['|']);
    }
    if trimmed_starts_with(s, "|") {
        n_variants -= 1;
    }
    n_variants
}

/// Counts the fields of a record signature: its `:` characters.
pub fn count_sig_fields(s: &str) -> (n: usize)
    ensures
        n as int == sig_field_count(s@),
{
    let len = s.unicode_len();
    let mut n: usize = 0;
    let mut i: usize = 0;
    while i < len
        invariant
            len == s@.len(),
            i <= len,
            n as int == occurrences(s@, ':', i as int),
        decreases len - i,
    {
        proof {
            lemma_count_bound(s@, i as int);
        }
        if s.get_char(i) == ':' {
            n += 1;
        }
        i += 1;
    }
    n
}

/// The verdict of `ocaml::sig` on an item and its attribute argument.
pub open spec fn sig_check_spec(item: SigItem, attr: SigAttribute) -> Result<(), SigError> {
    match attr {
        SigAttribute::Empty => if item.kind != SigItemKind::Func {
            Ok(())
        } else {
            Err(SigError::NotStrLiteral)
        },
        SigAttribute::Other => Err(SigError::NotStrLiteral),
        SigAttribute::Literal(text) => {
            let s = text@;
            match item.kind {
                SigItemKind::Func => {
                    let got = sig_arg_count(s);
                    if item.n == 0 && !has_prefix(trim_start_ws(s), "unit"@) {
                        Err(SigError::ExpectedUnit)
                    } else if item.n != got && (item.n == 0 && got > 1) {
                        Err(SigError::ArgCount { expected: item.n, got: got as usize })
                    } else {
                        Ok(())
                    }
                },
                SigItemKind::Enum => {
                    let got = sig_variant_count(s);
                    if s.len() > 0 && item.n != got {
                        Err(SigError::VariantCount { expected: item.n, got: got as usize })
                    } else {
                        Ok(())
                    }
                },
                SigItemKind::Struct => {
                    let got = sig_field_count(s);
                    if s.len() > 0 && item.n != got {
                        Err(SigError::FieldCount { expected: item.n, got: got as usize })
                    } else {
                        Ok(())
                    }
                },
                SigItemKind::Type => Ok(()),
            }
        },
    }
}

/// Outside square brackets every `|` separates variants: in a signature
/// without brackets the `|` counted are all of them.
pub proof fn lemma_bars_without_brackets(s: Seq<char>, k: int)
    requires
        0 <= k <= s.len(),
        forall|j: int| 0 <= j < k ==> s[j] != '[' && s[j] != ']',
    ensures
        depth(s, '[', ']', k) == 0,
        top_bars(s, k) == occurrences(s, '|', k),
    decreases k,
{
    if k > 0 {
        lemma_bars_without_brackets(s, k - 1);
    }
}

/// The number of arrows `->` among the first `k` characters.
pub open spec fn arrows(s: Seq<char>, k: int) -> int
    decreases k,
{
    if k <= 0 {
        0
    } else {
        arrows(s, k - 1) + if k >= 2 && s[k - 1] == '>' && s[k - 2] == '-' {
            1int
        } else {
            0int
        }
    }
}

/// Outside parentheses every arrow separates arguments: in a signature
/// without parentheses the arguments counted are all its arrows.
pub proof fn lemma_args_without_parens(s: Seq<char>, k: int)
    requires
        0 <= k <= s.len(),
        forall|j: int| 0 <= j < k ==> s[j] != '(' && s[j] != ')',
    ensures
        depth(s, '(', ')', k) == 0,
        top_arrows(s, k) == arrows(s, k),
    decreases k,
{
    if k > 0 {
        lemma_args_without_parens(s, k - 1);
    }
}

/// An arrow inside parentheses (a function argument) is not counted: the
/// arguments counted never exceed the arrows.
pub proof fn lemma_args_at_most_arrows(s: Seq<char>, k: int)
    requires
        0 <= k <= s.len(),
    ensures
        0 <= top_arrows(s, k) <= arrows(s, k),
    decreases k,
{
    if k > 0 {
        lemma_args_at_most_arrows(s, k - 1);
    }
}

/// The variants of a signature without square brackets: one more than its
/// `|` characters, less one when it starts with `|`.
pub proof fn lemma_variant_count_without_brackets(s: Seq<char>)
    requires
        forall|j: int| 0 <= j < s.len() ==> s[j] != '[' && s[j] != ']',
    ensures
        sig_variant_count(s) == 1 + occurrences(s, '|', s.len() as int) - (if has_prefix(
            trim_start_ws(s),
            seq!['|'],
        ) {
            1int
        } else {
            0int
        }),
{
    lemma_bars_without_brackets(s, s.len() as int);
}

/// The verdict on an enum: an empty signature is accepted; otherwise the
/// enum is accepted exactly when it has as many variants as the signature
/// declares, and refused with both counts, whichever is larger.
pub proof fn lemma_enum_verdict(n: usize, t: String)
    ensures
        ({
            let r = sig_check_spec(SigItem { kind: SigItemKind::Enum, n }, SigAttribute::Literal(t));
            &&& t@.len() == 0 ==> r is Ok
            &&& t@.len() > 0 ==> (r is Ok <==> n as int == sig_variant_count(t@))
            &&& r is Err ==> r == Err::<(), SigError>(
                SigError::VariantCount { expected: n, got: sig_variant_count(t@) as usize },
            )
        }),
{
}

/// The verdict on a struct: an empty signature is accepted; otherwise the
/// struct is accepted exactly when it has as many fields as the signature
/// has `:` characters, and refused with both counts otherwise.
pub proof fn lemma_struct_verdict(n: usize, t: String)
    ensures
        ({
            let r = sig_check_spec(SigItem { kind: SigItemKind::Struct, n }, SigAttribute::Literal(t));
            &&& t@.len() == 0 ==> r is Ok
            &&& t@.len() > 0 ==> (r is Ok <==> n as int == occurrences(t@, ':', t@.len() as int))
            &&& r is Err ==> r == Err::<(), SigError>(
                SigError::FieldCount { expected: n, got: occurrences(t@, ':', t@.len() as int) as usize },
            )
        }),
{
}

/// The verdict on a function: one without arguments needs a signature that
/// starts with `unit` and declares at most one argument; a function with
/// arguments is accepted whatever its signature.
pub proof fn lemma_func_verdict(n: usize, t: String)
    ensures
        ({
            let r = sig_check_spec(SigItem { kind: SigItemKind::Func, n }, SigAttribute::Literal(t));
            &&& n > 0 ==> r is Ok
            &&& n == 0 && !has_prefix(trim_start_ws(t@), "unit"@) ==> r == Err::<(), SigError>(SigError::ExpectedUnit)
            &&& n == 0 && has_prefix(trim_start_ws(t@), "unit"@) ==> (r is Ok <==> sig_arg_count(t@) <= 1)
            &&& n == 0 && has_prefix(trim_start_ws(t@), "unit"@) && sig_arg_count(t@) > 1 ==> r == Err::<(), SigError>(
                SigError::ArgCount { expected: 0, got: sig_arg_count(t@) as usize },
            )
        }),
{
}

/// The verdict on a type alias and on attributes that are not literals: a
/// type alias is always accepted; a missing argument only off functions;
/// any other argument never.
pub proof fn lemma_other_verdicts(item: SigItem, t: String)
    ensures
        item.kind == SigItemKind::Type ==> sig_check_spec(item, SigAttribute::Literal(t)) is Ok,
        sig_check_spec(item, SigAttribute::Empty) is Ok <==> item.kind != SigItemKind::Func,
        sig_check_spec(item, SigAttribute::Other) == Err::<(), SigError>(SigError::NotStrLiteral),
{
}

/// The check that `#[ocaml::sig(..)]` makes of the item it is attached to.
pub fn ocaml_sig(item: SigItem, attr: &SigAttribute) -> (r: Result<(), SigError>)
    requires
        attr matches SigAttribute::Literal(t) ==> t@.len() < usize::MAX,
    ensures
        r == sig_check_spec(item, *attr),
{
    match attr {
        SigAttribute::Empty => {
            if item.kind != SigItemKind::Func {
                Ok(())
            } else {
                Err(SigError::NotStrLiteral)
            }
        },
        SigAttribute::Other => Err(SigError::NotStrLiteral),
        SigAttribute::Literal(text) => {
            let s = text.as_str();
            match item.kind {
                SigItemKind::Func => {
                    let n_args = count_sig_args(s);
                    if item.n == 0 && !trimmed_starts_with(s, "unit") {
                        return Err(SigError::ExpectedUnit);
                    }
                    if item.n != n_args && (item.n == 0 && n_args > 1) {
                        return Err(SigError::ArgCount { expected: item.n, got: n_args });
                    }
                    Ok(())
                },
                SigItemKind::Enum => {
                    if s.unicode_len() > 0 {
                        let n_variants = count_sig_variants(s);
                        if item.n != n_variants {
                            return Err(SigError::VariantCount { expected: item.n, got: n_variants });
                        }
                    }
                    Ok(())
                },
                SigItemKind::Struct => {
                    if s.unicode_len() > 0 {
                        let n_fields = count_sig_fields(s);
                        if item.n != n_fields {
                            return Err(SigError::FieldCount { expected: item.n, got: n_fields });
                        }
                    }
                    Ok(())
                },
                SigItemKind::Type => Ok(()),
            }
        },
    }
}

} // verus!
