//! Text helpers over `String` and `str`, stated over character sequences.
use vstd::prelude::*;
use vstd::string::*;

verus! {

/// Whether `c` has the Unicode `White_Space` property: the controls from
/// tab to carriage return, space, next line, no-break space, the Ogham space
/// mark, the spaces from en quad to hair space, the line and paragraph
/// separators, the narrow no-break space, the medium mathematical space and
/// the ideographic space. These are the characters that `str::trim` removes.
pub open spec fn char_is_whitespace(c: char) -> bool {
    let u = c as u32;
    ||| 0x9 <= u <= 0xD
    ||| u == 0x20
    ||| u == 0x85
    ||| u == 0xA0
    ||| u == 0x1680
    ||| 0x2000 <= u <= 0x200A
    ||| u == 0x2028
    ||| u == 0x2029
    ||| u == 0x202F
    ||| u == 0x205F
    ||| u == 0x3000
}

/// Whether `c` has the Unicode `Uppercase` property, as `char::is_uppercase` reports it.
pub uninterp spec fn char_is_uppercase(c: char) -> bool;

/// Calls std's `String::push`, which its documentation describes as appending
/// the given `char` to the end of the string. Claimed, not proved: the string's
/// characters afterwards are those before it followed by `c`.
#[verifier::external_body]
pub(crate) fn push_char(s: &mut String, c: char)
    ensures
        final(s)@ == old(s)@.push(c),
{
    s.push(c);
}

/// Whether `c` is a white-space character (`char_is_whitespace`).
pub fn is_whitespace(c: char) -> (b: bool)
    ensures
        b == char_is_whitespace(c),
{
    let u = c as u32;
    (0x9 <= u && u <= 0xD) || u == 0x20 || u == 0x85 || u == 0xA0 || u == 0x1680
        || (0x2000 <= u && u <= 0x200A) || u == 0x2028 || u == 0x2029 || u == 0x202F
        || u == 0x205F || u == 0x3000
}

/// Calls std's `char::is_uppercase`. Claimed, not proved: the result depends on
/// `c` alone and is the value named `char_is_uppercase(c)` (the Unicode
/// `Uppercase` derived property); among ASCII characters exactly `A` to `Z`
/// have it, as the property's definition (general category `Lu` plus
/// `Other_Uppercase`, which holds no ASCII character) gives.
#[verifier::external_body]
pub(crate) fn is_uppercase(c: char) -> (b: bool)
    ensures
        b == char_is_uppercase(c),
        (c as u32) < 128 ==> (b <==> 'A' <= c <= 'Z'),
{
    c.is_uppercase()
}

/// The ASCII lower-case form of a character: `A`..`Z` map to `a`..`z`,
/// everything else is unchanged.
pub open spec fn ascii_lower(c: char) -> char {
    if 'A' <= c <= 'Z' {
        ((c as u32) + 32) as char
    } else {
        c
    }
}

/// `char::to_ascii_lowercase`.
pub fn to_ascii_lowercase(c: char) -> (r: char)
    ensures
        r == ascii_lower(c),
{
    if 'A' <= c && c <= 'Z' {
        ((c as u8) + 32) as char
    } else {
        c
    }
}

/// The sequence with every leading copy of `c` removed.
pub open spec fn trim_start_char(s: Seq<char>, c: char) -> Seq<char>
    decreases s.len(),
{
    if s.len() > 0 && s[0] == c {
        trim_start_char(s.drop_first(), c)
    } else {
        s
    }
}

/// The sequence with every trailing copy of `c` removed.
pub open spec fn trim_end_char(s: Seq<char>, c: char) -> Seq<char>
    decreases s.len(),
{
    if s.len() > 0 && s.last() == c {
        trim_end_char(s.drop_last(), c)
    } else {
        s
    }
}

/// The sequence with its leading whitespace removed.
pub open spec fn trim_start_ws(s: Seq<char>) -> Seq<char>
    decreases s.len(),
{
    if s.len() > 0 && char_is_whitespace(s[0]) {
        trim_start_ws(s.drop_first())
    } else {
        s
    }
}

/// Whether the text equals the given characters.
pub fn text_eq(a: &str, b: &str) -> (r: bool)
    ensures
        r == (a@ == b@),
{
    let n = a.unicode_len();
    let m = b.unicode_len();
    if n != m {
        return false;
    }
    let mut i: usize = 0;
    while i < n
        invariant
            n == a@.len(),
            m == b@.len(),
            n == m,
            i <= n,
            forall|k: int| 0 <= k < i ==> a@[k] == b@[k],
        decreases n - i,
    {
        if a.get_char(i) != b.get_char(i) {
            return false;
        }
        i += 1;
    }
    assert(a@ =~= b@);
    true
}

/// Copies a string slice into a new `String`.
pub fn to_owned_text(a: &str) -> (r: String)
    ensures
        r@ == a@,
{
    let mut s = String::new();
    s.append(a);
    s
}

proof fn lemma_trim_start_char_suffix(s: Seq<char>, c: char, i: int)
    requires
        0 <= i <= s.len(),
        forall|k: int| 0 <= k < i ==> s[k] == c,
    ensures
        trim_start_char(s, c) == trim_start_char(s.subrange(i, s.len() as int), c),
    decreases i,
{
    if i > 0 {
        assert(s.drop_first() =~= s.subrange(1, s.len() as int));
        lemma_trim_start_char_suffix(s.drop_first(), c, i - 1);
        assert(s.drop_first().subrange(i - 1, s.drop_first().len() as int) =~= s.subrange(i, s.len() as int));
    } else {
        assert(s.subrange(0, s.len() as int) =~= s);
    }
}

proof fn lemma_trim_end_char_prefix(s: Seq<char>, c: char, j: int)
    requires
        0 <= j <= s.len(),
        forall|k: int| j <= k < s.len() ==> s[k] == c,
    ensures
        trim_end_char(s, c) == trim_end_char(s.subrange(0, j), c),
    decreases s.len() - j,
{
    if j < s.len() {
        assert(s.drop_last() =~= s.subrange(0, s.len() - 1));
        lemma_trim_end_char_prefix(s.drop_last(), c, j);
        assert(s.drop_last().subrange(0, j) =~= s.subrange(0, j));
    } else {
        assert(s.subrange(0, j) =~= s);
    }
}

proof fn lemma_trim_start_ws_suffix(s: Seq<char>, i: int)
    requires
        0 <= i <= s.len(),
        forall|k: int| 0 <= k < i ==> char_is_whitespace(s[k]),
    ensures
        trim_start_ws(s) == trim_start_ws(s.subrange(i, s.len() as int)),
    decreases i,
{
    if i > 0 {
        assert(s.drop_first() =~= s.subrange(1, s.len() as int));
        lemma_trim_start_ws_suffix(s.drop_first(), i - 1);
        assert(s.drop_first().subrange(i - 1, s.drop_first().len() as int) =~= s.subrange(i, s.len() as int));
    } else {
        assert(s.subrange(0, s.len() as int) =~= s);
    }
}

/// Copies the characters `a[from..to]` into a new `String`.
pub fn substring(a: &str, from: usize, to: usize) -> (r: String)
    requires
        from <= to <= a@.len(),
    ensures
        r@ == a@.subrange(from as int, to as int),
{
    let mut s = String::new();
    let mut i = from;
    while i < to
        invariant
            from <= i <= to,
            to <= a@.len(),
            s@ == a@.subrange(from as int, i as int),
        decreases to - i,
    {
        push_char(&mut s, a.get_char(i));
        i += 1;
        assert(s@ =~= a@.subrange(from as int, i as int));
    }
    s
}

/// `s.trim_start_matches(c).trim_end_matches(c)` for a single character `c`.
pub fn trim_matches_char(a: &str, c: char) -> (r: String)
    ensures
        r@ == trim_end_char(trim_start_char(a@, c), c),
{
    let n = a.unicode_len();
    let mut i: usize = 0;
    while i < n && a.get_char(i) == c
        invariant
            n == a@.len(),
            i <= n,
            forall|k: int| 0 <= k < i ==> a@[k] == c,
        decreases n - i,
    {
        i += 1;
    }
    proof {
        lemma_trim_start_char_suffix(a@, c, i as int);
        let t = a@.subrange(i as int, n as int);
        if i < n {
            assert(t[0] != c);
        }
        assert(trim_start_char(t, c) == t);
    }
    let mut j: usize = n;
    while j > i && a.get_char(j - 1) == c
        invariant
            n == a@.len(),
            i <= j <= n,
            forall|k: int| j <= k < n ==> a@[k] == c,
        decreases j,
    {
        j -= 1;
    }
    proof {
        let t = a@.subrange(i as int, n as int);
        lemma_trim_end_char_prefix(t, c, j - i);
        let u = t.subrange(0, j - i);
        assert(u =~= a@.subrange(i as int, j as int));
        if j > i {
            assert(u.last() == a@[j - 1]);
        }
        assert(trim_end_char(u, c) == u);
    }
    substring(a, i, j)
}

/// The index of the first character of `a` that is not whitespace
/// (`a@.len()` when there is none).
pub fn first_non_whitespace(a: &str) -> (i: usize)
    ensures
        i <= a@.len(),
        trim_start_ws(a@) == a@.subrange(i as int, a@.len() as int),
{
    let n = a.unicode_len();
    let mut i: usize = 0;
    while i < n && is_whitespace(a.get_char(i))
        invariant
            n == a@.len(),
            i <= n,
            forall|k: int| 0 <= k < i ==> char_is_whitespace(a@[k]),
        decreases n - i,
    {
        i += 1;
    }
    proof {
        lemma_trim_start_ws_suffix(a@, i as int);
        let t = a@.subrange(i as int, n as int);
        if i < n {
            assert(!char_is_whitespace(t[0]));
        }
        assert(trim_start_ws(t) == t);
    }
    i
}

/// Whether `s` begins with the characters of `p`.
pub open spec fn has_prefix(s: Seq<char>, p: Seq<char>) -> bool {
    p.len() <= s.len() && s.subrange(0, p.len() as int) == p
}

/// Whether `a` with its leading whitespace removed begins with `p`
/// (`a.trim_start().starts_with(p)`, which is also `a.trim().starts_with(p)`
/// for a non-empty `p`).
pub fn trimmed_starts_with(a: &str, p: &str) -> (r: bool)
    ensures
        r == has_prefix(trim_start_ws(a@), p@),
{
    let i = first_non_whitespace(a);
    let n = a.unicode_len();
    let m = p.unicode_len();
    if n - i < m {
        proof {
            assert(a@.subrange(i as int, n as int).len() == n - i);
        }
        return false;
    }
    let mut k: usize = 0;
    while k < m
        invariant
            n == a@.len(),
            m == p@.len(),
            i <= n,
            i + m <= n,
            k <= m,
            trim_start_ws(a@) == a@.subrange(i as int, n as int),
            forall|q: int| 0 <= q < k ==> a@[i + q] == p@[q],
        decreases m - k,
    {
        if a.get_char(i + k) != p.get_char(k) {
            proof {
                let t = a@.subrange(i as int, n as int);
                assert(t.subrange(0, m as int)[k as int] != p@[k as int]);
                assert(t.subrange(0, m as int) != p@);
                assert(trim_start_ws(a@) == t);
            }
            return false;
        }
        k += 1;
    }
    proof {
        let t = a@.subrange(i as int, n as int);
        assert(t.subrange(0, m as int) =~= p@);
    }
    true
}

/// The texts joined with `sep` between each two of them (`[..].join(sep)`).
pub open spec fn join_texts(segs: Seq<String>, sep: Seq<char>) -> Seq<char>
    decreases segs.len(),
{
    if segs.len() == 0 {
        Seq::empty()
    } else if segs.len() == 1 {
        segs[0]@
    } else {
        join_texts(segs.drop_last(), sep) + sep + segs.last()@
    }
}

/// Joins the texts with `sep` between each two of them.
pub fn join(segs: &Vec<String>, sep: &str) -> (r: String)
    ensures
        r@ == join_texts(segs@, sep@),
{
    let mut acc = String::new();
    let mut i: usize = 0;
    while i < segs.len()
        invariant
            i <= segs@.len(),
            acc@ == join_texts(segs@.subrange(0, i as int), sep@),
        decreases segs@.len() - i,
    {
        if i > 0 {
            acc.append(sep);
        }
        acc.append(segs[i].as_str());
        proof {
            let pre = segs@.subrange(0, i + 1);
            assert(pre.drop_last() =~= segs@.subrange(0, i as int));
            assert(pre.last() == segs@[i as int]);
            if i == 0 {
                assert(acc@ =~= segs@[0]@);
            }
        }
        i += 1;
    }
    assert(segs@.subrange(0, segs@.len() as int) =~= segs@);
    acc
}

} // verus!
