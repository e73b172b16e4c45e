//! The word-level encoding of OCaml values: immediate integers, block
//! headers and exception results.
use vstd::prelude::*;

verus! {

/// OCaml `value` type: one machine word.
pub type Value = usize;

/// OCaml's integer type
pub type Intnat = isize;

/// OCaml's unsigned integer type
pub type Uintnat = usize;

/// OCaml's size type
pub type Size = Uintnat;

/// Colour bits of a block header.
pub type Color = Uintnat;

/// Mark bits of a block header.
pub type Mark = Uintnat;

/// An OCaml heap-allocated block header.
///
/// Structure of the header (the top bits are `wosize`, 63..10 on 64-bit
/// architectures and 31..10 on 32-bit ones):
///
///```text
///      +--------+-------+-----+
///      | wosize | color | tag |
///      +--------+-------+-----+
/// bits  ..   10 9     8 7   0
///```
pub type Header = Uintnat;

/// Number of distinct machine words, `2^usize::BITS`.
pub open spec fn word_modulus() -> int {
    usize::MAX as int + 1
}

/// The word that encodes the OCaml integer `i`: `2 * i + 1`, wrapped to a word.
pub open spec fn val_int_spec(i: int) -> int {
    (2 * i + 1) % word_modulus()
}

/// A word read as a signed integer.
pub open spec fn signed_word(v: int) -> int {
    if v > isize::MAX {
        v - word_modulus()
    } else {
        v
    }
}

/// The integer read back from a word: the word read as a signed integer,
/// halved and rounded down (an arithmetic shift right by one).
pub open spec fn int_val_spec(v: int) -> int {
    signed_word(v) / 2
}

/// An immediate (`long`) word has its lowest bit set.
pub open spec fn is_long_spec(v: int) -> bool {
    v % 2 == 1
}

pub(crate) proof fn lemma_word_facts()
    ensures
        usize::BITS == 64 ==> word_modulus() == 0x1_0000_0000_0000_0000,
        usize::BITS == 32 ==> word_modulus() == 0x1_0000_0000,
        usize::BITS == 32 || usize::BITS == 64,
        isize::MAX * 2 + 1 == usize::MAX,
{
}

proof fn lemma_val_int_bits(i: isize)
    ensures
        ((i as usize) << 1usize) as int == (2 * (i as int)) % word_modulus(),
        ((i as usize) << 1usize) % 2 == 0,
{
    lemma_word_facts();
    let x = i as usize;
    assert(usize::BITS == 64 ==> (x << 1usize) as int == (2 * (x as int)) % 0x1_0000_0000_0000_0000) by (bit_vector);
    assert(usize::BITS == 32 ==> (x << 1usize) as int == (2 * (x as int)) % 0x1_0000_0000) by (bit_vector);
    assert(usize::BITS == 64 ==> (i as usize) as int == (i as int) % 0x1_0000_0000_0000_0000) by (bit_vector);
    assert(usize::BITS == 32 ==> (i as usize) as int == (i as int) % 0x1_0000_0000) by (bit_vector);
    assert((x << 1usize) % 2 == 0) by (bit_vector);
    let m = word_modulus();
    assert((2 * (x as int)) % m == (2 * (i as int)) % m) by {
        vstd::arithmetic::div_mod::lemma_mul_mod_noop_right(2, i as int, m);
    }
}

/// Converts a machine integer into an OCaml `int`: `(((intnat)(x) << 1) + 1)`.
pub fn val_int(i: Intnat) -> (v: Value)
    ensures
        v as int == val_int_spec(i as int),
{
    proof {
        lemma_val_int_bits(i);
        lemma_word_facts();
        let m = word_modulus();
        let a = 2 * (i as int);
        vstd::arithmetic::div_mod::lemma_add_mod_noop(a, 1, m);
        vstd::arithmetic::div_mod::lemma_mod_twice(a, m);
    }
    ((i as usize) << 1) + 1
}

/// Converts an OCaml `int` back into a machine integer: `Long_val(x)`,
/// `((x) >> 1)` on the signed word.
pub fn int_val(v: Value) -> (i: Intnat)
    ensures
        i as int == int_val_spec(v as int),
{
    proof {
        lemma_word_facts();
        assert(usize::BITS == 64 ==> ((v as isize) >> 1isize) as int == (if v as int > 0x7fff_ffff_ffff_ffff {
            v as int - 0x1_0000_0000_0000_0000
        } else {
            v as int
        }) / 2) by (bit_vector);
        assert(usize::BITS == 32 ==> ((v as isize) >> 1isize) as int == (if v as int > 0x7fff_ffff {
            v as int - 0x1_0000_0000
        } else {
            v as int
        }) / 2) by (bit_vector);
    }
    (v as isize) >> 1
}

/// Creates an empty list
pub fn empty_list() -> (v: Value)
    ensures
        v as int == val_int_spec(0),
{
    val_int(0)
}

/// Returns true when the word points to a heap block (lowest bit clear).
pub fn is_block(v: Value) -> (b: bool)
    ensures
        b == !is_long_spec(v as int),
{
    proof {
        assert(v & 1usize == v % 2) by (bit_vector);
    }
    (v & 1) == 0
}

/// Returns true when the word is an immediate integer (lowest bit set).
pub fn is_long(v: Value) -> (b: bool)
    ensures
        b == is_long_spec(v as int),
{
    proof {
        assert(v & 1usize == v % 2) by (bit_vector);
    }
    (v & 1) != 0
}

/// The OCaml `()` (`unit`) value, `val_int(0)`
pub const UNIT: Value = 1;

/// Empty list value, `val_int(0)`
pub const EMPTY_LIST: Value = 1;

/// The OCaml `true` value, `val_int(1)`
pub const TRUE: Value = 3;

/// OCaml `false` value, `val_int(0)`
pub const FALSE: Value = 1;

/// OCaml `None` value, `val_int(0)`
pub const NONE: Value = 1;

/// The word size of a block, read from its header: `hd >> 10`.
pub fn wosize_hd(hd: Header) -> (s: Size)
    ensures
        s as int == hd as int / 1024,
{
    proof {
        assert(hd >> 10usize == hd / 1024) by (bit_vector);
    }
    hd >> 10
}

/// The tag of a block, read from its header: the lowest byte.
pub fn tag_hd(hd: Header) -> (t: u8)
    ensures
        t as int == hd as int % 256,
{
    proof {
        assert((hd & 0xffusize) == hd % 256) by (bit_vector);
    }
    (hd & 0xff) as u8
}

/// Marks a value as an exception result: `v | 2`.
pub fn make_exception_result(v: Value) -> (r: Value)
    ensures
        r as int == v as int - v as int % 4 + 2 + v as int % 2,
{
    proof {
        assert((v | 2usize) == v - v % 4 + 2 + v % 2) by (bit_vector);
    }
    v | 2
}

/// Whether a result word is an exception result: `v & 3 == 2`.
pub fn is_exception_result(v: Value) -> (b: bool)
    ensures
        b == (v as int % 4 == 2),
{
    proof {
        assert((v & 3usize) == v % 4) by (bit_vector);
    }
    (v & 3) == 2
}

/// The exception carried by an exception result: `v & !3`.
pub fn extract_exception(v: Value) -> (r: Value)
    ensures
        r as int == v as int - v as int % 4,
{
    proof {
        assert((v & !3usize) == v - v % 4) by (bit_vector);
    }
    v & !3
}

/// The largest OCaml `int`: `Max_long`.
pub open spec fn max_long() -> int {
    isize::MAX / 2
}

/// The smallest OCaml `int`: `Min_long`.
pub open spec fn min_long() -> int {
    isize::MIN / 2
}

/// The word of an OCaml `int` `i` between `Min_long` and `Max_long`:
/// `2 * i + 1`, in two's complement on the machine word.
pub proof fn lemma_val_int_encoding(i: int)
    requires
        min_long() <= i <= max_long(),
    ensures
        val_int_spec(i) == (if i >= 0 {
            2 * i + 1
        } else {
            2 * i + 1 + word_modulus()
        }),
        0 <= val_int_spec(i) <= usize::MAX,
{
    lemma_word_facts();
    let m = word_modulus();
    assert(isize::MIN == -isize::MAX - 1);
    if i >= 0 {
        vstd::arithmetic::div_mod::lemma_small_mod((2 * i + 1) as nat, m as nat);
    } else {
        assert(0 <= 2 * i + 1 + m < m);
        vstd::arithmetic::div_mod::lemma_mod_add_multiples_vanish(2 * i + 1, m);
        vstd::arithmetic::div_mod::lemma_small_mod((2 * i + 1 + m) as nat, m as nat);
    }
}

/// The integer of an immediate word `v`: the `i` with `2 * i + 1 == v` in
/// two's complement on the machine word.
pub proof fn lemma_int_val_decoding(v: int)
    requires
        0 <= v <= usize::MAX,
        is_long_spec(v),
    ensures
        2 * int_val_spec(v) + 1 == (if v > isize::MAX {
            v - word_modulus()
        } else {
            v
        }),
{
    lemma_word_facts();
    let s = signed_word(v);
    assert(s % 2 != 0) by {
        if v > isize::MAX {
            vstd::arithmetic::div_mod::lemma_mod_add_multiples_vanish(s, word_modulus());
        }
    }
}

/// Reading back an encoded integer gives the integer again, for every
/// integer between `Min_long` and `Max_long`.
pub proof fn lemma_int_val_of_val_int(i: int)
    requires
        min_long() <= i <= max_long(),
    ensures
        int_val_spec(val_int_spec(i)) == i,
{
    lemma_word_facts();
    let m = word_modulus();
    assert(isize::MIN == -isize::MAX - 1);
    if i >= 0 {
        vstd::arithmetic::div_mod::lemma_small_mod((2 * i + 1) as nat, m as nat);
    } else {
        assert(0 <= 2 * i + 1 + m < m);
        vstd::arithmetic::div_mod::lemma_mod_add_multiples_vanish(2 * i + 1, m);
        vstd::arithmetic::div_mod::lemma_small_mod((2 * i + 1 + m) as nat, m as nat);
    }
}

/// Every encoded integer is an immediate word.
pub proof fn lemma_val_int_is_long(i: int)
    ensures
        is_long_spec(val_int_spec(i)),
{
    lemma_word_facts();
    let m = word_modulus();
    assert(m % 2 == 0);
    vstd::arithmetic::div_mod::lemma_mod_mod(2 * i + 1, 2, m / 2);
    assert(m == 2 * (m / 2));
}

/// Re-encoding the integer read from an immediate word gives the word back.
pub proof fn lemma_val_int_of_int_val(v: int)
    requires
        0 <= v <= usize::MAX,
        is_long_spec(v),
    ensures
        val_int_spec(int_val_spec(v)) == v,
{
    lemma_word_facts();
    let m = word_modulus();
    let s = signed_word(v);
    assert(s % 2 != 0);
    assert(2 * (s / 2) + 1 == s);
    if v > isize::MAX {
        vstd::arithmetic::div_mod::lemma_mod_add_multiples_vanish(s, m);
    }
    vstd::arithmetic::div_mod::lemma_small_mod(v as nat, m as nat);
}

/// A word-aligned block pointer marked as an exception result is recognised
/// as one, and the original pointer is recovered from it.
pub proof fn lemma_exception_result_roundtrip(v: int)
    requires
        v % 4 == 0,
    ensures
        ({
            let r = v - v % 4 + 2 + v % 2;
            &&& r % 4 == 2
            &&& r - r % 4 == v
        }),
{
}

/// Immediate words are never exception results.
pub proof fn lemma_long_is_not_exception_result(v: int)
    requires
        is_long_spec(v),
    ensures
        v % 4 != 2,
{
}

/// The constant values are the OCaml `int`s they stand for: `()`, `[]`,
/// `false` and `None` are 0, `true` is 1.
pub proof fn lemma_constant_values()
    ensures
        UNIT as int == val_int_spec(0),
        EMPTY_LIST as int == val_int_spec(0),
        FALSE as int == val_int_spec(0),
        NONE as int == val_int_spec(0),
        TRUE as int == val_int_spec(1),
{
    lemma_val_int_encoding(0);
    lemma_val_int_encoding(1);
    lemma_word_facts();
}

} // verus!
