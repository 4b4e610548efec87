//! A small codec for bit fields inside a 64-bit word. A field is given by its
//! offset (`shift`) and an unshifted mask of its width (`mask`).
use vstd::prelude::*;

verus! {

/// The field fits in the word: no bit of the mask is lost when shifted.
pub open spec fn fits(shift: u64, mask: u64) -> bool {
    shift < 64 && (mask << shift) >> shift == mask
}

/// Two fields share no bit.
pub open spec fn disjoint(s1: u64, m1: u64, s2: u64, m2: u64) -> bool {
    (m1 << s1) & (m2 << s2) == 0
}

/// The value held by the field.
pub open spec fn field_get(word: u64, shift: u64, mask: u64) -> u64 {
    (word & (mask << shift)) >> shift
}

/// A word holding `v` (cut to the field's width) in the field and zero elsewhere.
pub open spec fn field_val(shift: u64, mask: u64, v: u64) -> u64 {
    (v & mask) << shift
}

/// The word with the field replaced by `v` (cut to the field's width).
pub open spec fn field_put(word: u64, shift: u64, mask: u64, v: u64) -> u64 {
    (word & !(mask << shift)) | ((v & mask) << shift)
}

/// Reads the field out of `word`.
pub fn read(word: u64, shift: u64, mask: u64) -> (r: u64)
    requires
        shift < 64,
    ensures
        r == field_get(word, shift, mask),
{
    (word & (mask << shift)) >> shift
}

/// A word holding `v` in the field and zero elsewhere.
pub fn val(shift: u64, mask: u64, v: u64) -> (r: u64)
    requires
        shift < 64,
    ensures
        r == field_val(shift, mask, v),
{
    (v & mask) << shift
}

/// `word` with the field replaced by `v`.
pub fn modify(word: u64, shift: u64, mask: u64, v: u64) -> (r: u64)
    requires
        shift < 64,
    ensures
        r == field_put(word, shift, mask, v),
{
    (word & !(mask << shift)) | ((v & mask) << shift)
}

/// Reading a field back from a word that holds only that field gives the value cut to its width.
pub proof fn lemma_get_val(shift: u64, mask: u64, v: u64)
    requires
        fits(shift, mask),
    ensures
        field_get(field_val(shift, mask, v), shift, mask) == v & mask,
{
    assert((((v & mask) << shift) & (mask << shift)) >> shift == v & mask) by (bit_vector)
        requires
            shift < 64,
            (mask << shift) >> shift == mask,
    ;
}

/// A word that holds one field reads zero in every field disjoint from it.
pub proof fn lemma_get_val_other(s1: u64, m1: u64, s2: u64, m2: u64, v: u64)
    requires
        fits(s1, m1),
        fits(s2, m2),
        disjoint(s1, m1, s2, m2),
    ensures
        field_get(field_val(s1, m1, v), s2, m2) == 0,
{
    assert((((v & m1) << s1) & (m2 << s2)) >> s2 == 0) by (bit_vector)
        requires
            s1 < 64,
            s2 < 64,
            (m1 << s1) >> s1 == m1,
            (m1 << s1) & (m2 << s2) == 0,
    ;
}

/// Writing a field and reading it back gives the value cut to its width.
pub proof fn lemma_get_put(word: u64, shift: u64, mask: u64, v: u64)
    requires
        fits(shift, mask),
    ensures
        field_get(field_put(word, shift, mask, v), shift, mask) == v & mask,
{
    assert(((((word & !(mask << shift)) | ((v & mask) << shift)) & (mask << shift)) >> shift)
        == v & mask) by (bit_vector)
        requires
            shift < 64,
            (mask << shift) >> shift == mask,
    ;
}

/// Writing a field leaves every disjoint field as it was.
pub proof fn lemma_get_put_other(word: u64, s1: u64, m1: u64, s2: u64, m2: u64, v: u64)
    requires
        fits(s1, m1),
        fits(s2, m2),
        disjoint(s1, m1, s2, m2),
    ensures
        field_get(field_put(word, s1, m1, v), s2, m2) == field_get(word, s2, m2),
{
    let b1 = m1 << s1;
    let b2 = m2 << s2;
    let x = (v & m1) << s1;
    assert(x & !b1 == 0) by (bit_vector)
        requires
            b1 == m1 << s1,
            x == (v & m1) << s1,
            s1 < 64,
    ;
    assert(((word & !b1) | x) & b2 == word & b2) by (bit_vector)
        requires
            x & !b1 == 0,
            b1 & b2 == 0,
    ;
}

/// Reading a field of an `or` of two words is the `or` of the two readings.
pub proof fn lemma_get_or(a: u64, b: u64, shift: u64, mask: u64)
    requires
        shift < 64,
    ensures
        field_get(a | b, shift, mask) == field_get(a, shift, mask) | field_get(b, shift, mask),
{
    assert(((a | b) & (mask << shift)) >> shift == ((a & (mask << shift)) >> shift) | ((b & (
    mask << shift)) >> shift)) by (bit_vector)
        requires
            shift < 64,
    ;
}

/// Zero is neutral for `|` and absorbing for `&`.
pub proof fn lemma_zero(x: u64, m: u64)
    ensures
        x | 0 == x,
        0 | x == x,
        0 & m == 0,
{
    assert(x | 0 == x && 0 | x == x && 0 & m == 0) by (bit_vector);
}

} // verus!
