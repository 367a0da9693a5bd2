//! Word-level field model: pure decode/encode of single bits and bit ranges
//! within one machine word, plus the word transitions performed by the
//! hardware's atomic set-bits / clear-bits instructions.
//!
//! Everything here is deterministic and operates only on value parameters;
//! nothing touches the live register.

use vstd::prelude::*;

verus! {

/// True iff bit `i` of `w` is 1.
pub open spec fn bit(w: usize, i: usize) -> bool {
    w & (1usize << i) != 0
}

/// `w` with bit `i` forced to `v` and every other bit unchanged.
pub open spec fn with_bit(w: usize, i: usize, v: bool) -> usize {
    if v {
        w | (1usize << i)
    } else {
        w & !(1usize << i)
    }
}

/// A mask with the low `n` bits set and all higher bits clear
/// (the whole word when `n` is the word width).
pub open spec fn low_mask(n: usize) -> usize {
    !((!0usize) << n)
}

/// A mask covering the bit range `lo..hi` (half-open).
pub open spec fn field_mask(lo: usize, hi: usize) -> usize {
    low_mask((hi - lo) as usize) << lo
}

/// The bits of `w` in the range `lo..hi`, right-aligned.
pub open spec fn field_bits(w: usize, lo: usize, hi: usize) -> usize {
    (w >> lo) & low_mask((hi - lo) as usize)
}

/// `w` with the bit range `lo..hi` replaced by the (right-aligned) value `v`
/// and every bit outside the range unchanged.
pub open spec fn with_field(w: usize, lo: usize, hi: usize, v: usize) -> usize {
    (w & !field_mask(lo, hi)) | (v << lo)
}

/// Decode a single-bit flag: true iff bit `i` of `w` is 1.
///
/// Every bit position of the word is valid to query; `i` is only bounded by
/// the word width itself.
pub fn decode_flag(w: usize, i: usize) -> (r: bool)
    requires
        i < usize::BITS,
    ensures
        r == bit(w, i),
{
    w & (1usize << i) != 0
}

/// Compute the `(set_mask, clear_mask)` pair for driving flag `i` to `value`
/// through the atomic set-bits / clear-bits primitives: exactly one of the two
/// masks holds the single bit `i`, the other is zero, so the unused primitive
/// is a no-op.
pub fn encode_flag(i: usize, value: bool) -> (masks: (usize, usize))
    requires
        i < usize::BITS,
    ensures
        value ==> masks == (1usize << i, 0usize),
        !value ==> masks == (0usize, 1usize << i),
{
    if value {
        (1usize << i, 0usize)
    } else {
        (0usize, 1usize << i)
    }
}

/// The word produced by the hardware's atomic set-bits instruction: every bit
/// of `mask` becomes 1, every other bit of `w` is unchanged.
pub fn apply_set_mask(w: usize, mask: usize) -> (r: usize)
    ensures
        r == (w | mask),
{
    w | mask
}

/// The word produced by the hardware's atomic clear-bits instruction: every
/// bit of `mask` becomes 0, every other bit of `w` is unchanged.
pub fn apply_clear_mask(w: usize, mask: usize) -> (r: usize)
    ensures
        r == (w & !mask),
{
    w & !mask
}

/// Force bit `i` of `w` to `value`, leaving all other bits unchanged.
pub fn set_bit_to(w: usize, i: usize, value: bool) -> (r: usize)
    requires
        i < usize::BITS,
    ensures
        r == with_bit(w, i, value),
{
    if value {
        w | (1usize << i)
    } else {
        w & !(1usize << i)
    }
}

/// The low-mask of `n` as an executable value.
pub fn low_mask_val(n: usize) -> (r: usize)
    requires
        n <= usize::BITS,
    ensures
        r == low_mask(n),
{
    if n == usize::BITS as usize {
        proof {
            assert(!((!0usize) << n) == !0usize) by (bit_vector)
                requires
                    n == usize::BITS,
            ;
        }
        !0usize
    } else {
        !((!0usize) << n)
    }
}

/// Extract the bits of `w` in the range `lo..hi`, right-aligned.
pub fn extract_field(w: usize, lo: usize, hi: usize) -> (r: usize)
    requires
        lo < hi,
        hi <= usize::BITS,
    ensures
        r == field_bits(w, lo, hi),
{
    (w >> lo) & low_mask_val(hi - lo)
}

/// Replace the bits of `w` in the range `lo..hi` by the right-aligned value
/// `v`, leaving every bit outside the range unchanged. `v` must fit the
/// width of the range.
pub fn set_bits_range(w: usize, lo: usize, hi: usize, v: usize) -> (r: usize)
    requires
        lo < hi,
        hi <= usize::BITS,
        v <= low_mask((hi - lo) as usize),
    ensures
        r == with_field(w, lo, hi, v),
{
    let m = low_mask_val(hi - lo);
    (w & !(m << lo)) | (v << lo)
}

/// Law: driving a flag through its encode mask and reading it back yields the
/// value written, whatever the rest of the word holds — the set-mask makes the
/// bit read as true, the clear-mask makes it read as false.
pub proof fn lemma_flag_round_trip(w: usize, i: usize, v: bool)
    by (bit_vector)
    requires
        i < usize::BITS,
    ensures
        bit(with_bit(w, i, v), i) == v,
{
}

/// Law: setting a flag that was clear ORs exactly its single-bit mask into
/// the word, and clearing it again restores the original word when no other
/// bit changed in between.
pub proof fn lemma_set_then_clear_restores(w: usize, i: usize)
    by (bit_vector)
    requires
        i < usize::BITS,
        !bit(w, i),
    ensures
        with_bit(w, i, true) == (w | (1usize << i)),
        with_bit(with_bit(w, i, true), i, false) == w,
{
}

/// Law: a flag update touches no other bit of the word.
pub proof fn lemma_bit_update_preserves_others(w: usize, i: usize, v: bool, j: usize)
    by (bit_vector)
    requires
        i < usize::BITS,
        j < usize::BITS,
        j != i,
    ensures
        bit(with_bit(w, i, v), j) == bit(w, j),
{
}

/// Law: an atomic set of bit `a` and an atomic clear of bit `b` (with
/// `a != b`) commute — either interleaving yields the same final word, with
/// `a` set, `b` clear, and every other bit unchanged from the start.
pub proof fn lemma_atomic_set_clear_interleave(w: usize, a: usize, b: usize)
    by (bit_vector)
    requires
        a < usize::BITS,
        b < usize::BITS,
        a != b,
    ensures
        ((w | (1usize << a)) & !(1usize << b)) == ((w & !(1usize << b)) | (1usize << a)),
        bit((w | (1usize << a)) & !(1usize << b), a),
        !bit((w | (1usize << a)) & !(1usize << b), b),
        forall|i: usize|
            i < usize::BITS && i != a && i != b ==> #[trigger] bit(
                (w | (1usize << a)) & !(1usize << b),
                i,
            ) == bit(w, i),
{
}

/// Law: replacing a bit range and reading it back yields the value written.
pub proof fn lemma_field_round_trip(w: usize, lo: usize, hi: usize, v: usize)
    by (bit_vector)
    requires
        lo < hi,
        hi <= usize::BITS,
        v <= low_mask((hi - lo) as usize),
    ensures
        field_bits(with_field(w, lo, hi, v), lo, hi) == v,
{
}

/// Law: replacing a bit range touches no bit outside the range.
pub proof fn lemma_field_update_preserves_others(
    w: usize,
    lo: usize,
    hi: usize,
    v: usize,
    i: usize,
)
    by (bit_vector)
    requires
        lo < hi,
        hi <= usize::BITS,
        v <= low_mask((hi - lo) as usize),
        i < usize::BITS,
        i < lo || hi <= i,
    ensures
        bit(with_field(w, lo, hi, v), i) == bit(w, i),
{
}

} // verus!
