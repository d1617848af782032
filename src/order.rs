use vstd::prelude::*;

verus! {

/// Whether the sign bit of an IEEE-754 single-precision bit pattern is set.
pub open spec fn sign_set(bits: u32) -> bool {
    bits >= 0x8000_0000
}

/// The exponent and fraction fields of a single-precision bit pattern, read as one integer.
/// For finite values and infinities this integer grows with the absolute value.
pub open spec fn magnitude(bits: u32) -> int {
    if sign_set(bits) {
        bits - 0x8000_0000
    } else {
        bits as int
    }
}

/// The bit pattern encodes a NaN: all exponent bits set and a non-zero fraction.
pub open spec fn is_nan_bits(bits: u32) -> bool {
    magnitude(bits) > 0x7F80_0000
}

/// Where a non-NaN single-precision value stands on the number line: the
/// magnitude with the value's sign. Two such values compare with `<` exactly
/// as their ranks do, and both zeros have rank 0.
pub open spec fn float_rank(bits: u32) -> int {
    if sign_set(bits) {
        -magnitude(bits)
    } else {
        magnitude(bits)
    }
}

/// Maps the bit pattern of a ray parameter to an unsigned key ordered as the
/// values themselves: keys of two non-NaN values compare as the values do.
pub fn ordered_key(bits: u32) -> (r: u32)
    ensures
        r == float_rank(bits) + 0x8000_0000,
{
    if bits >= 0x8000_0000 {
        0x8000_0000 - (bits - 0x8000_0000)
    } else {
        bits + 0x8000_0000
    }
}

/// IEEE-754 `lo < t && t < hi` on bit patterns: false as soon as one of them is a NaN.
pub open spec fn in_open_range(lo: u32, t: u32, hi: u32) -> bool {
    &&& !is_nan_bits(lo)
    &&& !is_nan_bits(t)
    &&& !is_nan_bits(hi)
    &&& float_rank(lo) < float_rank(t)
    &&& float_rank(t) < float_rank(hi)
}

/// Whether a bit pattern encodes a NaN.
pub fn is_nan(bits: u32) -> (r: bool)
    ensures
        r == is_nan_bits(bits),
{
    if bits >= 0x8000_0000 {
        bits - 0x8000_0000 > 0x7F80_0000
    } else {
        bits > 0x7F80_0000
    }
}

/// Whether the value of `t` lies strictly between those of `lo` and `hi`, as
/// the comparison `t > lo && t < hi` on the values decides it.
pub fn within(lo: u32, t: u32, hi: u32) -> (r: bool)
    ensures
        r == in_open_range(lo, t, hi),
{
    if is_nan(lo) || is_nan(t) || is_nan(hi) {
        false
    } else {
        ordered_key(lo) < ordered_key(t) && ordered_key(t) < ordered_key(hi)
    }
}

} // verus!
