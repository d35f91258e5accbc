use vstd::prelude::*;

verus! {

/// The bit pattern of positive infinity: every magnitude above it is a NaN.
pub const INFINITY_BITS: u32 = 0x7f80_0000;

/// The pattern without its sign bit.
pub open spec fn magnitude(bits: u32) -> u32 {
    bits & 0x7fff_ffff
}

/// Whether the sign bit is set.
pub open spec fn is_negative(bits: u32) -> bool {
    bits & 0x8000_0000 != 0
}

/// Whether the pattern is a NaN: exponent all ones, fraction not zero.
pub open spec fn is_nan(bits: u32) -> bool {
    magnitude(bits) > 0x7f80_0000
}

/// An integer that orders single-precision patterns as the numbers they
/// stand for: of two patterns that are not NaN, one is below the other as a
/// number exactly when its key is below the other's, and the two zeros share
/// the key zero. This is the sign-and-magnitude reading of the pattern.
pub open spec fn order_key(bits: u32) -> int {
    if is_negative(bits) {
        -(magnitude(bits) as int)
    } else {
        magnitude(bits) as int
    }
}

/// What clamping `x` to the interval from `lo` to `hi` gives: the bound that
/// `x` lies beyond, else `x` itself. A NaN compares below nothing and above
/// nothing, so it is handed back.
pub open spec fn clamp_bits(x: u32, lo: u32, hi: u32) -> u32 {
    if is_nan(x) {
        x
    } else if order_key(x) < order_key(lo) {
        lo
    } else if order_key(x) > order_key(hi) {
        hi
    } else {
        x
    }
}

/// Whether `bits` is a NaN.
pub fn isNan(bits: u32) -> (b: bool)
    ensures
        b == is_nan(bits),
{
    (bits & 0x7fff_ffff) > INFINITY_BITS
}

/// The order key of `bits`.
pub fn orderKey(bits: u32) -> (k: i64)
    ensures
        k == order_key(bits),
        -0x7fff_ffff <= k <= 0x7fff_ffff,
{
    let m: u32 = bits & 0x7fff_ffff;
    assert(m <= 0x7fff_ffff) by (bit_vector)
        requires
            m == bits & 0x7fff_ffff,
    ;
    if bits & 0x8000_0000 != 0 {
        -(m as i64)
    } else {
        m as i64
    }
}

/// Clamps `x` to the interval from `lo` to `hi`, all three as bit patterns.
pub fn clampBits(x: u32, lo: u32, hi: u32) -> (r: u32)
    requires
        !is_nan(lo),
        !is_nan(hi),
        order_key(lo) <= order_key(hi),
    ensures
        r == clamp_bits(x, lo, hi),
        r == x || r == lo || r == hi,
        !is_nan(x) ==> order_key(lo) <= order_key(r) <= order_key(hi),
        !is_nan(x) && order_key(lo) <= order_key(x) <= order_key(hi) ==> r == x,
{
    if isNan(x) {
        return x;
    }
    let k: i64 = orderKey(x);
    if k < orderKey(lo) {
        lo
    } else if k > orderKey(hi) {
        hi
    } else {
        x
    }
}

/// Clamping is idempotent: a clamped value is its own clamp.
pub proof fn lemma_clamp_idempotent(x: u32, lo: u32, hi: u32)
    requires
        !is_nan(lo),
        !is_nan(hi),
        order_key(lo) <= order_key(hi),
    ensures
        clamp_bits(clamp_bits(x, lo, hi), lo, hi) == clamp_bits(x, lo, hi),
{
}

} // verus!
