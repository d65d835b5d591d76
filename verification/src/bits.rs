//! Real values held as the bit patterns of `f64` values, and their equality.
use vstd::prelude::*;

verus! {

/// The bits of a binary64 value that hold its exponent.
pub const EXPONENT_MASK: u64 = 0x7ff0_0000_0000_0000;

/// The bits of a binary64 value that hold its fraction.
pub const FRACTION_MASK: u64 = 0x000f_ffff_ffff_ffff;

/// The bits of a binary64 value other than its sign.
pub const MAGNITUDE_MASK: u64 = 0x7fff_ffff_ffff_ffff;

/// The bit pattern is a NaN: all exponent bits set and a non-zero fraction.
pub open spec fn is_nan_bits(b: u64) -> bool {
    b & EXPONENT_MASK == EXPONENT_MASK && b & FRACTION_MASK != 0
}

/// The bit pattern is a zero of either sign.
pub open spec fn is_zero_bits(b: u64) -> bool {
    b & MAGNITUDE_MASK == 0
}

/// The two bit patterns hold values that `==` on `f64` finds equal: neither
/// is a NaN, and they are the same pattern or both zeros.
pub open spec fn same_real(a: u64, b: u64) -> bool {
    !is_nan_bits(a) && !is_nan_bits(b) && (a == b || (is_zero_bits(a) && is_zero_bits(b)))
}

/// Each of the three components compares equal as `f64` values.
pub open spec fn same_reals3(a: [u64; 3], b: [u64; 3]) -> bool {
    same_real(a[0], b[0]) && same_real(a[1], b[1]) && same_real(a[2], b[2])
}

/// Compares two bit patterns as `f64` values compare with `==`.
pub fn real_eq(a: u64, b: u64) -> (r: bool)
    ensures
        r == same_real(a, b),
{
    let a_nan = a & EXPONENT_MASK == EXPONENT_MASK && a & FRACTION_MASK != 0;
    let b_nan = b & EXPONENT_MASK == EXPONENT_MASK && b & FRACTION_MASK != 0;
    !a_nan && !b_nan && (a == b || (a & MAGNITUDE_MASK == 0 && b & MAGNITUDE_MASK == 0))
}

/// Compares two triples of bit patterns component by component as `f64` values.
pub fn reals3_eq(a: &[u64; 3], b: &[u64; 3]) -> (r: bool)
    ensures
        r == same_reals3(*a, *b),
{
    real_eq(a[0], b[0]) && real_eq(a[1], b[1]) && real_eq(a[2], b[2])
}

} // verus!
