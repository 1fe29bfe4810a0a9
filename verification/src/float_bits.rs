use vstd::prelude::*;

verus! {

/// Bit-level views of IEEE-754 values, stated and computed over the raw
/// patterns this library stores.
///
/// A 32-bit pattern is `sign (1) | exponent (8) | fraction (23)`; a
/// 64-bit pattern is `sign (1) | exponent (11) | fraction (52)`. A value
/// is finite when its exponent field is not all ones, a NaN when the
/// exponent is all ones and the fraction is not zero. On non-NaN values
/// the numeric order is: any negative below any positive (the two zeros
/// being equal), magnitudes ascending with the cleared-sign pattern for
/// positives and descending for negatives.
///
/// The random constructors decide with these predicates whether a
/// sampling range or deviation parameter is usable, instead of letting
/// the sampler die on it.

/// The pattern with the sign bit cleared.
pub open spec fn magnitude32(b: u32) -> u32 {
    b & 0x7FFF_FFFF
}

/// The sign bit.
pub open spec fn negative32(b: u32) -> bool {
    b >= 0x8000_0000
}

/// Zero, subnormal or normal — not an infinity, not a NaN.
pub open spec fn finite32(b: u32) -> bool {
    magnitude32(b) < 0x7F80_0000
}

/// Exponent all ones with a nonzero fraction.
pub open spec fn nan32(b: u32) -> bool {
    magnitude32(b) > 0x7F80_0000
}

/// The strict numeric order of two 32-bit patterns; false whenever
/// either is a NaN, and false on the pair of zeros, which compare equal.
pub open spec fn lt32(a: u32, b: u32) -> bool {
    if nan32(a) || nan32(b) {
        false
    } else if negative32(a) && negative32(b) {
        magnitude32(b) < magnitude32(a)
    } else if negative32(a) {
        !(magnitude32(a) == 0 && magnitude32(b) == 0)
    } else if negative32(b) {
        false
    } else {
        magnitude32(a) < magnitude32(b)
    }
}

/// The pattern with the sign bit cleared.
pub open spec fn magnitude64(b: u64) -> u64 {
    b & 0x7FFF_FFFF_FFFF_FFFF
}

/// The sign bit.
pub open spec fn negative64(b: u64) -> bool {
    b >= 0x8000_0000_0000_0000
}

/// Zero, subnormal or normal — not an infinity, not a NaN.
pub open spec fn finite64(b: u64) -> bool {
    magnitude64(b) < 0x7FF0_0000_0000_0000
}

/// Exponent all ones with a nonzero fraction.
pub open spec fn nan64(b: u64) -> bool {
    magnitude64(b) > 0x7FF0_0000_0000_0000
}

/// The strict numeric order of two 64-bit patterns.
pub open spec fn lt64(a: u64, b: u64) -> bool {
    if nan64(a) || nan64(b) {
        false
    } else if negative64(a) && negative64(b) {
        magnitude64(b) < magnitude64(a)
    } else if negative64(a) {
        !(magnitude64(a) == 0 && magnitude64(b) == 0)
    } else if negative64(b) {
        false
    } else {
        magnitude64(a) < magnitude64(b)
    }
}

/// Whether a 32-bit pattern is a finite value.
pub fn is_finite32(b: u32) -> (r: bool)
    ensures
        r == finite32(b),
{
    (b & 0x7FFF_FFFF) < 0x7F80_0000
}

/// Whether a 32-bit pattern is a NaN.
pub fn is_nan32(b: u32) -> (r: bool)
    ensures
        r == nan32(b),
{
    (b & 0x7FFF_FFFF) > 0x7F80_0000
}

/// Strict numeric order of two 32-bit patterns.
pub fn less_than32(a: u32, b: u32) -> (r: bool)
    ensures
        r == lt32(a, b),
{
    let ma = a & 0x7FFF_FFFF;
    let mb = b & 0x7FFF_FFFF;
    if ma > 0x7F80_0000 || mb > 0x7F80_0000 {
        false
    } else if a >= 0x8000_0000 && b >= 0x8000_0000 {
        mb < ma
    } else if a >= 0x8000_0000 {
        !(ma == 0 && mb == 0)
    } else if b >= 0x8000_0000 {
        false
    } else {
        ma < mb
    }
}

/// Whether a 64-bit pattern is a finite value.
pub fn is_finite64(b: u64) -> (r: bool)
    ensures
        r == finite64(b),
{
    (b & 0x7FFF_FFFF_FFFF_FFFF) < 0x7FF0_0000_0000_0000
}

/// Whether a 64-bit pattern is a NaN.
pub fn is_nan64(b: u64) -> (r: bool)
    ensures
        r == nan64(b),
{
    (b & 0x7FFF_FFFF_FFFF_FFFF) > 0x7FF0_0000_0000_0000
}

/// Strict numeric order of two 64-bit patterns.
pub fn less_than64(a: u64, b: u64) -> (r: bool)
    ensures
        r == lt64(a, b),
{
    let ma = a & 0x7FFF_FFFF_FFFF_FFFF;
    let mb = b & 0x7FFF_FFFF_FFFF_FFFF;
    if ma > 0x7FF0_0000_0000_0000 || mb > 0x7FF0_0000_0000_0000 {
        false
    } else if a >= 0x8000_0000_0000_0000 && b >= 0x8000_0000_0000_0000 {
        mb < ma
    } else if a >= 0x8000_0000_0000_0000 {
        !(ma == 0 && mb == 0)
    } else if b >= 0x8000_0000_0000_0000 {
        false
    } else {
        ma < mb
    }
}

/// A usable uniform sampling range: two finite bounds in strictly
/// ascending numeric order. The uniform sampler dies on anything else.
pub open spec fn uniform_range_ok32(low: u32, high: u32) -> bool {
    finite32(low) && finite32(high) && lt32(low, high)
}

/// Whether a 32-bit uniform sampling range is usable.
pub fn uniform_range_valid32(low: u32, high: u32) -> (r: bool)
    ensures
        r == uniform_range_ok32(low, high),
{
    is_finite32(low) && is_finite32(high) && less_than32(low, high)
}

/// A usable uniform sampling range over 64-bit patterns.
pub open spec fn uniform_range_ok64(low: u64, high: u64) -> bool {
    finite64(low) && finite64(high) && lt64(low, high)
}

/// Whether a 64-bit uniform sampling range is usable.
pub fn uniform_range_valid64(low: u64, high: u64) -> (r: bool)
    ensures
        r == uniform_range_ok64(low, high),
{
    is_finite64(low) && is_finite64(high) && less_than64(low, high)
}

/// A usable normal-distribution deviation: the sampler rejects a
/// non-finite standard deviation.
pub fn deviation_valid32(std_dev: u32) -> (r: bool)
    ensures
        r == finite32(std_dev),
{
    is_finite32(std_dev)
}

/// A usable normal-distribution deviation over a 64-bit pattern.
pub fn deviation_valid64(std_dev: u64) -> (r: bool)
    ensures
        r == finite64(std_dev),
{
    is_finite64(std_dev)
}

} // verus!
