//! Comparison of IEEE-754 binary64 values given by their bit patterns.
//!
//! The library holds no floating-point numbers. Measurements that the tool
//! takes as `f64` reach it as the bit pattern that `f64::to_bits` gives, and
//! every threshold of the rating rules is the bit pattern of its literal.
//! Two facts of IEEE-754 make the comparisons exact: a value is NaN exactly
//! when the magnitude bits exceed those of infinity, and for all other values
//! the numeric order is the order of the sign-magnitude integer that the bits
//! spell (both zeros spell 0).

use vstd::prelude::*;

verus! {

/// Two to the 63rd: the weight of the sign bit.
pub open spec fn sign_weight() -> int {
    0x8000_0000_0000_0000
}

/// The bit pattern of positive infinity.
pub open spec fn infinity_bits() -> int {
    0x7FF0_0000_0000_0000
}

/// The bits below the sign bit.
pub open spec fn magnitude(b: u64) -> int {
    if b < sign_weight() { b as int } else { b - sign_weight() }
}

/// Whether the bit pattern is a NaN.
pub open spec fn is_nan(b: u64) -> bool {
    magnitude(b) > infinity_bits()
}

/// The position of a non-NaN value on the number line: the sign-magnitude
/// integer of its bits.
pub open spec fn order_key(b: u64) -> int {
    if b < sign_weight() { b as int } else { -(b - sign_weight()) }
}

/// `a >= b` on the values the bit patterns encode.
pub open spec fn ge(a: u64, b: u64) -> bool {
    !is_nan(a) && !is_nan(b) && order_key(a) >= order_key(b)
}

/// `a > b` on the values the bit patterns encode.
pub open spec fn gt(a: u64, b: u64) -> bool {
    !is_nan(a) && !is_nan(b) && order_key(a) > order_key(b)
}

/// `a < b` on the values the bit patterns encode.
pub open spec fn lt(a: u64, b: u64) -> bool {
    gt(b, a)
}

/// `a <= b` on the values the bit patterns encode.
pub open spec fn le(a: u64, b: u64) -> bool {
    ge(b, a)
}

/// Whether `b` encodes NaN.
pub fn nan(b: u64) -> (r: bool)
    ensures
        r == is_nan(b),
{
    let m: u64 = if b < 0x8000_0000_0000_0000 { b } else { b - 0x8000_0000_0000_0000 };
    m > 0x7FF0_0000_0000_0000
}

fn key(b: u64) -> (k: i128)
    ensures
        k == order_key(b),
{
    if b < 0x8000_0000_0000_0000 {
        b as i128
    } else {
        -((b - 0x8000_0000_0000_0000) as i128)
    }
}

/// `a >= b` for the encoded values.
pub fn float_ge(a: u64, b: u64) -> (r: bool)
    ensures
        r == ge(a, b),
{
    !nan(a) && !nan(b) && key(a) >= key(b)
}

/// `a > b` for the encoded values.
pub fn float_gt(a: u64, b: u64) -> (r: bool)
    ensures
        r == gt(a, b),
{
    !nan(a) && !nan(b) && key(a) > key(b)
}

/// `a < b` for the encoded values.
pub fn float_lt(a: u64, b: u64) -> (r: bool)
    ensures
        r == lt(a, b),
{
    float_gt(b, a)
}

} // verus!
