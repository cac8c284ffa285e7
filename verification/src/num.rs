//! Clamped stat arithmetic.
//!
//! Every derived stat (attack, defense, speed, hit points) is computed in
//! wide integers and clamped into a fixed symmetric range before it is
//! stored. In every state the game can actually reach the clamp is the
//! identity, and it makes all stat arithmetic defensively total: no
//! overflow is possible no matter how a caller fills the public fields.

use vstd::prelude::*;

verus! {

/// The largest magnitude a derived stat may take.
pub const STAT_CAP: i32 = 1000000;

/// Clamp a mathematical integer into `-STAT_CAP ..= STAT_CAP`.
pub open spec fn clamp_stat(v: int) -> int {
    if v < -1000000 {
        -1000000
    } else if v > 1000000 {
        1000000
    } else {
        v
    }
}

/// Executable form of `clamp_stat` on a wide intermediate value.
pub fn clamp_i128(v: i128) -> (r: i32)
    ensures
        r as int == clamp_stat(v as int),
{
    if v < -1000000i128 {
        -1000000i32
    } else if v > 1000000i128 {
        1000000i32
    } else {
        v as i32
    }
}

/// Clamped addition of two stat values.
pub fn add_clamped(a: i32, b: i32) -> (r: i32)
    ensures
        r as int == clamp_stat(a + b),
{
    clamp_i128(a as i128 + b as i128)
}

/// Clamped subtraction of two stat values.
pub fn sub_clamped(a: i32, b: i32) -> (r: i32)
    ensures
        r as int == clamp_stat(a - b),
{
    clamp_i128(a as i128 - b as i128)
}

/// The smaller of two values, as the spec-level `min` on integers.
pub fn min_i32(a: i32, b: i32) -> (r: i32)
    ensures
        r as int == vstd::math::min(a as int, b as int),
{
    if a < b {
        a
    } else {
        b
    }
}

} // verus!
