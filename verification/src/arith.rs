//! Two's-complement conversions between `u128` and `i128`, as the contracts
//! perform them with `as`, and the fixed-point units of the system.
use vstd::prelude::*;

verus! {

/// One unit with six decimals.
pub const E6: u128 = 1_000_000u128;

/// One unit with twelve decimals.
pub const E12: u128 = 1_000_000_000_000u128;

/// The `i128` that has the same bits as `x`.
pub open spec fn wrap_i128(x: u128) -> int {
    if x <= i128::MAX {
        x as int
    } else {
        x - 0x1_0000_0000_0000_0000_0000_0000_0000_0000int
    }
}

/// The `u128` that has the same bits as `x`.
pub open spec fn wrap_u128(x: int) -> int {
    if x >= 0 {
        x
    } else {
        x + 0x1_0000_0000_0000_0000_0000_0000_0000_0000int
    }
}

/// Reinterprets the bits of `x` as an `i128`.
pub fn u128_bits_as_i128(x: u128) -> (r: i128)
    ensures
        r as int == wrap_i128(x),
{
    let r = x as i128;
    assert(x <= 0x7fff_ffff_ffff_ffff_ffff_ffff_ffff_ffffu128 ==> r == x) by (bit_vector)
        requires
            r == x as i128,
    ;
    assert(x > 0x7fff_ffff_ffff_ffff_ffff_ffff_ffff_ffffu128 ==> r
        == x - 0x1_0000_0000_0000_0000_0000_0000_0000_0000int) by (bit_vector)
        requires
            r == x as i128,
    ;
    r
}

/// Reinterprets the bits of `x` as a `u128`.
pub fn i128_bits_as_u128(x: i128) -> (r: u128)
    ensures
        r as int == wrap_u128(x as int),
{
    let r = x as u128;
    assert(x >= 0 ==> r == x) by (bit_vector)
        requires
            r == x as u128,
    ;
    assert(x < 0 ==> r == x + 0x1_0000_0000_0000_0000_0000_0000_0000_0000int) by (bit_vector)
        requires
            r == x as u128,
    ;
    r
}

} // verus!
