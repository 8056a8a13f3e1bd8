//! Operations on the bits of a number.

use vstd::prelude::*;

verus! {

/// The number of one bits of `x`.
pub open spec fn spec_count_ones(x: u64) -> u32
    decreases x,
{
    if x == 0 {
        0
    } else {
        (x % 2 + spec_count_ones(x / 2)) as u32
    }
}

/// `u32::count_ones`: the number of one bits.
#[verifier::external_body]
pub(crate) fn count_ones32(x: u32) -> (n: u32)
    ensures
        n == spec_count_ones(x as u64),
{
    x.count_ones()
}

/// `u64::count_ones`: the number of one bits.
#[verifier::external_body]
pub(crate) fn count_ones64(x: u64) -> (n: u32)
    ensures
        n == spec_count_ones(x),
{
    x.count_ones()
}

/// `a` rotated left by `b` bits: the bits that leave at the high end come
/// back at the low end. Only `b` modulo 32 counts.
pub open spec fn spec_rotl32(a: u32, b: u32) -> u32 {
    a.wrapping_shl(b) | a.wrapping_shr(32u32.wrapping_sub(b))
}

/// `a` rotated right by `b` bits. Only `b` modulo 32 counts.
pub open spec fn spec_rotr32(a: u32, b: u32) -> u32 {
    a.wrapping_shr(b) | a.wrapping_shl(32u32.wrapping_sub(b))
}

/// `a` rotated left by `b` bits. Only `b` modulo 64 counts.
pub open spec fn spec_rotl64(a: u64, b: u32) -> u64 {
    a.wrapping_shl(b) | a.wrapping_shr(64u32.wrapping_sub(b))
}

/// `a` rotated right by `b` bits. Only `b` modulo 64 counts.
pub open spec fn spec_rotr64(a: u64, b: u32) -> u64 {
    a.wrapping_shr(b) | a.wrapping_shl(64u32.wrapping_sub(b))
}

/// Rotates 32 bits left by `b`, taken modulo 32.
pub fn rotl32(a: u32, b: u32) -> (r: u32)
    ensures
        r == spec_rotl32(a, b),
{
    a.wrapping_shl(b) | a.wrapping_shr(32u32.wrapping_sub(b))
}

/// Rotates 32 bits right by `b`, taken modulo 32.
pub fn rotr32(a: u32, b: u32) -> (r: u32)
    ensures
        r == spec_rotr32(a, b),
{
    a.wrapping_shr(b) | a.wrapping_shl(32u32.wrapping_sub(b))
}

/// Rotates 64 bits left by `b`, taken modulo 64.
pub fn rotl64(a: u64, b: u32) -> (r: u64)
    ensures
        r == spec_rotl64(a, b),
{
    a.wrapping_shl(b) | a.wrapping_shr(64u32.wrapping_sub(b))
}

/// Rotates 64 bits right by `b`, taken modulo 64.
pub fn rotr64(a: u64, b: u32) -> (r: u64)
    ensures
        r == spec_rotr64(a, b),
{
    a.wrapping_shr(b) | a.wrapping_shl(64u32.wrapping_sub(b))
}

/// The four bytes of `x` in reverse order.
pub open spec fn spec_swap_bytes32(x: u32) -> u32 {
    ((x & 0xff) << 24) | ((x & 0xff00) << 8) | ((x >> 8) & 0xff00) | (x >> 24)
}

/// The eight bytes of `x` in reverse order.
pub open spec fn spec_swap_bytes64(x: u64) -> u64 {
    ((x & 0xff) << 56) | ((x & 0xff00) << 40) | ((x & 0xff_0000) << 24) | ((x & 0xff00_0000) << 8)
        | ((x >> 8) & 0xff00_0000) | ((x >> 24) & 0xff_0000) | ((x >> 40) & 0xff00) | (x >> 56)
}

/// The two bytes of `x` in reverse order.
pub open spec fn spec_swap_bytes16(x: u16) -> u16 {
    ((x & 0xff) << 8) | (x >> 8)
}

/// The two bytes in reverse order.
pub fn swap_bytes16(x: u16) -> (r: u16)
    ensures
        r == spec_swap_bytes16(x),
{
    ((x & 0xff) << 8) | (x >> 8)
}

/// The four bytes in reverse order.
pub fn swap_bytes32(x: u32) -> (r: u32)
    ensures
        r == spec_swap_bytes32(x),
{
    ((x & 0xff) << 24) | ((x & 0xff00) << 8) | ((x >> 8) & 0xff00) | (x >> 24)
}

/// The eight bytes in reverse order.
pub fn swap_bytes64(x: u64) -> (r: u64)
    ensures
        r == spec_swap_bytes64(x),
{
    ((x & 0xff) << 56) | ((x & 0xff00) << 40) | ((x & 0xff_0000) << 24) | ((x & 0xff00_0000) << 8)
        | ((x >> 8) & 0xff00_0000) | ((x >> 24) & 0xff_0000) | ((x >> 40) & 0xff00) | (x >> 56)
}

/// The upper 64 bits of the product of two signed 64-bit numbers.
pub open spec fn spec_mulhi64_s(a: i64, b: i64) -> i64 {
    (((a * b) as i128) >> 64) as i64
}

/// The upper 64 bits of the product of two unsigned 64-bit numbers.
pub open spec fn spec_mulhi64_u(a: u64, b: u64) -> u64 {
    (((a * b) as u128) >> 64) as u64
}

/// The upper 64 bits of the product of two signed numbers.
pub fn mulhi64_s(a: i64, b: i64) -> (r: i64)
    ensures
        r == spec_mulhi64_s(a, b),
{
    assert(-0x4000_0000_0000_0000_0000_0000_0000_0000 <= a * b
        <= 0x4000_0000_0000_0000_0000_0000_0000_0000) by (nonlinear_arith)
        requires
            -0x8000_0000_0000_0000 <= a <= 0x7fff_ffff_ffff_ffff,
            -0x8000_0000_0000_0000 <= b <= 0x7fff_ffff_ffff_ffff,
    ;
    let product: i128 = (a as i128) * (b as i128);
    #[verifier::truncate]
    ((product >> 64) as i64)
}

/// The upper 64 bits of the product of two unsigned numbers.
pub fn mulhi64_u(a: u64, b: u64) -> (r: u64)
    ensures
        r == spec_mulhi64_u(a, b),
{
    assert(0 <= a * b <= 0xffff_ffff_ffff_ffff * 0xffff_ffff_ffff_ffff) by (nonlinear_arith)
        requires
            0 <= a <= 0xffff_ffff_ffff_ffff,
            0 <= b <= 0xffff_ffff_ffff_ffff,
    ;
    let product: u128 = (a as u128) * (b as u128);
    #[verifier::truncate]
    ((product >> 64) as u64)
}

/// The quotient of `a` by `b` rounded towards zero, for `b` other than
/// zero.
pub open spec fn spec_div_trunc(a: int, b: int) -> int {
    if a >= 0 && b > 0 {
        a / b
    } else if a < 0 && b < 0 {
        (-a) / (-b)
    } else if a < 0 {
        -((-a) / b)
    } else {
        -(a / (-b))
    }
}

/// The remainder that goes with `spec_div_trunc`: it has the sign of `a`.
pub open spec fn spec_rem_trunc(a: int, b: int) -> int {
    if a >= 0 && b > 0 {
        a % b
    } else if a < 0 && b < 0 {
        -((-a) % (-b))
    } else if a < 0 {
        -((-a) % b)
    } else {
        a % (-b)
    }
}

/// The quotient rounded towards zero is no larger in size than the
/// dividend, and quotient and remainder make up the dividend.
pub proof fn lemma_div_trunc(a: int, b: int)
    requires
        b != 0,
    ensures
        a >= 0 ==> -a <= spec_div_trunc(a, b) <= a,
        a < 0 ==> a <= spec_div_trunc(a, b) <= -a,
        a >= 0 ==> 0 <= spec_rem_trunc(a, b) <= a,
        a < 0 ==> a <= spec_rem_trunc(a, b) <= 0,
        a == b * spec_div_trunc(a, b) + spec_rem_trunc(a, b),
{
    let x = if a < 0 {
        -a
    } else {
        a
    };
    let d = if b < 0 {
        -b
    } else {
        b
    };
    vstd::arithmetic::div_mod::lemma_fundamental_div_mod(x, d);
    vstd::arithmetic::div_mod::lemma_div_pos_is_pos(x, d);
    vstd::arithmetic::div_mod::lemma_mod_bound(x, d);
    assert(x / d <= x) by (nonlinear_arith)
        requires
            x >= 0,
            d >= 1,
            x == d * (x / d) + (x % d),
            0 <= x % d,
            x / d >= 0,
    ;
    assert(a == b * spec_div_trunc(a, b) + spec_rem_trunc(a, b)) by (nonlinear_arith)
        requires
            x == d * (x / d) + (x % d),
            x == (if a < 0 {
                -a
            } else {
                a
            }),
            d == (if b < 0 {
                -b
            } else {
                b
            }),
            b != 0,
            spec_div_trunc(a, b) == (if (a < 0) == (b < 0) {
                x / d
            } else {
                -(x / d)
            }),
            spec_rem_trunc(a, b) == (if a < 0 {
                -(x % d)
            } else {
                x % d
            }),
    ;
}

} // verus!
