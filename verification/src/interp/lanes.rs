//! The lanes of a vector register.
//!
//! The 128 bits of a vector are read as 16 lanes of 8 bits, 8 of 16, 4 of
//! 32 or 2 of 64. Lane 0 is the lowest bits, which in memory come first.

use crate::interp::value::VRegVal;
use vstd::prelude::*;

verus! {

/// Lane `i` of 16 lanes of 8 bits.
pub open spec fn spec_lane8(bits: u128, i: int) -> u8 {
    (bits >> ((8 * i) as u128)) as u8
}

/// Lane `i` of 8 lanes of 16 bits.
pub open spec fn spec_lane16(bits: u128, i: int) -> u16 {
    (bits >> ((16 * i) as u128)) as u16
}

/// Lane `i` of 4 lanes of 32 bits.
pub open spec fn spec_lane32(bits: u128, i: int) -> u32 {
    (bits >> ((32 * i) as u128)) as u32
}

/// Lane `i` of 2 lanes of 64 bits.
pub open spec fn spec_lane64(bits: u128, i: int) -> u64 {
    (bits >> ((64 * i) as u128)) as u64
}

/// The vector whose first `n` lanes of 8 bits are those of `lanes` and
/// whose other bits are zero.
pub open spec fn spec_from_lanes8(lanes: Seq<u8>, n: nat) -> u128
    decreases n,
{
    if n == 0 {
        0
    } else {
        spec_from_lanes8(lanes, (n - 1) as nat) | (
            (lanes[n - 1] as u128) << ((8 * (n - 1)) as u128)
        )
    }
}

/// The vector whose first `n` lanes of 16 bits are those of `lanes` and
/// whose other bits are zero.
pub open spec fn spec_from_lanes16(lanes: Seq<u16>, n: nat) -> u128
    decreases n,
{
    if n == 0 {
        0
    } else {
        spec_from_lanes16(lanes, (n - 1) as nat) | (
            (lanes[n - 1] as u128) << ((16 * (n - 1)) as u128)
        )
    }
}

/// The vector whose first `n` lanes of 32 bits are those of `lanes` and
/// whose other bits are zero.
pub open spec fn spec_from_lanes32(lanes: Seq<u32>, n: nat) -> u128
    decreases n,
{
    if n == 0 {
        0
    } else {
        spec_from_lanes32(lanes, (n - 1) as nat) | (
            (lanes[n - 1] as u128) << ((32 * (n - 1)) as u128)
        )
    }
}

/// The vector whose first `n` lanes of 64 bits are those of `lanes` and
/// whose other bits are zero.
pub open spec fn spec_from_lanes64(lanes: Seq<u64>, n: nat) -> u128
    decreases n,
{
    if n == 0 {
        0
    } else {
        spec_from_lanes64(lanes, (n - 1) as nat) | (
            (lanes[n - 1] as u128) << ((64 * (n - 1)) as u128)
        )
    }
}

/// The vector made of the first `n` of 16 lanes of 8 bits has those
/// lanes, and zero in every lane behind them.
pub proof fn lemma_lanes8_round_trip(lanes: Seq<u8>, n: nat)
    requires
        lanes.len() == 16,
        n <= 16,
    ensures
        forall|i: int|
            0 <= i < 16 ==> #[trigger] spec_lane8(spec_from_lanes8(lanes, n), i) == (if i < n {
                lanes[i]
            } else {
                0
            }),
    decreases n,
{
    if n == 0 {
        assert forall|i: int| 0 <= i < 16 implies #[trigger] spec_lane8(0, i) == 0 by {
            let k = (8 * i) as u128;
            assert((0u128 >> k) as u8 == 0) by (bit_vector);
        }
    } else {
        lemma_lanes8_round_trip(lanes, (n - 1) as nat);
        let low = spec_from_lanes8(lanes, (n - 1) as nat);
        let lane = lanes[n - 1];
        let s = (8 * (n - 1)) as u128;
        assert forall|i: int| 0 <= i < 16 implies #[trigger] spec_lane8(
            low | ((lane as u128) << s),
            i,
        ) == (if i < n {
            lanes[i]
        } else {
            0
        }) by {
            let k = (8 * i) as u128;
            assert(spec_lane8(low, n - 1) == 0);
            assert(spec_lane8(low, i) == (low >> k) as u8);
            assert(((low | ((lane as u128) << s)) >> k) as u8 == (if k == s {
                lane
            } else {
                (low >> k) as u8
            })) by (bit_vector)
                requires
                    k <= 120,
                    s <= 120,
                    k % 8 == 0,
                    s % 8 == 0,
                    (low >> s) as u8 == 0,
            ;
        }
    }
}

/// The vector made of the first `n` of 8 lanes of 16 bits has those
/// lanes, and zero in every lane behind them.
pub proof fn lemma_lanes16_round_trip(lanes: Seq<u16>, n: nat)
    requires
        lanes.len() == 8,
        n <= 8,
    ensures
        forall|i: int|
            0 <= i < 8 ==> #[trigger] spec_lane16(spec_from_lanes16(lanes, n), i) == (if i < n {
                lanes[i]
            } else {
                0
            }),
    decreases n,
{
    if n == 0 {
        assert forall|i: int| 0 <= i < 8 implies #[trigger] spec_lane16(0, i) == 0 by {
            let k = (16 * i) as u128;
            assert((0u128 >> k) as u16 == 0) by (bit_vector);
        }
    } else {
        lemma_lanes16_round_trip(lanes, (n - 1) as nat);
        let low = spec_from_lanes16(lanes, (n - 1) as nat);
        let lane = lanes[n - 1];
        let s = (16 * (n - 1)) as u128;
        assert forall|i: int| 0 <= i < 8 implies #[trigger] spec_lane16(
            low | ((lane as u128) << s),
            i,
        ) == (if i < n {
            lanes[i]
        } else {
            0
        }) by {
            let k = (16 * i) as u128;
            assert(spec_lane16(low, n - 1) == 0);
            assert(spec_lane16(low, i) == (low >> k) as u16);
            assert(((low | ((lane as u128) << s)) >> k) as u16 == (if k == s {
                lane
            } else {
                (low >> k) as u16
            })) by (bit_vector)
                requires
                    k <= 112,
                    s <= 112,
                    k % 16 == 0,
                    s % 16 == 0,
                    (low >> s) as u16 == 0,
            ;
        }
    }
}

/// The vector made of the first `n` of 4 lanes of 32 bits has those
/// lanes, and zero in every lane behind them.
pub proof fn lemma_lanes32_round_trip(lanes: Seq<u32>, n: nat)
    requires
        lanes.len() == 4,
        n <= 4,
    ensures
        forall|i: int|
            0 <= i < 4 ==> #[trigger] spec_lane32(spec_from_lanes32(lanes, n), i) == (if i < n {
                lanes[i]
            } else {
                0
            }),
    decreases n,
{
    if n == 0 {
        assert forall|i: int| 0 <= i < 4 implies #[trigger] spec_lane32(0, i) == 0 by {
            let k = (32 * i) as u128;
            assert((0u128 >> k) as u32 == 0) by (bit_vector);
        }
    } else {
        lemma_lanes32_round_trip(lanes, (n - 1) as nat);
        let low = spec_from_lanes32(lanes, (n - 1) as nat);
        let lane = lanes[n - 1];
        let s = (32 * (n - 1)) as u128;
        assert forall|i: int| 0 <= i < 4 implies #[trigger] spec_lane32(
            low | ((lane as u128) << s),
            i,
        ) == (if i < n {
            lanes[i]
        } else {
            0
        }) by {
            let k = (32 * i) as u128;
            assert(spec_lane32(low, n - 1) == 0);
            assert(spec_lane32(low, i) == (low >> k) as u32);
            assert(((low | ((lane as u128) << s)) >> k) as u32 == (if k == s {
                lane
            } else {
                (low >> k) as u32
            })) by (bit_vector)
                requires
                    k <= 96,
                    s <= 96,
                    k % 32 == 0,
                    s % 32 == 0,
                    (low >> s) as u32 == 0,
            ;
        }
    }
}

/// The vector made of the first `n` of 2 lanes of 64 bits has those
/// lanes, and zero in every lane behind them.
pub proof fn lemma_lanes64_round_trip(lanes: Seq<u64>, n: nat)
    requires
        lanes.len() == 2,
        n <= 2,
    ensures
        forall|i: int|
            0 <= i < 2 ==> #[trigger] spec_lane64(spec_from_lanes64(lanes, n), i) == (if i < n {
                lanes[i]
            } else {
                0
            }),
    decreases n,
{
    if n == 0 {
        assert forall|i: int| 0 <= i < 2 implies #[trigger] spec_lane64(0, i) == 0 by {
            let k = (64 * i) as u128;
            assert((0u128 >> k) as u64 == 0) by (bit_vector);
        }
    } else {
        lemma_lanes64_round_trip(lanes, (n - 1) as nat);
        let low = spec_from_lanes64(lanes, (n - 1) as nat);
        let lane = lanes[n - 1];
        let s = (64 * (n - 1)) as u128;
        assert forall|i: int| 0 <= i < 2 implies #[trigger] spec_lane64(
            low | ((lane as u128) << s),
            i,
        ) == (if i < n {
            lanes[i]
        } else {
            0
        }) by {
            let k = (64 * i) as u128;
            assert(spec_lane64(low, n - 1) == 0);
            assert(spec_lane64(low, i) == (low >> k) as u64);
            assert(((low | ((lane as u128) << s)) >> k) as u64 == (if k == s {
                lane
            } else {
                (low >> k) as u64
            })) by (bit_vector)
                requires
                    k <= 64,
                    s <= 64,
                    k % 64 == 0,
                    s % 64 == 0,
                    (low >> s) as u64 == 0,
            ;
        }
    }
}

impl VRegVal {
    /// The 16 lanes of 8 bits.
    pub fn get_u8x16(&self) -> (lanes: [u8; 16])
        ensures
            forall|j: int| 0 <= j < 16 ==> #[trigger] lanes@[j] == spec_lane8(self.bits, j),
    {
        let mut lanes = [0u8;16];
        let mut i: usize = 0;
        while i < 16
            invariant
                i <= 16,
                forall|j: int| 0 <= j < i ==> #[trigger] lanes@[j] == spec_lane8(self.bits, j),
            decreases 16 - i,
        {
            lanes[i] = #[verifier::truncate]
            ((self.bits >> ((8 * i) as u128)) as u8);
            i += 1;
        }
        lanes
    }

    /// The 8 lanes of 16 bits.
    pub fn get_u16x8(&self) -> (lanes: [u16; 8])
        ensures
            forall|j: int| 0 <= j < 8 ==> #[trigger] lanes@[j] == spec_lane16(self.bits, j),
    {
        let mut lanes = [0u16;8];
        let mut i: usize = 0;
        while i < 8
            invariant
                i <= 8,
                forall|j: int| 0 <= j < i ==> #[trigger] lanes@[j] == spec_lane16(self.bits, j),
            decreases 8 - i,
        {
            lanes[i] = #[verifier::truncate]
            ((self.bits >> ((16 * i) as u128)) as u16);
            i += 1;
        }
        lanes
    }

    /// The 4 lanes of 32 bits.
    pub fn get_u32x4(&self) -> (lanes: [u32; 4])
        ensures
            forall|j: int| 0 <= j < 4 ==> #[trigger] lanes@[j] == spec_lane32(self.bits, j),
    {
        let mut lanes = [0u32;4];
        let mut i: usize = 0;
        while i < 4
            invariant
                i <= 4,
                forall|j: int| 0 <= j < i ==> #[trigger] lanes@[j] == spec_lane32(self.bits, j),
            decreases 4 - i,
        {
            lanes[i] = #[verifier::truncate]
            ((self.bits >> ((32 * i) as u128)) as u32);
            i += 1;
        }
        lanes
    }

    /// The 2 lanes of 64 bits.
    pub fn get_u64x2(&self) -> (lanes: [u64; 2])
        ensures
            forall|j: int| 0 <= j < 2 ==> #[trigger] lanes@[j] == spec_lane64(self.bits, j),
    {
        let mut lanes = [0u64;2];
        let mut i: usize = 0;
        while i < 2
            invariant
                i <= 2,
                forall|j: int| 0 <= j < i ==> #[trigger] lanes@[j] == spec_lane64(self.bits, j),
            decreases 2 - i,
        {
            lanes[i] = #[verifier::truncate]
            ((self.bits >> ((64 * i) as u128)) as u64);
            i += 1;
        }
        lanes
    }

    /// Writes the 16 lanes of 8 bits.
    pub fn set_u8x16(&mut self, lanes: [u8; 16])
        ensures
            final(self).bits == spec_from_lanes8(lanes@, 16),
    {
        let mut bits: u128 = 0;
        let mut i: usize = 0;
        while i < 16
            invariant
                i <= 16,
                bits == spec_from_lanes8(lanes@, i as nat),
            decreases 16 - i,
        {
            bits = bits | ((lanes[i] as u128) << ((8 * i) as u128));
            i += 1;
        }
        self.bits = bits;
    }

    /// Writes the 8 lanes of 16 bits.
    pub fn set_u16x8(&mut self, lanes: [u16; 8])
        ensures
            final(self).bits == spec_from_lanes16(lanes@, 8),
    {
        let mut bits: u128 = 0;
        let mut i: usize = 0;
        while i < 8
            invariant
                i <= 8,
                bits == spec_from_lanes16(lanes@, i as nat),
            decreases 8 - i,
        {
            bits = bits | ((lanes[i] as u128) << ((16 * i) as u128));
            i += 1;
        }
        self.bits = bits;
    }

    /// Writes the 4 lanes of 32 bits.
    pub fn set_u32x4(&mut self, lanes: [u32; 4])
        ensures
            final(self).bits == spec_from_lanes32(lanes@, 4),
    {
        let mut bits: u128 = 0;
        let mut i: usize = 0;
        while i < 4
            invariant
                i <= 4,
                bits == spec_from_lanes32(lanes@, i as nat),
            decreases 4 - i,
        {
            bits = bits | ((lanes[i] as u128) << ((32 * i) as u128));
            i += 1;
        }
        self.bits = bits;
    }

    /// Writes the 2 lanes of 64 bits.
    pub fn set_u64x2(&mut self, lanes: [u64; 2])
        ensures
            final(self).bits == spec_from_lanes64(lanes@, 2),
    {
        let mut bits: u128 = 0;
        let mut i: usize = 0;
        while i < 2
            invariant
                i <= 2,
                bits == spec_from_lanes64(lanes@, i as nat),
            decreases 2 - i,
        {
            bits = bits | ((lanes[i] as u128) << ((64 * i) as u128));
            i += 1;
        }
        self.bits = bits;
    }
}

/// A lane of 8 bits as a signed number.
pub fn signed8(x: u8) -> (r: i8)
    ensures
        r == x as i8,
{
    #[verifier::truncate]
    (x as i8)
}

/// A lane of 16 bits as a signed number.
pub fn signed16(x: u16) -> (r: i16)
    ensures
        r == x as i16,
{
    #[verifier::truncate]
    (x as i16)
}

/// A lane of 32 bits as a signed number.
pub fn signed32(x: u32) -> (r: i32)
    ensures
        r == x as i32,
{
    #[verifier::truncate]
    (x as i32)
}

/// A lane of 64 bits as a signed number.
pub fn signed64(x: u64) -> (r: i64)
    ensures
        r == x as i64,
{
    #[verifier::truncate]
    (x as i64)
}

/// The bits of a signed number of 8 bits.
pub fn bits8(x: i8) -> (r: u8)
    ensures
        r == x as u8,
{
    #[verifier::truncate]
    (x as u8)
}

/// The bits of a signed number of 16 bits.
pub fn bits16(x: i16) -> (r: u16)
    ensures
        r == x as u16,
{
    #[verifier::truncate]
    (x as u16)
}

/// The bits of a signed number of 32 bits.
pub fn bits32(x: i32) -> (r: u32)
    ensures
        r == x as u32,
{
    #[verifier::truncate]
    (x as u32)
}

/// The bits of a signed number of 64 bits.
pub fn bits64(x: i64) -> (r: u64)
    ensures
        r == x as u64,
{
    #[verifier::truncate]
    (x as u64)
}

/// `v` kept within the bounds of a signed number of 8 bits.
pub open spec fn spec_clamp_i8(v: int) -> i8 {
    if v < -128 {
        i8::MIN
    } else if v > 127 {
        127
    } else {
        v as i8
    }
}

/// `v` kept within the bounds of an unsigned number of 8 bits.
pub open spec fn spec_clamp_u8(v: int) -> u8 {
    if v < 0 {
        0
    } else if v > 255 {
        255
    } else {
        v as u8
    }
}

/// `v` kept within the bounds of a signed number of 16 bits.
pub open spec fn spec_clamp_i16(v: int) -> i16 {
    if v < -32768 {
        i16::MIN
    } else if v > 32767 {
        32767
    } else {
        v as i16
    }
}

/// `v` kept within the bounds of an unsigned number of 16 bits.
pub open spec fn spec_clamp_u16(v: int) -> u16 {
    if v < 0 {
        0
    } else if v > 65535 {
        65535
    } else {
        v as u16
    }
}

/// `v` kept within the bounds of a signed number of 32 bits.
pub open spec fn spec_clamp_i32(v: int) -> i32 {
    if v < -0x8000_0000 {
        i32::MIN
    } else if v > 0x7fff_ffff {
        0x7fff_ffff
    } else {
        v as i32
    }
}

/// `v` kept within the bounds of an unsigned number of 32 bits.
pub open spec fn spec_clamp_u32(v: int) -> u32 {
    if v < 0 {
        0
    } else if v > 0xffff_ffff {
        0xffff_ffff
    } else {
        v as u32
    }
}

/// The number kept within the bounds of a signed byte.
pub fn clamp_i8(v: i32) -> (r: i8)
    ensures
        r == spec_clamp_i8(v as int),
{
    if v < -128 {
        -128
    } else if v > 127 {
        127
    } else {
        v as i8
    }
}

/// The number kept within the bounds of an unsigned byte.
pub fn clamp_u8(v: i32) -> (r: u8)
    ensures
        r == spec_clamp_u8(v as int),
{
    if v < 0 {
        0
    } else if v > 255 {
        255
    } else {
        v as u8
    }
}

/// The number kept within the bounds of a signed number of 16 bits.
pub fn clamp_i16(v: i32) -> (r: i16)
    ensures
        r == spec_clamp_i16(v as int),
{
    if v < -32768 {
        -32768
    } else if v > 32767 {
        32767
    } else {
        v as i16
    }
}

/// The number kept within the bounds of an unsigned number of 16 bits.
pub fn clamp_u16(v: i32) -> (r: u16)
    ensures
        r == spec_clamp_u16(v as int),
{
    if v < 0 {
        0
    } else if v > 65535 {
        65535
    } else {
        v as u16
    }
}

/// The number kept within the bounds of a signed number of 32 bits.
pub fn clamp_i32(v: i64) -> (r: i32)
    ensures
        r == spec_clamp_i32(v as int),
{
    if v < -0x8000_0000 {
        -0x8000_0000
    } else if v > 0x7fff_ffff {
        0x7fff_ffff
    } else {
        v as i32
    }
}

/// The number kept within the bounds of an unsigned number of 32 bits.
pub fn clamp_u32(v: i64) -> (r: u32)
    ensures
        r == spec_clamp_u32(v as int),
{
    if v < 0 {
        0
    } else if v > 0xffff_ffff {
        0xffff_ffff
    } else {
        v as u32
    }
}

/// The product of two signed fixed-point numbers with 15 bits of
/// fraction, rounded to nearest and kept within the bounds of 16 bits.
pub open spec fn spec_qmulr(x: i16, y: i16) -> i16 {
    spec_clamp_i16((((x * y + 0x4000) as i32) >> 15) as int)
}

/// Multiplies two signed fixed-point numbers with 15 bits of fraction,
/// rounding to nearest and keeping within the bounds of 16 bits.
pub fn qmulr(x: i16, y: i16) -> (r: i16)
    ensures
        r == spec_qmulr(x, y),
{
    assert(-0x4000_0000 <= x * y <= 0x4000_0000) by (nonlinear_arith)
        requires
            -0x8000 <= x <= 0x7fff,
            -0x8000 <= y <= 0x7fff,
    ;
    let product: i32 = (x as i32) * (y as i32) + 0x4000;
    clamp_i16(product >> 15)
}

/// An unsigned number of 64 bits kept within 32 bits.
pub open spec fn spec_unarrow(v: u64) -> u32 {
    if v > 0xffff_ffff {
        0xffff_ffff
    } else {
        v as u32
    }
}

/// Keeps an unsigned number of 64 bits within 32 bits.
pub fn unarrow(v: u64) -> (r: u32)
    ensures
        r == spec_unarrow(v),
{
    if v > 0xffff_ffff {
        0xffff_ffff
    } else {
        v as u32
    }
}

/// The highest bits of the first `n` lanes of 8 bits: bit `i` is the
/// highest bit of lane `i`.
pub open spec fn spec_bitmask8(bits: u128, n: nat) -> u32
    decreases n,
{
    if n == 0 {
        0
    } else {
        spec_bitmask8(bits, (n - 1) as nat) | (((spec_lane8(bits, n - 1) >> 7) as u32) << ((n
            - 1) as u32))
    }
}

/// The highest bits of the first `n` lanes of 16 bits: bit `i` is the
/// highest bit of lane `i`.
pub open spec fn spec_bitmask16(bits: u128, n: nat) -> u32
    decreases n,
{
    if n == 0 {
        0
    } else {
        spec_bitmask16(bits, (n - 1) as nat) | (((spec_lane16(bits, n - 1) >> 15) as u32) << ((n
            - 1) as u32))
    }
}

/// The highest bits of the first `n` lanes of 32 bits: bit `i` is the
/// highest bit of lane `i`.
pub open spec fn spec_bitmask32(bits: u128, n: nat) -> u32
    decreases n,
{
    if n == 0 {
        0
    } else {
        spec_bitmask32(bits, (n - 1) as nat) | (((spec_lane32(bits, n - 1) >> 31) as u32) << ((n
            - 1) as u32))
    }
}

/// The highest bits of the first `n` lanes of 64 bits: bit `i` is the
/// highest bit of lane `i`.
pub open spec fn spec_bitmask64(bits: u128, n: nat) -> u32
    decreases n,
{
    if n == 0 {
        0
    } else {
        spec_bitmask64(bits, (n - 1) as nat) | (((spec_lane64(bits, n - 1) >> 63) as u32) << ((n
            - 1) as u32))
    }
}

/// Does each byte of a shuffle mask name one of the 32 lanes of two
/// vectors?
pub fn shuffle_mask_ok(mask: u128) -> (ok: bool)
    ensures
        ok == (forall|j: int| 0 <= j < 16 ==> spec_lane8(mask, j) < 32),
{
    let lanes = (VRegVal { bits: mask }).get_u8x16();
    let mut i: usize = 0;
    while i < 16
        invariant
            i <= 16,
            forall|j: int| 0 <= j < 16 ==> #[trigger] lanes@[j] == spec_lane8(mask, j),
            forall|j: int| 0 <= j < i ==> spec_lane8(mask, j) < 32,
        decreases 16 - i,
    {
        if lanes[i] >= 32 {
            assert(spec_lane8(mask, i as int) >= 32);
            return false;
        }
        i += 1;
    }
    true
}

} // verus!
