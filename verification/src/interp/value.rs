//! The contents of registers.
//!
//! A register cell holds a fixed number of bits that are read under
//! several typed views. The bits are those of the cell's bytes read in
//! little-endian order, on every host: a narrow write changes the low
//! bits and leaves the others as they were.

use vstd::prelude::*;
use vstd::std_specs::convert::FromSpecImpl;

verus! {

/// The kind of a register.
#[derive(Clone, Copy, Debug, PartialEq, Eq, Structural)]
pub enum RegType {
    /// An integer register.
    XReg,
    /// A float register.
    FReg,
    /// A vector register.
    VReg,
}

/// A value that a register can hold.
#[derive(Clone, Copy, Debug, PartialEq, Eq, Structural)]
pub enum Val {
    /// The value of an integer register.
    XReg(XRegVal),
    /// The value of a float register.
    FReg(FRegVal),
    /// The value of a vector register.
    VReg(VRegVal),
}

/// The upper 32 bits of a cell.
pub open spec fn spec_high32(bits: u64) -> u64 {
    bits & 0xffff_ffff_0000_0000
}

/// The cell `bits` with its lower 32 bits replaced by `low`.
pub open spec fn spec_with_low32(bits: u64, low: u32) -> u64 {
    (bits & 0xffff_ffff_0000_0000) | (low as u64)
}

/// Replacing the lower half sets the lower half and keeps the upper.
pub proof fn lemma_with_low32(bits: u64, low: u32)
    ensures
        spec_with_low32(bits, low) as u32 == low,
        spec_high32(spec_with_low32(bits, low)) == spec_high32(bits),
        spec_with_low32(bits, bits as u32) == bits,
{
    assert((((bits & 0xffff_ffff_0000_0000) | (low as u64)) as u32) == low) by (bit_vector);
    assert(((bits & 0xffff_ffff_0000_0000) | (low as u64)) & 0xffff_ffff_0000_0000 == bits
        & 0xffff_ffff_0000_0000) by (bit_vector);
    assert((bits & 0xffff_ffff_0000_0000) | ((bits as u32) as u64) == bits) by (bit_vector);
}

/// The value of an integer register: 64 bits.
#[derive(Clone, Copy, Debug, PartialEq, Eq, Structural)]
pub struct XRegVal {
    pub bits: u64,
}

impl Default for XRegVal {
    /// The value with all bits zero.
    fn default() -> (val: Self)
        ensures
            val.bits == 0,
    {
        XRegVal { bits: 0 }
    }
}

impl XRegVal {
    /// The lower half as a signed number.
    pub open spec fn spec_get_i32(&self) -> i32 {
        self.bits as i32
    }

    /// The lower half as an unsigned number.
    pub open spec fn spec_get_u32(&self) -> u32 {
        self.bits as u32
    }

    /// All bits as a signed number.
    pub open spec fn spec_get_i64(&self) -> i64 {
        self.bits as i64
    }

    /// All bits as an unsigned number.
    pub open spec fn spec_get_u64(&self) -> u64 {
        self.bits
    }

    /// The cell with all bits zero.
    pub fn zero() -> (val: Self)
        ensures
            val.bits == 0,
    {
        XRegVal { bits: 0 }
    }

    /// A value whose lower half holds `x`; the upper half is zero.
    pub fn new_i32(x: i32) -> (val: Self)
        ensures
            val.bits == spec_with_low32(0, x as u32),
            val.spec_get_i32() == x,
    {
        let mut val = XRegVal::zero();
        val.set_i32(x);
        val
    }

    /// A value whose lower half holds `x`; the upper half is zero.
    pub fn new_u32(x: u32) -> (val: Self)
        ensures
            val.bits == spec_with_low32(0, x),
            val.spec_get_u32() == x,
    {
        let mut val = XRegVal::zero();
        val.set_u32(x);
        val
    }

    /// A value that holds `x`.
    pub fn new_i64(x: i64) -> (val: Self)
        ensures
            val.bits == x as u64,
            val.spec_get_i64() == x,
    {
        let mut val = XRegVal::zero();
        val.set_i64(x);
        val
    }

    /// A value that holds `x`.
    pub fn new_u64(x: u64) -> (val: Self)
        ensures
            val.bits == x,
    {
        let mut val = XRegVal::zero();
        val.set_u64(x);
        val
    }

    /// A cell that holds an address.
    pub fn new_ptr(ptr: u64) -> (val: Self)
        ensures
            val.bits == ptr,
    {
        let mut val = XRegVal::zero();
        val.set_ptr(ptr);
        val
    }

    /// The lower half as a signed number.
    #[verifier::when_used_as_spec(spec_get_i32)]
    pub fn get_i32(&self) -> (x: i32)
        ensures
            x == self.spec_get_i32(),
    {
        #[verifier::truncate]
        (self.bits as i32)
    }

    /// The lower half as an unsigned number.
    #[verifier::when_used_as_spec(spec_get_u32)]
    pub fn get_u32(&self) -> (x: u32)
        ensures
            x == self.spec_get_u32(),
    {
        #[verifier::truncate]
        (self.bits as u32)
    }

    /// The value as a signed number.
    #[verifier::when_used_as_spec(spec_get_i64)]
    pub fn get_i64(&self) -> (x: i64)
        ensures
            x == self.spec_get_i64(),
    {
        #[verifier::truncate]
        (self.bits as i64)
    }

    /// The value as an unsigned number.
    #[verifier::when_used_as_spec(spec_get_u64)]
    pub fn get_u64(&self) -> (x: u64)
        ensures
            x == self.spec_get_u64(),
    {
        self.bits
    }

    /// The cell read as an address.
    pub fn get_ptr(&self) -> (ptr: u64)
        ensures
            ptr == self.bits,
    {
        self.bits
    }

    /// Writes the lower half and keeps the upper.
    pub fn set_i32(&mut self, x: i32)
        ensures
            final(self).bits == spec_with_low32(old(self).bits, x as u32),
            final(self).spec_get_i32() == x,
            spec_high32(final(self).bits) == spec_high32(old(self).bits),
    {
        let low = #[verifier::truncate]
        (x as u32);
        proof {
            lemma_with_low32(self.bits, low);
            assert((low as i32) == x) by (bit_vector)
                requires
                    low == x as u32,
            ;
            let b = spec_with_low32(self.bits, low);
            assert((b as i32) == ((b as u32) as i32)) by (bit_vector);
        }
        self.bits = (self.bits & 0xffff_ffff_0000_0000) | (low as u64);
    }

    /// Writes the lower half and keeps the upper.
    pub fn set_u32(&mut self, x: u32)
        ensures
            final(self).bits == spec_with_low32(old(self).bits, x),
            final(self).spec_get_u32() == x,
            spec_high32(final(self).bits) == spec_high32(old(self).bits),
    {
        proof {
            lemma_with_low32(self.bits, x);
        }
        self.bits = (self.bits & 0xffff_ffff_0000_0000) | (x as u64);
    }

    /// Writes `x` to the whole value.
    pub fn set_i64(&mut self, x: i64)
        ensures
            final(self).bits == x as u64,
            final(self).spec_get_i64() == x,
    {
        proof {
            assert(((x as u64) as i64) == x) by (bit_vector);
        }
        self.bits = #[verifier::truncate]
        (x as u64);
    }

    /// Writes `x` to the whole value.
    pub fn set_u64(&mut self, x: u64)
        ensures
            final(self).bits == x,
    {
        self.bits = x;
    }

    /// Writes an address.
    pub fn set_ptr(&mut self, ptr: u64)
        ensures
            final(self).bits == ptr,
    {
        self.bits = ptr;
    }
}

/// The value of a float register: 64 bits that hold the bits of a
/// single-precision number in the lower half or those of a
/// double-precision number.
#[derive(Clone, Copy, Debug, PartialEq, Eq, Structural)]
pub struct FRegVal {
    pub bits: u64,
}

impl Default for FRegVal {
    /// The value with all bits zero.
    fn default() -> (val: Self)
        ensures
            val.bits == 0,
    {
        FRegVal { bits: 0 }
    }
}

impl FRegVal {
    /// The cell with all bits zero.
    pub fn zero() -> (val: Self)
        ensures
            val.bits == 0,
    {
        FRegVal { bits: 0 }
    }

    /// A cell that holds the bits of a single-precision number.
    pub fn new_f32_bits(f: u32) -> (val: Self)
        ensures
            val.bits == spec_with_low32(0, f),
            val.bits as u32 == f,
    {
        let mut val = FRegVal::zero();
        val.set_f32_bits(f);
        val
    }

    /// A cell that holds the bits of a double-precision number.
    pub fn new_f64_bits(f: u64) -> (val: Self)
        ensures
            val.bits == f,
    {
        FRegVal { bits: f }
    }

    /// The bits of the single-precision number in the cell.
    pub fn get_f32_bits(&self) -> (f: u32)
        ensures
            f == self.bits as u32,
    {
        #[verifier::truncate]
        (self.bits as u32)
    }

    /// The bits of the double-precision number in the cell.
    pub fn get_f64_bits(&self) -> (f: u64)
        ensures
            f == self.bits,
    {
        self.bits
    }

    /// Writes the bits of a single-precision number to the lower half and
    /// keeps the upper.
    pub fn set_f32_bits(&mut self, f: u32)
        ensures
            final(self).bits == spec_with_low32(old(self).bits, f),
            final(self).bits as u32 == f,
            spec_high32(final(self).bits) == spec_high32(old(self).bits),
    {
        proof {
            lemma_with_low32(self.bits, f);
        }
        self.bits = (self.bits & 0xffff_ffff_0000_0000) | (f as u64);
    }

    /// Writes the bits of a double-precision number.
    pub fn set_f64_bits(&mut self, f: u64)
        ensures
            final(self).bits == f,
    {
        self.bits = f;
    }
}

/// The value of a vector register: 128 bits.
#[derive(Clone, Copy, Debug, PartialEq, Eq, Structural)]
pub struct VRegVal {
    pub bits: u128,
}

impl Default for VRegVal {
    /// The value with all bits zero.
    fn default() -> (val: Self)
        ensures
            val.bits == 0,
    {
        VRegVal { bits: 0 }
    }
}

impl VRegVal {
    /// A value that holds `i`.
    pub fn new_u128(i: u128) -> (val: Self)
        ensures
            val.bits == i,
    {
        let mut val = VRegVal { bits: 0 };
        val.set_u128(i);
        val
    }

    /// The value as one number of 128 bits.
    pub fn get_u128(&self) -> (i: u128)
        ensures
            i == self.bits,
    {
        self.bits
    }

    /// Writes `val` to the whole value.
    pub fn set_u128(&mut self, val: u128)
        ensures
            final(self).bits == val,
    {
        self.bits = val;
    }
}

impl From<XRegVal> for Val {
    /// The value of an integer register as a value.
    fn from(value: XRegVal) -> (val: Val) {
        Val::XReg(value)
    }
}

impl FromSpecImpl<XRegVal> for Val {
    open spec fn obeys_from_spec() -> bool {
        true
    }

    open spec fn from_spec(value: XRegVal) -> Val {
        Val::XReg(value)
    }
}

impl From<FRegVal> for Val {
    /// The value of a float register as a value.
    fn from(value: FRegVal) -> (val: Val) {
        Val::FReg(value)
    }
}

impl FromSpecImpl<FRegVal> for Val {
    open spec fn obeys_from_spec() -> bool {
        true
    }

    open spec fn from_spec(value: FRegVal) -> Val {
        Val::FReg(value)
    }
}

impl From<VRegVal> for Val {
    /// The value of a vector register as a value.
    fn from(value: VRegVal) -> (val: Val) {
        Val::VReg(value)
    }
}

impl FromSpecImpl<VRegVal> for Val {
    open spec fn obeys_from_spec() -> bool {
        true
    }

    open spec fn from_spec(value: VRegVal) -> Val {
        Val::VReg(value)
    }
}

impl From<u64> for Val {
    /// An integer register value that holds the number.
    fn from(value: u64) -> (val: Val) {
        Val::XReg(XRegVal::new_u64(value))
    }
}

impl FromSpecImpl<u64> for Val {
    open spec fn obeys_from_spec() -> bool {
        true
    }

    open spec fn from_spec(value: u64) -> Val {
        Val::XReg(XRegVal { bits: value })
    }
}

impl From<u32> for Val {
    /// An integer register value whose lower half holds the number; the
    /// upper half is zero.
    fn from(value: u32) -> (val: Val) {
        Val::XReg(XRegVal::new_u32(value))
    }
}

impl FromSpecImpl<u32> for Val {
    open spec fn obeys_from_spec() -> bool {
        true
    }

    open spec fn from_spec(value: u32) -> Val {
        Val::XReg(XRegVal { bits: spec_with_low32(0, value) })
    }
}

impl From<i64> for Val {
    /// An integer register value that holds the number.
    fn from(value: i64) -> (val: Val) {
        Val::XReg(XRegVal::new_i64(value))
    }
}

impl FromSpecImpl<i64> for Val {
    open spec fn obeys_from_spec() -> bool {
        true
    }

    open spec fn from_spec(value: i64) -> Val {
        Val::XReg(XRegVal { bits: value as u64 })
    }
}

impl From<i32> for Val {
    /// An integer register value whose lower half holds the number; the
    /// upper half is zero.
    fn from(value: i32) -> (val: Val) {
        Val::XReg(XRegVal::new_i32(value))
    }
}

impl FromSpecImpl<i32> for Val {
    open spec fn obeys_from_spec() -> bool {
        true
    }

    open spec fn from_spec(value: i32) -> Val {
        Val::XReg(XRegVal { bits: spec_with_low32(0, value as u32) })
    }
}

} // verus!
