//! The operands of instructions: register names, immediates and
//! addressing modes.

use vstd::prelude::*;

verus! {

/// The name of an integer register: one of 32.
#[derive(Clone, Copy, Debug, PartialEq, Eq)]
pub struct XReg {
    index: u8,
}

impl XReg {
    #[verifier::type_invariant]
    spec fn in_range(self) -> bool {
        self.index < 32
    }

    /// The number of the register.
    pub closed spec fn spec_index(self) -> int {
        self.index as int
    }

    /// The register with the given number, if the number is below 32.
    pub fn new(index: u8) -> (r: Option<XReg>)
        ensures
            match r {
                Some(reg) => index < 32 && reg.spec_index() == index,
                None => index >= 32,
            },
    {
        if index < 32 {
            Some(XReg { index })
        } else {
            None
        }
    }

    /// The number of the register.
    pub fn index(self) -> (i: usize)
        ensures
            i == self.spec_index(),
            i < 32,
    {
        proof {
            use_type_invariant(self);
        }
        self.index as usize
    }

    /// The first argument and return register.
    pub fn x0() -> (r: XReg)
        ensures
            r.spec_index() == 0,
    {
        XReg { index: 0 }
    }

    /// The second argument register.
    pub fn x1() -> (r: XReg)
        ensures
            r.spec_index() == 1,
    {
        XReg { index: 1 }
    }

    /// The third argument register.
    pub fn x2() -> (r: XReg)
        ensures
            r.spec_index() == 2,
    {
        XReg { index: 2 }
    }

    /// The fourth argument register.
    pub fn x3() -> (r: XReg)
        ensures
            r.spec_index() == 3,
    {
        XReg { index: 3 }
    }

    /// The stack pointer.
    pub fn sp() -> (r: XReg)
        ensures
            r.spec_index() == SP,
    {
        XReg { index: 30 }
    }

    /// The scratch register for spills.
    pub fn spilltmp0() -> (r: XReg)
        ensures
            r.spec_index() == 31,
    {
        XReg { index: 31 }
    }
}

/// The number of the stack pointer among the integer registers.
pub const SP: usize = 30;

/// The name of a float register: one of 32.
#[derive(Clone, Copy, Debug, PartialEq, Eq)]
pub struct FReg {
    index: u8,
}

impl FReg {
    #[verifier::type_invariant]
    spec fn in_range(self) -> bool {
        self.index < 32
    }

    /// The number of the register.
    pub closed spec fn spec_index(self) -> int {
        self.index as int
    }

    /// The register with the given number, if the number is below 32.
    pub fn new(index: u8) -> (r: Option<FReg>)
        ensures
            match r {
                Some(reg) => index < 32 && reg.spec_index() == index,
                None => index >= 32,
            },
    {
        if index < 32 {
            Some(FReg { index })
        } else {
            None
        }
    }

    /// The number of the register.
    pub fn index(self) -> (i: usize)
        ensures
            i == self.spec_index(),
            i < 32,
    {
        proof {
            use_type_invariant(self);
        }
        self.index as usize
    }
}

/// The name of a vector register: one of 32.
#[derive(Clone, Copy, Debug, PartialEq, Eq)]
pub struct VReg {
    index: u8,
}

impl VReg {
    #[verifier::type_invariant]
    spec fn in_range(self) -> bool {
        self.index < 32
    }

    /// The number of the register.
    pub closed spec fn spec_index(self) -> int {
        self.index as int
    }

    /// The register with the given number, if the number is below 32.
    pub fn new(index: u8) -> (r: Option<VReg>)
        ensures
            match r {
                Some(reg) => index < 32 && reg.spec_index() == index,
                None => index >= 32,
            },
    {
        if index < 32 {
            Some(VReg { index })
        } else {
            None
        }
    }

    /// The number of the register.
    pub fn index(self) -> (i: usize)
        ensures
            i == self.spec_index(),
            i < 32,
    {
        proof {
            use_type_invariant(self);
        }
        self.index as usize
    }
}

/// A destination and two sources.
#[derive(Clone, Copy, Debug)]
pub struct BinaryOperands<D, S1 = D, S2 = D> {
    pub dst: D,
    pub src1: S1,
    pub src2: S2,
}

/// An immediate of six bits.
#[derive(Clone, Copy, Debug, PartialEq, Eq)]
pub struct U6 {
    value: u8,
}

impl U6 {
    #[verifier::type_invariant]
    spec fn in_range(self) -> bool {
        self.value < 64
    }

    /// The number, below 64.
    pub closed spec fn spec_value(self) -> int {
        self.value as int
    }

    /// The immediate with the given value, if the value is below 64.
    pub fn new(value: u8) -> (r: Option<U6>)
        ensures
            match r {
                Some(imm) => value < 64 && imm.spec_value() == value,
                None => value >= 64,
            },
    {
        if value < 64 {
            Some(U6 { value })
        } else {
            None
        }
    }

    /// The number, below 64.
    pub fn value(self) -> (v: u8)
        ensures
            v == self.spec_value(),
            v < 64,
    {
        proof {
            use_type_invariant(self);
        }
        self.value
    }
}

/// A distance in bytes from the start of the jumping instruction.
#[derive(Clone, Copy, Debug, PartialEq, Eq, Structural)]
pub struct PcRelOffset(pub i32);

/// A set of the integer registers 16 to 31, one bit for each.
#[derive(Clone, Copy, Debug, PartialEq, Eq, Structural)]
pub struct UpperRegSet {
    pub bits: u16,
}

impl UpperRegSet {
    /// Is the register with number `16 + i` in the set?
    pub open spec fn spec_has(self, i: int) -> bool {
        0 <= i < 16 && (self.bits >> (i as u16)) & 1 == 1
    }

    /// The members with numbers below `16 + n`, in increasing order.
    pub open spec fn spec_members(self, n: int) -> Seq<int>
        decreases n,
    {
        if n <= 0 {
            Seq::empty()
        } else if self.spec_has(n - 1) {
            self.spec_members(n - 1).push(16 + n - 1)
        } else {
            self.spec_members(n - 1)
        }
    }

    /// Every member is one of the registers 16 to 31.
    pub proof fn lemma_members_range(self, n: int)
        requires
            n <= 16,
        ensures
            self.spec_members(n).len() <= if n < 0 {
                0
            } else {
                n
            },
            forall|j: int|
                0 <= j < self.spec_members(n).len() ==> 16 <= #[trigger] self.spec_members(n)[j] < 32,
        decreases n,
    {
        if n > 0 {
            self.lemma_members_range(n - 1);
        }
    }

    /// The set with the given bits.
    pub fn from_bits(bits: u16) -> (s: UpperRegSet)
        ensures
            s.bits == bits,
    {
        UpperRegSet { bits }
    }

    /// The members, in increasing order.
    pub fn members(self) -> (regs: Vec<XReg>)
        ensures
            regs@.len() == self.spec_members(16).len(),
            forall|k: int|
                0 <= k < regs@.len() ==> (#[trigger] regs@[k]).spec_index() == self.spec_members(16)[k],
    {
        let mut regs: Vec<XReg> = Vec::new();
        let mut i: u8 = 0;
        while i < 16
            invariant
                i <= 16,
                regs@.len() == self.spec_members(i as int).len(),
                forall|k: int|
                    0 <= k < regs@.len() ==> (#[trigger] regs@[k]).spec_index() == self.spec_members(
                        i as int,
                    )[k],
            decreases 16 - i,
        {
            if (self.bits >> (i as u16)) & 1 == 1 {
                match XReg::new(16 + i) {
                    Some(reg) => regs.push(reg),
                    None => vstd::pervasive::unreached(),
                }
            }
            i += 1;
        }
        regs
    }
}

/// An address in a register plus a constant offset, trusted as it is.
#[derive(Clone, Copy, Debug)]
pub struct AddrO32 {
    pub addr: XReg,
    pub offset: i32,
}

/// An address in a register plus a constant offset, valid unless the
/// register holds the null address.
#[derive(Clone, Copy, Debug)]
pub struct AddrZ {
    pub addr: XReg,
    pub offset: i32,
}

/// An untrusted 32-bit offset into a heap whose base and bound are in
/// registers.
#[derive(Clone, Copy, Debug)]
pub struct AddrG32 {
    pub host_heap_base: XReg,
    pub host_heap_bound: XReg,
    pub wasm_addr: XReg,
    pub offset: u16,
}

/// An untrusted 32-bit offset into a heap whose base is in a register and
/// whose bound is in memory.
#[derive(Clone, Copy, Debug)]
pub struct AddrG32Bne {
    pub host_heap_base: XReg,
    pub host_heap_bound_addr: XReg,
    pub host_heap_bound_offset: u8,
    pub wasm_addr: XReg,
    pub offset: u8,
}

} // verus!
