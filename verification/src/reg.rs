//! Registers as the calling-convention engine sees them.

use crate::ir::{CodegenError, Type};
use vstd::prelude::*;

verus! {

/// The class of a register.
#[derive(Clone, Copy, Debug, PartialEq, Eq, Structural)]
pub enum RegClass {
    /// General-purpose integer registers.
    Int,
    /// Floating-point registers.
    Float,
    /// Vector registers.
    Vector,
}

impl RegClass {
    /// The number of the class inside a physical register's index.
    pub open spec fn spec_number(self) -> int {
        match self {
            RegClass::Int => 0,
            RegClass::Float => 1,
            RegClass::Vector => 2,
        }
    }
}

/// A physical register: a class and a hardware encoding below 64.
#[derive(Clone, Copy, Debug, PartialEq, Eq, Structural)]
pub struct RealReg {
    class: RegClass,
    hw_enc: u8,
}

impl RealReg {
    /// The largest hardware encoding.
    pub const MAX_HW_ENC: u8 = 63;

    /// The class of the register.
    pub closed spec fn spec_class(self) -> RegClass {
        self.class
    }

    /// The hardware encoding of the register, below 64.
    pub closed spec fn spec_hw_enc(self) -> int {
        self.hw_enc as int
    }

    /// A physical register's encoding stays below 64.
    pub open spec fn wf(self) -> bool {
        0 <= self.spec_hw_enc() <= 63
    }

    /// The index in the one space shared by all classes.
    pub open spec fn spec_index(self) -> int {
        self.spec_class().spec_number() * 64 + self.spec_hw_enc()
    }

    /// The register of class `class` with encoding `hw_enc`.
    pub closed spec fn spec_new(hw_enc: u8, class: RegClass) -> RealReg {
        RealReg { class, hw_enc }
    }

    /// The physical register of the given class with the given hardware encoding.
    pub fn new(hw_enc: u8, class: RegClass) -> (r: RealReg)
        requires
            hw_enc <= 63,
        ensures
            r == Self::spec_new(hw_enc, class),
            r.wf(),
            r.spec_class() == class,
            r.spec_hw_enc() == hw_enc,
    {
        RealReg { class, hw_enc }
    }

    /// The class of the register.
    pub fn class(&self) -> (c: RegClass)
        ensures
            c == self.spec_class(),
    {
        self.class
    }

    /// The hardware encoding of the register.
    pub fn hw_enc(&self) -> (e: u8)
        ensures
            e == self.spec_hw_enc(),
    {
        self.hw_enc
    }

    /// The index of the register among all physical registers.
    pub fn index(&self) -> (i: u8)
        requires
            self.wf(),
        ensures
            i == self.spec_index(),
    {
        let base: u8 = match self.class {
            RegClass::Int => 0,
            RegClass::Float => 64,
            RegClass::Vector => 128,
        };
        base + self.hw_enc
    }
}

/// A register that register allocation has yet to place.
#[derive(Clone, Copy, Debug, PartialEq, Eq, Structural)]
pub struct VirtualReg {
    pub index: u32,
    pub class: RegClass,
}

/// A slot of the spill area, by its index.
#[derive(Clone, Copy, Debug, PartialEq, Eq, Structural)]
pub struct SpillSlot {
    pub index: u32,
}

impl SpillSlot {
    /// The spill slot with the given index.
    pub fn new(index: u32) -> (s: SpillSlot)
        ensures
            s.index == index,
    {
        SpillSlot { index }
    }

    /// The index of the spill slot.
    pub fn index(&self) -> (i: usize)
        ensures
            i == self.index,
    {
        self.index as usize
    }
}

/// A register operand: physical, virtual, or spilled to a slot.
#[derive(Clone, Copy, Debug, PartialEq, Eq, Structural)]
pub enum Reg {
    Real(RealReg),
    Virtual(VirtualReg),
    Spill(SpillSlot),
}

impl Reg {
    /// The class of the register; a spill slot has none.
    pub open spec fn spec_class(self) -> Option<RegClass> {
        match self {
            Reg::Real(r) => Some(r.spec_class()),
            Reg::Virtual(v) => Some(v.class),
            Reg::Spill(_) => None,
        }
    }

    /// The physical register as a register.
    pub fn from_real(reg: RealReg) -> (r: Reg)
        ensures
            r == Reg::Real(reg),
    {
        Reg::Real(reg)
    }

    /// The physical register, if the register is one.
    pub fn to_real_reg(self) -> (r: Option<RealReg>)
        ensures
            r == (match self {
                Reg::Real(x) => Some(x),
                _ => None,
            }),
    {
        match self {
            Reg::Real(x) => Some(x),
            _ => None,
        }
    }

    /// The virtual register, if the register is one.
    pub fn to_virtual_reg(self) -> (r: Option<VirtualReg>)
        ensures
            r == (match self {
                Reg::Virtual(x) => Some(x),
                _ => None,
            }),
    {
        match self {
            Reg::Virtual(x) => Some(x),
            _ => None,
        }
    }

    /// The spill slot, if the register stands for one.
    pub fn to_spillslot(self) -> (r: Option<SpillSlot>)
        ensures
            r == (match self {
                Reg::Spill(x) => Some(x),
                _ => None,
            }),
    {
        match self {
            Reg::Spill(x) => Some(x),
            _ => None,
        }
    }

    /// The class of the register.
    pub fn class(self) -> (c: RegClass)
        requires
            !(self is Spill),
        ensures
            Some(c) == self.spec_class(),
    {
        match self {
            Reg::Real(r) => r.class(),
            Reg::Virtual(v) => v.class,
            Reg::Spill(_) => vstd::pervasive::unreached(),
        }
    }
}

/// A register that an instruction writes.
#[derive(Clone, Copy, Debug, PartialEq, Eq, Structural)]
pub struct Writable<T> {
    pub reg: T,
}

impl<T: Copy> Writable<T> {
    /// The register as one that may be written.
    pub fn from_reg(reg: T) -> (w: Writable<T>)
        ensures
            w.reg == reg,
    {
        Writable { reg }
    }

    /// The register itself.
    pub fn to_reg(self) -> (r: T)
        ensures
            r == self.reg,
    {
        self.reg
    }
}

/// The registers that hold one value: one, or two for a value twice as
/// wide as a register.
#[derive(Clone, Copy, Debug)]
pub struct ValueRegs<R> {
    first: R,
    second: Option<R>,
}

impl<R: Copy> View for ValueRegs<R> {
    type V = Seq<R>;

    closed spec fn view(&self) -> Seq<R> {
        match self.second {
            Some(s) => seq![self.first, s],
            None => seq![self.first],
        }
    }
}

impl<R: Copy> ValueRegs<R> {
    /// The registers of a value that takes one.
    pub fn one(reg: R) -> (v: Self)
        ensures
            v@ == seq![reg],
    {
        ValueRegs { first: reg, second: None }
    }

    /// The registers of a value that takes two.
    pub fn two(r1: R, r2: R) -> (v: Self)
        ensures
            v@ == seq![r1, r2],
    {
        ValueRegs { first: r1, second: Some(r2) }
    }

    /// The number of registers.
    pub fn len(&self) -> (n: usize)
        ensures
            n == self@.len(),
            n == 1 || n == 2,
    {
        match self.second {
            Some(_) => 2,
            None => 1,
        }
    }

    /// The register, if there is exactly one.
    pub fn only_reg(&self) -> (r: Option<R>)
        ensures
            r == (if self@.len() == 1 {
                Some(self@[0])
            } else {
                None
            }),
    {
        match self.second {
            Some(_) => None,
            None => Some(self.first),
        }
    }

    /// Register number `i` of the value.
    pub fn get(&self, i: usize) -> (r: R)
        requires
            i < self@.len(),
        ensures
            r == self@[i as int],
    {
        if i == 0 {
            self.first
        } else {
            match self.second {
                Some(s) => s,
                None => vstd::pervasive::unreached(),
            }
        }
    }
}

/// The same registers, each marked as written.
pub open spec fn spec_writable_value_regs(regs: Seq<Reg>) -> Seq<Writable<Reg>> {
    regs.map_values(|r: Reg| Writable { reg: r })
}

/// Marks each register of a value as written.
pub fn writable_value_regs(regs: ValueRegs<Reg>) -> (w: ValueRegs<Writable<Reg>>)
    ensures
        w@ == spec_writable_value_regs(regs@),
{
    let w = if regs.len() == 1 {
        ValueRegs::one(Writable::from_reg(regs.get(0)))
    } else {
        ValueRegs::two(Writable::from_reg(regs.get(0)), Writable::from_reg(regs.get(1)))
    };
    proof {
        assert(w@ =~= spec_writable_value_regs(regs@));
    }
    w
}

/// The class of the registers that hold a value of type `ty`.
pub open spec fn spec_class_for_type(ty: Type) -> RegClass {
    match ty {
        Type::F32 | Type::F64 => RegClass::Float,
        Type::V128 => RegClass::Vector,
        _ => RegClass::Int,
    }
}

/// The number of registers that hold a value of type `ty`.
pub open spec fn spec_regs_for_type(ty: Type) -> nat {
    if ty is I128 {
        2
    } else {
        1
    }
}

/// The state of a `VRegAllocator`.
pub ghost struct AllocView {
    /// The index of the register that is handed out next.
    pub next: u32,
    /// Indices stay below this limit.
    pub limit: u32,
    /// The first allocation failure that was put off, if any.
    pub deferred_error: Option<CodegenError>,
    /// The aliases that were recorded, oldest first.
    pub aliases: Seq<(Reg, Reg)>,
}

impl AllocView {
    /// Can a value of type `ty` still be given registers?
    pub open spec fn can_alloc(self, ty: Type) -> bool {
        self.next + spec_regs_for_type(ty) <= self.limit
    }

    /// The registers for a value of type `ty` whose first index is `first`.
    pub open spec fn regs_from(first: u32, ty: Type) -> Seq<Reg> {
        let class = spec_class_for_type(ty);
        if ty is I128 {
            seq![
                Reg::Virtual(VirtualReg { index: first, class }),
                Reg::Virtual(VirtualReg { index: (first + 1) as u32, class }),
            ]
        } else {
            seq![Reg::Virtual(VirtualReg { index: first, class })]
        }
    }

    /// The registers that an allocation with deferred error returns for a
    /// value of type `ty`: fresh ones, or those with index zero when none
    /// are left.
    pub open spec fn regs(self, ty: Type) -> Seq<Reg> {
        if self.can_alloc(ty) {
            Self::regs_from(self.next, ty)
        } else {
            Self::regs_from(0, ty)
        }
    }

    /// The one register that an allocation with deferred error returns for
    /// a value that fits a register.
    pub open spec fn tmp(self, ty: Type) -> Reg {
        self.regs(ty)[0]
    }

    /// The state after an allocation with deferred error for `ty`.
    pub open spec fn step(self, ty: Type) -> AllocView {
        if self.can_alloc(ty) {
            AllocView { next: (self.next + spec_regs_for_type(ty)) as u32, ..self }
        } else {
            AllocView { deferred_error: Some(CodegenError::CodeTooLarge), ..self }
        }
    }
}

/// Hands out virtual registers in increasing order of their index.
pub struct VRegAllocator {
    next: u32,
    limit: u32,
    deferred_error: Option<CodegenError>,
    aliases: Vec<(Reg, Reg)>,
}

impl View for VRegAllocator {
    type V = AllocView;

    closed spec fn view(&self) -> AllocView {
        AllocView {
            next: self.next,
            limit: self.limit,
            deferred_error: self.deferred_error,
            aliases: self.aliases@,
        }
    }
}

impl VRegAllocator {
    /// An allocator whose first register has index `first` and whose
    /// indices stay below `limit`.
    pub fn new(first: u32, limit: u32) -> (a: VRegAllocator)
        ensures
            a@ == (AllocView {
                next: first,
                limit,
                deferred_error: None,
                aliases: Seq::<(Reg, Reg)>::empty(),
            }),
    {
        VRegAllocator { next: first, limit, deferred_error: None, aliases: Vec::new() }
    }

    /// Allocates fresh registers for a value of type `ty`, or fails with
    /// `CodeTooLarge` and changes nothing when too few are left.
    pub fn alloc_vregs(&mut self, ty: Type) -> (r: Result<ValueRegs<Reg>, CodegenError>)
        ensures
            match r {
                Ok(regs) => old(self)@.can_alloc(ty) && regs@ == old(self)@.regs(ty) && final(self)@
                    == old(self)@.step(ty),
                Err(e) => !old(self)@.can_alloc(ty) && e == CodegenError::CodeTooLarge
                    && final(self)@ == old(self)@,
            },
    {
        let class = match ty {
            Type::F32 | Type::F64 => RegClass::Float,
            Type::V128 => RegClass::Vector,
            _ => RegClass::Int,
        };
        let n: u32 = match ty {
            Type::I128 => 2,
            _ => 1,
        };
        if self.limit < n || self.next > self.limit - n {
            return Err(CodegenError::CodeTooLarge);
        }
        let first = Reg::Virtual(VirtualReg { index: self.next, class });
        let regs = if n == 2 {
            ValueRegs::two(first, Reg::Virtual(VirtualReg { index: self.next + 1, class }))
        } else {
            ValueRegs::one(first)
        };
        self.next = self.next + n;
        Ok(regs)
    }

    /// Allocates like `alloc_vregs`; on failure records the error for later
    /// and returns the registers with index zero.
    pub fn alloc_with_deferred_error(&mut self, ty: Type) -> (regs: ValueRegs<Reg>)
        ensures
            regs@ == old(self)@.regs(ty),
            final(self)@ == old(self)@.step(ty),
    {
        match self.alloc_vregs(ty) {
            Ok(regs) => regs,
            Err(e) => {
                self.deferred_error = Some(e);
                let class = match ty {
                    Type::F32 | Type::F64 => RegClass::Float,
                    Type::V128 => RegClass::Vector,
                    _ => RegClass::Int,
                };
                let first = Reg::Virtual(VirtualReg { index: 0, class });
                match ty {
                    Type::I128 => ValueRegs::two(
                        first,
                        Reg::Virtual(VirtualReg { index: 1, class }),
                    ),
                    _ => ValueRegs::one(first),
                }
            },
        }
    }

    /// Allocates, with deferred error, the one register of a value that
    /// fits a register.
    pub fn alloc_tmp(&mut self, ty: Type) -> (reg: Reg)
        requires
            !(ty is I128),
        ensures
            reg == old(self)@.tmp(ty),
            final(self)@ == old(self)@.step(ty),
    {
        self.alloc_with_deferred_error(ty).get(0)
    }

    /// Records that `from` stands for `to`.
    pub fn set_vreg_alias(&mut self, from: Reg, to: Reg)
        ensures
            final(self)@ == (AllocView {
                aliases: old(self)@.aliases.push((from, to)),
                ..old(self)@
            }),
    {
        self.aliases.push((from, to));
    }

    /// The error that an earlier allocation put off, if any.
    pub fn take_deferred_error(&mut self) -> (e: Option<CodegenError>)
        ensures
            e == old(self)@.deferred_error,
            final(self)@ == (AllocView { deferred_error: None, ..old(self)@ }),
    {
        let e = self.deferred_error;
        self.deferred_error = None;
        e
    }

    /// The aliases recorded so far, oldest first.
    pub fn aliases(&self) -> (a: &Vec<(Reg, Reg)>)
        ensures
            a@ == self@.aliases,
    {
        &self.aliases
    }
}

} // verus!
