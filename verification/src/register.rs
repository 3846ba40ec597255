use vstd::prelude::*;

verus! {

/// The register file: two 4-bit general registers, a 4-bit program counter,
/// and the carry flag. The 4-bit values are stored widened in `u8` and every
/// setter masks its argument to the low 4 bits, so the invariant that all
/// stored values fit in 4 bits is maintained structurally.
pub struct Register {
    register_a: u8,
    register_b: u8,
    pc: u8,
    carry: bool,
}

impl Register {
    /// Register A as contracts see it.
    pub closed spec fn spec_register_a(self) -> u8 {
        self.register_a
    }

    /// Register B as contracts see it.
    pub closed spec fn spec_register_b(self) -> u8 {
        self.register_b
    }

    /// The program counter as contracts see it.
    pub closed spec fn spec_pc(self) -> u8 {
        self.pc
    }

    /// The carry flag as contracts see it.
    pub closed spec fn spec_carry(self) -> bool {
        self.carry
    }

    /// Every stored register value fits in 4 bits.
    pub open spec fn inv(self) -> bool {
        &&& self.spec_register_a() < 16
        &&& self.spec_register_b() < 16
        &&& self.spec_pc() < 16
    }

    /// A fresh register file: both registers and the program counter zero,
    /// carry clear.
    pub fn new() -> (r: Register)
        ensures
            r.inv(),
            r.spec_register_a() == 0,
            r.spec_register_b() == 0,
            r.spec_pc() == 0,
            !r.spec_carry(),
    {
        Register { register_a: 0, register_b: 0, pc: 0, carry: false }
    }

    pub fn pc(&self) -> (r: u8)
        ensures
            r == self.spec_pc(),
    {
        self.pc
    }

    /// Stores the low 4 bits of `value` as the program counter.
    pub fn set_pc(&mut self, value: u8)
        ensures
            final(self).spec_pc() == value % 16,
            final(self).spec_register_a() == old(self).spec_register_a(),
            final(self).spec_register_b() == old(self).spec_register_b(),
            final(self).spec_carry() == old(self).spec_carry(),
    {
        self.pc = value % 16;
    }

    pub fn register_a(&self) -> (r: u8)
        ensures
            r == self.spec_register_a(),
    {
        self.register_a
    }

    /// Stores the low 4 bits of `value` in register A.
    pub fn set_register_a(&mut self, value: u8)
        ensures
            final(self).spec_register_a() == value % 16,
            final(self).spec_register_b() == old(self).spec_register_b(),
            final(self).spec_pc() == old(self).spec_pc(),
            final(self).spec_carry() == old(self).spec_carry(),
    {
        self.register_a = value % 16;
    }

    pub fn register_b(&self) -> (r: u8)
        ensures
            r == self.spec_register_b(),
    {
        self.register_b
    }

    /// Stores the low 4 bits of `value` in register B.
    pub fn set_register_b(&mut self, value: u8)
        ensures
            final(self).spec_register_b() == value % 16,
            final(self).spec_register_a() == old(self).spec_register_a(),
            final(self).spec_pc() == old(self).spec_pc(),
            final(self).spec_carry() == old(self).spec_carry(),
    {
        self.register_b = value % 16;
    }

    /// Advances the program counter by one, wrapping at the 4-bit boundary.
    pub fn increment_pc(&mut self)
        requires
            old(self).inv(),
        ensures
            final(self).inv(),
            final(self).spec_pc() == (old(self).spec_pc() + 1) % 16,
            final(self).spec_register_a() == old(self).spec_register_a(),
            final(self).spec_register_b() == old(self).spec_register_b(),
            final(self).spec_carry() == old(self).spec_carry(),
    {
        self.pc = (self.pc + 1) % 16;
    }

    pub fn carry(&self) -> (r: Option<bool>)
        ensures
            r == Some(self.spec_carry()),
    {
        Some(self.carry)
    }

    pub fn set_carry(&mut self, value: bool)
        ensures
            final(self).spec_carry() == value,
            final(self).spec_register_a() == old(self).spec_register_a(),
            final(self).spec_register_b() == old(self).spec_register_b(),
            final(self).spec_pc() == old(self).spec_pc(),
    {
        self.carry = value;
    }
}

} // verus!
