use vstd::prelude::*;

verus! {

/// The single input/output channel: one 4-bit input latch, written by the
/// driver, and one 4-bit output latch, written by the CPU. Both latches mask
/// to 4 bits on every access, so an unmasked internal value is tolerated.
pub struct Port {
    input: u8,
    output: u8,
}

impl Port {
    /// The input latch as contracts see it.
    pub closed spec fn spec_input(self) -> u8 {
        self.input
    }

    /// The output latch as contracts see it.
    pub closed spec fn spec_output(self) -> u8 {
        self.output
    }

    /// Both latches fit in 4 bits.
    pub open spec fn inv(self) -> bool {
        &&& self.spec_input() < 16
        &&& self.spec_output() < 16
    }

    /// A fresh port with both latches zeroed.
    pub fn new() -> (r: Port)
        ensures
            r.inv(),
            r.spec_input() == 0,
            r.spec_output() == 0,
    {
        Port { input: 0, output: 0 }
    }

    /// Reads the input latch, masked to 4 bits.
    pub fn input(&self) -> (r: u8)
        ensures
            r == self.spec_input() % 16,
    {
        self.input % 16
    }

    /// Latches the low 4 bits of `data` as the input value.
    pub fn set_input(&mut self, data: u8)
        ensures
            final(self).spec_input() == data % 16,
            final(self).spec_output() == old(self).spec_output(),
    {
        self.input = data % 16;
    }

    /// Reads the output latch, masked to 4 bits.
    pub fn output(&self) -> (r: u8)
        ensures
            r == self.spec_output() % 16,
    {
        self.output % 16
    }

    /// Latches the low 4 bits of `data` as the output value.
    pub fn set_output(&mut self, data: u8)
        ensures
            final(self).spec_output() == data % 16,
            final(self).spec_input() == old(self).spec_input(),
    {
        self.output = data % 16;
    }
}

} // verus!
