use vstd::prelude::*;

use crate::error::CpuError;

verus! {

/// The instruction store: an ordered sequence of 8-bit instruction words,
/// addressed by the program counter. It starts empty and is replaced
/// wholesale by [`Rom::load`]; reading past the end is a fault, never a
/// wraparound.
pub struct Rom {
    data: Vec<u8>,
}

impl Rom {
    /// The stored instruction words as contracts see them.
    pub closed spec fn contents(self) -> Seq<u8> {
        self.data@
    }

    /// A fresh, empty instruction store.
    pub fn new() -> (r: Rom)
        ensures
            r.contents().len() == 0,
    {
        Rom { data: Vec::new() }
    }

    /// Replaces the stored program wholesale.
    pub fn load(&mut self, program: Vec<u8>)
        ensures
            final(self).contents() == program@,
    {
        self.data = program;
    }

    /// Returns the word at `address`, or `AddressOutOfRange` when `address`
    /// is at or beyond the stored length.
    pub fn read(&self, address: u8) -> (r: Result<u8, CpuError>)
        ensures
            address < self.contents().len() ==> r == Ok::<u8, CpuError>(
                self.contents()[address as int],
            ),
            address >= self.contents().len() ==> r == Err::<u8, CpuError>(
                CpuError::AddressOutOfRange,
            ),
    {
        if (address as usize) < self.data.len() {
            Ok(self.data[address as usize])
        } else {
            Err(CpuError::AddressOutOfRange)
        }
    }
}

} // verus!
