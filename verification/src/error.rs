use vstd::prelude::*;

verus! {

/// The faults the interpreter can surface to its driver.
#[derive(Clone, Copy, Debug, PartialEq, Eq, Structural)]
pub enum CpuError {
    /// The program counter addresses a location at or beyond the loaded
    /// program's length.
    AddressOutOfRange,
    /// The high nibble of a fetched word matches none of the twelve opcodes.
    UndefinedOpcode,
}

} // verus!
