use vstd::prelude::*;

use crate::error::CpuError;

verus! {

/// The twelve instructions the CPU understands. Each occupies one 4-bit
/// pattern in the high nibble of an instruction word; the four remaining
/// patterns are undefined and decoding them is a fault.
#[derive(Clone, Copy, Debug, PartialEq, Eq, Structural)]
pub enum Opcode {
    /// Add the operand to register A.
    AddA,
    /// Add the operand to register B.
    AddB,
    /// Load the operand into register A.
    MovA,
    /// Load the operand into register B.
    MovB,
    /// Copy register A into register B.
    MovAB,
    /// Copy register B into register A.
    MovBA,
    /// Unconditional jump to the operand address.
    Jmp,
    /// Jump to the operand address if the carry flag is clear.
    Jnc,
    /// Load the port's input latch into register A.
    InA,
    /// Load the port's input latch into register B.
    InB,
    /// Write register B to the port's output latch.
    OutB,
    /// Write the operand to the port's output latch.
    OutIm,
}

/// The 4-bit pattern an opcode occupies in the high nibble of an
/// instruction word.
pub open spec fn opcode_bits(opcode: Opcode) -> u8 {
    match opcode {
        Opcode::AddA => 0x0,
        Opcode::MovAB => 0x1,
        Opcode::InA => 0x2,
        Opcode::MovA => 0x3,
        Opcode::MovBA => 0x4,
        Opcode::AddB => 0x5,
        Opcode::InB => 0x6,
        Opcode::MovB => 0x7,
        Opcode::OutB => 0x9,
        Opcode::OutIm => 0xb,
        Opcode::Jnc => 0xe,
        Opcode::Jmp => 0xf,
    }
}

/// The three port opcodes discard the encoded operand field by design.
pub open spec fn ignores_operand(opcode: Opcode) -> bool {
    opcode is InA || opcode is InB || opcode is OutB
}

/// What decoding an instruction word yields: the opcode named by the high
/// nibble, paired with the low nibble as operand — except for the three port
/// opcodes, whose operand is forced to zero — or `UndefinedOpcode` for the
/// four high-nibble patterns outside the table.
pub open spec fn spec_decode(data: u8) -> Result<(Opcode, u8), CpuError> {
    let bits = data / 16;
    let operand = data % 16;
    if bits == 0x0 {
        Ok((Opcode::AddA, operand))
    } else if bits == 0x1 {
        Ok((Opcode::MovAB, operand))
    } else if bits == 0x2 {
        Ok((Opcode::InA, 0))
    } else if bits == 0x3 {
        Ok((Opcode::MovA, operand))
    } else if bits == 0x4 {
        Ok((Opcode::MovBA, operand))
    } else if bits == 0x5 {
        Ok((Opcode::AddB, operand))
    } else if bits == 0x6 {
        Ok((Opcode::InB, 0))
    } else if bits == 0x7 {
        Ok((Opcode::MovB, operand))
    } else if bits == 0x9 {
        Ok((Opcode::OutB, 0))
    } else if bits == 0xb {
        Ok((Opcode::OutIm, operand))
    } else if bits == 0xe {
        Ok((Opcode::Jnc, operand))
    } else if bits == 0xf {
        Ok((Opcode::Jmp, operand))
    } else {
        Err(CpuError::UndefinedOpcode)
    }
}

impl Opcode {
    /// The 4-bit pattern this opcode occupies in an instruction word.
    pub fn bits(self) -> (r: u8)
        ensures
            r == opcode_bits(self),
    {
        match self {
            Opcode::AddA => 0x0,
            Opcode::MovAB => 0x1,
            Opcode::InA => 0x2,
            Opcode::MovA => 0x3,
            Opcode::MovBA => 0x4,
            Opcode::AddB => 0x5,
            Opcode::InB => 0x6,
            Opcode::MovB => 0x7,
            Opcode::OutB => 0x9,
            Opcode::OutIm => 0xb,
            Opcode::Jnc => 0xe,
            Opcode::Jmp => 0xf,
        }
    }
}

/// Builds the instruction word with `opcode` in the high nibble and
/// `operand` in the low nibble.
pub fn encode(opcode: Opcode, operand: u8) -> (r: u8)
    requires
        operand < 16,
    ensures
        r == opcode_bits(opcode) * 16 + operand,
{
    opcode.bits() * 16 + operand
}

/// The three port opcodes ignore the encoded operand bits: any word whose
/// high nibble names `InA`, `InB` or `OutB` decodes with operand zero,
/// whatever its low nibble holds.
pub proof fn lemma_port_opcodes_ignore_operand(data: u8)
    ensures
        data / 16 == opcode_bits(Opcode::InA) ==> spec_decode(data) == Ok::<(Opcode, u8), CpuError>(
            (Opcode::InA, 0u8),
        ),
        data / 16 == opcode_bits(Opcode::InB) ==> spec_decode(data) == Ok::<(Opcode, u8), CpuError>(
            (Opcode::InB, 0u8),
        ),
        data / 16 == opcode_bits(Opcode::OutB) ==> spec_decode(data) == Ok::<
            (Opcode, u8),
            CpuError,
        >((Opcode::OutB, 0u8)),
{
}

/// Round trip: decoding the word built from an opcode's nibble and a 4-bit
/// operand yields that opcode back, with the same operand — except for the
/// three port opcodes, whose operand decodes as zero by design.
pub proof fn lemma_decode_encode_round_trip(opcode: Opcode, operand: u8)
    requires
        operand < 16,
    ensures
        spec_decode((opcode_bits(opcode) * 16 + operand) as u8) == Ok::<(Opcode, u8), CpuError>(
            (opcode, if ignores_operand(opcode) { 0u8 } else { operand }),
        ),
{
}

} // verus!
