use vstd::prelude::*;

use crate::error::CpuError;
use crate::opcode::Opcode;
use crate::opcode::spec_decode;
use crate::port::Port;
use crate::register::Register;
use crate::rom::Rom;

verus! {

/// Everything an instruction can observe or change: the register file and
/// the two port latches. The instruction store is not part of this state —
/// execution never touches it.
pub struct MachineState {
    pub register_a: u8,
    pub register_b: u8,
    pub pc: u8,
    pub carry: bool,
    pub input: u8,
    pub output: u8,
}

impl MachineState {
    /// Every 4-bit field of the state holds a 4-bit value.
    pub open spec fn wf(self) -> bool {
        &&& self.register_a < 16
        &&& self.register_b < 16
        &&& self.pc < 16
        &&& self.input < 16
        &&& self.output < 16
    }
}

/// The semantics of one execute step: the machine state after running
/// `opcode` with `operand` from state `pre`. Arithmetic truncates to 4 bits
/// and records unsigned overflow in the carry flag; every non-arithmetic
/// opcode clears carry as part of its own semantics. The program counter
/// advances by one, wrapping at the 4-bit boundary, for every opcode except
/// the two jumps, which take full responsibility for it.
pub open spec fn step(pre: MachineState, opcode: Opcode, operand: u8) -> MachineState {
    let mid = match opcode {
        Opcode::AddA => MachineState {
            register_a: ((pre.register_a + operand) % 16) as u8,
            carry: pre.register_a + operand > 15,
            ..pre
        },
        Opcode::AddB => MachineState {
            register_b: ((pre.register_b + operand) % 16) as u8,
            carry: pre.register_b + operand > 15,
            ..pre
        },
        Opcode::MovA => MachineState { register_a: operand, carry: false, ..pre },
        Opcode::MovB => MachineState { register_b: operand, carry: false, ..pre },
        Opcode::MovAB => MachineState { register_b: pre.register_a, carry: false, ..pre },
        Opcode::MovBA => MachineState { register_a: pre.register_b, carry: false, ..pre },
        Opcode::Jmp => MachineState { pc: operand, carry: false, ..pre },
        Opcode::Jnc => MachineState {
            pc: if pre.carry { pre.pc } else { operand },
            carry: false,
            ..pre
        },
        Opcode::InA => MachineState { register_a: (pre.input % 16) as u8, carry: false, ..pre },
        Opcode::InB => MachineState { register_b: (pre.input % 16) as u8, carry: false, ..pre },
        Opcode::OutB => MachineState { output: pre.register_b, carry: false, ..pre },
        Opcode::OutIm => MachineState { output: operand, carry: false, ..pre },
    };
    if opcode is Jmp || opcode is Jnc {
        mid
    } else {
        MachineState { pc: ((mid.pc + 1) % 16) as u8, ..mid }
    }
}

/// Adding to register A truncates the sum to 4 bits and sets the carry flag
/// exactly when the unmasked sum exceeds 15.
pub proof fn lemma_add_a(pre: MachineState, operand: u8)
    requires
        pre.register_a < 16,
        operand < 16,
    ensures
        step(pre, Opcode::AddA, operand).register_a == (pre.register_a + operand) % 16,
        step(pre, Opcode::AddA, operand).carry == (pre.register_a + operand > 15),
{
}

/// Adding to register B truncates the sum to 4 bits and sets the carry flag
/// exactly when the unmasked sum exceeds 15.
pub proof fn lemma_add_b(pre: MachineState, operand: u8)
    requires
        pre.register_b < 16,
        operand < 16,
    ensures
        step(pre, Opcode::AddB, operand).register_b == (pre.register_b + operand) % 16,
        step(pre, Opcode::AddB, operand).carry == (pre.register_b + operand > 15),
{
}

/// Each transfer opcode moves its value to the named destination and clears
/// the carry flag: `MovA` and `MovB` load the operand, `MovAB` copies A into
/// B, and `MovBA` copies B into A.
pub proof fn lemma_mov(pre: MachineState, operand: u8)
    ensures
        step(pre, Opcode::MovA, operand).register_a == operand,
        !step(pre, Opcode::MovA, operand).carry,
        step(pre, Opcode::MovB, operand).register_b == operand,
        !step(pre, Opcode::MovB, operand).carry,
        step(pre, Opcode::MovAB, operand).register_b == pre.register_a,
        !step(pre, Opcode::MovAB, operand).carry,
        step(pre, Opcode::MovBA, operand).register_a == pre.register_b,
        !step(pre, Opcode::MovBA, operand).carry,
{
}

/// `Jmp` sets the program counter to the operand address exactly, bypassing
/// the automatic increment, and clears the carry flag.
pub proof fn lemma_jmp(pre: MachineState, address: u8)
    ensures
        step(pre, Opcode::Jmp, address).pc == address,
        !step(pre, Opcode::Jmp, address).carry,
{
}

/// `Jnc` branches to the operand address when the carry flag is clear and
/// leaves the program counter untouched when it is set; the carry flag is
/// cleared afterwards either way.
pub proof fn lemma_jnc(pre: MachineState, address: u8)
    ensures
        !pre.carry ==> step(pre, Opcode::Jnc, address).pc == address,
        pre.carry ==> step(pre, Opcode::Jnc, address).pc == pre.pc,
        !step(pre, Opcode::Jnc, address).carry,
{
}

/// Every opcode except the two jumps advances the program counter by exactly
/// one, wrapping at the 4-bit boundary.
pub proof fn lemma_pc_advance(pre: MachineState, opcode: Opcode, operand: u8)
    requires
        !(opcode is Jmp),
        !(opcode is Jnc),
    ensures
        step(pre, opcode, operand).pc == (pre.pc + 1) % 16,
{
}

/// The processor: one register file, one instruction store, one port, driven
/// through the fetch → decode → execute cycle.
pub struct Cpu {
    register: Register,
    rom: Rom,
    port: Port,
}

impl Cpu {
    /// The machine state an instruction works on.
    pub closed spec fn state(self) -> MachineState {
        MachineState {
            register_a: self.register.spec_register_a(),
            register_b: self.register.spec_register_b(),
            pc: self.register.spec_pc(),
            carry: self.register.spec_carry(),
            input: self.port.spec_input(),
            output: self.port.spec_output(),
        }
    }

    /// The loaded program.
    pub closed spec fn rom_contents(self) -> Seq<u8> {
        self.rom.contents()
    }

    /// The machine state is well formed: every 4-bit field in range.
    pub open spec fn inv(self) -> bool {
        self.state().wf()
    }

    /// A fresh processor: registers, carry, port latches all zero, and an
    /// empty instruction store.
    pub fn new() -> (r: Cpu)
        ensures
            r.inv(),
            r.state() == (MachineState {
                register_a: 0,
                register_b: 0,
                pc: 0,
                carry: false,
                input: 0,
                output: 0,
            }),
            r.rom_contents().len() == 0,
    {
        Cpu { register: Register::new(), rom: Rom::new(), port: Port::new() }
    }

    /// Replaces the loaded program; registers and port are untouched.
    pub fn load(&mut self, program: Vec<u8>)
        ensures
            final(self).rom_contents() == program@,
            final(self).state() == old(self).state(),
    {
        self.rom.load(program);
    }

    /// Reads the instruction word at the current program counter, or
    /// `AddressOutOfRange` when the counter is at or beyond the program's
    /// length.
    pub fn fetch(&self) -> (r: Result<u8, CpuError>)
        ensures
            self.state().pc < self.rom_contents().len() ==> r == Ok::<u8, CpuError>(
                self.rom_contents()[self.state().pc as int],
            ),
            self.state().pc >= self.rom_contents().len() ==> r == Err::<u8, CpuError>(
                CpuError::AddressOutOfRange,
            ),
    {
        let address = self.register.pc();
        self.rom.read(address)
    }

    /// Splits `data` into its high-nibble opcode and low-nibble operand, per
    /// the decode table; the three port opcodes report operand zero whatever
    /// the low nibble holds, and the four patterns outside the table are an
    /// `UndefinedOpcode` fault.
    pub fn decode(&self, data: u8) -> (r: Result<(Opcode, u8), CpuError>)
        ensures
            r == spec_decode(data),
            r matches Ok(decoded) ==> decoded.1 < 16,
    {
        let bits: u8 = data / 16;
        let operand: u8 = data % 16;
        let opcode = match bits {
            0x0 => Opcode::AddA,
            0x1 => Opcode::MovAB,
            0x2 => Opcode::InA,
            0x3 => Opcode::MovA,
            0x4 => Opcode::MovBA,
            0x5 => Opcode::AddB,
            0x6 => Opcode::InB,
            0x7 => Opcode::MovB,
            0x9 => Opcode::OutB,
            0xb => Opcode::OutIm,
            0xe => Opcode::Jnc,
            0xf => Opcode::Jmp,
            _ => {
                return Err(CpuError::UndefinedOpcode);
            },
        };
        let operand: u8 = match opcode {
            Opcode::InA | Opcode::InB | Opcode::OutB => 0,
            _ => operand,
        };
        Ok((opcode, operand))
    }

    /// Runs one instruction against the register file and the port, exactly
    /// as [`step`] describes.
    #[verifier::rlimit(60)]
    pub fn execute(&mut self, opcode: Opcode, operand: u8)
        requires
            old(self).inv(),
            operand < 16,
        ensures
            final(self).inv(),
            final(self).state() == step(old(self).state(), opcode, operand),
            final(self).rom_contents() == old(self).rom_contents(),
    {
        match opcode {
            Opcode::AddA => {
                let value = self.register.register_a();
                let sum: u8 = value + operand;
                self.register.set_register_a(sum % 16);
                self.register.set_carry(sum > 15);
            },
            Opcode::AddB => {
                let value = self.register.register_b();
                let sum: u8 = value + operand;
                self.register.set_register_b(sum % 16);
                self.register.set_carry(sum > 15);
            },
            Opcode::MovA => {
                self.register.set_register_a(operand);
                self.register.set_carry(false);
            },
            Opcode::MovB => {
                self.register.set_register_b(operand);
                self.register.set_carry(false);
            },
            Opcode::MovAB => {
                let value = self.register.register_a();
                self.register.set_register_b(value);
                self.register.set_carry(false);
            },
            Opcode::MovBA => {
                let value = self.register.register_b();
                self.register.set_register_a(value);
                self.register.set_carry(false);
            },
            Opcode::Jmp => {
                self.register.set_pc(operand);
                self.register.set_carry(false);
            },
            Opcode::Jnc => {
                if let Some(carry) = self.register.carry() {
                    if !carry {
                        self.register.set_pc(operand);
                    }
                }
                self.register.set_carry(false);
            },
            Opcode::InA => {
                let data = self.port.input();
                self.register.set_register_a(data);
                self.register.set_carry(false);
            },
            Opcode::InB => {
                let data = self.port.input();
                self.register.set_register_b(data);
                self.register.set_carry(false);
            },
            Opcode::OutB => {
                let data = self.register.register_b();
                self.port.set_output(data);
                self.register.set_carry(false);
            },
            Opcode::OutIm => {
                self.port.set_output(operand);
                self.register.set_carry(false);
            },
        }
        match opcode {
            Opcode::Jmp | Opcode::Jnc => {},
            _ => {
                self.register.increment_pc();
            },
        }
    }

    /// The port's current output latch, masked to 4 bits.
    pub fn output(&self) -> (r: u8)
        ensures
            r == self.state().output % 16,
    {
        self.port.output()
    }
}

} // verus!
