//! A verified emulator for a minimal 4-bit educational CPU: two general
//! registers, a 4-bit program counter, a carry flag, a fixed instruction
//! store, and a single 4-bit input/output port.
//!
//! The instruction semantics are captured by the spec function
//! [`cpu::step`], and every mutation of the machine is proved to follow it.

pub mod cpu;
pub mod error;
pub mod opcode;
pub mod port;
pub mod register;
pub mod rom;
