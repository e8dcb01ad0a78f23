//! Instruction-level simulator for an 8-bit microprocessor.
//!
//! The core executes one instruction per `step()` call against a caller
//! supplied address bus: it fetches the opcode byte, resolves the operand
//! through the addressing mode registered for that byte, runs the operation,
//! and accumulates the elapsed clock cycles. Every architectural effect
//! (registers, flags, memory, cycle counts) is stated in the contracts and
//! proved against the specification-level machine in [`model`].

pub mod bus;
pub mod isa;
pub mod laws;
pub mod model;
pub mod mos6502;
pub mod trace;
