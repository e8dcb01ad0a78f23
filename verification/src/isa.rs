//! The instruction-set vocabulary: status-flag masks, addressing modes,
//! operations, and the descriptor that an opcode byte maps to.

use vstd::prelude::*;

verus! {

/// Carry flag: bit 0 of the status register.
pub const CARRY: u8 = 0x01;

/// Zero flag: bit 1 of the status register.
pub const ZERO: u8 = 0x02;

/// Interrupt-disable flag: bit 2 of the status register.
pub const INTERRUPT: u8 = 0x04;

/// Decimal flag: bit 3 of the status register.
pub const DECIMAL: u8 = 0x08;

/// Break flag: bit 4 of the status register.
pub const BRK: u8 = 0x10;

/// Overflow flag: bit 6 of the status register.
pub const OVERFLOW: u8 = 0x40;

/// Sign (negative) flag: bit 7 of the status register.
pub const SIGN: u8 = 0x80;

/// The operand-fetching strategy encoded by an opcode. `Invalid` is the
/// sentinel carried by every table slot that was never registered; decoding
/// it is the single fatal error of the core.
#[derive(Clone, Copy, PartialEq, Eq, Structural, Debug)]
pub enum AddressingMode {
    Implied,
    Immediate,
    Relative,
    Zeropage,
    ZeropageX,
    Absolute,
    AbsoluteX,
    AbsoluteY,
    IndirectX,
    IndirectY,
    Invalid,
}

/// The operation an opcode performs once its operand is resolved. Several
/// opcode bytes that share a mnemonic share one variant.
#[derive(Clone, Copy, PartialEq, Eq, Structural, Debug)]
pub enum Operation {
    Lda,
    Ldx,
    Ldy,
    Sta,
    Stx,
    Sty,
    Tax,
    Tay,
    Txa,
    Tya,
    Inx,
    Iny,
    And,
    Adc,
    Sbc,
    Jmp,
    Clc,
    Sec,
    Cli,
    Sei,
    Clv,
    Cld,
    Sed,
    Beq,
    Bcs,
    Bcc,
    Pha,
    Pla,
    Php,
    Plp,
    Jsr,
    Rts,
    Nop,
}

/// One slot of the 256-entry opcode table: the addressing-mode resolver, the
/// operation executor, and the mnemonic used for trace output.
#[derive(Clone, Copy)]
pub struct OpCode {
    pub fetch: AddressingMode,
    pub fun: Operation,
    pub name: &'static str,
}

/// The decoded operand an addressing mode hands to the operation: the
/// latched 8-bit value and the latched 16-bit effective address. A mode
/// that does not produce one of the two leaves it at zero. The indirect
/// modes also carry the zero-page cell they resolved through, which is what
/// their trace notation shows in place of the effective address.
#[derive(Clone, Copy, PartialEq, Eq, Structural, Debug)]
pub struct Operand {
    pub value: u8,
    pub addr: u16,
    pub pointer: u8,
}

} // verus!
