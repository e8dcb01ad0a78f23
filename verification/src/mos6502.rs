//! The execution engine: the register file, the 256-entry opcode descriptor
//! table, the addressing-mode resolvers, the operation executors, and the
//! single-step fetch-decode-execute driver. Every method is proved to follow
//! the spec-level interpreter in [`crate::model`].

use vstd::prelude::*;

use crate::bus::AddressBusIO;
use crate::isa::AddressingMode;
use crate::isa::OpCode;
use crate::isa::Operand;
use crate::isa::Operation;
use crate::isa::CARRY;
use crate::isa::DECIMAL;
use crate::isa::INTERRUPT;
use crate::isa::OVERFLOW;
use crate::isa::SIGN;
use crate::isa::ZERO;
use crate::model::MState;
use crate::model::flag_on;
use crate::model::spec_after_fetch;
use crate::model::spec_exec;
use crate::model::spec_fetched;
use crate::model::spec_instruction;
use crate::model::spec_resolve;
use crate::model::with_flag;
use crate::model::word;
use crate::model::wrap16;
use crate::trace::render_trace;
use crate::trace::spec_trace;

verus! {

/// The descriptor every table slot starts from: decoding it is the fatal
/// invalid-opcode condition.
pub open spec fn invalid_opcode() -> OpCode {
    OpCode { fetch: AddressingMode::Invalid, fun: Operation::Nop, name: "-" }
}

/// The opcode table a freshly constructed processor carries: every supported
/// mnemonic/addressing-mode/opcode-byte triple registered over a table of
/// invalid sentinels.
pub open spec fn initial_table() -> Seq<OpCode> {
    Seq::new(256, |i: int| invalid_opcode())
        .update(0x69, (OpCode { fetch: AddressingMode::Immediate, fun: Operation::Adc, name: "adc" }))
        .update(0x65, (OpCode { fetch: AddressingMode::Zeropage, fun: Operation::Adc, name: "adc" }))
        .update(0x75, (OpCode { fetch: AddressingMode::ZeropageX, fun: Operation::Adc, name: "adc" }))
        .update(0x6d, (OpCode { fetch: AddressingMode::Absolute, fun: Operation::Adc, name: "adc" }))
        .update(0x7d, (OpCode { fetch: AddressingMode::AbsoluteX, fun: Operation::Adc, name: "adc" }))
        .update(0x79, (OpCode { fetch: AddressingMode::AbsoluteY, fun: Operation::Adc, name: "adc" }))
        .update(0x61, (OpCode { fetch: AddressingMode::IndirectX, fun: Operation::Adc, name: "adc" }))
        .update(0x71, (OpCode { fetch: AddressingMode::IndirectY, fun: Operation::Adc, name: "adc" }))
        .update(0x29, (OpCode { fetch: AddressingMode::Immediate, fun: Operation::And, name: "and" }))
        .update(0x25, (OpCode { fetch: AddressingMode::Zeropage, fun: Operation::And, name: "and" }))
        .update(0x35, (OpCode { fetch: AddressingMode::ZeropageX, fun: Operation::And, name: "and" }))
        .update(0x2d, (OpCode { fetch: AddressingMode::Absolute, fun: Operation::And, name: "and" }))
        .update(0x3d, (OpCode { fetch: AddressingMode::AbsoluteX, fun: Operation::And, name: "and" }))
        .update(0x39, (OpCode { fetch: AddressingMode::AbsoluteY, fun: Operation::And, name: "and" }))
        .update(0x21, (OpCode { fetch: AddressingMode::IndirectX, fun: Operation::And, name: "and" }))
        .update(0x31, (OpCode { fetch: AddressingMode::IndirectY, fun: Operation::And, name: "and" }))
        .update(0xe9, (OpCode { fetch: AddressingMode::Immediate, fun: Operation::Sbc, name: "sbc" }))
        .update(0xe5, (OpCode { fetch: AddressingMode::Zeropage, fun: Operation::Sbc, name: "sbc" }))
        .update(0xf5, (OpCode { fetch: AddressingMode::ZeropageX, fun: Operation::Sbc, name: "sbc" }))
        .update(0xed, (OpCode { fetch: AddressingMode::Absolute, fun: Operation::Sbc, name: "sbc" }))
        .update(0xfd, (OpCode { fetch: AddressingMode::AbsoluteX, fun: Operation::Sbc, name: "sbc" }))
        .update(0xf9, (OpCode { fetch: AddressingMode::AbsoluteY, fun: Operation::Sbc, name: "sbc" }))
        .update(0xe1, (OpCode { fetch: AddressingMode::IndirectX, fun: Operation::Sbc, name: "sbc" }))
        .update(0xf1, (OpCode { fetch: AddressingMode::IndirectY, fun: Operation::Sbc, name: "sbc" }))
        .update(0xa9, (OpCode { fetch: AddressingMode::Immediate, fun: Operation::Lda, name: "lda" }))
        .update(0xa5, (OpCode { fetch: AddressingMode::Zeropage, fun: Operation::Lda, name: "lda" }))
        .update(0xb5, (OpCode { fetch: AddressingMode::ZeropageX, fun: Operation::Lda, name: "lda" }))
        .update(0xad, (OpCode { fetch: AddressingMode::Absolute, fun: Operation::Lda, name: "lda" }))
        .update(0xbd, (OpCode { fetch: AddressingMode::AbsoluteX, fun: Operation::Lda, name: "lda" }))
        .update(0xb9, (OpCode { fetch: AddressingMode::AbsoluteY, fun: Operation::Lda, name: "lda" }))
        .update(0xa1, (OpCode { fetch: AddressingMode::IndirectX, fun: Operation::Lda, name: "lda" }))
        .update(0xb1, (OpCode { fetch: AddressingMode::IndirectY, fun: Operation::Lda, name: "lda" }))
        .update(0xa2, (OpCode { fetch: AddressingMode::Immediate, fun: Operation::Ldx, name: "ldx" }))
        .update(0xa6, (OpCode { fetch: AddressingMode::Zeropage, fun: Operation::Ldx, name: "ldx" }))
        .update(0xae, (OpCode { fetch: AddressingMode::Absolute, fun: Operation::Ldx, name: "ldx" }))
        .update(0xbe, (OpCode { fetch: AddressingMode::AbsoluteY, fun: Operation::Ldx, name: "ldx" }))
        .update(0xa0, (OpCode { fetch: AddressingMode::Immediate, fun: Operation::Ldy, name: "ldy" }))
        .update(0xa4, (OpCode { fetch: AddressingMode::Zeropage, fun: Operation::Ldy, name: "ldy" }))
        .update(0xb4, (OpCode { fetch: AddressingMode::ZeropageX, fun: Operation::Ldy, name: "ldy" }))
        .update(0xac, (OpCode { fetch: AddressingMode::Absolute, fun: Operation::Ldy, name: "ldy" }))
        .update(0xbc, (OpCode { fetch: AddressingMode::AbsoluteX, fun: Operation::Ldy, name: "ldy" }))
        .update(0x85, (OpCode { fetch: AddressingMode::Zeropage, fun: Operation::Sta, name: "sta" }))
        .update(0x95, (OpCode { fetch: AddressingMode::ZeropageX, fun: Operation::Sta, name: "sta" }))
        .update(0x8d, (OpCode { fetch: AddressingMode::Absolute, fun: Operation::Sta, name: "sta" }))
        .update(0x9d, (OpCode { fetch: AddressingMode::AbsoluteX, fun: Operation::Sta, name: "sta" }))
        .update(0x99, (OpCode { fetch: AddressingMode::AbsoluteY, fun: Operation::Sta, name: "sta" }))
        .update(0x81, (OpCode { fetch: AddressingMode::IndirectX, fun: Operation::Sta, name: "sta" }))
        .update(0x91, (OpCode { fetch: AddressingMode::IndirectY, fun: Operation::Sta, name: "sta" }))
        .update(0x86, (OpCode { fetch: AddressingMode::Zeropage, fun: Operation::Stx, name: "stx" }))
        .update(0x8e, (OpCode { fetch: AddressingMode::Absolute, fun: Operation::Stx, name: "stx" }))
        .update(0x84, (OpCode { fetch: AddressingMode::Zeropage, fun: Operation::Sty, name: "sty" }))
        .update(0x94, (OpCode { fetch: AddressingMode::ZeropageX, fun: Operation::Sty, name: "sty" }))
        .update(0x8c, (OpCode { fetch: AddressingMode::Absolute, fun: Operation::Sty, name: "sty" }))
        .update(0xaa, (OpCode { fetch: AddressingMode::Implied, fun: Operation::Tax, name: "tax" }))
        .update(0xa8, (OpCode { fetch: AddressingMode::Implied, fun: Operation::Tay, name: "tay" }))
        .update(0x8a, (OpCode { fetch: AddressingMode::Implied, fun: Operation::Txa, name: "txa" }))
        .update(0x98, (OpCode { fetch: AddressingMode::Implied, fun: Operation::Tya, name: "tya" }))
        .update(0xe8, (OpCode { fetch: AddressingMode::Implied, fun: Operation::Inx, name: "inx" }))
        .update(0xc8, (OpCode { fetch: AddressingMode::Implied, fun: Operation::Iny, name: "iny" }))
        .update(0x4c, (OpCode { fetch: AddressingMode::Absolute, fun: Operation::Jmp, name: "jmp" }))
        .update(0x18, (OpCode { fetch: AddressingMode::Implied, fun: Operation::Clc, name: "clc" }))
        .update(0x38, (OpCode { fetch: AddressingMode::Implied, fun: Operation::Sec, name: "sec" }))
        .update(0x58, (OpCode { fetch: AddressingMode::Implied, fun: Operation::Cli, name: "cli" }))
        .update(0x78, (OpCode { fetch: AddressingMode::Implied, fun: Operation::Sei, name: "sei" }))
        .update(0xb8, (OpCode { fetch: AddressingMode::Implied, fun: Operation::Clv, name: "clv" }))
        .update(0xd8, (OpCode { fetch: AddressingMode::Implied, fun: Operation::Cld, name: "cld" }))
        .update(0xf8, (OpCode { fetch: AddressingMode::Implied, fun: Operation::Sed, name: "sed" }))
        .update(0xf0, (OpCode { fetch: AddressingMode::Relative, fun: Operation::Beq, name: "beq" }))
        .update(0xb0, (OpCode { fetch: AddressingMode::Relative, fun: Operation::Bcs, name: "bcs" }))
        .update(0x90, (OpCode { fetch: AddressingMode::Relative, fun: Operation::Bcc, name: "bcc" }))
        .update(0x48, (OpCode { fetch: AddressingMode::Implied, fun: Operation::Pha, name: "pha" }))
        .update(0x68, (OpCode { fetch: AddressingMode::Implied, fun: Operation::Pla, name: "pla" }))
        .update(0x08, (OpCode { fetch: AddressingMode::Implied, fun: Operation::Php, name: "php" }))
        .update(0x28, (OpCode { fetch: AddressingMode::Implied, fun: Operation::Plp, name: "plp" }))
        .update(0x20, (OpCode { fetch: AddressingMode::Absolute, fun: Operation::Jsr, name: "jsr" }))
        .update(0x60, (OpCode { fetch: AddressingMode::Implied, fun: Operation::Rts, name: "rts" }))
        .update(0xea, (OpCode { fetch: AddressingMode::Implied, fun: Operation::Nop, name: "nop" }))
}

/// The simulated processor: the architectural register file, the cycle
/// counter, the opcode descriptor table, and the bus it executes against.
pub struct MOS6502<T: AddressBusIO> {
    pub bus: T,
    pub a: u8,
    pub x: u8,
    pub y: u8,
    pub pc: u16,
    pub sp: u8,
    pub status: u8,
    pub debug: bool,
    pub debug_line: String,
    pub ticks: u64,
    pub opcodes: Vec<OpCode>,
}

impl<T: AddressBusIO> MOS6502<T> {
    /// The abstract machine this processor-and-bus pair denotes.
    pub open spec fn mstate(self) -> MState {
        MState {
            a: self.a,
            x: self.x,
            y: self.y,
            pc: self.pc,
            sp: self.sp,
            status: self.status,
            ticks: self.ticks as nat,
            mem: self.bus.mem(),
        }
    }

    /// The opcode descriptor table as a sequence indexed by opcode byte.
    pub open spec fn table(self) -> Seq<OpCode> {
        self.opcodes@
    }

    /// Well-formedness: the table has one slot per opcode byte and the bus
    /// is in its own good state.
    pub open spec fn inv(self) -> bool {
        self.opcodes@.len() == 256 && self.bus.inv()
    }

    /// The parts no resolver or executor touches: the descriptor table and
    /// the trace channel.
    pub open spec fn frame(pre: Self, post: Self) -> bool {
        post.opcodes@ == pre.opcodes@ && post.debug == pre.debug && post.debug_line
            == pre.debug_line
    }

    fn read8(&mut self, addr: u16) -> (value: u8)
        requires
            old(self).bus.inv(),
        ensures
            final(self).bus.inv(),
            final(self).bus.mem() == old(self).bus.mem(),
            value == old(self).bus.mem()[addr],
            *final(self) == (MOS6502 { bus: final(self).bus, ..*old(self) }),
    {
        self.bus.read(addr)
    }

    fn write8(&mut self, addr: u16, value: u8)
        requires
            old(self).bus.inv(),
        ensures
            final(self).bus.inv(),
            final(self).bus.mem() == old(self).bus.mem().insert(addr, value),
            *final(self) == (MOS6502 { bus: final(self).bus, ..*old(self) }),
    {
        self.bus.write(addr, value)
    }

    fn advance_pc(&mut self) -> (pc: u16)
        ensures
            pc == old(self).pc,
            *final(self) == (MOS6502 { pc: wrap16(old(self).pc + 1), ..*old(self) }),
    {
        let pc = self.pc;
        self.pc = self.pc.wrapping_add(1);
        pc
    }

    fn read8_from_pc(&mut self) -> (value: u8)
        requires
            old(self).bus.inv(),
        ensures
            final(self).bus.inv(),
            final(self).bus.mem() == old(self).bus.mem(),
            value == old(self).bus.mem()[old(self).pc],
            *final(self) == (MOS6502 {
                pc: wrap16(old(self).pc + 1),
                bus: final(self).bus,
                ..*old(self)
            }),
    {
        let pc = self.advance_pc();
        self.read8(pc)
    }

    fn read16_from_pc(&mut self) -> (value: u16)
        requires
            old(self).bus.inv(),
        ensures
            final(self).bus.inv(),
            final(self).bus.mem() == old(self).bus.mem(),
            value == word(
                old(self).bus.mem()[old(self).pc],
                old(self).bus.mem()[wrap16(old(self).pc + 1)],
            ),
            *final(self) == (MOS6502 {
                pc: wrap16(old(self).pc + 2),
                bus: final(self).bus,
                ..*old(self)
            }),
    {
        let low = self.read8_from_pc() as u16;
        let high = self.read8_from_pc() as u16;
        proof {
            crate::model::lemma_wrap16_shift(old(self).pc as int, 1);
        }
        high * 0x100 + low
    }

    /// Whether the masked flag bits are currently set.
    pub fn get_flag(&self, flag: u8) -> (r: bool)
        ensures
            r == flag_on(self.status, flag),
    {
        (self.status & flag) != 0
    }

    /// Forces the masked flag bits on or off; the only way any component
    /// touches the status register.
    pub fn set_flag(&mut self, flag: u8, enabled: bool)
        ensures
            *final(self) == (MOS6502 {
                status: with_flag(old(self).status, flag, enabled),
                ..*old(self)
            }),
    {
        if enabled {
            self.status = self.status | flag;
        } else {
            self.status = self.status & !flag;
        }
    }

    // ADDRESSING-MODE RESOLVERS

    fn implied(&mut self) -> (o: Operand)
        requires
            old(self).bus.inv(),
            old(self).ticks + 2 <= u64::MAX,
        ensures
            final(self).bus.inv(),
            Self::frame(*old(self), *final(self)),
            final(self).mstate() == spec_resolve(AddressingMode::Implied, old(self).mstate()).0,
            o == spec_resolve(AddressingMode::Implied, old(self).mstate()).1,
    {
        self.ticks = self.ticks + 2;
        Operand { value: 0, addr: 0, pointer: 0 }
    }

    fn immediate(&mut self) -> (o: Operand)
        requires
            old(self).bus.inv(),
            old(self).ticks + 2 <= u64::MAX,
        ensures
            final(self).bus.inv(),
            Self::frame(*old(self), *final(self)),
            final(self).mstate() == spec_resolve(AddressingMode::Immediate, old(self).mstate()).0,
            o == spec_resolve(AddressingMode::Immediate, old(self).mstate()).1,
    {
        let value = self.read8_from_pc();
        self.ticks = self.ticks + 2;
        Operand { value, addr: 0, pointer: 0 }
    }

    fn relative(&mut self) -> (o: Operand)
        requires
            old(self).bus.inv(),
            old(self).ticks + 2 <= u64::MAX,
        ensures
            final(self).bus.inv(),
            Self::frame(*old(self), *final(self)),
            final(self).mstate() == spec_resolve(AddressingMode::Relative, old(self).mstate()).0,
            o == spec_resolve(AddressingMode::Relative, old(self).mstate()).1,
    {
        let offset = self.read8_from_pc();
        self.ticks = self.ticks + 2;
        let target = if offset < 0x80 {
            self.pc.wrapping_add(offset as u16)
        } else {
            self.pc.wrapping_sub(0x100 - (offset as u16))
        };
        Operand { value: 0, addr: target, pointer: 0 }
    }

    fn zeropage(&mut self) -> (o: Operand)
        requires
            old(self).bus.inv(),
            old(self).ticks + 3 <= u64::MAX,
        ensures
            final(self).bus.inv(),
            Self::frame(*old(self), *final(self)),
            final(self).mstate() == spec_resolve(AddressingMode::Zeropage, old(self).mstate()).0,
            o == spec_resolve(AddressingMode::Zeropage, old(self).mstate()).1,
    {
        let addr = self.read8_from_pc() as u16;
        let value = self.read8(addr);
        self.ticks = self.ticks + 3;
        Operand { value, addr, pointer: 0 }
    }

    fn zeropage_x(&mut self) -> (o: Operand)
        requires
            old(self).bus.inv(),
            old(self).ticks + 3 <= u64::MAX,
        ensures
            final(self).bus.inv(),
            Self::frame(*old(self), *final(self)),
            final(self).mstate() == spec_resolve(AddressingMode::ZeropageX, old(self).mstate()).0,
            o == spec_resolve(AddressingMode::ZeropageX, old(self).mstate()).1,
    {
        let operand = self.read8_from_pc();
        // stays in the zero page: the index addition wraps at 8 bits
        let addr = operand.wrapping_add(self.x) as u16;
        let value = self.read8(addr);
        self.ticks = self.ticks + 3;
        Operand { value, addr, pointer: 0 }
    }

    fn absolute(&mut self) -> (o: Operand)
        requires
            old(self).bus.inv(),
            old(self).ticks + 4 <= u64::MAX,
        ensures
            final(self).bus.inv(),
            Self::frame(*old(self), *final(self)),
            final(self).mstate() == spec_resolve(AddressingMode::Absolute, old(self).mstate()).0,
            o == spec_resolve(AddressingMode::Absolute, old(self).mstate()).1,
    {
        let addr = self.read16_from_pc();
        let value = self.read8(addr);
        self.ticks = self.ticks + 4;
        Operand { value, addr, pointer: 0 }
    }

    fn absolute_x(&mut self) -> (o: Operand)
        requires
            old(self).bus.inv(),
            old(self).ticks + 5 <= u64::MAX,
        ensures
            final(self).bus.inv(),
            Self::frame(*old(self), *final(self)),
            final(self).mstate() == spec_resolve(AddressingMode::AbsoluteX, old(self).mstate()).0,
            o == spec_resolve(AddressingMode::AbsoluteX, old(self).mstate()).1,
    {
        let base = self.read16_from_pc();
        let addr = base.wrapping_add(self.x as u16);
        let boundary: u64 = if base / 0x100 != addr / 0x100 {
            1
        } else {
            0
        };
        let value = self.read8(addr);
        self.ticks = self.ticks + 4 + boundary;
        Operand { value, addr, pointer: 0 }
    }

    fn absolute_y(&mut self) -> (o: Operand)
        requires
            old(self).bus.inv(),
            old(self).ticks + 5 <= u64::MAX,
        ensures
            final(self).bus.inv(),
            Self::frame(*old(self), *final(self)),
            final(self).mstate() == spec_resolve(AddressingMode::AbsoluteY, old(self).mstate()).0,
            o == spec_resolve(AddressingMode::AbsoluteY, old(self).mstate()).1,
    {
        let base = self.read16_from_pc();
        let addr = base.wrapping_add(self.y as u16);
        let boundary: u64 = if base / 0x100 != addr / 0x100 {
            1
        } else {
            0
        };
        let value = self.read8(addr);
        self.ticks = self.ticks + 4 + boundary;
        Operand { value, addr, pointer: 0 }
    }

    fn indirect_x(&mut self) -> (o: Operand)
        requires
            old(self).bus.inv(),
            old(self).ticks + 2 <= u64::MAX,
        ensures
            final(self).bus.inv(),
            Self::frame(*old(self), *final(self)),
            final(self).mstate() == spec_resolve(AddressingMode::IndirectX, old(self).mstate()).0,
            o == spec_resolve(AddressingMode::IndirectX, old(self).mstate()).1,
    {
        let operand = self.read8_from_pc();
        // the indexed pointer stays in the zero page
        let pointer = operand.wrapping_add(self.x);
        // the effective address is that single zero-page byte; its high
        // byte is left at zero
        let addr = self.read8(pointer as u16) as u16;
        let value = self.read8(addr);
        self.ticks = self.ticks + 2;
        Operand { value, addr, pointer }
    }

    fn indirect_y(&mut self) -> (o: Operand)
        requires
            old(self).bus.inv(),
            old(self).ticks + 3 <= u64::MAX,
        ensures
            final(self).bus.inv(),
            Self::frame(*old(self), *final(self)),
            final(self).mstate() == spec_resolve(AddressingMode::IndirectY, old(self).mstate()).0,
            o == spec_resolve(AddressingMode::IndirectY, old(self).mstate()).1,
    {
        let pointer = self.read8_from_pc();
        let addr = (self.read8(pointer as u16) as u16) + (self.y as u16);
        let value = self.read8(addr);
        self.ticks = self.ticks + 2;
        // one extra cycle when the summed address has a non-zero high byte
        if addr >= 0x100 {
            self.ticks = self.ticks + 1;
        }
        Operand { value, addr, pointer }
    }

    // OPERATION EXECUTORS

    fn lda(&mut self, o: Operand)
        ensures
            final(self).bus == old(self).bus,
            Self::frame(*old(self), *final(self)),
            final(self).mstate() == spec_exec(Operation::Lda, o, old(self).mstate()),
    {
        let a = o.value;
        self.a = a;
        self.set_flag(ZERO, a == 0);
        self.set_flag(SIGN, a >= 0x80);
    }

    fn ldx(&mut self, o: Operand)
        ensures
            final(self).bus == old(self).bus,
            Self::frame(*old(self), *final(self)),
            final(self).mstate() == spec_exec(Operation::Ldx, o, old(self).mstate()),
    {
        let x = o.value;
        self.x = x;
        self.set_flag(ZERO, x == 0);
        self.set_flag(SIGN, x >= 0x80);
    }

    fn ldy(&mut self, o: Operand)
        ensures
            final(self).bus == old(self).bus,
            Self::frame(*old(self), *final(self)),
            final(self).mstate() == spec_exec(Operation::Ldy, o, old(self).mstate()),
    {
        let y = o.value;
        self.y = y;
        self.set_flag(ZERO, y == 0);
        self.set_flag(SIGN, y >= 0x80);
    }

    fn sta(&mut self, o: Operand)
        requires
            old(self).bus.inv(),
        ensures
            final(self).bus.inv(),
            Self::frame(*old(self), *final(self)),
            final(self).mstate() == spec_exec(Operation::Sta, o, old(self).mstate()),
    {
        let a = self.a;
        self.write8(o.addr, a);
    }

    fn stx(&mut self, o: Operand)
        requires
            old(self).bus.inv(),
        ensures
            final(self).bus.inv(),
            Self::frame(*old(self), *final(self)),
            final(self).mstate() == spec_exec(Operation::Stx, o, old(self).mstate()),
    {
        let x = self.x;
        self.write8(o.addr, x);
    }

    fn sty(&mut self, o: Operand)
        requires
            old(self).bus.inv(),
        ensures
            final(self).bus.inv(),
            Self::frame(*old(self), *final(self)),
            final(self).mstate() == spec_exec(Operation::Sty, o, old(self).mstate()),
    {
        let y = self.y;
        self.write8(o.addr, y);
    }

    fn tax(&mut self)
        ensures
            final(self).bus == old(self).bus,
            Self::frame(*old(self), *final(self)),
            final(self).mstate() == spec_exec(
                Operation::Tax,
                (Operand { value: 0, addr: 0, pointer: 0 }),
                old(self).mstate(),
            ),
    {
        self.x = self.a;
        let x = self.x;
        self.set_flag(ZERO, x == 0);
        self.set_flag(SIGN, x >= 0x80);
    }

    fn tay(&mut self)
        ensures
            final(self).bus == old(self).bus,
            Self::frame(*old(self), *final(self)),
            final(self).mstate() == spec_exec(
                Operation::Tay,
                (Operand { value: 0, addr: 0, pointer: 0 }),
                old(self).mstate(),
            ),
    {
        self.y = self.a;
        let y = self.y;
        self.set_flag(ZERO, y == 0);
        self.set_flag(SIGN, y >= 0x80);
    }

    fn txa(&mut self)
        ensures
            final(self).bus == old(self).bus,
            Self::frame(*old(self), *final(self)),
            final(self).mstate() == spec_exec(
                Operation::Txa,
                (Operand { value: 0, addr: 0, pointer: 0 }),
                old(self).mstate(),
            ),
    {
        self.a = self.x;
        let a = self.a;
        self.set_flag(ZERO, a == 0);
        self.set_flag(SIGN, a >= 0x80);
    }

    fn tya(&mut self)
        ensures
            final(self).bus == old(self).bus,
            Self::frame(*old(self), *final(self)),
            final(self).mstate() == spec_exec(
                Operation::Tya,
                (Operand { value: 0, addr: 0, pointer: 0 }),
                old(self).mstate(),
            ),
    {
        self.a = self.y;
        let a = self.a;
        self.set_flag(ZERO, a == 0);
        self.set_flag(SIGN, a >= 0x80);
    }

    fn inx(&mut self)
        ensures
            final(self).bus == old(self).bus,
            Self::frame(*old(self), *final(self)),
            final(self).mstate() == spec_exec(
                Operation::Inx,
                (Operand { value: 0, addr: 0, pointer: 0 }),
                old(self).mstate(),
            ),
    {
        self.x = self.x.wrapping_add(1);
        let x = self.x;
        self.set_flag(ZERO, x == 0);
        self.set_flag(SIGN, x >= 0x80);
    }

    fn iny(&mut self)
        ensures
            final(self).bus == old(self).bus,
            Self::frame(*old(self), *final(self)),
            final(self).mstate() == spec_exec(
                Operation::Iny,
                (Operand { value: 0, addr: 0, pointer: 0 }),
                old(self).mstate(),
            ),
    {
        self.y = self.y.wrapping_add(1);
        let y = self.y;
        self.set_flag(ZERO, y == 0);
        self.set_flag(SIGN, y >= 0x80);
    }

    fn and(&mut self, o: Operand)
        ensures
            final(self).bus == old(self).bus,
            Self::frame(*old(self), *final(self)),
            final(self).mstate() == spec_exec(Operation::And, o, old(self).mstate()),
    {
        self.a = self.a & o.value;
        let a = self.a;
        self.set_flag(ZERO, a == 0);
        self.set_flag(SIGN, a >= 0x80);
    }

    fn adc(&mut self, o: Operand)
        ensures
            final(self).bus == old(self).bus,
            Self::frame(*old(self), *final(self)),
            final(self).mstate() == spec_exec(Operation::Adc, o, old(self).mstate()),
    {
        let carry: u16 = if self.get_flag(CARRY) {
            1
        } else {
            0
        };
        let orig_a = self.a;
        let sum: u16 = (orig_a as u16) + (o.value as u16) + carry;
        let result: u8 = (sum % 0x100) as u8;
        self.set_flag(CARRY, sum > 0xff);
        self.a = result;
        self.set_flag(ZERO, result == 0);
        self.set_flag(SIGN, result >= 0x80);
        // overflow: the sign of both inputs differs from the sign of the result
        self.set_flag(OVERFLOW, ((orig_a ^ result) & (o.value ^ result)) & 0x80 != 0);
    }

    fn sbc(&mut self, o: Operand)
        ensures
            final(self).bus == old(self).bus,
            Self::frame(*old(self), *final(self)),
            final(self).mstate() == spec_exec(Operation::Sbc, o, old(self).mstate()),
    {
        let borrow: u16 = if self.get_flag(CARRY) {
            0
        } else {
            1
        };
        let orig_a = self.a;
        // lifted by 0x100 so the wide difference stays unsigned
        let wide: u16 = (orig_a as u16) + 0x100 - (o.value as u16) - borrow;
        let result: u8 = (wide % 0x100) as u8;
        let no_borrow = (orig_a as u16) >= (o.value as u16) + borrow;
        proof {
            vstd::arithmetic::div_mod::lemma_mod_add_multiples_vanish(
                orig_a - o.value - borrow,
                0x100,
            );
        }
        self.set_flag(CARRY, no_borrow);
        self.a = result;
        self.set_flag(ZERO, result == 0);
        self.set_flag(SIGN, result >= 0x80);
        // overflow: the sign of both inputs differs from the sign of the result
        self.set_flag(OVERFLOW, ((orig_a ^ result) & (o.value ^ result)) & 0x80 != 0);
    }

    fn jmp(&mut self, o: Operand)
        ensures
            final(self).bus == old(self).bus,
            Self::frame(*old(self), *final(self)),
            final(self).mstate() == spec_exec(Operation::Jmp, o, old(self).mstate()),
    {
        self.pc = o.addr;
    }

    fn sec(&mut self)
        ensures
            final(self).bus == old(self).bus,
            Self::frame(*old(self), *final(self)),
            final(self).mstate() == spec_exec(
                Operation::Sec,
                (Operand { value: 0, addr: 0, pointer: 0 }),
                old(self).mstate(),
            ),
    {
        self.set_flag(CARRY, true);
    }

    fn sei(&mut self)
        ensures
            final(self).bus == old(self).bus,
            Self::frame(*old(self), *final(self)),
            final(self).mstate() == spec_exec(
                Operation::Sei,
                (Operand { value: 0, addr: 0, pointer: 0 }),
                old(self).mstate(),
            ),
    {
        self.set_flag(INTERRUPT, true);
    }

    fn clc(&mut self)
        ensures
            final(self).bus == old(self).bus,
            Self::frame(*old(self), *final(self)),
            final(self).mstate() == spec_exec(
                Operation::Clc,
                (Operand { value: 0, addr: 0, pointer: 0 }),
                old(self).mstate(),
            ),
    {
        self.set_flag(CARRY, false);
    }

    fn cli(&mut self)
        ensures
            final(self).bus == old(self).bus,
            Self::frame(*old(self), *final(self)),
            final(self).mstate() == spec_exec(
                Operation::Cli,
                (Operand { value: 0, addr: 0, pointer: 0 }),
                old(self).mstate(),
            ),
    {
        self.set_flag(INTERRUPT, false);
    }

    fn clv(&mut self)
        ensures
            final(self).bus == old(self).bus,
            Self::frame(*old(self), *final(self)),
            final(self).mstate() == spec_exec(
                Operation::Clv,
                (Operand { value: 0, addr: 0, pointer: 0 }),
                old(self).mstate(),
            ),
    {
        self.set_flag(OVERFLOW, false);
    }

    fn cld(&mut self)
        ensures
            final(self).bus == old(self).bus,
            Self::frame(*old(self), *final(self)),
            final(self).mstate() == spec_exec(
                Operation::Cld,
                (Operand { value: 0, addr: 0, pointer: 0 }),
                old(self).mstate(),
            ),
    {
        self.set_flag(DECIMAL, false);
    }

    fn sed(&mut self)
        ensures
            final(self).bus == old(self).bus,
            Self::frame(*old(self), *final(self)),
            final(self).mstate() == spec_exec(
                Operation::Sed,
                (Operand { value: 0, addr: 0, pointer: 0 }),
                old(self).mstate(),
            ),
    {
        self.set_flag(DECIMAL, true);
    }

    fn beq(&mut self, o: Operand)
        requires
            old(self).ticks + 1 <= u64::MAX,
        ensures
            final(self).bus == old(self).bus,
            Self::frame(*old(self), *final(self)),
            final(self).mstate() == spec_exec(Operation::Beq, o, old(self).mstate()),
    {
        if self.get_flag(ZERO) {
            self.pc = o.addr;
            self.ticks = self.ticks + 1;
        }
    }

    fn bcs(&mut self, o: Operand)
        requires
            old(self).ticks + 1 <= u64::MAX,
        ensures
            final(self).bus == old(self).bus,
            Self::frame(*old(self), *final(self)),
            final(self).mstate() == spec_exec(Operation::Bcs, o, old(self).mstate()),
    {
        if self.get_flag(CARRY) {
            self.pc = o.addr;
            self.ticks = self.ticks + 1;
        }
    }

    fn bcc(&mut self, o: Operand)
        requires
            old(self).ticks + 1 <= u64::MAX,
        ensures
            final(self).bus == old(self).bus,
            Self::frame(*old(self), *final(self)),
            final(self).mstate() == spec_exec(Operation::Bcc, o, old(self).mstate()),
    {
        if !self.get_flag(CARRY) {
            self.pc = o.addr;
            self.ticks = self.ticks + 1;
        }
    }

    fn pha(&mut self)
        requires
            old(self).bus.inv(),
            old(self).ticks + 1 <= u64::MAX,
        ensures
            final(self).bus.inv(),
            Self::frame(*old(self), *final(self)),
            final(self).mstate() == spec_exec(
                Operation::Pha,
                (Operand { value: 0, addr: 0, pointer: 0 }),
                old(self).mstate(),
            ),
    {
        let sp: u16 = 0x100 + (self.sp as u16);
        let a = self.a;
        self.write8(sp, a);
        self.sp = self.sp.wrapping_sub(1);
        self.ticks = self.ticks + 1;
    }

    fn php(&mut self)
        requires
            old(self).bus.inv(),
            old(self).ticks + 1 <= u64::MAX,
        ensures
            final(self).bus.inv(),
            Self::frame(*old(self), *final(self)),
            final(self).mstate() == spec_exec(
                Operation::Php,
                (Operand { value: 0, addr: 0, pointer: 0 }),
                old(self).mstate(),
            ),
    {
        let sp: u16 = 0x100 + (self.sp as u16);
        let status = self.status;
        self.write8(sp, status);
        self.sp = self.sp.wrapping_sub(1);
        self.ticks = self.ticks + 1;
    }

    fn pla(&mut self)
        requires
            old(self).bus.inv(),
            old(self).ticks + 2 <= u64::MAX,
        ensures
            final(self).bus.inv(),
            Self::frame(*old(self), *final(self)),
            final(self).mstate() == spec_exec(
                Operation::Pla,
                (Operand { value: 0, addr: 0, pointer: 0 }),
                old(self).mstate(),
            ),
    {
        self.sp = self.sp.wrapping_add(1);
        let sp: u16 = 0x100 + (self.sp as u16);
        self.a = self.read8(sp);
        self.ticks = self.ticks + 2;
    }

    fn plp(&mut self)
        requires
            old(self).bus.inv(),
            old(self).ticks + 2 <= u64::MAX,
        ensures
            final(self).bus.inv(),
            Self::frame(*old(self), *final(self)),
            final(self).mstate() == spec_exec(
                Operation::Plp,
                (Operand { value: 0, addr: 0, pointer: 0 }),
                old(self).mstate(),
            ),
    {
        self.sp = self.sp.wrapping_add(1);
        let sp: u16 = 0x100 + (self.sp as u16);
        // the unused status bit stays fixed at one whatever was pulled
        self.status = self.read8(sp) | 0x20;
        self.ticks = self.ticks + 2;
    }

    fn jsr(&mut self, o: Operand)
        requires
            old(self).bus.inv(),
            old(self).ticks + 2 <= u64::MAX,
        ensures
            final(self).bus.inv(),
            Self::frame(*old(self), *final(self)),
            final(self).mstate() == spec_exec(Operation::Jsr, o, old(self).mstate()),
    {
        let sp: u16 = 0x100 + (self.sp as u16);
        let pc = self.pc.wrapping_sub(1);
        let pc_high: u8 = (pc / 0x100) as u8;
        let pc_low: u8 = (pc % 0x100) as u8;
        self.write8(sp, pc_high);
        self.write8(sp - 1, pc_low);
        self.sp = self.sp.wrapping_sub(2);
        self.pc = o.addr;
        self.ticks = self.ticks + 2;
    }

    fn rts(&mut self)
        requires
            old(self).bus.inv(),
            old(self).ticks + 4 <= u64::MAX,
        ensures
            final(self).bus.inv(),
            Self::frame(*old(self), *final(self)),
            final(self).mstate() == spec_exec(
                Operation::Rts,
                (Operand { value: 0, addr: 0, pointer: 0 }),
                old(self).mstate(),
            ),
    {
        self.sp = self.sp.wrapping_add(1);
        let sp: u16 = 0x100 + (self.sp as u16);
        let pc_low = self.read8(sp) as u16;
        let pc_high = self.read8(sp + 1) as u16;
        self.sp = self.sp.wrapping_add(1);
        self.pc = (pc_high * 0x100 + pc_low).wrapping_add(1);
        self.ticks = self.ticks + 4;
    }

    fn nop(&mut self)
        ensures
            final(self).bus == old(self).bus,
            Self::frame(*old(self), *final(self)),
            final(self).mstate() == spec_exec(
                Operation::Nop,
                (Operand { value: 0, addr: 0, pointer: 0 }),
                old(self).mstate(),
            ),
    {
    }

    // TABLE REGISTRATION AND THE STEP DRIVER

    /// Builds a processor around the given bus: registers cleared, stack
    /// pointer at the top of the stack page, status with only its fixed bit
    /// set, cycle counter at zero, and the opcode table fully populated.
    pub fn new(bus: T) -> (cpu: MOS6502<T>)
        requires
            bus.inv(),
        ensures
            cpu.inv(),
            cpu.bus == bus,
            cpu.a == 0u8 && cpu.x == 0u8 && cpu.y == 0u8,
            cpu.pc == 0u16 && cpu.sp == 0xffu8 && cpu.status == 0x20u8,
            cpu.ticks == 0u64,
            !cpu.debug,
            cpu.debug_line@ == Seq::<char>::empty(),
            cpu.table() == initial_table(),
    {
        let noop = OpCode { fetch: AddressingMode::Invalid, fun: Operation::Nop, name: "-" };
        let mut opcodes: Vec<OpCode> = Vec::new();
        let mut i: usize = 0;
        while i < 256
            invariant
                i <= 256,
                opcodes@.len() == i,
                forall|j: int| 0 <= j < i ==> opcodes@[j] == noop,
            decreases 256 - i,
        {
            opcodes.push(noop);
            i = i + 1;
        }
        let mut cpu = MOS6502 {
            a: 0,
            x: 0,
            y: 0,
            pc: 0,
            sp: 0xff,
            ticks: 0,
            debug_line: String::new(),
            opcodes,
            debug: false,
            status: 0x20,
            bus,
        };
        proof {
            assert(noop == invalid_opcode());
            assert(cpu.opcodes@ =~= Seq::new(256, |i: int| invalid_opcode()));
        }
        cpu.register_opcode("adc", Operation::Adc, 0x69, AddressingMode::Immediate);
        cpu.register_opcode("adc", Operation::Adc, 0x65, AddressingMode::Zeropage);
        cpu.register_opcode("adc", Operation::Adc, 0x75, AddressingMode::ZeropageX);
        cpu.register_opcode("adc", Operation::Adc, 0x6d, AddressingMode::Absolute);
        cpu.register_opcode("adc", Operation::Adc, 0x7d, AddressingMode::AbsoluteX);
        cpu.register_opcode("adc", Operation::Adc, 0x79, AddressingMode::AbsoluteY);
        cpu.register_opcode("adc", Operation::Adc, 0x61, AddressingMode::IndirectX);
        cpu.register_opcode("adc", Operation::Adc, 0x71, AddressingMode::IndirectY);
        cpu.register_opcode("and", Operation::And, 0x29, AddressingMode::Immediate);
        cpu.register_opcode("and", Operation::And, 0x25, AddressingMode::Zeropage);
        cpu.register_opcode("and", Operation::And, 0x35, AddressingMode::ZeropageX);
        cpu.register_opcode("and", Operation::And, 0x2d, AddressingMode::Absolute);
        cpu.register_opcode("and", Operation::And, 0x3d, AddressingMode::AbsoluteX);
        cpu.register_opcode("and", Operation::And, 0x39, AddressingMode::AbsoluteY);
        cpu.register_opcode("and", Operation::And, 0x21, AddressingMode::IndirectX);
        cpu.register_opcode("and", Operation::And, 0x31, AddressingMode::IndirectY);
        cpu.register_opcode("sbc", Operation::Sbc, 0xe9, AddressingMode::Immediate);
        cpu.register_opcode("sbc", Operation::Sbc, 0xe5, AddressingMode::Zeropage);
        cpu.register_opcode("sbc", Operation::Sbc, 0xf5, AddressingMode::ZeropageX);
        cpu.register_opcode("sbc", Operation::Sbc, 0xed, AddressingMode::Absolute);
        cpu.register_opcode("sbc", Operation::Sbc, 0xfd, AddressingMode::AbsoluteX);
        cpu.register_opcode("sbc", Operation::Sbc, 0xf9, AddressingMode::AbsoluteY);
        cpu.register_opcode("sbc", Operation::Sbc, 0xe1, AddressingMode::IndirectX);
        cpu.register_opcode("sbc", Operation::Sbc, 0xf1, AddressingMode::IndirectY);
        cpu.register_opcode("lda", Operation::Lda, 0xa9, AddressingMode::Immediate);
        cpu.register_opcode("lda", Operation::Lda, 0xa5, AddressingMode::Zeropage);
        cpu.register_opcode("lda", Operation::Lda, 0xb5, AddressingMode::ZeropageX);
        cpu.register_opcode("lda", Operation::Lda, 0xad, AddressingMode::Absolute);
        cpu.register_opcode("lda", Operation::Lda, 0xbd, AddressingMode::AbsoluteX);
        cpu.register_opcode("lda", Operation::Lda, 0xb9, AddressingMode::AbsoluteY);
        cpu.register_opcode("lda", Operation::Lda, 0xa1, AddressingMode::IndirectX);
        cpu.register_opcode("lda", Operation::Lda, 0xb1, AddressingMode::IndirectY);
        cpu.register_opcode("ldx", Operation::Ldx, 0xa2, AddressingMode::Immediate);
        cpu.register_opcode("ldx", Operation::Ldx, 0xa6, AddressingMode::Zeropage);
        cpu.register_opcode("ldx", Operation::Ldx, 0xae, AddressingMode::Absolute);
        cpu.register_opcode("ldx", Operation::Ldx, 0xbe, AddressingMode::AbsoluteY);
        cpu.register_opcode("ldy", Operation::Ldy, 0xa0, AddressingMode::Immediate);
        cpu.register_opcode("ldy", Operation::Ldy, 0xa4, AddressingMode::Zeropage);
        cpu.register_opcode("ldy", Operation::Ldy, 0xb4, AddressingMode::ZeropageX);
        cpu.register_opcode("ldy", Operation::Ldy, 0xac, AddressingMode::Absolute);
        cpu.register_opcode("ldy", Operation::Ldy, 0xbc, AddressingMode::AbsoluteX);
        cpu.register_opcode("sta", Operation::Sta, 0x85, AddressingMode::Zeropage);
        cpu.register_opcode("sta", Operation::Sta, 0x95, AddressingMode::ZeropageX);
        cpu.register_opcode("sta", Operation::Sta, 0x8d, AddressingMode::Absolute);
        cpu.register_opcode("sta", Operation::Sta, 0x9d, AddressingMode::AbsoluteX);
        cpu.register_opcode("sta", Operation::Sta, 0x99, AddressingMode::AbsoluteY);
        cpu.register_opcode("sta", Operation::Sta, 0x81, AddressingMode::IndirectX);
        cpu.register_opcode("sta", Operation::Sta, 0x91, AddressingMode::IndirectY);
        cpu.register_opcode("stx", Operation::Stx, 0x86, AddressingMode::Zeropage);
        cpu.register_opcode("stx", Operation::Stx, 0x8e, AddressingMode::Absolute);
        cpu.register_opcode("sty", Operation::Sty, 0x84, AddressingMode::Zeropage);
        cpu.register_opcode("sty", Operation::Sty, 0x94, AddressingMode::ZeropageX);
        cpu.register_opcode("sty", Operation::Sty, 0x8c, AddressingMode::Absolute);
        cpu.register_opcode("tax", Operation::Tax, 0xaa, AddressingMode::Implied);
        cpu.register_opcode("tay", Operation::Tay, 0xa8, AddressingMode::Implied);
        cpu.register_opcode("txa", Operation::Txa, 0x8a, AddressingMode::Implied);
        cpu.register_opcode("tya", Operation::Tya, 0x98, AddressingMode::Implied);
        cpu.register_opcode("inx", Operation::Inx, 0xe8, AddressingMode::Implied);
        cpu.register_opcode("iny", Operation::Iny, 0xc8, AddressingMode::Implied);
        cpu.register_opcode("jmp", Operation::Jmp, 0x4c, AddressingMode::Absolute);
        cpu.register_opcode("clc", Operation::Clc, 0x18, AddressingMode::Implied);
        cpu.register_opcode("sec", Operation::Sec, 0x38, AddressingMode::Implied);
        cpu.register_opcode("cli", Operation::Cli, 0x58, AddressingMode::Implied);
        cpu.register_opcode("sei", Operation::Sei, 0x78, AddressingMode::Implied);
        cpu.register_opcode("clv", Operation::Clv, 0xb8, AddressingMode::Implied);
        cpu.register_opcode("cld", Operation::Cld, 0xd8, AddressingMode::Implied);
        cpu.register_opcode("sed", Operation::Sed, 0xf8, AddressingMode::Implied);
        cpu.register_opcode("beq", Operation::Beq, 0xf0, AddressingMode::Relative);
        cpu.register_opcode("bcs", Operation::Bcs, 0xb0, AddressingMode::Relative);
        cpu.register_opcode("bcc", Operation::Bcc, 0x90, AddressingMode::Relative);
        cpu.register_opcode("pha", Operation::Pha, 0x48, AddressingMode::Implied);
        cpu.register_opcode("pla", Operation::Pla, 0x68, AddressingMode::Implied);
        cpu.register_opcode("php", Operation::Php, 0x08, AddressingMode::Implied);
        cpu.register_opcode("plp", Operation::Plp, 0x28, AddressingMode::Implied);
        cpu.register_opcode("jsr", Operation::Jsr, 0x20, AddressingMode::Absolute);
        cpu.register_opcode("rts", Operation::Rts, 0x60, AddressingMode::Implied);
        cpu.register_opcode("nop", Operation::Nop, 0xea, AddressingMode::Implied);
        cpu
    }


    /// Binds one opcode byte to a descriptor. No validation rejects a byte
    /// that is already bound: the last registration wins.
    pub fn register_opcode(
        &mut self,
        name: &'static str,
        fun: Operation,
        code: u8,
        fetch: AddressingMode,
    )
        requires
            old(self).inv(),
        ensures
            final(self).inv(),
            final(self).table() == old(self).table().update(
                code as int,
                (OpCode { fetch, fun, name }),
            ),
            *final(self) == (MOS6502 { opcodes: final(self).opcodes, ..*old(self) }),
    {
        self.opcodes[code as usize] = OpCode { fetch, fun, name };
    }

    /// Executes exactly one instruction: fetches the opcode byte, resolves
    /// its addressing mode, runs its operation, and accumulates cycles.
    ///
    /// Fails fatally, identifying the offending byte, when the fetched byte
    /// has no registered descriptor; the fetch itself still happened.
    #[verifier::rlimit(100)]
    pub fn step(&mut self) -> (r: Result<(), u8>)
        requires
            old(self).inv(),
            old(self).ticks + 9 <= u64::MAX,
        ensures
            final(self).inv(),
            final(self).table() == old(self).table(),
            final(self).debug == old(self).debug,
            ({
                let s0 = old(self).mstate();
                let b = spec_fetched(s0);
                let d = old(self).table()[b as int];
                match r {
                    Ok(()) => !(d.fetch is Invalid) && final(self).mstate() == spec_instruction(
                        d,
                        spec_after_fetch(s0),
                    ) && (old(self).debug ==> final(self).debug_line@ == spec_trace(
                        d.name@,
                        d.fetch,
                        spec_resolve(d.fetch, spec_after_fetch(s0)).1,
                    )) && (!old(self).debug ==> final(self).debug_line == old(self).debug_line),
                    Err(e) => e == b && (d.fetch is Invalid) && final(self).mstate()
                        == spec_after_fetch(s0) && final(self).debug_line == old(self).debug_line,
                }
            }),
    {
        let opcode = self.read8_from_pc();
        let d = self.opcodes[opcode as usize];
        let o = match d.fetch {
            AddressingMode::Implied => self.implied(),
            AddressingMode::Immediate => self.immediate(),
            AddressingMode::Relative => self.relative(),
            AddressingMode::Zeropage => self.zeropage(),
            AddressingMode::ZeropageX => self.zeropage_x(),
            AddressingMode::Absolute => self.absolute(),
            AddressingMode::AbsoluteX => self.absolute_x(),
            AddressingMode::AbsoluteY => self.absolute_y(),
            AddressingMode::IndirectX => self.indirect_x(),
            AddressingMode::IndirectY => self.indirect_y(),
            AddressingMode::Invalid => {
                return Err(opcode);
            },
        };
        if self.debug {
            self.debug_line = render_trace(d.name, d.fetch, o);
        }
        match d.fun {
            Operation::Lda => self.lda(o),
            Operation::Ldx => self.ldx(o),
            Operation::Ldy => self.ldy(o),
            Operation::Sta => self.sta(o),
            Operation::Stx => self.stx(o),
            Operation::Sty => self.sty(o),
            Operation::Tax => self.tax(),
            Operation::Tay => self.tay(),
            Operation::Txa => self.txa(),
            Operation::Tya => self.tya(),
            Operation::Inx => self.inx(),
            Operation::Iny => self.iny(),
            Operation::And => self.and(o),
            Operation::Adc => self.adc(o),
            Operation::Sbc => self.sbc(o),
            Operation::Jmp => self.jmp(o),
            Operation::Clc => self.clc(),
            Operation::Sec => self.sec(),
            Operation::Cli => self.cli(),
            Operation::Sei => self.sei(),
            Operation::Clv => self.clv(),
            Operation::Cld => self.cld(),
            Operation::Sed => self.sed(),
            Operation::Beq => self.beq(o),
            Operation::Bcs => self.bcs(o),
            Operation::Bcc => self.bcc(o),
            Operation::Pha => self.pha(),
            Operation::Pla => self.pla(),
            Operation::Php => self.php(),
            Operation::Plp => self.plp(),
            Operation::Jsr => self.jsr(o),
            Operation::Rts => self.rts(),
            Operation::Nop => self.nop(),
        }
        Ok(())
    }
}

} // verus!
