//! The specification-level machine: an abstract state holding the register
//! file, the cycle counter and the bus contents, and a spec-level
//! interpreter giving the exact effect of every addressing mode and every
//! operation. The executable core in [`crate::mos6502`] is proved to follow
//! this interpreter step for step.

use vstd::prelude::*;

use crate::isa::AddressingMode;
use crate::isa::OpCode;
use crate::isa::Operand;
use crate::isa::Operation;
use crate::isa::CARRY;
use crate::isa::DECIMAL;
use crate::isa::INTERRUPT;
use crate::isa::OVERFLOW;
use crate::isa::SIGN;
use crate::isa::ZERO;

verus! {

/// The architectural state of the simulated processor together with the
/// contents of the bus it is attached to. `ticks` is the cumulative cycle
/// counter, kept unbounded here; the executable counter is a `u64` that is
/// proved equal to it while it has headroom.
pub ghost struct MState {
    pub a: u8,
    pub x: u8,
    pub y: u8,
    pub pc: u16,
    pub sp: u8,
    pub status: u8,
    pub ticks: nat,
    pub mem: Map<u16, u8>,
}

/// An integer reduced to 8 bits, as hardware register arithmetic wraps.
pub open spec fn wrap8(n: int) -> u8 {
    (n % 0x100) as u8
}

/// An integer reduced to 16 bits, as address arithmetic wraps.
pub open spec fn wrap16(n: int) -> u16 {
    (n % 0x10000) as u16
}

/// The two's-complement reading of a byte: the branch offset interpretation.
pub open spec fn signed8(b: u8) -> int {
    if b >= 0x80 {
        b - 0x100
    } else {
        b as int
    }
}

/// The low byte of a 16-bit word.
pub open spec fn lo16(w: u16) -> u8 {
    (w % 0x100) as u8
}

/// The high byte of a 16-bit word.
pub open spec fn hi16(w: u16) -> u8 {
    (w / 0x100) as u8
}

/// A 16-bit word assembled little-endian from two bytes.
pub open spec fn word(lo: u8, hi: u8) -> u16 {
    (hi * 0x100 + lo) as u16
}

/// Whether the masked flag bits are set in a status byte.
pub open spec fn flag_on(status: u8, mask: u8) -> bool {
    status & mask != 0
}

/// A status byte with the masked bits forced on or off: the flag-mask
/// contract every flag mutation goes through.
pub open spec fn with_flag(status: u8, mask: u8, on: bool) -> u8 {
    if on {
        status | mask
    } else {
        status & !mask
    }
}

/// The shared flag-update rule of every register-mutating operation:
/// Zero iff the result is zero, Sign iff bit 7 of the result is set.
pub open spec fn with_zn(status: u8, r: u8) -> u8 {
    with_flag(with_flag(status, ZERO, r == 0), SIGN, r >= 0x80)
}

/// The stack cell a stack pointer designates: the stack occupies the fixed
/// page `0x0100..=0x01FF`.
pub open spec fn stack_addr(sp: u8) -> u16 {
    (0x100 + sp) as u16
}

/// The byte the next fetch will decode.
pub open spec fn spec_fetched(s: MState) -> u8 {
    s.mem[s.pc]
}

/// The state right after the opcode fetch: the program counter has moved
/// past the opcode byte and nothing else has happened yet.
pub open spec fn spec_after_fetch(s: MState) -> MState {
    MState { pc: wrap16(s.pc + 1), ..s }
}

/// The effect of one addressing-mode resolution: the new state (program
/// counter past the operand bytes, cycles charged) and the decoded operand
/// handed to the operation. A mode that latches no value or no address
/// leaves that operand field zero.
pub open spec fn spec_resolve(mode: AddressingMode, s: MState) -> (MState, Operand) {
    match mode {
        AddressingMode::Implied => (
            MState { ticks: s.ticks + 2, ..s },
            Operand { value: 0, addr: 0, pointer: 0 },
        ),
        AddressingMode::Immediate => (
            MState { pc: wrap16(s.pc + 1), ticks: s.ticks + 2, ..s },
            Operand { value: s.mem[s.pc], addr: 0, pointer: 0 },
        ),
        AddressingMode::Relative => (
            MState { pc: wrap16(s.pc + 1), ticks: s.ticks + 2, ..s },
            Operand { value: 0, addr: wrap16(wrap16(s.pc + 1) + signed8(s.mem[s.pc])), pointer: 0 },
        ),
        AddressingMode::Zeropage => (
            MState { pc: wrap16(s.pc + 1), ticks: s.ticks + 3, ..s },
            Operand { value: s.mem[s.mem[s.pc] as u16], addr: s.mem[s.pc] as u16, pointer: 0 },
        ),
        AddressingMode::ZeropageX => (
            MState { pc: wrap16(s.pc + 1), ticks: s.ticks + 3, ..s },
            Operand {
                value: s.mem[wrap8(s.mem[s.pc] + s.x) as u16],
                addr: wrap8(s.mem[s.pc] + s.x) as u16,
                pointer: 0,
            },
        ),
        AddressingMode::Absolute => (
            MState { pc: wrap16(s.pc + 2), ticks: s.ticks + 4, ..s },
            Operand { value: s.mem[abs_operand(s)], addr: abs_operand(s), pointer: 0 },
        ),
        AddressingMode::AbsoluteX => (
            MState {
                pc: wrap16(s.pc + 2),
                ticks: s.ticks + 4 + page_cross(abs_operand(s), s.x),
                ..s
            },
            Operand {
                value: s.mem[wrap16(abs_operand(s) + s.x)],
                addr: wrap16(abs_operand(s) + s.x),
                pointer: 0,
            },
        ),
        AddressingMode::AbsoluteY => (
            MState {
                pc: wrap16(s.pc + 2),
                ticks: s.ticks + 4 + page_cross(abs_operand(s), s.y),
                ..s
            },
            Operand {
                value: s.mem[wrap16(abs_operand(s) + s.y)],
                addr: wrap16(abs_operand(s) + s.y),
                pointer: 0,
            },
        ),
        AddressingMode::IndirectX => (
            MState { pc: wrap16(s.pc + 1), ticks: s.ticks + 2, ..s },
            Operand {
                value: s.mem[indirect_x_addr(s)],
                addr: indirect_x_addr(s),
                pointer: wrap8(s.mem[s.pc] + s.x),
            },
        ),
        AddressingMode::IndirectY => (
            MState {
                pc: wrap16(s.pc + 1),
                ticks: s.ticks + 2 + (if indirect_y_addr(s) >= 0x100 {
                    1nat
                } else {
                    0nat
                }),
                ..s
            },
            Operand { value: s.mem[indirect_y_addr(s)], addr: indirect_y_addr(s), pointer: s.mem[s.pc] },
        ),
        AddressingMode::Invalid => (s, Operand { value: 0, addr: 0, pointer: 0 }),
    }
}

/// The little-endian 16-bit operand standing after the opcode byte.
pub open spec fn abs_operand(s: MState) -> u16 {
    word(s.mem[s.pc], s.mem[wrap16(s.pc + 1)])
}

/// The one extra cycle charged when indexing moves an absolute address onto
/// another 256-byte page (its high byte changes).
pub open spec fn page_cross(base: u16, index: u8) -> nat {
    if base / 0x100 == wrap16(base + index) / 0x100 {
        0
    } else {
        1
    }
}

/// The effective address of the pre-indexed indirect mode: the single
/// zero-page byte read from the cell the indexed operand names, its high
/// byte left at zero.
pub open spec fn indirect_x_addr(s: MState) -> u16 {
    s.mem[wrap8(s.mem[s.pc] + s.x) as u16] as u16
}

/// The effective address of the post-indexed indirect mode: the single
/// zero-page byte named by the operand, plus the Y register, as a 16-bit
/// sum whose high byte starts at zero.
pub open spec fn indirect_y_addr(s: MState) -> u16 {
    (s.mem[s.mem[s.pc] as u16] + s.y) as u16
}

/// Add with carry. The carry flag contributes one unit; carry out reports a
/// 9-bit sum; overflow follows the sign-XOR rule on the operands and the
/// 8-bit result; zero and sign follow the shared rule.
pub open spec fn spec_adc(s: MState, v: u8) -> MState {
    let cin = if flag_on(s.status, CARRY) {
        1int
    } else {
        0int
    };
    let sum = s.a + v + cin;
    let r = wrap8(sum);
    let st = with_flag(s.status, CARRY, sum > 0xff);
    let st = with_zn(st, r);
    let st = with_flag(st, OVERFLOW, ((s.a ^ r) & (v ^ r)) & 0x80 != 0);
    MState { a: r, status: st, ..s }
}

/// Subtract with borrow: a clear carry flag means "borrow one". Carry out is
/// set exactly when no borrow occurred, that is when the wide difference
/// stayed within `0..=0xFF`; overflow uses the same sign-XOR rule as ADC.
pub open spec fn spec_sbc(s: MState, v: u8) -> MState {
    let borrow = if flag_on(s.status, CARRY) {
        0int
    } else {
        1int
    };
    let diff = s.a - v - borrow;
    let r = wrap8(diff);
    let st = with_flag(s.status, CARRY, 0 <= diff <= 0xff);
    let st = with_zn(st, r);
    let st = with_flag(st, OVERFLOW, ((s.a ^ r) & (v ^ r)) & 0x80 != 0);
    MState { a: r, status: st, ..s }
}

/// A conditional branch: when taken it redirects the program counter to the
/// resolved target and charges one extra cycle; otherwise it does nothing
/// beyond what the resolver already did.
pub open spec fn spec_branch(s: MState, target: u16, taken: bool) -> MState {
    if taken {
        MState { pc: target, ticks: s.ticks + 1, ..s }
    } else {
        s
    }
}

/// A stack push: the byte goes to the cell the stack pointer designates,
/// then the pointer decrements (wrapping) and one cycle is charged.
pub open spec fn spec_push(s: MState, v: u8) -> MState {
    MState {
        mem: s.mem.insert(stack_addr(s.sp), v),
        sp: wrap8(s.sp - 1),
        ticks: s.ticks + 1,
        ..s
    }
}

/// The byte a stack pull returns: the pointer increments first (wrapping),
/// then the designated cell is read.
pub open spec fn spec_pulled(s: MState) -> u8 {
    s.mem[stack_addr(wrap8(s.sp + 1))]
}

/// A subroutine call: the 16-bit value `pc - 1` is pushed high byte first
/// (at the stack cell, then one address below it), the stack pointer drops
/// by two, the program counter jumps to the target, and two extra cycles
/// are charged.
pub open spec fn spec_jsr(s: MState, target: u16) -> MState {
    let ret = wrap16(s.pc - 1);
    let top = stack_addr(s.sp);
    MState {
        mem: s.mem.insert(top, hi16(ret)).insert((top - 1) as u16, lo16(ret)),
        sp: wrap8(s.sp - 2),
        pc: target,
        ticks: s.ticks + 2,
        ..s
    }
}

/// A subroutine return: two bytes are pulled (low first, from the cell above
/// the stack pointer, then the next address up), reassembled, incremented by
/// one into the program counter; four extra cycles are charged.
pub open spec fn spec_rts(s: MState) -> MState {
    let lo_addr = stack_addr(wrap8(s.sp + 1));
    let lo = s.mem[lo_addr];
    let hi = s.mem[(lo_addr + 1) as u16];
    MState {
        sp: wrap8(s.sp + 2),
        pc: wrap16(word(lo, hi) + 1),
        ticks: s.ticks + 4,
        ..s
    }
}

/// The exact architectural effect of one operation, given the operand its
/// addressing mode decoded.
pub open spec fn spec_exec(op: Operation, o: Operand, s: MState) -> MState {
    match op {
        Operation::Lda => MState { a: o.value, status: with_zn(s.status, o.value), ..s },
        Operation::Ldx => MState { x: o.value, status: with_zn(s.status, o.value), ..s },
        Operation::Ldy => MState { y: o.value, status: with_zn(s.status, o.value), ..s },
        Operation::Sta => MState { mem: s.mem.insert(o.addr, s.a), ..s },
        Operation::Stx => MState { mem: s.mem.insert(o.addr, s.x), ..s },
        Operation::Sty => MState { mem: s.mem.insert(o.addr, s.y), ..s },
        Operation::Tax => MState { x: s.a, status: with_zn(s.status, s.a), ..s },
        Operation::Tay => MState { y: s.a, status: with_zn(s.status, s.a), ..s },
        Operation::Txa => MState { a: s.x, status: with_zn(s.status, s.x), ..s },
        Operation::Tya => MState { a: s.y, status: with_zn(s.status, s.y), ..s },
        Operation::Inx => MState { x: wrap8(s.x + 1), status: with_zn(s.status, wrap8(s.x + 1)), ..s },
        Operation::Iny => MState { y: wrap8(s.y + 1), status: with_zn(s.status, wrap8(s.y + 1)), ..s },
        Operation::And => MState { a: s.a & o.value, status: with_zn(s.status, s.a & o.value), ..s },
        Operation::Adc => spec_adc(s, o.value),
        Operation::Sbc => spec_sbc(s, o.value),
        Operation::Jmp => MState { pc: o.addr, ..s },
        Operation::Clc => MState { status: with_flag(s.status, CARRY, false), ..s },
        Operation::Sec => MState { status: with_flag(s.status, CARRY, true), ..s },
        Operation::Cli => MState { status: with_flag(s.status, INTERRUPT, false), ..s },
        Operation::Sei => MState { status: with_flag(s.status, INTERRUPT, true), ..s },
        Operation::Clv => MState { status: with_flag(s.status, OVERFLOW, false), ..s },
        Operation::Cld => MState { status: with_flag(s.status, DECIMAL, false), ..s },
        Operation::Sed => MState { status: with_flag(s.status, DECIMAL, true), ..s },
        Operation::Beq => spec_branch(s, o.addr, flag_on(s.status, ZERO)),
        Operation::Bcs => spec_branch(s, o.addr, flag_on(s.status, CARRY)),
        Operation::Bcc => spec_branch(s, o.addr, !flag_on(s.status, CARRY)),
        Operation::Pha => spec_push(s, s.a),
        Operation::Php => spec_push(s, s.status),
        Operation::Pla => MState { a: spec_pulled(s), sp: wrap8(s.sp + 1), ticks: s.ticks + 2, ..s },
        Operation::Plp => MState {
            status: spec_pulled(s) | 0x20,
            sp: wrap8(s.sp + 1),
            ticks: s.ticks + 2,
            ..s
        },
        Operation::Jsr => spec_jsr(s, o.addr),
        Operation::Rts => spec_rts(s),
        Operation::Nop => s,
    }
}

/// One whole instruction after the opcode fetch: resolve the addressing
/// mode, then run the operation on the decoded operand.
pub open spec fn spec_instruction(d: OpCode, s: MState) -> MState {
    spec_exec(d.fun, spec_resolve(d.fetch, s).1, spec_resolve(d.fetch, s).0)
}

/// Reducing to 16 bits first does not change a later 16-bit reduction.
pub proof fn lemma_wrap16_shift(x: int, y: int)
    ensures
        wrap16(wrap16(x) + y) == wrap16(x + y),
{
    let m = 0x10000int;
    vstd::arithmetic::div_mod::lemma_fundamental_div_mod(x, m);
    vstd::arithmetic::div_mod::lemma_mod_multiples_vanish(x / m, x % m + y, m);
}

/// Reducing to 8 bits first does not change a later 8-bit reduction.
pub proof fn lemma_wrap8_shift(x: int, y: int)
    ensures
        wrap8(wrap8(x) + y) == wrap8(x + y),
{
    let m = 0x100int;
    vstd::arithmetic::div_mod::lemma_fundamental_div_mod(x, m);
    vstd::arithmetic::div_mod::lemma_mod_multiples_vanish(x / m, x % m + y, m);
}

} // verus!
