//! The laws of the instruction set, stated over the spec-level interpreter
//! and proved once and for all: cycle accounting, arithmetic flag
//! derivation, stack round trips, subroutine linkage, branch behaviour, and
//! last-registration-wins dispatch.

use vstd::prelude::*;

use crate::isa::AddressingMode;
use crate::isa::OpCode;
use crate::isa::Operand;
use crate::isa::Operation;
use crate::isa::BRK;
use crate::isa::CARRY;
use crate::isa::DECIMAL;
use crate::isa::INTERRUPT;
use crate::isa::OVERFLOW;
use crate::isa::SIGN;
use crate::isa::ZERO;
use crate::model::MState;
use crate::model::abs_operand;
use crate::model::flag_on;
use crate::model::indirect_x_addr;
use crate::model::indirect_y_addr;
use crate::model::lemma_wrap16_shift;
use crate::model::lemma_wrap8_shift;
use crate::model::page_cross;
use crate::model::signed8;
use crate::model::spec_adc;
use crate::model::spec_exec;
use crate::model::spec_instruction;
use crate::model::spec_jsr;
use crate::model::spec_resolve;
use crate::model::spec_rts;
use crate::model::spec_sbc;
use crate::model::stack_addr;
use crate::model::with_flag;
use crate::model::with_zn;
use crate::model::word;
use crate::model::wrap16;
use crate::model::wrap8;

verus! {

/// The fixed cycle cost of an addressing mode, before any page-crossing
/// penalty.
pub open spec fn base_cost(mode: AddressingMode) -> nat {
    match mode {
        AddressingMode::Implied => 2,
        AddressingMode::Immediate => 2,
        AddressingMode::Relative => 2,
        AddressingMode::Zeropage => 3,
        AddressingMode::ZeropageX => 3,
        AddressingMode::Absolute => 4,
        AddressingMode::AbsoluteX => 4,
        AddressingMode::AbsoluteY => 4,
        AddressingMode::IndirectX => 2,
        AddressingMode::IndirectY => 2,
        AddressingMode::Invalid => 0,
    }
}

/// How many operand bytes an addressing mode consumes after the opcode.
pub open spec fn operand_bytes(mode: AddressingMode) -> nat {
    match mode {
        AddressingMode::Implied => 0,
        AddressingMode::Immediate => 1,
        AddressingMode::Relative => 1,
        AddressingMode::Zeropage => 1,
        AddressingMode::ZeropageX => 1,
        AddressingMode::Absolute => 2,
        AddressingMode::AbsoluteX => 2,
        AddressingMode::AbsoluteY => 2,
        AddressingMode::IndirectX => 1,
        AddressingMode::IndirectY => 1,
        AddressingMode::Invalid => 0,
    }
}

/// The conditional one-cycle penalty a mode charges in the given state:
/// indexed absolute modes pay it when the index pushes the address onto
/// another page; the post-indexed indirect mode pays it when the summed
/// address has a non-zero high byte; no other mode ever pays one.
pub open spec fn cross_penalty(mode: AddressingMode, s: MState) -> nat {
    match mode {
        AddressingMode::AbsoluteX => page_cross(abs_operand(s), s.x),
        AddressingMode::AbsoluteY => page_cross(abs_operand(s), s.y),
        AddressingMode::IndirectY => if indirect_y_addr(s) >= 0x100 {
            1nat
        } else {
            0nat
        },
        _ => 0,
    }
}

/// Every addressing mode charges exactly its base cost plus its conditional
/// penalty, advances the program counter exactly past its own operand
/// bytes, and touches nothing else: registers, flags, stack pointer and
/// memory all pass through unchanged.
pub proof fn lemma_resolver_cost(mode: AddressingMode, s: MState)
    requires
        !(mode is Invalid),
    ensures
        spec_resolve(mode, s).0.ticks == s.ticks + base_cost(mode) + cross_penalty(mode, s),
        spec_resolve(mode, s).0.pc == wrap16(s.pc + operand_bytes(mode)),
        spec_resolve(mode, s).0.mem == s.mem,
        spec_resolve(mode, s).0.a == s.a,
        spec_resolve(mode, s).0.x == s.x,
        spec_resolve(mode, s).0.y == s.y,
        spec_resolve(mode, s).0.sp == s.sp,
        spec_resolve(mode, s).0.status == s.status,
{
    vstd::arithmetic::div_mod::lemma_small_mod(s.pc as nat, 0x10000);
}

/// What each addressing mode latches, for every state: the effective
/// address follows the mode's rule, the value is the byte at that address,
/// and the indirect modes record the zero-page cell they resolved through.
pub proof fn lemma_resolver_operand(mode: AddressingMode, s: MState)
    ensures
        ({
            let o = spec_resolve(mode, s).1;
            match mode {
                AddressingMode::Implied => o == (Operand { value: 0, addr: 0, pointer: 0 }),
                AddressingMode::Immediate => o.value == s.mem[s.pc],
                AddressingMode::Relative => o.addr == wrap16(
                    wrap16(s.pc + 1) + signed8(s.mem[s.pc]),
                ),
                AddressingMode::Zeropage => o.addr == s.mem[s.pc] as u16 && o.addr <= 0xff
                    && o.value == s.mem[o.addr],
                AddressingMode::ZeropageX => o.addr == wrap8(s.mem[s.pc] + s.x) as u16 && o.addr
                    <= 0xff && o.value == s.mem[o.addr],
                AddressingMode::Absolute => o.addr == abs_operand(s) && o.value == s.mem[o.addr],
                AddressingMode::AbsoluteX => o.addr == wrap16(abs_operand(s) + s.x) && o.value
                    == s.mem[o.addr],
                AddressingMode::AbsoluteY => o.addr == wrap16(abs_operand(s) + s.y) && o.value
                    == s.mem[o.addr],
                AddressingMode::IndirectX => o.addr == indirect_x_addr(s) && o.addr <= 0xff
                    && o.value == s.mem[o.addr] && o.pointer == wrap8(s.mem[s.pc] + s.x),
                AddressingMode::IndirectY => o.addr == indirect_y_addr(s) && o.value
                    == s.mem[o.addr] && o.pointer == s.mem[s.pc],
                AddressingMode::Invalid => o == (Operand { value: 0, addr: 0, pointer: 0 }),
            }
        }),
{
}

proof fn lemma_status_chain(st: u8, c: bool, r: u8, ov: bool)
    by (bit_vector)
    ensures
        ({
            let st3 = with_flag(with_zn(with_flag(st, CARRY, c), r), OVERFLOW, ov);
            &&& flag_on(st3, CARRY) == c
            &&& flag_on(st3, ZERO) == (r == 0)
            &&& flag_on(st3, SIGN) == (r >= 0x80)
            &&& flag_on(st3, OVERFLOW) == ov
            &&& flag_on(st3, INTERRUPT) == flag_on(st, INTERRUPT)
            &&& flag_on(st3, DECIMAL) == flag_on(st, DECIMAL)
            &&& flag_on(st3, BRK) == flag_on(st, BRK)
        }),
{
}

proof fn lemma_overflow_range_add(a: u8, v: u8, cin: u8, r: u8)
    by (bit_vector)
    requires
        cin <= 1,
        r == (a + v + cin) % 0x100,
    ensures
        (((a ^ r) & (v ^ r)) & 0x80 != 0) == !(-128 <= signed8(a) + signed8(v) + cin <= 127),
{
}

/// Add-with-carry flag derivation, for every accumulator, operand and
/// incoming carry: the result is the wrapped 9-bit sum; carry out reports
/// that the sum exceeded 0xFF; zero and sign describe the 8-bit result;
/// overflow follows the sign-XOR rule, which holds exactly when the signed
/// sum leaves `-128..=127`; the untouched status bits pass through.
pub proof fn lemma_adc_flags(s: MState, v: u8)
    ensures
        ({
            let cin = if flag_on(s.status, CARRY) {
                1int
            } else {
                0int
            };
            let r = spec_adc(s, v);
            &&& r.a == wrap8(s.a + v + cin)
            &&& flag_on(r.status, CARRY) == (s.a + v + cin > 0xff)
            &&& flag_on(r.status, ZERO) == (r.a == 0)
            &&& flag_on(r.status, SIGN) == (r.a >= 0x80)
            &&& flag_on(r.status, OVERFLOW) == (((s.a ^ r.a) & (v ^ r.a)) & 0x80 != 0)
            &&& flag_on(r.status, OVERFLOW) == !(-128 <= signed8(s.a) + signed8(v) + cin <= 127)
            &&& flag_on(r.status, INTERRUPT) == flag_on(s.status, INTERRUPT)
            &&& flag_on(r.status, DECIMAL) == flag_on(s.status, DECIMAL)
            &&& flag_on(r.status, BRK) == flag_on(s.status, BRK)
            &&& r.x == s.x && r.y == s.y && r.pc == s.pc && r.sp == s.sp && r.mem == s.mem
        }),
{
    let cin: u8 = if flag_on(s.status, CARRY) {
        1u8
    } else {
        0u8
    };
    let r = spec_adc(s, v);
    lemma_status_chain(
        s.status,
        s.a + v + cin > 0xff,
        r.a,
        ((s.a ^ r.a) & (v ^ r.a)) & 0x80 != 0,
    );
    lemma_overflow_range_add(s.a, v, cin, r.a);
}

/// Subtract-with-borrow flag derivation, for every accumulator, operand and
/// incoming carry: a clear carry borrows one; the result is the wrapped
/// difference; carry out is set exactly when no borrow occurred; zero and
/// sign describe the 8-bit result; overflow is the same sign-XOR formula as
/// the addition (the design reuses it verbatim for the subtraction).
pub proof fn lemma_sbc_flags(s: MState, v: u8)
    ensures
        ({
            let bin = if flag_on(s.status, CARRY) {
                0int
            } else {
                1int
            };
            let r = spec_sbc(s, v);
            &&& r.a == wrap8(s.a - v - bin)
            &&& flag_on(r.status, CARRY) == (s.a - v - bin >= 0)
            &&& flag_on(r.status, ZERO) == (r.a == 0)
            &&& flag_on(r.status, SIGN) == (r.a >= 0x80)
            &&& flag_on(r.status, OVERFLOW) == (((s.a ^ r.a) & (v ^ r.a)) & 0x80 != 0)
            &&& r.x == s.x && r.y == s.y && r.pc == s.pc && r.sp == s.sp && r.mem == s.mem
        }),
{
    let bin: u8 = if flag_on(s.status, CARRY) {
        0u8
    } else {
        1u8
    };
    let r = spec_sbc(s, v);
    lemma_status_chain(
        s.status,
        0 <= s.a - v - bin <= 0xff,
        r.a,
        ((s.a ^ r.a) & (v ^ r.a)) & 0x80 != 0,
    );
    vstd::arithmetic::div_mod::lemma_mod_add_multiples_vanish(s.a - v - bin, 0x100);
}

/// Pushing the accumulator and pulling it straight back round-trips the
/// value and returns the stack pointer to its original value, for every
/// starting stack pointer, wraparound included; no other register or flag
/// moves.
pub proof fn lemma_push_pull_a(s: MState, o1: Operand, o2: Operand)
    ensures
        ({
            let s2 = spec_exec(Operation::Pla, o2, spec_exec(Operation::Pha, o1, s));
            &&& s2.a == s.a
            &&& s2.sp == s.sp
            &&& s2.x == s.x && s2.y == s.y && s2.pc == s.pc && s2.status == s.status
            &&& s2.ticks == s.ticks + 3
        }),
{
    lemma_wrap8_shift(s.sp - 1, 1);
    vstd::arithmetic::div_mod::lemma_small_mod(s.sp as nat, 0x100);
}

/// Pushing the status register and pulling it straight back restores the
/// stack pointer and the status byte, for every starting stack pointer.
/// The pull forces the fixed bit (0x20) on, so the byte comes back exactly
/// whenever that always-set bit was set going in, which the machine's own
/// invariant guarantees.
pub proof fn lemma_push_pull_status(s: MState, o1: Operand, o2: Operand)
    ensures
        ({
            let s2 = spec_exec(Operation::Plp, o2, spec_exec(Operation::Php, o1, s));
            &&& s2.status == s.status | 0x20
            &&& s.status & 0x20 == 0x20 ==> s2.status == s.status
            &&& s2.sp == s.sp
            &&& s2.a == s.a && s2.x == s.x && s2.y == s.y && s2.pc == s.pc
        }),
{
    lemma_wrap8_shift(s.sp - 1, 1);
    vstd::arithmetic::div_mod::lemma_small_mod(s.sp as nat, 0x100);
    let q = s.status;
    assert(q & 0x20 == 0x20 ==> (q | 0x20) == q) by (bit_vector);
}

/// A subroutine call followed immediately by a return restores the program
/// counter to the instruction after the call's operand and the stack
/// pointer to its original value, leaving every register and flag alone.
/// The stack pointer must not sit at the very bottom of its page: there the
/// call writes one byte below the stack page while the return reads both
/// bytes from inside it, so the linkage genuinely breaks.
pub proof fn lemma_jsr_rts(s: MState, target: u16)
    requires
        s.sp >= 1,
    ensures
        ({
            let s2 = spec_rts(spec_jsr(s, target));
            &&& s2.pc == s.pc
            &&& s2.sp == s.sp
            &&& s2.a == s.a && s2.x == s.x && s2.y == s.y && s2.status == s.status
        }),
{
    let ret = wrap16(s.pc - 1);
    let s1 = spec_jsr(s, target);
    lemma_wrap8_shift(s.sp - 2, 1);
    vstd::arithmetic::div_mod::lemma_small_mod((s.sp - 1) as nat, 0x100);
    vstd::arithmetic::div_mod::lemma_small_mod(s.sp as nat, 0x100);
    assert(s1.sp == wrap8(s.sp - 2));
    assert(wrap8(s1.sp + 1) == (s.sp - 1) as u8);
    assert(stack_addr((s.sp - 1) as u8) == (stack_addr(s.sp) - 1) as u16);
    vstd::arithmetic::div_mod::lemma_fundamental_div_mod(ret as int, 0x100);
    assert(word(crate::model::lo16(ret), crate::model::hi16(ret)) == ret);
    lemma_wrap16_shift(s.pc - 1, 1);
    vstd::arithmetic::div_mod::lemma_small_mod(s.pc as nat, 0x10000);
    lemma_wrap8_shift(s.sp - 1, 1);
}

/// A conditional branch never moves anything but the program counter and
/// the cycle counter. Untaken, it advances the program counter only past
/// its own operand byte and charges only the resolver's base cost of two
/// cycles; taken, it sets the program counter to the resolved target and
/// charges exactly one cycle more.
pub proof fn lemma_conditional_branch(d: OpCode, s: MState)
    requires
        d.fetch is Relative,
        d.fun is Beq || d.fun is Bcs || d.fun is Bcc,
    ensures
        ({
            let taken = if d.fun is Beq {
                flag_on(s.status, ZERO)
            } else if d.fun is Bcs {
                flag_on(s.status, CARRY)
            } else {
                !flag_on(s.status, CARRY)
            };
            let target = wrap16(wrap16(s.pc + 1) + signed8(s.mem[s.pc]));
            let r = spec_instruction(d, s);
            &&& (!taken ==> r == (MState { pc: wrap16(s.pc + 1), ticks: s.ticks + 2, ..s }))
            &&& (taken ==> r == (MState { pc: target, ticks: s.ticks + 3, ..s }))
        }),
{
}

/// Registering a descriptor for an opcode byte overwrites whatever was
/// bound to that byte before: after two registrations for one byte, lookup
/// yields only the newest descriptor, and dispatch through the table
/// behaves exactly as that descriptor alone.
pub proof fn lemma_register_last_wins(t: Seq<OpCode>, d1: OpCode, d2: OpCode, b: u8, s: MState)
    requires
        t.len() == 256,
    ensures
        t.update(b as int, d1).update(b as int, d2)[b as int] == d2,
        spec_instruction(t.update(b as int, d1).update(b as int, d2)[b as int], s)
            == spec_instruction(d2, s),
{
}

} // verus!
