use mos6502::bus::AddressBusIO;
use mos6502::bus::Ram;
use mos6502::isa::AddressingMode;
use mos6502::isa::Operation;
use mos6502::isa::CARRY;
use mos6502::isa::OVERFLOW;
use mos6502::isa::SIGN;
use mos6502::isa::ZERO;
use mos6502::mos6502::MOS6502;

fn cpu_with_program(start: u16, program: &[u8]) -> MOS6502<Ram> {
    let mut ram = Ram::new();
    let mut addr = start;
    for &b in program {
        ram.write(addr, b);
        addr = addr.wrapping_add(1);
    }
    let mut cpu = MOS6502::new(ram);
    cpu.pc = start;
    cpu
}

#[test]
fn new_initial_state() {
    let cpu = MOS6502::new(Ram::new());
    assert_eq!(cpu.a, 0);
    assert_eq!(cpu.x, 0);
    assert_eq!(cpu.y, 0);
    assert_eq!(cpu.pc, 0);
    assert_eq!(cpu.sp, 0xff);
    assert_eq!(cpu.status, 0x20);
    assert_eq!(cpu.ticks, 0);
    assert!(!cpu.debug);
    assert_eq!(cpu.debug_line, "");
}

#[test]
fn lda_immediate_loads_value() {
    let mut cpu = cpu_with_program(0, &[0xa9, 0x05]);
    assert!(cpu.step().is_ok());
    assert_eq!(cpu.a, 0x05);
    assert!(!cpu.get_flag(ZERO));
    assert!(!cpu.get_flag(SIGN));
    assert_eq!(cpu.ticks, 2);
    assert_eq!(cpu.pc, 2);
}

#[test]
fn lda_immediate_zero_sets_zero_flag() {
    let mut cpu = cpu_with_program(0, &[0xa9, 0x00]);
    assert!(cpu.step().is_ok());
    assert_eq!(cpu.a, 0x00);
    assert!(cpu.get_flag(ZERO));
}

#[test]
fn lda_immediate_negative_sets_sign_flag() {
    let mut cpu = cpu_with_program(0, &[0xa9, 0x80]);
    assert!(cpu.step().is_ok());
    assert_eq!(cpu.a, 0x80);
    assert!(cpu.get_flag(SIGN));
}

#[test]
fn jsr_pushes_return_address_and_rts_comes_back() {
    let mut cpu = cpu_with_program(0x0600, &[0x20, 0x34, 0x12]);
    cpu.bus.write(0x1234, 0x60);
    assert!(cpu.step().is_ok());
    assert_eq!(cpu.pc, 0x1234);
    assert_eq!(cpu.sp, 0xfd);
    // pc - 1 == 0x0602 pushed high byte first at the stack top
    assert_eq!(cpu.bus.read(0x01ff), 0x06);
    assert_eq!(cpu.bus.read(0x01fe), 0x02);
    assert_eq!(cpu.ticks, 6);
    assert!(cpu.step().is_ok());
    assert_eq!(cpu.pc, 0x0603);
    assert_eq!(cpu.sp, 0xff);
    assert_eq!(cpu.ticks, 12);
}

#[test]
fn push_pull_roundtrips_accumulator_and_stack_pointer() {
    // lda #$2A; pha; lda #$00; pla
    let mut cpu = cpu_with_program(0, &[0xa9, 0x2a, 0x48, 0xa9, 0x00, 0x68]);
    for _ in 0..4 {
        assert!(cpu.step().is_ok());
    }
    assert_eq!(cpu.a, 0x2a);
    assert_eq!(cpu.sp, 0xff);
}

#[test]
fn push_pull_roundtrips_status() {
    // sec; php; clc; plp
    let mut cpu = cpu_with_program(0, &[0x38, 0x08, 0x18, 0x28]);
    for _ in 0..4 {
        assert!(cpu.step().is_ok());
    }
    assert!(cpu.get_flag(CARRY));
    assert_eq!(cpu.sp, 0xff);
}

#[test]
fn untaken_branch_only_passes_its_operand() {
    let mut cpu = cpu_with_program(0, &[0xf0, 0x05]);
    assert!(cpu.step().is_ok());
    assert_eq!(cpu.pc, 2);
    assert_eq!(cpu.ticks, 2);
}

#[test]
fn taken_branch_jumps_and_charges_one_extra_cycle() {
    let mut cpu = cpu_with_program(0, &[0xf0, 0x05]);
    cpu.set_flag(ZERO, true);
    assert!(cpu.step().is_ok());
    assert_eq!(cpu.pc, 7);
    assert_eq!(cpu.ticks, 3);
}

#[test]
fn taken_branch_with_negative_offset_goes_backward() {
    let mut cpu = cpu_with_program(0x0010, &[0xf0, 0xfb]);
    cpu.set_flag(ZERO, true);
    assert!(cpu.step().is_ok());
    assert_eq!(cpu.pc, 0x000d);
    assert_eq!(cpu.ticks, 3);
}

#[test]
fn bcs_and_bcc_test_the_carry_flag() {
    let mut cpu = cpu_with_program(0, &[0xb0, 0x02]);
    cpu.set_flag(CARRY, true);
    assert!(cpu.step().is_ok());
    assert_eq!(cpu.pc, 4);
    let mut cpu = cpu_with_program(0, &[0x90, 0x02]);
    cpu.set_flag(CARRY, false);
    assert!(cpu.step().is_ok());
    assert_eq!(cpu.pc, 4);
}

#[test]
fn invalid_opcode_fails_and_identifies_the_byte() {
    let mut cpu = cpu_with_program(0, &[0x02]);
    let r = cpu.step();
    assert_eq!(r, Err(0x02));
    assert_eq!(cpu.pc, 1);
    assert_eq!(cpu.ticks, 0);
}

#[test]
fn reregistering_an_opcode_byte_uses_the_newest_descriptor() {
    let mut cpu = cpu_with_program(0, &[0xa9, 0x05]);
    cpu.register_opcode("nop", Operation::Nop, 0xa9, AddressingMode::Implied);
    assert!(cpu.step().is_ok());
    // the byte now decodes as an implied no-op: nothing loaded, no operand
    assert_eq!(cpu.a, 0);
    assert_eq!(cpu.pc, 1);
    assert_eq!(cpu.ticks, 2);
}

#[test]
fn jump_sets_pc_to_absolute_target() {
    let mut cpu = cpu_with_program(0, &[0x4c, 0x00, 0x40]);
    assert!(cpu.step().is_ok());
    assert_eq!(cpu.pc, 0x4000);
    assert_eq!(cpu.ticks, 4);
}

#[test]
fn transfers_and_increments_update_flags() {
    // lda #$FF; tax; inx
    let mut cpu = cpu_with_program(0, &[0xa9, 0xff, 0xaa, 0xe8]);
    assert!(cpu.step().is_ok());
    assert!(cpu.step().is_ok());
    assert_eq!(cpu.x, 0xff);
    assert!(cpu.get_flag(SIGN));
    assert!(cpu.step().is_ok());
    assert_eq!(cpu.x, 0x00);
    assert!(cpu.get_flag(ZERO));
    assert!(!cpu.get_flag(SIGN));
}

#[test]
fn flag_instructions_touch_only_their_flag() {
    let mut cpu = cpu_with_program(0, &[0x38, 0x78, 0xf8, 0x18, 0x58, 0xd8, 0xb8]);
    for _ in 0..3 {
        assert!(cpu.step().is_ok());
    }
    assert!(cpu.get_flag(CARRY));
    assert_eq!(cpu.status & 0x04, 0x04);
    assert_eq!(cpu.status & 0x08, 0x08);
    for _ in 0..4 {
        assert!(cpu.step().is_ok());
    }
    assert!(!cpu.get_flag(CARRY));
    assert_eq!(cpu.status & 0x04, 0);
    assert_eq!(cpu.status & 0x08, 0);
    assert!(!cpu.get_flag(OVERFLOW));
    assert_eq!(cpu.status & 0x20, 0x20);
}

#[test]
fn store_writes_register_to_memory() {
    // lda #$07; sta $4000; stx $21; sty $22
    let mut cpu = cpu_with_program(0, &[0xa9, 0x07, 0x8d, 0x00, 0x40, 0x86, 0x21, 0x84, 0x22]);
    cpu.x = 0x11;
    cpu.y = 0x12;
    for _ in 0..4 {
        assert!(cpu.step().is_ok());
    }
    assert_eq!(cpu.bus.read(0x4000), 0x07);
    assert_eq!(cpu.bus.read(0x0021), 0x11);
    assert_eq!(cpu.bus.read(0x0022), 0x12);
}

#[test]
fn sta_indirect_x_writes_through_the_zero_page_pointer() {
    let mut cpu = cpu_with_program(0x0200, &[0x81, 0x20]);
    cpu.x = 0x04;
    cpu.bus.write(0x0024, 0x42);
    cpu.a = 0x99;
    assert!(cpu.step().is_ok());
    assert_eq!(cpu.bus.read(0x0042), 0x99);
    // the pointer cell itself is untouched
    assert_eq!(cpu.bus.read(0x0024), 0x42);
}

#[test]
fn sta_indirect_y_writes_to_base_plus_y() {
    let mut cpu = cpu_with_program(0x0200, &[0x91, 0x20]);
    cpu.y = 0x05;
    cpu.bus.write(0x0020, 0x10);
    cpu.a = 0x77;
    assert!(cpu.step().is_ok());
    assert_eq!(cpu.bus.read(0x0015), 0x77);
    // the operand cell itself is untouched
    assert_eq!(cpu.bus.read(0x0020), 0x10);
}

#[test]
fn plp_keeps_the_fixed_status_bit_set() {
    // lda #$00; pha; plp: pulling an all-zero byte still leaves bit 5 set
    let mut cpu = cpu_with_program(0, &[0xa9, 0x00, 0x48, 0x28]);
    for _ in 0..3 {
        assert!(cpu.step().is_ok());
    }
    assert_eq!(cpu.status, 0x20);
}

#[test]
fn loads_into_index_registers() {
    // ldx #$80; ldy #$00
    let mut cpu = cpu_with_program(0, &[0xa2, 0x80, 0xa0, 0x00]);
    assert!(cpu.step().is_ok());
    assert_eq!(cpu.x, 0x80);
    assert!(cpu.get_flag(SIGN));
    assert!(cpu.step().is_ok());
    assert_eq!(cpu.y, 0x00);
    assert!(cpu.get_flag(ZERO));
}

#[test]
fn transfers_move_values_both_ways() {
    // lda #$21; tay; lda #$00; tya; tax; txa
    let mut cpu = cpu_with_program(0, &[0xa9, 0x21, 0xa8, 0xa9, 0x00, 0x98, 0xaa, 0x8a]);
    for _ in 0..6 {
        assert!(cpu.step().is_ok());
    }
    assert_eq!(cpu.y, 0x21);
    assert_eq!(cpu.x, 0x21);
    assert_eq!(cpu.a, 0x21);
}

#[test]
fn iny_wraps_to_zero() {
    let mut cpu = cpu_with_program(0, &[0xc8]);
    cpu.y = 0xff;
    assert!(cpu.step().is_ok());
    assert_eq!(cpu.y, 0x00);
    assert!(cpu.get_flag(ZERO));
}

#[test]
fn and_masks_the_accumulator() {
    let mut cpu = cpu_with_program(0, &[0xa9, 0xcc, 0x29, 0x0f]);
    assert!(cpu.step().is_ok());
    assert!(cpu.step().is_ok());
    assert_eq!(cpu.a, 0x0c);
    assert!(!cpu.get_flag(ZERO));
    assert!(!cpu.get_flag(SIGN));
}
