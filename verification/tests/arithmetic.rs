use mos6502::bus::AddressBusIO;
use mos6502::bus::Ram;
use mos6502::isa::CARRY;
use mos6502::isa::OVERFLOW;
use mos6502::isa::SIGN;
use mos6502::isa::ZERO;
use mos6502::mos6502::MOS6502;

#[test]
fn adc_wraps_and_sets_carry_and_zero() {
    let mut ram = Ram::new();
    ram.write(0, 0x69);
    ram.write(1, 0x01);
    let mut cpu = MOS6502::new(ram);
    cpu.a = 0xff;
    cpu.set_flag(CARRY, false);
    assert!(cpu.step().is_ok());
    assert_eq!(cpu.a, 0x00);
    assert!(cpu.get_flag(CARRY));
    assert!(cpu.get_flag(ZERO));
    assert!(!cpu.get_flag(OVERFLOW));
}

#[test]
fn adc_sets_overflow_and_sign_crossing_the_signed_boundary() {
    let mut ram = Ram::new();
    ram.write(0, 0x69);
    ram.write(1, 0x01);
    let mut cpu = MOS6502::new(ram);
    cpu.a = 0x7f;
    cpu.set_flag(CARRY, false);
    assert!(cpu.step().is_ok());
    assert_eq!(cpu.a, 0x80);
    assert!(cpu.get_flag(OVERFLOW));
    assert!(cpu.get_flag(SIGN));
    assert!(!cpu.get_flag(CARRY));
}

#[test]
fn adc_uses_the_incoming_carry() {
    let mut ram = Ram::new();
    ram.write(0, 0x69);
    ram.write(1, 0x10);
    let mut cpu = MOS6502::new(ram);
    cpu.a = 0x05;
    cpu.set_flag(CARRY, true);
    assert!(cpu.step().is_ok());
    assert_eq!(cpu.a, 0x16);
    assert!(!cpu.get_flag(CARRY));
}

#[test]
fn sbc_subtracts_with_borrow_convention() {
    let mut ram = Ram::new();
    ram.write(0, 0xe9);
    ram.write(1, 0x05);
    let mut cpu = MOS6502::new(ram);
    cpu.a = 0x10;
    cpu.set_flag(CARRY, true);
    assert!(cpu.step().is_ok());
    assert_eq!(cpu.a, 0x0b);
    assert!(cpu.get_flag(CARRY));
    let mut ram = Ram::new();
    ram.write(0, 0xe9);
    ram.write(1, 0x20);
    let mut cpu = MOS6502::new(ram);
    cpu.a = 0x10;
    cpu.set_flag(CARRY, true);
    assert!(cpu.step().is_ok());
    assert_eq!(cpu.a, 0xf0);
    assert!(!cpu.get_flag(CARRY));
    assert!(cpu.get_flag(SIGN));
}

#[test]
fn adc_flags_match_the_stated_rules_for_every_operand_pair() {
    let mut ram = Ram::new();
    ram.write(0, 0x69);
    let mut cpu = MOS6502::new(ram);
    for a in 0..=255u8 {
        for v in 0..=255u8 {
            for carry in [false, true] {
                cpu.pc = 0;
                cpu.a = a;
                cpu.bus.write(1, v);
                cpu.set_flag(CARRY, carry);
                assert!(cpu.step().is_ok());
                let sum = a as i32 + v as i32 + carry as i32;
                let r = (sum % 256) as u8;
                assert_eq!(cpu.a, r);
                assert_eq!(cpu.get_flag(CARRY), sum > 0xff);
                assert_eq!(cpu.get_flag(ZERO), r == 0);
                assert_eq!(cpu.get_flag(SIGN), r >= 0x80);
                assert_eq!(cpu.get_flag(OVERFLOW), ((a ^ r) & (v ^ r)) & 0x80 != 0);
            }
        }
    }
}

#[test]
fn sbc_flags_match_the_stated_rules_for_every_operand_pair() {
    let mut ram = Ram::new();
    ram.write(0, 0xe9);
    let mut cpu = MOS6502::new(ram);
    for a in 0..=255u8 {
        for v in 0..=255u8 {
            for carry in [false, true] {
                cpu.pc = 0;
                cpu.a = a;
                cpu.bus.write(1, v);
                cpu.set_flag(CARRY, carry);
                assert!(cpu.step().is_ok());
                let borrow = if carry { 0 } else { 1 };
                let diff = a as i32 - v as i32 - borrow;
                let r = diff.rem_euclid(256) as u8;
                assert_eq!(cpu.a, r);
                assert_eq!(cpu.get_flag(CARRY), (0..=0xff).contains(&diff));
                assert_eq!(cpu.get_flag(ZERO), r == 0);
                assert_eq!(cpu.get_flag(SIGN), r >= 0x80);
                assert_eq!(cpu.get_flag(OVERFLOW), ((a ^ r) & (v ^ r)) & 0x80 != 0);
            }
        }
    }
}
