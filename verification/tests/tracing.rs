use mos6502::bus::AddressBusIO;
use mos6502::bus::Ram;
use mos6502::mos6502::MOS6502;

fn cpu_with_program(start: u16, program: &[u8]) -> MOS6502<Ram> {
    let mut ram = Ram::new();
    let mut addr = start;
    for &b in program {
        ram.write(addr, b);
        addr = addr.wrapping_add(1);
    }
    let mut cpu = MOS6502::new(ram);
    cpu.pc = start;
    cpu.debug = true;
    cpu
}

#[test]
fn trace_is_silent_when_debug_is_off() {
    let mut cpu = cpu_with_program(0, &[0xa9, 0x05]);
    cpu.debug = false;
    assert!(cpu.step().is_ok());
    assert_eq!(cpu.debug_line, "");
}

#[test]
fn trace_renders_immediate_operand() {
    let mut cpu = cpu_with_program(0, &[0xa9, 0x05]);
    assert!(cpu.step().is_ok());
    assert_eq!(cpu.debug_line, "lda #$05");
}

#[test]
fn trace_renders_implied_as_the_bare_mnemonic() {
    let mut cpu = cpu_with_program(0, &[0xea]);
    assert!(cpu.step().is_ok());
    assert_eq!(cpu.debug_line, "nop");
}

#[test]
fn trace_renders_zeropage_and_indexed_modes() {
    let mut cpu = cpu_with_program(0, &[0xa5, 0x0f]);
    assert!(cpu.step().is_ok());
    assert_eq!(cpu.debug_line, "lda $0F");
    let mut cpu = cpu_with_program(0, &[0xb5, 0x0f]);
    assert!(cpu.step().is_ok());
    assert_eq!(cpu.debug_line, "lda $0F,X");
    let mut cpu = cpu_with_program(0, &[0xbd, 0x34, 0x12]);
    assert!(cpu.step().is_ok());
    assert_eq!(cpu.debug_line, "lda $1234,X");
    let mut cpu = cpu_with_program(0, &[0xb9, 0x34, 0x12]);
    assert!(cpu.step().is_ok());
    assert_eq!(cpu.debug_line, "lda $1234,Y");
}

#[test]
fn trace_renders_indirect_modes_with_the_zero_page_operand() {
    let mut cpu = cpu_with_program(0, &[0xa1, 0x20]);
    assert!(cpu.step().is_ok());
    assert_eq!(cpu.debug_line, "lda ($20,X)");
    let mut cpu = cpu_with_program(0, &[0xb1, 0xab]);
    assert!(cpu.step().is_ok());
    assert_eq!(cpu.debug_line, "lda ($AB),Y");
}

#[test]
fn trace_renders_absolute_and_relative_targets() {
    let mut cpu = cpu_with_program(0x0600, &[0x20, 0x34, 0x12]);
    assert!(cpu.step().is_ok());
    assert_eq!(cpu.debug_line, "jsr $1234");
    let mut cpu = cpu_with_program(0, &[0xf0, 0x05]);
    assert!(cpu.step().is_ok());
    assert_eq!(cpu.debug_line, "beq $0007");
}
