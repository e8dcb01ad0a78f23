use mos6502::bus::AddressBusIO;
use mos6502::bus::Ram;
use mos6502::mos6502::MOS6502;

fn cpu_with_program(start: u16, program: &[u8]) -> MOS6502<Ram> {
    let mut ram = Ram::new();
    let mut addr = start;
    for &b in program {
        ram.write(addr, b);
        addr = addr.wrapping_add(1);
    }
    let mut cpu = MOS6502::new(ram);
    cpu.pc = start;
    cpu
}

#[test]
fn implied_costs_two_cycles() {
    let mut cpu = cpu_with_program(0, &[0xea]);
    assert!(cpu.step().is_ok());
    assert_eq!(cpu.ticks, 2);
    assert_eq!(cpu.pc, 1);
}

#[test]
fn immediate_costs_two_cycles() {
    let mut cpu = cpu_with_program(0, &[0xa9, 0x01]);
    assert!(cpu.step().is_ok());
    assert_eq!(cpu.ticks, 2);
}

#[test]
fn zeropage_costs_three_cycles_and_reads_page_zero() {
    let mut cpu = cpu_with_program(0, &[0xa5, 0x42]);
    cpu.bus.write(0x0042, 0x99);
    assert!(cpu.step().is_ok());
    assert_eq!(cpu.ticks, 3);
    assert_eq!(cpu.a, 0x99);
}

#[test]
fn zeropage_x_costs_three_cycles_and_wraps_in_page_zero() {
    let mut cpu = cpu_with_program(0x0200, &[0xb5, 0xff]);
    cpu.x = 0x02;
    cpu.bus.write(0x0001, 0x37);
    assert!(cpu.step().is_ok());
    assert_eq!(cpu.ticks, 3);
    assert_eq!(cpu.a, 0x37);
}

#[test]
fn absolute_costs_four_cycles() {
    let mut cpu = cpu_with_program(0, &[0xad, 0x00, 0x20]);
    cpu.bus.write(0x2000, 0x55);
    assert!(cpu.step().is_ok());
    assert_eq!(cpu.ticks, 4);
    assert_eq!(cpu.a, 0x55);
}

#[test]
fn absolute_x_costs_four_cycles_without_page_cross() {
    let mut cpu = cpu_with_program(0, &[0xbd, 0x00, 0x02]);
    cpu.x = 0x05;
    cpu.bus.write(0x0205, 0x11);
    assert!(cpu.step().is_ok());
    assert_eq!(cpu.ticks, 4);
    assert_eq!(cpu.a, 0x11);
}

#[test]
fn absolute_x_charges_one_extra_cycle_on_page_cross() {
    let mut cpu = cpu_with_program(0, &[0xbd, 0xfe, 0x02]);
    cpu.x = 0x05;
    cpu.bus.write(0x0303, 0x22);
    assert!(cpu.step().is_ok());
    assert_eq!(cpu.ticks, 5);
    assert_eq!(cpu.a, 0x22);
}

#[test]
fn absolute_y_charges_one_extra_cycle_on_page_cross() {
    let mut cpu = cpu_with_program(0, &[0xb9, 0xff, 0x02]);
    cpu.y = 0x01;
    cpu.bus.write(0x0300, 0x23);
    assert!(cpu.step().is_ok());
    assert_eq!(cpu.ticks, 5);
    assert_eq!(cpu.a, 0x23);
    let mut cpu = cpu_with_program(0, &[0xb9, 0x00, 0x02]);
    cpu.y = 0x01;
    cpu.bus.write(0x0201, 0x24);
    assert!(cpu.step().is_ok());
    assert_eq!(cpu.ticks, 4);
    assert_eq!(cpu.a, 0x24);
}

#[test]
fn indirect_x_costs_two_cycles_and_reads_through_one_zero_page_byte() {
    let mut cpu = cpu_with_program(0, &[0xa1, 0x20]);
    cpu.x = 0x04;
    // the pointer is the single byte at (0x20 + x) mod 256; its high byte
    // stays zero
    cpu.bus.write(0x0024, 0x42);
    cpu.bus.write(0x0042, 0x77);
    assert!(cpu.step().is_ok());
    assert_eq!(cpu.ticks, 2);
    assert_eq!(cpu.a, 0x77);
}

#[test]
fn indirect_y_costs_two_cycles_while_the_sum_stays_in_page_zero() {
    let mut cpu = cpu_with_program(0, &[0xb1, 0x20]);
    cpu.y = 0x05;
    cpu.bus.write(0x0020, 0x10);
    cpu.bus.write(0x0015, 0x88);
    assert!(cpu.step().is_ok());
    assert_eq!(cpu.ticks, 2);
    assert_eq!(cpu.a, 0x88);
}

#[test]
fn indirect_y_charges_one_extra_cycle_when_the_sum_leaves_page_zero() {
    let mut cpu = cpu_with_program(0, &[0xb1, 0x20]);
    cpu.y = 0x20;
    cpu.bus.write(0x0020, 0xf0);
    cpu.bus.write(0x0110, 0x89);
    assert!(cpu.step().is_ok());
    assert_eq!(cpu.ticks, 3);
    assert_eq!(cpu.a, 0x89);
}

#[test]
fn stack_operations_charge_their_extra_cycles() {
    let mut cpu = cpu_with_program(0, &[0x48, 0x68]);
    assert!(cpu.step().is_ok());
    assert_eq!(cpu.ticks, 3);
    assert!(cpu.step().is_ok());
    assert_eq!(cpu.ticks, 7);
}
