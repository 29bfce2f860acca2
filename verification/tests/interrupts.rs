//! Reset and the two interrupts.

use nes_emulator::bus::Bus;
use nes_emulator::cpu::{Olc6502, FLAG6502_B, FLAG6502_I, FLAG6502_U};

#[test]
fn a_new_processor_is_all_zero() {
    let cpu = Olc6502::new();
    assert_eq!(cpu.get_registers(), (0, 0, 0, 0, 0, 0));
    assert_eq!(cpu.get_state(), (0, 0, 0, 0, 0));
    assert_eq!(cpu.get_remaining_cycles(), 0);
}

#[test]
fn reset_loads_the_reset_vector_and_clears_the_rest() {
    let mut bus = Bus::new();
    bus.write(0xFFFC, 0x00);
    bus.write(0xFFFD, 0x80);
    let mut cpu = Olc6502::new();
    cpu.set_registers(0x11, 0x22, 0x33, 0x44, 0x5566, 0xFF);

    cpu.reset(&mut bus);

    assert_eq!(cpu.get_registers(), (0, 0, 0, 0xFD, 0x8000, 0x20));
    assert_eq!(cpu.get_state(), (0, 0, 0, 0, 8));
    assert_eq!(cpu.get_remaining_cycles(), 8);
}

#[test]
fn reset_reads_the_vector_low_byte_first() {
    let mut bus = Bus::new();
    bus.write(0xFFFC, 0x34);
    bus.write(0xFFFD, 0x12);
    let mut cpu = Olc6502::new();
    cpu.reset(&mut bus);
    assert_eq!(cpu.get_registers().4, 0x1234);
}

#[test]
fn reset_clears_what_was_in_flight() {
    let mut bus = Bus::new();
    bus.write(0x8000, 0xD0);
    bus.write(0x8001, 0xFE);
    bus.write(0x8002, 0xAD);
    bus.write(0x8003, 0x34);
    bus.write(0x8004, 0x12);
    bus.write(0x1234, 0x77);
    let mut cpu = Olc6502::new();
    cpu.set_registers(0, 0, 0, 0xFD, 0x8000, 0x26);
    // An untaken branch leaves an offset, the load an address and an operand.
    cpu.step_instruction(&mut bus);
    cpu.step_instruction(&mut bus);
    assert_eq!(cpu.get_state(), (0x77, 0x1234, 0xFFFE, 0xAD, 0));

    cpu.reset(&mut bus);
    assert_eq!(cpu.get_state(), (0, 0, 0, 0, 8));
}

#[test]
fn memory_persists_across_a_reset() {
    let mut bus = Bus::new();
    bus.write(0x0200, 0xAB);
    bus.write(0x01FD, 0xCD);
    let mut cpu = Olc6502::new();
    cpu.reset(&mut bus);
    assert_eq!(bus.read(0x0200, true), 0xAB);
    assert_eq!(bus.read(0x01FD, true), 0xCD);
}

#[test]
fn the_eight_cycles_of_a_reset_pass_before_the_first_instruction() {
    let mut bus = Bus::new();
    bus.write(0xFFFC, 0x00);
    bus.write(0xFFFD, 0x80);
    bus.write(0x8000, 0xA9);
    bus.write(0x8001, 0x42);
    let mut cpu = Olc6502::new();
    cpu.reset(&mut bus);
    for remaining in (0..8u8).rev() {
        cpu.clock(&mut bus);
        assert_eq!(cpu.get_remaining_cycles(), remaining);
        assert_eq!(cpu.get_registers(), (0, 0, 0, 0xFD, 0x8000, 0x20));
    }
    cpu.clock(&mut bus);
    assert_eq!(cpu.get_registers(), (0x42, 0, 0, 0xFD, 0x8002, 0x20));
    assert_eq!(cpu.get_remaining_cycles(), 1);
}

#[test]
fn nmi_pushes_pc_and_status_and_takes_the_nmi_vector() {
    let mut bus = Bus::new();
    bus.write(0xFFFA, 0x00);
    bus.write(0xFFFB, 0x90);
    bus.write(0xFFFE, 0x11);
    bus.write(0xFFFF, 0x11);
    let mut cpu = Olc6502::new();
    cpu.set_registers(1, 2, 3, 0xFD, 0x1234, 0x21);

    cpu.nmi(&mut bus);

    assert_eq!(bus.read(0x01FD, true), 0x12);
    assert_eq!(bus.read(0x01FC, true), 0x34);
    assert_eq!(bus.read(0x01FB, true), 0x25);
    assert_eq!(cpu.get_registers(), (1, 2, 3, 0xFA, 0x9000, 0x25));
    assert_eq!(cpu.get_remaining_cycles(), 8);
}

#[test]
fn nmi_is_taken_even_while_interrupts_are_disabled() {
    let mut bus = Bus::new();
    bus.write(0xFFFA, 0x00);
    bus.write(0xFFFB, 0x90);
    let mut cpu = Olc6502::new();
    cpu.set_registers(0, 0, 0, 0xFD, 0x1234, 0x24);
    cpu.nmi(&mut bus);
    assert_eq!(cpu.get_registers().4, 0x9000);
    assert_eq!(cpu.get_registers().3, 0xFA);
}

#[test]
fn an_interrupt_pushes_status_with_b_clear_and_u_set() {
    let mut bus = Bus::new();
    let mut cpu = Olc6502::new();
    cpu.set_registers(0, 0, 0, 0xFD, 0x1234, 0x10);
    cpu.nmi(&mut bus);
    let pushed = bus.read(0x01FB, true);
    assert_eq!(pushed & FLAG6502_B, 0);
    assert_eq!(pushed & FLAG6502_U, FLAG6502_U);
    assert_eq!(pushed & FLAG6502_I, FLAG6502_I);
    assert_eq!(pushed, 0x24);
    assert_eq!(cpu.get_registers().5, 0x24);
}

#[test]
fn irq_is_ignored_while_i_is_set() {
    let mut bus = Bus::new();
    bus.write(0xFFFE, 0x00);
    bus.write(0xFFFF, 0xA0);
    let mut cpu = Olc6502::new();
    cpu.set_registers(1, 2, 3, 0xFD, 0x1234, 0x24);

    cpu.irq(&mut bus);

    assert_eq!(cpu.get_registers(), (1, 2, 3, 0xFD, 0x1234, 0x24));
    assert_eq!(cpu.get_remaining_cycles(), 0);
    assert_eq!(bus.get_ram(0x01FB, 3), vec![0, 0, 0]);
}

#[test]
fn irq_is_serviced_through_its_own_vector_while_i_is_clear() {
    let mut bus = Bus::new();
    bus.write(0xFFFA, 0x11);
    bus.write(0xFFFB, 0x11);
    bus.write(0xFFFE, 0x00);
    bus.write(0xFFFF, 0xA0);
    let mut cpu = Olc6502::new();
    cpu.set_registers(1, 2, 3, 0xFD, 0x1234, 0x20);

    cpu.irq(&mut bus);

    assert_eq!(bus.get_ram(0x01FB, 3), vec![0x24, 0x34, 0x12]);
    assert_eq!(cpu.get_registers(), (1, 2, 3, 0xFA, 0xA000, 0x24));
    assert_eq!(cpu.get_remaining_cycles(), 7);
}

#[test]
fn the_stack_wraps_under_an_interrupt() {
    let mut bus = Bus::new();
    let mut cpu = Olc6502::new();
    cpu.set_registers(0, 0, 0, 0x01, 0xBEEF, 0x20);
    cpu.nmi(&mut bus);
    assert_eq!(bus.read(0x0101, true), 0xBE);
    assert_eq!(bus.read(0x0100, true), 0xEF);
    assert_eq!(bus.read(0x01FF, true), 0x24);
    assert_eq!(cpu.get_registers().3, 0xFE);
}

#[test]
fn rti_returns_from_an_interrupt_to_where_it_struck() {
    let mut bus = Bus::new();
    bus.write(0xFFFA, 0x00);
    bus.write(0xFFFB, 0x90);
    bus.write(0x9000, 0x40);
    let mut cpu = Olc6502::new();
    cpu.set_registers(0, 0, 0, 0xFD, 0x1234, 0xE3);
    cpu.nmi(&mut bus);
    cpu.force_cycles_zero();

    cpu.step_instruction(&mut bus);

    let (_, _, _, s, pc, p) = cpu.get_registers();
    assert_eq!(pc, 0x1234);
    assert_eq!(s, 0xFD);
    // N, V, Z and C come back; I was set by the interrupt; B and U end clear.
    assert_eq!(p, 0xC7);
}
