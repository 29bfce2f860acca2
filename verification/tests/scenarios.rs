//! Whole instructions on a prepared machine, with the exact state and tick
//! count that each must end in.

use nes_emulator::bus::Bus;
use nes_emulator::cpu::Olc6502;

/// Ticks the clock until the instruction that the first tick starts is over.
fn run_one_instruction(cpu: &mut Olc6502, bus: &mut Bus) -> usize {
    let mut ticks = 1;
    cpu.clock(bus);
    while cpu.get_remaining_cycles() > 0 {
        cpu.clock(bus);
        ticks += 1;
    }
    ticks
}

fn load(bus: &mut Bus, at: u16, bytes: &[u8]) {
    let mut addr = at;
    for byte in bytes {
        bus.write(addr, *byte);
        addr = addr.wrapping_add(1);
    }
}

#[test]
fn lda_immediate() {
    let mut bus = Bus::new();
    let mut cpu = Olc6502::new();
    load(&mut bus, 0x8000, &[0xA9, 0x42]);
    cpu.set_registers(0x00, 0, 0, 0xFD, 0x8000, 0x24);

    let ticks = run_one_instruction(&mut cpu, &mut bus);

    let (a, _, _, _, pc, p) = cpu.get_registers();
    assert_eq!(a, 0x42);
    assert_eq!(pc, 0x8002);
    assert_eq!(p & 0x02, 0);
    assert_eq!(p & 0x80, 0);
    assert_eq!(p, 0x24);
    assert_eq!(ticks, 2);
}

#[test]
fn adc_with_overflow() {
    let mut bus = Bus::new();
    let mut cpu = Olc6502::new();
    load(&mut bus, 0x0200, &[0x69, 0x01]);
    cpu.set_registers(0x7F, 0, 0, 0xFD, 0x0200, 0x24);

    let ticks = run_one_instruction(&mut cpu, &mut bus);

    let (a, _, _, _, pc, p) = cpu.get_registers();
    assert_eq!(a, 0x80);
    assert_eq!(p & 0x01, 0, "C");
    assert_eq!(p & 0x02, 0, "Z");
    assert_eq!(p & 0x80, 0x80, "N");
    assert_eq!(p & 0x40, 0x40, "V");
    assert_eq!(p, 0xE4);
    assert_eq!(pc, 0x0202);
    assert_eq!(ticks, 2);
}

#[test]
fn branch_taken_with_page_cross() {
    let mut bus = Bus::new();
    let mut cpu = Olc6502::new();
    load(&mut bus, 0x80FD, &[0xF0, 0x04]);
    cpu.set_registers(0, 0, 0, 0xFD, 0x80FD, 0x26);

    let ticks = run_one_instruction(&mut cpu, &mut bus);

    let (_, _, _, _, pc, p) = cpu.get_registers();
    assert_eq!(pc, 0x8103);
    assert_eq!(p, 0x26);
    assert_eq!(ticks, 4);
}

#[test]
fn indirect_jmp_page_boundary_bug() {
    let mut bus = Bus::new();
    let mut cpu = Olc6502::new();
    bus.write(0x30FF, 0x80);
    bus.write(0x3000, 0x50);
    bus.write(0x3100, 0x00);
    load(&mut bus, 0x0000, &[0x6C, 0xFF, 0x30]);
    cpu.set_registers(0, 0, 0, 0xFD, 0x0000, 0x24);

    let ticks = run_one_instruction(&mut cpu, &mut bus);

    let (_, _, _, _, pc, _) = cpu.get_registers();
    assert_eq!(pc, 0x5080);
    assert_eq!(ticks, 5);
}

#[test]
fn stack_underflow_wrap() {
    let mut bus = Bus::new();
    let mut cpu = Olc6502::new();
    load(&mut bus, 0x0400, &[0x48, 0x68]);
    cpu.set_registers(0xAB, 0, 0, 0xFF, 0x0400, 0x24);

    let ticks = run_one_instruction(&mut cpu, &mut bus);
    let (_, _, _, s, _, _) = cpu.get_registers();
    assert_eq!(s, 0xFE);
    assert_eq!(bus.read(0x01FF, true), 0xAB);
    assert_eq!(ticks, 3);

    // Clobber A so that only the pull can bring the value back.
    let (_, x, y, s, pc, p) = cpu.get_registers();
    cpu.set_registers(0x00, x, y, s, pc, p);
    let ticks = run_one_instruction(&mut cpu, &mut bus);
    let (a, _, _, s, _, _) = cpu.get_registers();
    assert_eq!(s, 0xFF);
    assert_eq!(a, 0xAB);
    assert_eq!(ticks, 4);
}

#[test]
fn brk_frame() {
    let mut bus = Bus::new();
    let mut cpu = Olc6502::new();
    load(&mut bus, 0xFFFE, &[0x00, 0xC0]);
    cpu.set_registers(0, 0, 0, 0xFF, 0x1000, 0x24);

    let ticks = run_one_instruction(&mut cpu, &mut bus);

    let (_, _, _, s, pc, p) = cpu.get_registers();
    assert_eq!(pc, 0xC000);
    assert_eq!(bus.get_ram(0x01FD, 3), vec![0x24 | 0x10 | 0x20, 0x02, 0x10]);
    assert_eq!(s, 0xFC);
    assert_eq!(p & 0x04, 0x04, "I");
    assert_eq!(p, 0x24);
    assert_eq!(ticks, 7);
}
