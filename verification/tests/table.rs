//! The instruction table.

use nes_emulator::cpu::{AddressMode, Instruction, Operation};
use nes_emulator::instruction::{build_lookup, lookup};

fn assert_entry(opcode: u8, name: &str, addrmode: AddressMode, operation: Operation, cycles: u8) {
    let inst: Instruction = lookup(opcode);
    assert_eq!(inst.name, name, "name of {:#04X}", opcode);
    assert!(inst.addrmode == addrmode, "mode of {:#04X}", opcode);
    assert_eq!(inst.operation, operation, "operation of {:#04X}", opcode);
    assert_eq!(inst.cycles, cycles, "cycles of {:#04X}", opcode);
}

#[test]
fn there_are_151_official_opcodes() {
    let official = (0..=255u8).filter(|opcode| lookup(*opcode).operation != Operation::XXX).count();
    assert_eq!(official, 151);
}

#[test]
fn an_unassigned_opcode_decodes_to_the_sink() {
    for opcode in [0x02u8, 0x03, 0x1A, 0x1C, 0x80, 0x89, 0xFF] {
        assert_entry(opcode, "???", AddressMode::IMP, Operation::XXX, 2);
    }
}

#[test]
fn every_unassigned_opcode_has_the_same_entry() {
    for opcode in 0..=255u8 {
        let inst = lookup(opcode);
        if inst.operation == Operation::XXX {
            assert_eq!(inst.name, "???");
            assert!(inst.addrmode == AddressMode::IMP);
            assert_eq!(inst.cycles, 2);
        } else {
            assert_ne!(inst.name, "???");
        }
    }
}

#[test]
fn the_accumulator_group_has_all_eight_modes() {
    assert_entry(0xA1, "LDA", AddressMode::IZX, Operation::LDA, 6);
    assert_entry(0xA5, "LDA", AddressMode::ZP0, Operation::LDA, 3);
    assert_entry(0xA9, "LDA", AddressMode::IMM, Operation::LDA, 2);
    assert_entry(0xAD, "LDA", AddressMode::ABS, Operation::LDA, 4);
    assert_entry(0xB1, "LDA", AddressMode::IZY, Operation::LDA, 5);
    assert_entry(0xB5, "LDA", AddressMode::ZPX, Operation::LDA, 4);
    assert_entry(0xB9, "LDA", AddressMode::ABY, Operation::LDA, 4);
    assert_entry(0xBD, "LDA", AddressMode::ABX, Operation::LDA, 4);
}

#[test]
fn stores_always_pay_for_indexing() {
    assert_entry(0x9D, "STA", AddressMode::ABX, Operation::STA, 5);
    assert_entry(0x99, "STA", AddressMode::ABY, Operation::STA, 5);
    assert_entry(0x91, "STA", AddressMode::IZY, Operation::STA, 6);
    assert_entry(0x81, "STA", AddressMode::IZX, Operation::STA, 6);
    assert_entry(0x8D, "STA", AddressMode::ABS, Operation::STA, 4);
    assert_entry(0x85, "STA", AddressMode::ZP0, Operation::STA, 3);
}

#[test]
fn the_x_register_is_indexed_by_y() {
    assert_entry(0x96, "STX", AddressMode::ZPY, Operation::STX, 4);
    assert_entry(0xB6, "LDX", AddressMode::ZPY, Operation::LDX, 4);
    assert_entry(0xBE, "LDX", AddressMode::ABY, Operation::LDX, 4);
    assert_entry(0x94, "STY", AddressMode::ZPX, Operation::STY, 4);
    assert_entry(0xBC, "LDY", AddressMode::ABX, Operation::LDY, 4);
}

#[test]
fn read_modify_write_costs() {
    assert_entry(0x0A, "ASL", AddressMode::IMP, Operation::ASL, 2);
    assert_entry(0x06, "ASL", AddressMode::ZP0, Operation::ASL, 5);
    assert_entry(0x16, "ASL", AddressMode::ZPX, Operation::ASL, 6);
    assert_entry(0x0E, "ASL", AddressMode::ABS, Operation::ASL, 6);
    assert_entry(0x1E, "ASL", AddressMode::ABX, Operation::ASL, 7);
    assert_entry(0xE6, "INC", AddressMode::ZP0, Operation::INC, 5);
    assert_entry(0xDE, "DEC", AddressMode::ABX, Operation::DEC, 7);
}

#[test]
fn control_flow_entries() {
    assert_entry(0x00, "BRK", AddressMode::IMP, Operation::BRK, 7);
    assert_entry(0x20, "JSR", AddressMode::ABS, Operation::JSR, 6);
    assert_entry(0x40, "RTI", AddressMode::IMP, Operation::RTI, 6);
    assert_entry(0x60, "RTS", AddressMode::IMP, Operation::RTS, 6);
    assert_entry(0x4C, "JMP", AddressMode::ABS, Operation::JMP, 3);
    assert_entry(0x6C, "JMP", AddressMode::IND, Operation::JMP, 5);
    assert_entry(0xEA, "NOP", AddressMode::IMP, Operation::NOP, 2);
}

#[test]
fn all_branches_are_relative_and_cost_two() {
    assert_entry(0x10, "BPL", AddressMode::REL, Operation::BPL, 2);
    assert_entry(0x30, "BMI", AddressMode::REL, Operation::BMI, 2);
    assert_entry(0x50, "BVC", AddressMode::REL, Operation::BVC, 2);
    assert_entry(0x70, "BVS", AddressMode::REL, Operation::BVS, 2);
    assert_entry(0x90, "BCC", AddressMode::REL, Operation::BCC, 2);
    assert_entry(0xB0, "BCS", AddressMode::REL, Operation::BCS, 2);
    assert_entry(0xD0, "BNE", AddressMode::REL, Operation::BNE, 2);
    assert_entry(0xF0, "BEQ", AddressMode::REL, Operation::BEQ, 2);
}

#[test]
fn stack_entries() {
    assert_entry(0x48, "PHA", AddressMode::IMP, Operation::PHA, 3);
    assert_entry(0x08, "PHP", AddressMode::IMP, Operation::PHP, 3);
    assert_entry(0x68, "PLA", AddressMode::IMP, Operation::PLA, 4);
    assert_entry(0x28, "PLP", AddressMode::IMP, Operation::PLP, 4);
}

#[test]
fn compares_against_x_and_y() {
    assert_entry(0xE0, "CPX", AddressMode::IMM, Operation::CPX, 2);
    assert_entry(0xE4, "CPX", AddressMode::ZP0, Operation::CPX, 3);
    assert_entry(0xEC, "CPX", AddressMode::ABS, Operation::CPX, 4);
    assert_entry(0xC0, "CPY", AddressMode::IMM, Operation::CPY, 2);
    assert_entry(0xC4, "CPY", AddressMode::ZP0, Operation::CPY, 3);
    assert_entry(0xCC, "CPY", AddressMode::ABS, Operation::CPY, 4);
    assert_entry(0x24, "BIT", AddressMode::ZP0, Operation::BIT, 3);
    assert_entry(0x2C, "BIT", AddressMode::ABS, Operation::BIT, 4);
}

#[test]
fn base_cycles_lie_between_two_and_seven() {
    for opcode in 0..=255u8 {
        let cycles = lookup(opcode).cycles;
        assert!((2..=7).contains(&cycles), "{:#04X}", opcode);
    }
}

#[test]
fn the_built_table_holds_every_entry() {
    let table = build_lookup();
    assert_eq!(table.len(), 256);
    for opcode in 0..=255u8 {
        let built = table[opcode as usize];
        let looked_up = lookup(opcode);
        assert_eq!(built.name, looked_up.name);
        assert!(built.addrmode == looked_up.addrmode);
        assert_eq!(built.operation, looked_up.operation);
        assert_eq!(built.cycles, looked_up.cycles);
    }
    assert_eq!(table[0xA9].name, "LDA");
    assert_eq!(table[0xFF].name, "???");
}
