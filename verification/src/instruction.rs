//! The instruction table: what each of the 256 opcode bytes decodes to.
//!
//! The executable table [`lookup`] lists the opcodes one by one. Its contract
//! is stated against [`decode`], which describes the same instruction set the
//! other way round: which opcodes belong to each operation, how the bit
//! pattern of an opcode selects its addressing mode, and how many cycles an
//! operation costs in a given mode.

use vstd::prelude::*;

verus! {

/// How an instruction finds its operand.
#[derive(Copy, Clone, Debug, PartialEq, Eq, Structural)]
pub enum AddressMode {
    /// Implied: no operand bytes; the accumulator is latched as the operand.
    IMP,
    /// Immediate: the operand is the byte after the opcode.
    IMM,
    /// Zero page.
    ZP0,
    /// Zero page indexed by X, wrapping inside page zero.
    ZPX,
    /// Zero page indexed by Y, wrapping inside page zero.
    ZPY,
    /// Absolute.
    ABS,
    /// Absolute indexed by X.
    ABX,
    /// Absolute indexed by Y.
    ABY,
    /// Indirect (only `JMP`), with the page-boundary defect of the hardware.
    IND,
    /// Indexed indirect: the pointer is taken from page zero at operand + X.
    IZX,
    /// Indirect indexed: the pointer taken from page zero is offset by Y.
    IZY,
    /// Relative: a signed 8-bit branch offset.
    REL,
}

/// What an instruction does once its operand address is known.
#[derive(Copy, Clone, Debug, PartialEq, Eq, Structural)]
pub enum Operation {
    // System
    BRK,
    NOP,
    // Loads
    LDA,
    LDX,
    LDY,
    // Stores
    STA,
    STX,
    STY,
    // Register transfers
    TAX,
    TAY,
    TXA,
    TYA,
    TSX,
    TXS,
    // Stack
    PHA,
    PHP,
    PLA,
    PLP,
    // Logical
    AND,
    EOR,
    ORA,
    BIT,
    // Arithmetic
    ADC,
    SBC,
    CMP,
    CPX,
    CPY,
    // Increment and decrement
    INC,
    INX,
    INY,
    DEC,
    DEX,
    DEY,
    // Shifts and rotates
    ASL,
    LSR,
    ROL,
    ROR,
    // Jumps and calls
    JMP,
    JSR,
    RTS,
    RTI,
    // Branches
    BCC,
    BCS,
    BEQ,
    BMI,
    BNE,
    BPL,
    BVC,
    BVS,
    // Flag operations
    CLC,
    CLD,
    CLI,
    CLV,
    SEC,
    SED,
    SEI,
    /// The sink that every unassigned opcode decodes to.
    XXX,
}

/// One entry of the instruction table.
#[derive(Copy, Clone)]
pub struct Instruction {
    pub name: &'static str,
    pub addrmode: AddressMode,
    pub operation: Operation,
    pub cycles: u8,
}

/// The operation that an opcode byte selects; `XXX` for the 105 bytes that
/// are not official opcodes.
pub open spec fn operation_of(opcode: u8) -> Operation {
    match opcode {
        0x00 => Operation::BRK,
        0xEA => Operation::NOP,
        0xA9 | 0xA5 | 0xB5 | 0xAD | 0xBD | 0xB9 | 0xA1 | 0xB1 => Operation::LDA,
        0xA2 | 0xA6 | 0xB6 | 0xAE | 0xBE => Operation::LDX,
        0xA0 | 0xA4 | 0xB4 | 0xAC | 0xBC => Operation::LDY,
        0x85 | 0x95 | 0x8D | 0x9D | 0x99 | 0x81 | 0x91 => Operation::STA,
        0x86 | 0x96 | 0x8E => Operation::STX,
        0x84 | 0x94 | 0x8C => Operation::STY,
        0xAA => Operation::TAX,
        0xA8 => Operation::TAY,
        0x8A => Operation::TXA,
        0x98 => Operation::TYA,
        0xBA => Operation::TSX,
        0x9A => Operation::TXS,
        0x48 => Operation::PHA,
        0x08 => Operation::PHP,
        0x68 => Operation::PLA,
        0x28 => Operation::PLP,
        0x29 | 0x25 | 0x35 | 0x2D | 0x3D | 0x39 | 0x21 | 0x31 => Operation::AND,
        0x49 | 0x45 | 0x55 | 0x4D | 0x5D | 0x59 | 0x41 | 0x51 => Operation::EOR,
        0x09 | 0x05 | 0x15 | 0x0D | 0x1D | 0x19 | 0x01 | 0x11 => Operation::ORA,
        0x24 | 0x2C => Operation::BIT,
        0x69 | 0x65 | 0x75 | 0x6D | 0x7D | 0x79 | 0x61 | 0x71 => Operation::ADC,
        0xE9 | 0xE5 | 0xF5 | 0xED | 0xFD | 0xF9 | 0xE1 | 0xF1 => Operation::SBC,
        0xC9 | 0xC5 | 0xD5 | 0xCD | 0xDD | 0xD9 | 0xC1 | 0xD1 => Operation::CMP,
        0xE0 | 0xE4 | 0xEC => Operation::CPX,
        0xC0 | 0xC4 | 0xCC => Operation::CPY,
        0xE6 | 0xF6 | 0xEE | 0xFE => Operation::INC,
        0xE8 => Operation::INX,
        0xC8 => Operation::INY,
        0xC6 | 0xD6 | 0xCE | 0xDE => Operation::DEC,
        0xCA => Operation::DEX,
        0x88 => Operation::DEY,
        0x0A | 0x06 | 0x16 | 0x0E | 0x1E => Operation::ASL,
        0x4A | 0x46 | 0x56 | 0x4E | 0x5E => Operation::LSR,
        0x2A | 0x26 | 0x36 | 0x2E | 0x3E => Operation::ROL,
        0x6A | 0x66 | 0x76 | 0x6E | 0x7E => Operation::ROR,
        0x4C | 0x6C => Operation::JMP,
        0x20 => Operation::JSR,
        0x60 => Operation::RTS,
        0x40 => Operation::RTI,
        0x90 => Operation::BCC,
        0xB0 => Operation::BCS,
        0xF0 => Operation::BEQ,
        0x30 => Operation::BMI,
        0xD0 => Operation::BNE,
        0x10 => Operation::BPL,
        0x50 => Operation::BVC,
        0x70 => Operation::BVS,
        0x18 => Operation::CLC,
        0xD8 => Operation::CLD,
        0x58 => Operation::CLI,
        0xB8 => Operation::CLV,
        0x38 => Operation::SEC,
        0xF8 => Operation::SED,
        0x78 => Operation::SEI,
        _ => Operation::XXX,
    }
}

/// The addressing mode of an opcode, read off its bit pattern `aaabbbcc`:
/// `cc` selects one of three columns of the instruction set and `bbb` the
/// mode within the column. Unassigned opcodes are implied.
pub open spec fn mode_of(opcode: u8) -> AddressMode {
    let column = opcode % 4;
    let row = (opcode / 4) % 8;
    if operation_of(opcode) == Operation::XXX {
        AddressMode::IMP
    } else if column == 1 {
        // The accumulator group: ORA AND EOR ADC STA LDA CMP SBC.
        if row == 0 {
            AddressMode::IZX
        } else if row == 1 {
            AddressMode::ZP0
        } else if row == 2 {
            AddressMode::IMM
        } else if row == 3 {
            AddressMode::ABS
        } else if row == 4 {
            AddressMode::IZY
        } else if row == 5 {
            AddressMode::ZPX
        } else if row == 6 {
            AddressMode::ABY
        } else {
            AddressMode::ABX
        }
    } else if column == 2 {
        // The read-modify-write group and the X register: the X-indexed
        // modes become Y-indexed where X itself is the subject.
        let on_x = operation_of(opcode) == Operation::LDX || operation_of(opcode) == Operation::STX;
        if row == 0 {
            AddressMode::IMM
        } else if row == 1 {
            AddressMode::ZP0
        } else if row == 3 {
            AddressMode::ABS
        } else if row == 5 {
            if on_x {
                AddressMode::ZPY
            } else {
                AddressMode::ZPX
            }
        } else if row == 7 {
            if on_x {
                AddressMode::ABY
            } else {
                AddressMode::ABX
            }
        } else {
            AddressMode::IMP
        }
    } else {
        // Control flow, the Y register, compares against X and Y, and the
        // single-byte instructions.
        if row == 0 {
            if opcode >= 0x80 {
                AddressMode::IMM
            } else if opcode == 0x20 {
                AddressMode::ABS
            } else {
                AddressMode::IMP
            }
        } else if row == 1 {
            AddressMode::ZP0
        } else if row == 3 {
            if opcode == 0x6C {
                AddressMode::IND
            } else {
                AddressMode::ABS
            }
        } else if row == 4 {
            AddressMode::REL
        } else if row == 5 {
            AddressMode::ZPX
        } else if row == 7 {
            AddressMode::ABX
        } else {
            AddressMode::IMP
        }
    }
}

/// Operations that read memory, write it back changed, and so pay two extra
/// cycles over a plain read.
pub open spec fn is_read_modify_write(operation: Operation) -> bool {
    operation == Operation::ASL || operation == Operation::LSR || operation == Operation::ROL
        || operation == Operation::ROR || operation == Operation::INC || operation
        == Operation::DEC
}

/// Operations that only write their operand.
pub open spec fn is_store(operation: Operation) -> bool {
    operation == Operation::STA || operation == Operation::STX || operation == Operation::STY
}

/// The eight conditional branches.
pub open spec fn is_branch(operation: Operation) -> bool {
    operation == Operation::BCC || operation == Operation::BCS || operation == Operation::BEQ
        || operation == Operation::BMI || operation == Operation::BNE || operation
        == Operation::BPL || operation == Operation::BVC || operation == Operation::BVS
}

/// Cycles that an operand access costs a plain read in the given mode, the
/// opcode fetch included.
pub open spec fn read_cycles(mode: AddressMode) -> u8 {
    match mode {
        AddressMode::IMP | AddressMode::IMM | AddressMode::REL => 2,
        AddressMode::ZP0 => 3,
        AddressMode::ZPX | AddressMode::ZPY | AddressMode::ABS | AddressMode::ABX
        | AddressMode::ABY => 4,
        AddressMode::IZY | AddressMode::IND => 5,
        AddressMode::IZX => 6,
    }
}

/// The base cycle count of an operation in a mode, before any page-crossing
/// or branch penalty.
pub open spec fn base_cycles(mode: AddressMode, operation: Operation) -> u8 {
    match operation {
        Operation::BRK => 7,
        Operation::JSR | Operation::RTS | Operation::RTI => 6,
        Operation::PLA | Operation::PLP => 4,
        Operation::PHA | Operation::PHP => 3,
        Operation::JMP => if mode == AddressMode::IND {
            5
        } else {
            3
        },
        _ => if is_read_modify_write(operation) && mode != AddressMode::IMP {
            // The write-back costs two cycles, and indexing never comes free.
            if mode == AddressMode::ABX {
                7
            } else {
                (read_cycles(mode) + 2) as u8
            }
        } else if is_store(operation) && (mode == AddressMode::ABX || mode == AddressMode::ABY
            || mode == AddressMode::IZY) {
            // A store always pays for the index carry.
            (read_cycles(mode) + 1) as u8
        } else {
            read_cycles(mode)
        },
    }
}

/// The three-letter mnemonic of an operation; `???` for the sink.
pub open spec fn mnemonic(operation: Operation) -> &'static str {
    match operation {
        Operation::BRK => "BRK",
        Operation::NOP => "NOP",
        Operation::LDA => "LDA",
        Operation::LDX => "LDX",
        Operation::LDY => "LDY",
        Operation::STA => "STA",
        Operation::STX => "STX",
        Operation::STY => "STY",
        Operation::TAX => "TAX",
        Operation::TAY => "TAY",
        Operation::TXA => "TXA",
        Operation::TYA => "TYA",
        Operation::TSX => "TSX",
        Operation::TXS => "TXS",
        Operation::PHA => "PHA",
        Operation::PHP => "PHP",
        Operation::PLA => "PLA",
        Operation::PLP => "PLP",
        Operation::AND => "AND",
        Operation::EOR => "EOR",
        Operation::ORA => "ORA",
        Operation::BIT => "BIT",
        Operation::ADC => "ADC",
        Operation::SBC => "SBC",
        Operation::CMP => "CMP",
        Operation::CPX => "CPX",
        Operation::CPY => "CPY",
        Operation::INC => "INC",
        Operation::INX => "INX",
        Operation::INY => "INY",
        Operation::DEC => "DEC",
        Operation::DEX => "DEX",
        Operation::DEY => "DEY",
        Operation::ASL => "ASL",
        Operation::LSR => "LSR",
        Operation::ROL => "ROL",
        Operation::ROR => "ROR",
        Operation::JMP => "JMP",
        Operation::JSR => "JSR",
        Operation::RTS => "RTS",
        Operation::RTI => "RTI",
        Operation::BCC => "BCC",
        Operation::BCS => "BCS",
        Operation::BEQ => "BEQ",
        Operation::BMI => "BMI",
        Operation::BNE => "BNE",
        Operation::BPL => "BPL",
        Operation::BVC => "BVC",
        Operation::BVS => "BVS",
        Operation::CLC => "CLC",
        Operation::CLD => "CLD",
        Operation::CLI => "CLI",
        Operation::CLV => "CLV",
        Operation::SEC => "SEC",
        Operation::SED => "SED",
        Operation::SEI => "SEI",
        Operation::XXX => "???",
    }
}

/// The table entry of an opcode byte.
pub open spec fn decode(opcode: u8) -> Instruction {
    Instruction {
        name: mnemonic(operation_of(opcode)),
        addrmode: mode_of(opcode),
        operation: operation_of(opcode),
        cycles: base_cycles(mode_of(opcode), operation_of(opcode)),
    }
}

/// Every entry costs between two and seven cycles; a branch costs two, and
/// an operation that only reads its operand at most six.
pub proof fn lemma_cost_classes(opcode: u8)
    ensures
        2 <= decode(opcode).cycles <= 7,
        is_branch(decode(opcode).operation) ==> decode(opcode).cycles == 2,
        !is_read_modify_write(decode(opcode).operation) && decode(opcode).operation
            != Operation::BRK ==> decode(opcode).cycles <= 6,
{
}

/// The table entry of `opcode`, found in constant time.
pub fn lookup(opcode: u8) -> (inst: Instruction)
    ensures
        inst == decode(opcode),
{
    match opcode {
        0x00 => Instruction { name: "BRK", addrmode: AddressMode::IMP, operation: Operation::BRK, cycles: 7 },
        0x01 => Instruction { name: "ORA", addrmode: AddressMode::IZX, operation: Operation::ORA, cycles: 6 },
        0x05 => Instruction { name: "ORA", addrmode: AddressMode::ZP0, operation: Operation::ORA, cycles: 3 },
        0x06 => Instruction { name: "ASL", addrmode: AddressMode::ZP0, operation: Operation::ASL, cycles: 5 },
        0x08 => Instruction { name: "PHP", addrmode: AddressMode::IMP, operation: Operation::PHP, cycles: 3 },
        0x09 => Instruction { name: "ORA", addrmode: AddressMode::IMM, operation: Operation::ORA, cycles: 2 },
        0x0A => Instruction { name: "ASL", addrmode: AddressMode::IMP, operation: Operation::ASL, cycles: 2 },
        0x0D => Instruction { name: "ORA", addrmode: AddressMode::ABS, operation: Operation::ORA, cycles: 4 },
        0x0E => Instruction { name: "ASL", addrmode: AddressMode::ABS, operation: Operation::ASL, cycles: 6 },
        0x10 => Instruction { name: "BPL", addrmode: AddressMode::REL, operation: Operation::BPL, cycles: 2 },
        0x11 => Instruction { name: "ORA", addrmode: AddressMode::IZY, operation: Operation::ORA, cycles: 5 },
        0x15 => Instruction { name: "ORA", addrmode: AddressMode::ZPX, operation: Operation::ORA, cycles: 4 },
        0x16 => Instruction { name: "ASL", addrmode: AddressMode::ZPX, operation: Operation::ASL, cycles: 6 },
        0x18 => Instruction { name: "CLC", addrmode: AddressMode::IMP, operation: Operation::CLC, cycles: 2 },
        0x19 => Instruction { name: "ORA", addrmode: AddressMode::ABY, operation: Operation::ORA, cycles: 4 },
        0x1D => Instruction { name: "ORA", addrmode: AddressMode::ABX, operation: Operation::ORA, cycles: 4 },
        0x1E => Instruction { name: "ASL", addrmode: AddressMode::ABX, operation: Operation::ASL, cycles: 7 },
        0x20 => Instruction { name: "JSR", addrmode: AddressMode::ABS, operation: Operation::JSR, cycles: 6 },
        0x21 => Instruction { name: "AND", addrmode: AddressMode::IZX, operation: Operation::AND, cycles: 6 },
        0x24 => Instruction { name: "BIT", addrmode: AddressMode::ZP0, operation: Operation::BIT, cycles: 3 },
        0x25 => Instruction { name: "AND", addrmode: AddressMode::ZP0, operation: Operation::AND, cycles: 3 },
        0x26 => Instruction { name: "ROL", addrmode: AddressMode::ZP0, operation: Operation::ROL, cycles: 5 },
        0x28 => Instruction { name: "PLP", addrmode: AddressMode::IMP, operation: Operation::PLP, cycles: 4 },
        0x29 => Instruction { name: "AND", addrmode: AddressMode::IMM, operation: Operation::AND, cycles: 2 },
        0x2A => Instruction { name: "ROL", addrmode: AddressMode::IMP, operation: Operation::ROL, cycles: 2 },
        0x2C => Instruction { name: "BIT", addrmode: AddressMode::ABS, operation: Operation::BIT, cycles: 4 },
        0x2D => Instruction { name: "AND", addrmode: AddressMode::ABS, operation: Operation::AND, cycles: 4 },
        0x2E => Instruction { name: "ROL", addrmode: AddressMode::ABS, operation: Operation::ROL, cycles: 6 },
        0x30 => Instruction { name: "BMI", addrmode: AddressMode::REL, operation: Operation::BMI, cycles: 2 },
        0x31 => Instruction { name: "AND", addrmode: AddressMode::IZY, operation: Operation::AND, cycles: 5 },
        0x35 => Instruction { name: "AND", addrmode: AddressMode::ZPX, operation: Operation::AND, cycles: 4 },
        0x36 => Instruction { name: "ROL", addrmode: AddressMode::ZPX, operation: Operation::ROL, cycles: 6 },
        0x38 => Instruction { name: "SEC", addrmode: AddressMode::IMP, operation: Operation::SEC, cycles: 2 },
        0x39 => Instruction { name: "AND", addrmode: AddressMode::ABY, operation: Operation::AND, cycles: 4 },
        0x3D => Instruction { name: "AND", addrmode: AddressMode::ABX, operation: Operation::AND, cycles: 4 },
        0x3E => Instruction { name: "ROL", addrmode: AddressMode::ABX, operation: Operation::ROL, cycles: 7 },
        0x40 => Instruction { name: "RTI", addrmode: AddressMode::IMP, operation: Operation::RTI, cycles: 6 },
        0x41 => Instruction { name: "EOR", addrmode: AddressMode::IZX, operation: Operation::EOR, cycles: 6 },
        0x45 => Instruction { name: "EOR", addrmode: AddressMode::ZP0, operation: Operation::EOR, cycles: 3 },
        0x46 => Instruction { name: "LSR", addrmode: AddressMode::ZP0, operation: Operation::LSR, cycles: 5 },
        0x48 => Instruction { name: "PHA", addrmode: AddressMode::IMP, operation: Operation::PHA, cycles: 3 },
        0x49 => Instruction { name: "EOR", addrmode: AddressMode::IMM, operation: Operation::EOR, cycles: 2 },
        0x4A => Instruction { name: "LSR", addrmode: AddressMode::IMP, operation: Operation::LSR, cycles: 2 },
        0x4C => Instruction { name: "JMP", addrmode: AddressMode::ABS, operation: Operation::JMP, cycles: 3 },
        0x4D => Instruction { name: "EOR", addrmode: AddressMode::ABS, operation: Operation::EOR, cycles: 4 },
        0x4E => Instruction { name: "LSR", addrmode: AddressMode::ABS, operation: Operation::LSR, cycles: 6 },
        0x50 => Instruction { name: "BVC", addrmode: AddressMode::REL, operation: Operation::BVC, cycles: 2 },
        0x51 => Instruction { name: "EOR", addrmode: AddressMode::IZY, operation: Operation::EOR, cycles: 5 },
        0x55 => Instruction { name: "EOR", addrmode: AddressMode::ZPX, operation: Operation::EOR, cycles: 4 },
        0x56 => Instruction { name: "LSR", addrmode: AddressMode::ZPX, operation: Operation::LSR, cycles: 6 },
        0x58 => Instruction { name: "CLI", addrmode: AddressMode::IMP, operation: Operation::CLI, cycles: 2 },
        0x59 => Instruction { name: "EOR", addrmode: AddressMode::ABY, operation: Operation::EOR, cycles: 4 },
        0x5D => Instruction { name: "EOR", addrmode: AddressMode::ABX, operation: Operation::EOR, cycles: 4 },
        0x5E => Instruction { name: "LSR", addrmode: AddressMode::ABX, operation: Operation::LSR, cycles: 7 },
        0x60 => Instruction { name: "RTS", addrmode: AddressMode::IMP, operation: Operation::RTS, cycles: 6 },
        0x61 => Instruction { name: "ADC", addrmode: AddressMode::IZX, operation: Operation::ADC, cycles: 6 },
        0x65 => Instruction { name: "ADC", addrmode: AddressMode::ZP0, operation: Operation::ADC, cycles: 3 },
        0x66 => Instruction { name: "ROR", addrmode: AddressMode::ZP0, operation: Operation::ROR, cycles: 5 },
        0x68 => Instruction { name: "PLA", addrmode: AddressMode::IMP, operation: Operation::PLA, cycles: 4 },
        0x69 => Instruction { name: "ADC", addrmode: AddressMode::IMM, operation: Operation::ADC, cycles: 2 },
        0x6A => Instruction { name: "ROR", addrmode: AddressMode::IMP, operation: Operation::ROR, cycles: 2 },
        0x6C => Instruction { name: "JMP", addrmode: AddressMode::IND, operation: Operation::JMP, cycles: 5 },
        0x6D => Instruction { name: "ADC", addrmode: AddressMode::ABS, operation: Operation::ADC, cycles: 4 },
        0x6E => Instruction { name: "ROR", addrmode: AddressMode::ABS, operation: Operation::ROR, cycles: 6 },
        0x70 => Instruction { name: "BVS", addrmode: AddressMode::REL, operation: Operation::BVS, cycles: 2 },
        0x71 => Instruction { name: "ADC", addrmode: AddressMode::IZY, operation: Operation::ADC, cycles: 5 },
        0x75 => Instruction { name: "ADC", addrmode: AddressMode::ZPX, operation: Operation::ADC, cycles: 4 },
        0x76 => Instruction { name: "ROR", addrmode: AddressMode::ZPX, operation: Operation::ROR, cycles: 6 },
        0x78 => Instruction { name: "SEI", addrmode: AddressMode::IMP, operation: Operation::SEI, cycles: 2 },
        0x79 => Instruction { name: "ADC", addrmode: AddressMode::ABY, operation: Operation::ADC, cycles: 4 },
        0x7D => Instruction { name: "ADC", addrmode: AddressMode::ABX, operation: Operation::ADC, cycles: 4 },
        0x7E => Instruction { name: "ROR", addrmode: AddressMode::ABX, operation: Operation::ROR, cycles: 7 },
        0x81 => Instruction { name: "STA", addrmode: AddressMode::IZX, operation: Operation::STA, cycles: 6 },
        0x84 => Instruction { name: "STY", addrmode: AddressMode::ZP0, operation: Operation::STY, cycles: 3 },
        0x85 => Instruction { name: "STA", addrmode: AddressMode::ZP0, operation: Operation::STA, cycles: 3 },
        0x86 => Instruction { name: "STX", addrmode: AddressMode::ZP0, operation: Operation::STX, cycles: 3 },
        0x88 => Instruction { name: "DEY", addrmode: AddressMode::IMP, operation: Operation::DEY, cycles: 2 },
        0x8A => Instruction { name: "TXA", addrmode: AddressMode::IMP, operation: Operation::TXA, cycles: 2 },
        0x8C => Instruction { name: "STY", addrmode: AddressMode::ABS, operation: Operation::STY, cycles: 4 },
        0x8D => Instruction { name: "STA", addrmode: AddressMode::ABS, operation: Operation::STA, cycles: 4 },
        0x8E => Instruction { name: "STX", addrmode: AddressMode::ABS, operation: Operation::STX, cycles: 4 },
        0x90 => Instruction { name: "BCC", addrmode: AddressMode::REL, operation: Operation::BCC, cycles: 2 },
        0x91 => Instruction { name: "STA", addrmode: AddressMode::IZY, operation: Operation::STA, cycles: 6 },
        0x94 => Instruction { name: "STY", addrmode: AddressMode::ZPX, operation: Operation::STY, cycles: 4 },
        0x95 => Instruction { name: "STA", addrmode: AddressMode::ZPX, operation: Operation::STA, cycles: 4 },
        0x96 => Instruction { name: "STX", addrmode: AddressMode::ZPY, operation: Operation::STX, cycles: 4 },
        0x98 => Instruction { name: "TYA", addrmode: AddressMode::IMP, operation: Operation::TYA, cycles: 2 },
        0x99 => Instruction { name: "STA", addrmode: AddressMode::ABY, operation: Operation::STA, cycles: 5 },
        0x9A => Instruction { name: "TXS", addrmode: AddressMode::IMP, operation: Operation::TXS, cycles: 2 },
        0x9D => Instruction { name: "STA", addrmode: AddressMode::ABX, operation: Operation::STA, cycles: 5 },
        0xA0 => Instruction { name: "LDY", addrmode: AddressMode::IMM, operation: Operation::LDY, cycles: 2 },
        0xA1 => Instruction { name: "LDA", addrmode: AddressMode::IZX, operation: Operation::LDA, cycles: 6 },
        0xA2 => Instruction { name: "LDX", addrmode: AddressMode::IMM, operation: Operation::LDX, cycles: 2 },
        0xA4 => Instruction { name: "LDY", addrmode: AddressMode::ZP0, operation: Operation::LDY, cycles: 3 },
        0xA5 => Instruction { name: "LDA", addrmode: AddressMode::ZP0, operation: Operation::LDA, cycles: 3 },
        0xA6 => Instruction { name: "LDX", addrmode: AddressMode::ZP0, operation: Operation::LDX, cycles: 3 },
        0xA8 => Instruction { name: "TAY", addrmode: AddressMode::IMP, operation: Operation::TAY, cycles: 2 },
        0xA9 => Instruction { name: "LDA", addrmode: AddressMode::IMM, operation: Operation::LDA, cycles: 2 },
        0xAA => Instruction { name: "TAX", addrmode: AddressMode::IMP, operation: Operation::TAX, cycles: 2 },
        0xAC => Instruction { name: "LDY", addrmode: AddressMode::ABS, operation: Operation::LDY, cycles: 4 },
        0xAD => Instruction { name: "LDA", addrmode: AddressMode::ABS, operation: Operation::LDA, cycles: 4 },
        0xAE => Instruction { name: "LDX", addrmode: AddressMode::ABS, operation: Operation::LDX, cycles: 4 },
        0xB0 => Instruction { name: "BCS", addrmode: AddressMode::REL, operation: Operation::BCS, cycles: 2 },
        0xB1 => Instruction { name: "LDA", addrmode: AddressMode::IZY, operation: Operation::LDA, cycles: 5 },
        0xB4 => Instruction { name: "LDY", addrmode: AddressMode::ZPX, operation: Operation::LDY, cycles: 4 },
        0xB5 => Instruction { name: "LDA", addrmode: AddressMode::ZPX, operation: Operation::LDA, cycles: 4 },
        0xB6 => Instruction { name: "LDX", addrmode: AddressMode::ZPY, operation: Operation::LDX, cycles: 4 },
        0xB8 => Instruction { name: "CLV", addrmode: AddressMode::IMP, operation: Operation::CLV, cycles: 2 },
        0xB9 => Instruction { name: "LDA", addrmode: AddressMode::ABY, operation: Operation::LDA, cycles: 4 },
        0xBA => Instruction { name: "TSX", addrmode: AddressMode::IMP, operation: Operation::TSX, cycles: 2 },
        0xBC => Instruction { name: "LDY", addrmode: AddressMode::ABX, operation: Operation::LDY, cycles: 4 },
        0xBD => Instruction { name: "LDA", addrmode: AddressMode::ABX, operation: Operation::LDA, cycles: 4 },
        0xBE => Instruction { name: "LDX", addrmode: AddressMode::ABY, operation: Operation::LDX, cycles: 4 },
        0xC0 => Instruction { name: "CPY", addrmode: AddressMode::IMM, operation: Operation::CPY, cycles: 2 },
        0xC1 => Instruction { name: "CMP", addrmode: AddressMode::IZX, operation: Operation::CMP, cycles: 6 },
        0xC4 => Instruction { name: "CPY", addrmode: AddressMode::ZP0, operation: Operation::CPY, cycles: 3 },
        0xC5 => Instruction { name: "CMP", addrmode: AddressMode::ZP0, operation: Operation::CMP, cycles: 3 },
        0xC6 => Instruction { name: "DEC", addrmode: AddressMode::ZP0, operation: Operation::DEC, cycles: 5 },
        0xC8 => Instruction { name: "INY", addrmode: AddressMode::IMP, operation: Operation::INY, cycles: 2 },
        0xC9 => Instruction { name: "CMP", addrmode: AddressMode::IMM, operation: Operation::CMP, cycles: 2 },
        0xCA => Instruction { name: "DEX", addrmode: AddressMode::IMP, operation: Operation::DEX, cycles: 2 },
        0xCC => Instruction { name: "CPY", addrmode: AddressMode::ABS, operation: Operation::CPY, cycles: 4 },
        0xCD => Instruction { name: "CMP", addrmode: AddressMode::ABS, operation: Operation::CMP, cycles: 4 },
        0xCE => Instruction { name: "DEC", addrmode: AddressMode::ABS, operation: Operation::DEC, cycles: 6 },
        0xD0 => Instruction { name: "BNE", addrmode: AddressMode::REL, operation: Operation::BNE, cycles: 2 },
        0xD1 => Instruction { name: "CMP", addrmode: AddressMode::IZY, operation: Operation::CMP, cycles: 5 },
        0xD5 => Instruction { name: "CMP", addrmode: AddressMode::ZPX, operation: Operation::CMP, cycles: 4 },
        0xD6 => Instruction { name: "DEC", addrmode: AddressMode::ZPX, operation: Operation::DEC, cycles: 6 },
        0xD8 => Instruction { name: "CLD", addrmode: AddressMode::IMP, operation: Operation::CLD, cycles: 2 },
        0xD9 => Instruction { name: "CMP", addrmode: AddressMode::ABY, operation: Operation::CMP, cycles: 4 },
        0xDD => Instruction { name: "CMP", addrmode: AddressMode::ABX, operation: Operation::CMP, cycles: 4 },
        0xDE => Instruction { name: "DEC", addrmode: AddressMode::ABX, operation: Operation::DEC, cycles: 7 },
        0xE0 => Instruction { name: "CPX", addrmode: AddressMode::IMM, operation: Operation::CPX, cycles: 2 },
        0xE1 => Instruction { name: "SBC", addrmode: AddressMode::IZX, operation: Operation::SBC, cycles: 6 },
        0xE4 => Instruction { name: "CPX", addrmode: AddressMode::ZP0, operation: Operation::CPX, cycles: 3 },
        0xE5 => Instruction { name: "SBC", addrmode: AddressMode::ZP0, operation: Operation::SBC, cycles: 3 },
        0xE6 => Instruction { name: "INC", addrmode: AddressMode::ZP0, operation: Operation::INC, cycles: 5 },
        0xE8 => Instruction { name: "INX", addrmode: AddressMode::IMP, operation: Operation::INX, cycles: 2 },
        0xE9 => Instruction { name: "SBC", addrmode: AddressMode::IMM, operation: Operation::SBC, cycles: 2 },
        0xEA => Instruction { name: "NOP", addrmode: AddressMode::IMP, operation: Operation::NOP, cycles: 2 },
        0xEC => Instruction { name: "CPX", addrmode: AddressMode::ABS, operation: Operation::CPX, cycles: 4 },
        0xED => Instruction { name: "SBC", addrmode: AddressMode::ABS, operation: Operation::SBC, cycles: 4 },
        0xEE => Instruction { name: "INC", addrmode: AddressMode::ABS, operation: Operation::INC, cycles: 6 },
        0xF0 => Instruction { name: "BEQ", addrmode: AddressMode::REL, operation: Operation::BEQ, cycles: 2 },
        0xF1 => Instruction { name: "SBC", addrmode: AddressMode::IZY, operation: Operation::SBC, cycles: 5 },
        0xF5 => Instruction { name: "SBC", addrmode: AddressMode::ZPX, operation: Operation::SBC, cycles: 4 },
        0xF6 => Instruction { name: "INC", addrmode: AddressMode::ZPX, operation: Operation::INC, cycles: 6 },
        0xF8 => Instruction { name: "SED", addrmode: AddressMode::IMP, operation: Operation::SED, cycles: 2 },
        0xF9 => Instruction { name: "SBC", addrmode: AddressMode::ABY, operation: Operation::SBC, cycles: 4 },
        0xFD => Instruction { name: "SBC", addrmode: AddressMode::ABX, operation: Operation::SBC, cycles: 4 },
        0xFE => Instruction { name: "INC", addrmode: AddressMode::ABX, operation: Operation::INC, cycles: 7 },
        _ => Instruction { name: "???", addrmode: AddressMode::IMP, operation: Operation::XXX, cycles: 2 },
    }
}

/// The whole instruction table, one entry per opcode byte.
pub fn build_lookup() -> (table: [Instruction; 256])
    ensures
        forall|opcode: u8| #[trigger] table@[opcode as int] == decode(opcode),
{
    let mut table: [Instruction; 256] = [lookup(0xFF); 256];
    let mut opcode: u8 = 0;
    while opcode < 0xFF
        invariant
            table@[0xFF] == decode(0xFF),
            forall|done: u8| done < opcode ==> #[trigger] table@[done as int] == decode(done),
        decreases 0xFF - opcode,
    {
        table[opcode as usize] = lookup(opcode);
        opcode += 1;
    }
    table
}

} // verus!
