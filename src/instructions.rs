use vstd::prelude::*;

verus! {

/// How an instruction finds its operand.
#[allow(non_camel_case_types)]
#[derive(Clone, Copy, Debug, PartialEq, Eq, Structural)]
pub enum AddressingMode {
    /// Absolute: a 16-bit operand address.
    ABS,
    /// Absolute indexed by X.
    ABX,
    /// Absolute indexed by Y.
    ABY,
    /// The accumulator is the operand.
    ACC,
    /// Immediate: the operand byte follows the opcode.
    IMM,
    /// Implied: no operand.
    IMP,
    /// Indirect through a 16-bit pointer, with the page-wrap quirk.
    IND,
    /// Zero-page pointer indexed by X.
    IZX,
    /// Zero-page pointer, then indexed by Y.
    IZY,
    /// Signed 8-bit branch offset.
    REL,
    /// Zero page.
    ZP0,
    /// Zero page indexed by X.
    ZPX,
    /// Zero page indexed by Y.
    ZPY,
}

/// The 56 documented mnemonics, and `ERR` for every undocumented opcode.
#[derive(Clone, Copy, Debug, PartialEq, Eq, Structural)]
pub enum Opcode {
    ADC,
    AND,
    ASL,
    BCC,
    BCS,
    BEQ,
    BIT,
    BMI,
    BNE,
    BPL,
    BRK,
    BVC,
    BVS,
    CLC,
    CLD,
    CLI,
    CLV,
    CMP,
    CPX,
    CPY,
    DEC,
    DEX,
    DEY,
    EOR,
    ERR,
    INC,
    INX,
    INY,
    JMP,
    JSR,
    LDA,
    LDX,
    LDY,
    LSR,
    NOP,
    ORA,
    PHA,
    PHP,
    PLA,
    PLP,
    ROL,
    ROR,
    RTI,
    RTS,
    SBC,
    SEC,
    SED,
    SEI,
    STA,
    STX,
    STY,
    TAX,
    TAY,
    TSX,
    TXA,
    TXS,
    TYA,
}

/// One entry of the decode table: what to do, where the operand is, and the
/// base number of cycles.
#[derive(Clone, Copy, Debug, PartialEq, Eq, Structural)]
pub struct Instruction {
    pub opcode: Opcode,
    pub mode: AddressingMode,
    pub cycles: u8,
}

pub open spec fn ins(opcode: Opcode, mode: AddressingMode, cycles: u8) -> Instruction {
    Instruction { opcode, mode, cycles }
}

/// The decode table of all 256 opcode bytes.
pub open spec fn decode(code: u8) -> Instruction {
    match code {
        0x00 => ins(Opcode::BRK, AddressingMode::IMP, 7),
        0x01 => ins(Opcode::ORA, AddressingMode::IZX, 6),
        0x02 => ins(Opcode::ERR, AddressingMode::IMP, 2),
        0x03 => ins(Opcode::ERR, AddressingMode::IMP, 8),
        0x04 => ins(Opcode::ERR, AddressingMode::IMP, 3),
        0x05 => ins(Opcode::ORA, AddressingMode::ZP0, 3),
        0x06 => ins(Opcode::ASL, AddressingMode::ZP0, 5),
        0x07 => ins(Opcode::ERR, AddressingMode::IMP, 5),
        0x08 => ins(Opcode::PHP, AddressingMode::IMP, 3),
        0x09 => ins(Opcode::ORA, AddressingMode::IMM, 2),
        0x0A => ins(Opcode::ASL, AddressingMode::ACC, 2),
        0x0B => ins(Opcode::ERR, AddressingMode::IMP, 2),
        0x0C => ins(Opcode::ERR, AddressingMode::IMP, 4),
        0x0D => ins(Opcode::ORA, AddressingMode::ABS, 4),
        0x0E => ins(Opcode::ASL, AddressingMode::ABS, 6),
        0x0F => ins(Opcode::ERR, AddressingMode::IMP, 6),
        0x10 => ins(Opcode::BPL, AddressingMode::REL, 2),
        0x11 => ins(Opcode::ORA, AddressingMode::IZY, 5),
        0x12 => ins(Opcode::ERR, AddressingMode::IMP, 2),
        0x13 => ins(Opcode::ERR, AddressingMode::IMP, 8),
        0x14 => ins(Opcode::ERR, AddressingMode::IMP, 4),
        0x15 => ins(Opcode::ORA, AddressingMode::ZPX, 4),
        0x16 => ins(Opcode::ASL, AddressingMode::ZPX, 6),
        0x17 => ins(Opcode::ERR, AddressingMode::IMP, 6),
        0x18 => ins(Opcode::CLC, AddressingMode::IMP, 2),
        0x19 => ins(Opcode::ORA, AddressingMode::ABY, 4),
        0x1A => ins(Opcode::ERR, AddressingMode::IMP, 2),
        0x1B => ins(Opcode::ERR, AddressingMode::IMP, 7),
        0x1C => ins(Opcode::ERR, AddressingMode::IMP, 4),
        0x1D => ins(Opcode::ORA, AddressingMode::ABX, 4),
        0x1E => ins(Opcode::ASL, AddressingMode::ABX, 7),
        0x1F => ins(Opcode::ERR, AddressingMode::IMP, 7),
        0x20 => ins(Opcode::JSR, AddressingMode::ABS, 6),
        0x21 => ins(Opcode::AND, AddressingMode::IZX, 6),
        0x22 => ins(Opcode::ERR, AddressingMode::IMP, 2),
        0x23 => ins(Opcode::ERR, AddressingMode::IMP, 8),
        0x24 => ins(Opcode::BIT, AddressingMode::ZP0, 3),
        0x25 => ins(Opcode::AND, AddressingMode::ZP0, 3),
        0x26 => ins(Opcode::ROL, AddressingMode::ZP0, 5),
        0x27 => ins(Opcode::ERR, AddressingMode::IMP, 5),
        0x28 => ins(Opcode::PLP, AddressingMode::IMP, 4),
        0x29 => ins(Opcode::AND, AddressingMode::IMM, 2),
        0x2A => ins(Opcode::ROL, AddressingMode::ACC, 2),
        0x2B => ins(Opcode::ERR, AddressingMode::IMP, 2),
        0x2C => ins(Opcode::BIT, AddressingMode::ABS, 4),
        0x2D => ins(Opcode::AND, AddressingMode::ABS, 4),
        0x2E => ins(Opcode::ROL, AddressingMode::ABS, 6),
        0x2F => ins(Opcode::ERR, AddressingMode::IMP, 6),
        0x30 => ins(Opcode::BMI, AddressingMode::REL, 2),
        0x31 => ins(Opcode::AND, AddressingMode::IZY, 5),
        0x32 => ins(Opcode::ERR, AddressingMode::IMP, 2),
        0x33 => ins(Opcode::ERR, AddressingMode::IMP, 8),
        0x34 => ins(Opcode::ERR, AddressingMode::IMP, 4),
        0x35 => ins(Opcode::AND, AddressingMode::ZPX, 4),
        0x36 => ins(Opcode::ROL, AddressingMode::ZPX, 6),
        0x37 => ins(Opcode::ERR, AddressingMode::IMP, 6),
        0x38 => ins(Opcode::SEC, AddressingMode::IMP, 2),
        0x39 => ins(Opcode::AND, AddressingMode::ABY, 4),
        0x3A => ins(Opcode::ERR, AddressingMode::IMP, 2),
        0x3B => ins(Opcode::ERR, AddressingMode::IMP, 7),
        0x3C => ins(Opcode::ERR, AddressingMode::IMP, 4),
        0x3D => ins(Opcode::AND, AddressingMode::ABX, 4),
        0x3E => ins(Opcode::ROL, AddressingMode::ABX, 7),
        0x3F => ins(Opcode::ERR, AddressingMode::IMP, 7),
        0x40 => ins(Opcode::RTI, AddressingMode::IMP, 6),
        0x41 => ins(Opcode::EOR, AddressingMode::IZX, 6),
        0x42 => ins(Opcode::ERR, AddressingMode::IMP, 2),
        0x43 => ins(Opcode::ERR, AddressingMode::IMP, 8),
        0x44 => ins(Opcode::ERR, AddressingMode::IMP, 3),
        0x45 => ins(Opcode::EOR, AddressingMode::ZP0, 3),
        0x46 => ins(Opcode::LSR, AddressingMode::ZP0, 5),
        0x47 => ins(Opcode::ERR, AddressingMode::IMP, 5),
        0x48 => ins(Opcode::PHA, AddressingMode::IMP, 3),
        0x49 => ins(Opcode::EOR, AddressingMode::IMM, 2),
        0x4A => ins(Opcode::LSR, AddressingMode::ACC, 2),
        0x4B => ins(Opcode::ERR, AddressingMode::IMP, 2),
        0x4C => ins(Opcode::JMP, AddressingMode::ABS, 3),
        0x4D => ins(Opcode::EOR, AddressingMode::ABS, 4),
        0x4E => ins(Opcode::LSR, AddressingMode::ABS, 6),
        0x4F => ins(Opcode::ERR, AddressingMode::IMP, 6),
        0x50 => ins(Opcode::BVC, AddressingMode::REL, 2),
        0x51 => ins(Opcode::EOR, AddressingMode::IZY, 5),
        0x52 => ins(Opcode::ERR, AddressingMode::IMP, 2),
        0x53 => ins(Opcode::ERR, AddressingMode::IMP, 8),
        0x54 => ins(Opcode::ERR, AddressingMode::IMP, 4),
        0x55 => ins(Opcode::EOR, AddressingMode::ZPX, 4),
        0x56 => ins(Opcode::LSR, AddressingMode::ZPX, 6),
        0x57 => ins(Opcode::ERR, AddressingMode::IMP, 6),
        0x58 => ins(Opcode::CLI, AddressingMode::IMP, 2),
        0x59 => ins(Opcode::EOR, AddressingMode::ABY, 4),
        0x5A => ins(Opcode::ERR, AddressingMode::IMP, 2),
        0x5B => ins(Opcode::ERR, AddressingMode::IMP, 7),
        0x5C => ins(Opcode::ERR, AddressingMode::IMP, 4),
        0x5D => ins(Opcode::EOR, AddressingMode::ABX, 4),
        0x5E => ins(Opcode::LSR, AddressingMode::ABX, 7),
        0x5F => ins(Opcode::ERR, AddressingMode::IMP, 7),
        0x60 => ins(Opcode::RTS, AddressingMode::IMP, 6),
        0x61 => ins(Opcode::ADC, AddressingMode::IZX, 6),
        0x62 => ins(Opcode::ERR, AddressingMode::IMP, 2),
        0x63 => ins(Opcode::ERR, AddressingMode::IMP, 8),
        0x64 => ins(Opcode::ERR, AddressingMode::IMP, 3),
        0x65 => ins(Opcode::ADC, AddressingMode::ZP0, 3),
        0x66 => ins(Opcode::ROR, AddressingMode::ZP0, 5),
        0x67 => ins(Opcode::ERR, AddressingMode::IMP, 5),
        0x68 => ins(Opcode::PLA, AddressingMode::IMP, 4),
        0x69 => ins(Opcode::ADC, AddressingMode::IMM, 2),
        0x6A => ins(Opcode::ROR, AddressingMode::ACC, 2),
        0x6B => ins(Opcode::ERR, AddressingMode::IMP, 2),
        0x6C => ins(Opcode::JMP, AddressingMode::IND, 5),
        0x6D => ins(Opcode::ADC, AddressingMode::ABS, 4),
        0x6E => ins(Opcode::ROR, AddressingMode::ABS, 6),
        0x6F => ins(Opcode::ERR, AddressingMode::IMP, 6),
        0x70 => ins(Opcode::BVS, AddressingMode::REL, 2),
        0x71 => ins(Opcode::ADC, AddressingMode::IZY, 5),
        0x72 => ins(Opcode::ERR, AddressingMode::IMP, 2),
        0x73 => ins(Opcode::ERR, AddressingMode::IMP, 8),
        0x74 => ins(Opcode::ERR, AddressingMode::IMP, 4),
        0x75 => ins(Opcode::ADC, AddressingMode::ZPX, 4),
        0x76 => ins(Opcode::ROR, AddressingMode::ZPX, 6),
        0x77 => ins(Opcode::ERR, AddressingMode::IMP, 6),
        0x78 => ins(Opcode::SEI, AddressingMode::IMP, 2),
        0x79 => ins(Opcode::ADC, AddressingMode::ABY, 4),
        0x7A => ins(Opcode::ERR, AddressingMode::IMP, 2),
        0x7B => ins(Opcode::ERR, AddressingMode::IMP, 7),
        0x7C => ins(Opcode::ERR, AddressingMode::IMP, 4),
        0x7D => ins(Opcode::ADC, AddressingMode::ABX, 4),
        0x7E => ins(Opcode::ROR, AddressingMode::ABX, 7),
        0x7F => ins(Opcode::ERR, AddressingMode::IMP, 7),
        0x80 => ins(Opcode::ERR, AddressingMode::IMP, 2),
        0x81 => ins(Opcode::STA, AddressingMode::IZX, 6),
        0x82 => ins(Opcode::ERR, AddressingMode::IMP, 2),
        0x83 => ins(Opcode::ERR, AddressingMode::IMP, 6),
        0x84 => ins(Opcode::STY, AddressingMode::ZP0, 3),
        0x85 => ins(Opcode::STA, AddressingMode::ZP0, 3),
        0x86 => ins(Opcode::STX, AddressingMode::ZP0, 3),
        0x87 => ins(Opcode::ERR, AddressingMode::IMP, 3),
        0x88 => ins(Opcode::DEY, AddressingMode::IMP, 2),
        0x89 => ins(Opcode::ERR, AddressingMode::IMP, 2),
        0x8A => ins(Opcode::TXA, AddressingMode::IMP, 2),
        0x8B => ins(Opcode::ERR, AddressingMode::IMP, 2),
        0x8C => ins(Opcode::STY, AddressingMode::ABS, 4),
        0x8D => ins(Opcode::STA, AddressingMode::ABS, 4),
        0x8E => ins(Opcode::STX, AddressingMode::ABS, 4),
        0x8F => ins(Opcode::ERR, AddressingMode::IMP, 4),
        0x90 => ins(Opcode::BCC, AddressingMode::REL, 2),
        0x91 => ins(Opcode::STA, AddressingMode::IZY, 6),
        0x92 => ins(Opcode::ERR, AddressingMode::IMP, 2),
        0x93 => ins(Opcode::ERR, AddressingMode::IMP, 6),
        0x94 => ins(Opcode::STY, AddressingMode::ZPX, 4),
        0x95 => ins(Opcode::STA, AddressingMode::ZPX, 4),
        0x96 => ins(Opcode::STX, AddressingMode::ZPY, 4),
        0x97 => ins(Opcode::ERR, AddressingMode::IMP, 4),
        0x98 => ins(Opcode::TYA, AddressingMode::IMP, 2),
        0x99 => ins(Opcode::STA, AddressingMode::ABY, 5),
        0x9A => ins(Opcode::TXS, AddressingMode::IMP, 2),
        0x9B => ins(Opcode::ERR, AddressingMode::IMP, 5),
        0x9C => ins(Opcode::ERR, AddressingMode::IMP, 5),
        0x9D => ins(Opcode::STA, AddressingMode::ABX, 5),
        0x9E => ins(Opcode::ERR, AddressingMode::IMP, 5),
        0x9F => ins(Opcode::ERR, AddressingMode::IMP, 5),
        0xA0 => ins(Opcode::LDY, AddressingMode::IMM, 2),
        0xA1 => ins(Opcode::LDA, AddressingMode::IZX, 6),
        0xA2 => ins(Opcode::LDX, AddressingMode::IMM, 2),
        0xA3 => ins(Opcode::ERR, AddressingMode::IMP, 6),
        0xA4 => ins(Opcode::LDY, AddressingMode::ZP0, 3),
        0xA5 => ins(Opcode::LDA, AddressingMode::ZP0, 3),
        0xA6 => ins(Opcode::LDX, AddressingMode::ZP0, 3),
        0xA7 => ins(Opcode::ERR, AddressingMode::IMP, 3),
        0xA8 => ins(Opcode::TAY, AddressingMode::IMP, 2),
        0xA9 => ins(Opcode::LDA, AddressingMode::IMM, 2),
        0xAA => ins(Opcode::TAX, AddressingMode::IMP, 2),
        0xAB => ins(Opcode::ERR, AddressingMode::IMP, 2),
        0xAC => ins(Opcode::LDY, AddressingMode::ABS, 4),
        0xAD => ins(Opcode::LDA, AddressingMode::ABS, 4),
        0xAE => ins(Opcode::LDX, AddressingMode::ABS, 4),
        0xAF => ins(Opcode::ERR, AddressingMode::IMP, 4),
        0xB0 => ins(Opcode::BCS, AddressingMode::REL, 2),
        0xB1 => ins(Opcode::LDA, AddressingMode::IZY, 5),
        0xB2 => ins(Opcode::ERR, AddressingMode::IMP, 2),
        0xB3 => ins(Opcode::ERR, AddressingMode::IMP, 5),
        0xB4 => ins(Opcode::LDY, AddressingMode::ZPX, 4),
        0xB5 => ins(Opcode::LDA, AddressingMode::ZPX, 4),
        0xB6 => ins(Opcode::LDX, AddressingMode::ZPY, 4),
        0xB7 => ins(Opcode::ERR, AddressingMode::IMP, 4),
        0xB8 => ins(Opcode::CLV, AddressingMode::IMP, 2),
        0xB9 => ins(Opcode::LDA, AddressingMode::ABY, 4),
        0xBA => ins(Opcode::TSX, AddressingMode::IMP, 2),
        0xBB => ins(Opcode::ERR, AddressingMode::IMP, 4),
        0xBC => ins(Opcode::LDY, AddressingMode::ABX, 4),
        0xBD => ins(Opcode::LDA, AddressingMode::ABX, 4),
        0xBE => ins(Opcode::LDX, AddressingMode::ABY, 4),
        0xBF => ins(Opcode::ERR, AddressingMode::IMP, 4),
        0xC0 => ins(Opcode::CPY, AddressingMode::IMM, 2),
        0xC1 => ins(Opcode::CMP, AddressingMode::IZX, 6),
        0xC2 => ins(Opcode::ERR, AddressingMode::IMP, 2),
        0xC3 => ins(Opcode::ERR, AddressingMode::IMP, 8),
        0xC4 => ins(Opcode::CPY, AddressingMode::ZP0, 3),
        0xC5 => ins(Opcode::CMP, AddressingMode::ZP0, 3),
        0xC6 => ins(Opcode::DEC, AddressingMode::ZP0, 5),
        0xC7 => ins(Opcode::ERR, AddressingMode::IMP, 5),
        0xC8 => ins(Opcode::INY, AddressingMode::IMP, 2),
        0xC9 => ins(Opcode::CMP, AddressingMode::IMM, 2),
        0xCA => ins(Opcode::DEX, AddressingMode::IMP, 2),
        0xCB => ins(Opcode::ERR, AddressingMode::IMP, 2),
        0xCC => ins(Opcode::CPY, AddressingMode::ABS, 4),
        0xCD => ins(Opcode::CMP, AddressingMode::ABS, 4),
        0xCE => ins(Opcode::DEC, AddressingMode::ABS, 6),
        0xCF => ins(Opcode::ERR, AddressingMode::IMP, 6),
        0xD0 => ins(Opcode::BNE, AddressingMode::REL, 2),
        0xD1 => ins(Opcode::CMP, AddressingMode::IZY, 5),
        0xD2 => ins(Opcode::ERR, AddressingMode::IMP, 2),
        0xD3 => ins(Opcode::ERR, AddressingMode::IMP, 8),
        0xD4 => ins(Opcode::ERR, AddressingMode::IMP, 4),
        0xD5 => ins(Opcode::CMP, AddressingMode::ZPX, 4),
        0xD6 => ins(Opcode::DEC, AddressingMode::ZPX, 6),
        0xD7 => ins(Opcode::ERR, AddressingMode::IMP, 6),
        0xD8 => ins(Opcode::CLD, AddressingMode::IMP, 2),
        0xD9 => ins(Opcode::CMP, AddressingMode::ABY, 4),
        0xDA => ins(Opcode::NOP, AddressingMode::IMP, 2),
        0xDB => ins(Opcode::ERR, AddressingMode::IMP, 7),
        0xDC => ins(Opcode::ERR, AddressingMode::IMP, 4),
        0xDD => ins(Opcode::CMP, AddressingMode::ABX, 4),
        0xDE => ins(Opcode::DEC, AddressingMode::ABX, 7),
        0xDF => ins(Opcode::ERR, AddressingMode::IMP, 7),
        0xE0 => ins(Opcode::CPX, AddressingMode::IMM, 2),
        0xE1 => ins(Opcode::SBC, AddressingMode::IZX, 6),
        0xE2 => ins(Opcode::ERR, AddressingMode::IMP, 2),
        0xE3 => ins(Opcode::ERR, AddressingMode::IMP, 8),
        0xE4 => ins(Opcode::CPX, AddressingMode::ZP0, 3),
        0xE5 => ins(Opcode::SBC, AddressingMode::ZP0, 3),
        0xE6 => ins(Opcode::INC, AddressingMode::ZP0, 5),
        0xE7 => ins(Opcode::ERR, AddressingMode::IMP, 5),
        0xE8 => ins(Opcode::INX, AddressingMode::IMP, 2),
        0xE9 => ins(Opcode::SBC, AddressingMode::IMM, 2),
        0xEA => ins(Opcode::NOP, AddressingMode::IMP, 2),
        0xEB => ins(Opcode::ERR, AddressingMode::IMP, 2),
        0xEC => ins(Opcode::CPX, AddressingMode::ABS, 4),
        0xED => ins(Opcode::SBC, AddressingMode::ABS, 4),
        0xEE => ins(Opcode::INC, AddressingMode::ABS, 6),
        0xEF => ins(Opcode::ERR, AddressingMode::IMP, 6),
        0xF0 => ins(Opcode::BEQ, AddressingMode::REL, 2),
        0xF1 => ins(Opcode::SBC, AddressingMode::IZY, 5),
        0xF2 => ins(Opcode::ERR, AddressingMode::IMP, 2),
        0xF3 => ins(Opcode::ERR, AddressingMode::IMP, 8),
        0xF4 => ins(Opcode::ERR, AddressingMode::IMP, 4),
        0xF5 => ins(Opcode::SBC, AddressingMode::ZPX, 4),
        0xF6 => ins(Opcode::INC, AddressingMode::ZPX, 6),
        0xF7 => ins(Opcode::ERR, AddressingMode::IMP, 6),
        0xF8 => ins(Opcode::SED, AddressingMode::IMP, 2),
        0xF9 => ins(Opcode::SBC, AddressingMode::ABY, 4),
        0xFA => ins(Opcode::NOP, AddressingMode::IMP, 2),
        0xFB => ins(Opcode::ERR, AddressingMode::IMP, 7),
        0xFC => ins(Opcode::ERR, AddressingMode::IMP, 4),
        0xFD => ins(Opcode::SBC, AddressingMode::ABX, 4),
        0xFE => ins(Opcode::INC, AddressingMode::ABX, 7),
        _ => ins(Opcode::ERR, AddressingMode::IMP, 7),
    }
}

/// Every opcode byte decodes to an instruction that takes at least two cycles.
pub proof fn lemma_decode_cycles(code: u8)
    ensures
        2 <= decode(code).cycles <= 8,
{
}

/// Branches are the relative-mode entries, so no entry takes both a branch
/// and a page-crossing cycle; instructions on registers alone are implied.
pub proof fn lemma_decode_branches(code: u8)
    ensures
        (decode(code).opcode == Opcode::BCC || decode(code).opcode == Opcode::BCS
            || decode(code).opcode == Opcode::BEQ || decode(code).opcode == Opcode::BNE
            || decode(code).opcode == Opcode::BMI || decode(code).opcode == Opcode::BPL
            || decode(code).opcode == Opcode::BVC || decode(code).opcode == Opcode::BVS)
            ==> decode(code).mode == AddressingMode::REL,
        (decode(code).opcode == Opcode::TAX || decode(code).opcode == Opcode::TAY
            || decode(code).opcode == Opcode::TXA || decode(code).opcode == Opcode::TYA
            || decode(code).opcode == Opcode::TSX || decode(code).opcode == Opcode::TXS
            || decode(code).opcode == Opcode::INX || decode(code).opcode == Opcode::INY
            || decode(code).opcode == Opcode::DEX || decode(code).opcode == Opcode::DEY
            || decode(code).opcode == Opcode::CLC || decode(code).opcode == Opcode::SEC
            || decode(code).opcode == Opcode::CLD || decode(code).opcode == Opcode::SED
            || decode(code).opcode == Opcode::CLI || decode(code).opcode == Opcode::SEI
            || decode(code).opcode == Opcode::CLV || decode(code).opcode == Opcode::NOP
            || decode(code).opcode == Opcode::ERR) ==> decode(code).mode == AddressingMode::IMP,
{
}

/// Looks up an opcode byte in the decode table.
pub fn instruction_lookup(code: u8) -> (r: Instruction)
    ensures
        r == decode(code),
        r.cycles >= 2,
{
    let (opcode, mode, cycles) = match code {
        0x00 => (Opcode::BRK, AddressingMode::IMP, 7u8),
        0x01 => (Opcode::ORA, AddressingMode::IZX, 6u8),
        0x02 => (Opcode::ERR, AddressingMode::IMP, 2u8),
        0x03 => (Opcode::ERR, AddressingMode::IMP, 8u8),
        0x04 => (Opcode::ERR, AddressingMode::IMP, 3u8),
        0x05 => (Opcode::ORA, AddressingMode::ZP0, 3u8),
        0x06 => (Opcode::ASL, AddressingMode::ZP0, 5u8),
        0x07 => (Opcode::ERR, AddressingMode::IMP, 5u8),
        0x08 => (Opcode::PHP, AddressingMode::IMP, 3u8),
        0x09 => (Opcode::ORA, AddressingMode::IMM, 2u8),
        0x0A => (Opcode::ASL, AddressingMode::ACC, 2u8),
        0x0B => (Opcode::ERR, AddressingMode::IMP, 2u8),
        0x0C => (Opcode::ERR, AddressingMode::IMP, 4u8),
        0x0D => (Opcode::ORA, AddressingMode::ABS, 4u8),
        0x0E => (Opcode::ASL, AddressingMode::ABS, 6u8),
        0x0F => (Opcode::ERR, AddressingMode::IMP, 6u8),
        0x10 => (Opcode::BPL, AddressingMode::REL, 2u8),
        0x11 => (Opcode::ORA, AddressingMode::IZY, 5u8),
        0x12 => (Opcode::ERR, AddressingMode::IMP, 2u8),
        0x13 => (Opcode::ERR, AddressingMode::IMP, 8u8),
        0x14 => (Opcode::ERR, AddressingMode::IMP, 4u8),
        0x15 => (Opcode::ORA, AddressingMode::ZPX, 4u8),
        0x16 => (Opcode::ASL, AddressingMode::ZPX, 6u8),
        0x17 => (Opcode::ERR, AddressingMode::IMP, 6u8),
        0x18 => (Opcode::CLC, AddressingMode::IMP, 2u8),
        0x19 => (Opcode::ORA, AddressingMode::ABY, 4u8),
        0x1A => (Opcode::ERR, AddressingMode::IMP, 2u8),
        0x1B => (Opcode::ERR, AddressingMode::IMP, 7u8),
        0x1C => (Opcode::ERR, AddressingMode::IMP, 4u8),
        0x1D => (Opcode::ORA, AddressingMode::ABX, 4u8),
        0x1E => (Opcode::ASL, AddressingMode::ABX, 7u8),
        0x1F => (Opcode::ERR, AddressingMode::IMP, 7u8),
        0x20 => (Opcode::JSR, AddressingMode::ABS, 6u8),
        0x21 => (Opcode::AND, AddressingMode::IZX, 6u8),
        0x22 => (Opcode::ERR, AddressingMode::IMP, 2u8),
        0x23 => (Opcode::ERR, AddressingMode::IMP, 8u8),
        0x24 => (Opcode::BIT, AddressingMode::ZP0, 3u8),
        0x25 => (Opcode::AND, AddressingMode::ZP0, 3u8),
        0x26 => (Opcode::ROL, AddressingMode::ZP0, 5u8),
        0x27 => (Opcode::ERR, AddressingMode::IMP, 5u8),
        0x28 => (Opcode::PLP, AddressingMode::IMP, 4u8),
        0x29 => (Opcode::AND, AddressingMode::IMM, 2u8),
        0x2A => (Opcode::ROL, AddressingMode::ACC, 2u8),
        0x2B => (Opcode::ERR, AddressingMode::IMP, 2u8),
        0x2C => (Opcode::BIT, AddressingMode::ABS, 4u8),
        0x2D => (Opcode::AND, AddressingMode::ABS, 4u8),
        0x2E => (Opcode::ROL, AddressingMode::ABS, 6u8),
        0x2F => (Opcode::ERR, AddressingMode::IMP, 6u8),
        0x30 => (Opcode::BMI, AddressingMode::REL, 2u8),
        0x31 => (Opcode::AND, AddressingMode::IZY, 5u8),
        0x32 => (Opcode::ERR, AddressingMode::IMP, 2u8),
        0x33 => (Opcode::ERR, AddressingMode::IMP, 8u8),
        0x34 => (Opcode::ERR, AddressingMode::IMP, 4u8),
        0x35 => (Opcode::AND, AddressingMode::ZPX, 4u8),
        0x36 => (Opcode::ROL, AddressingMode::ZPX, 6u8),
        0x37 => (Opcode::ERR, AddressingMode::IMP, 6u8),
        0x38 => (Opcode::SEC, AddressingMode::IMP, 2u8),
        0x39 => (Opcode::AND, AddressingMode::ABY, 4u8),
        0x3A => (Opcode::ERR, AddressingMode::IMP, 2u8),
        0x3B => (Opcode::ERR, AddressingMode::IMP, 7u8),
        0x3C => (Opcode::ERR, AddressingMode::IMP, 4u8),
        0x3D => (Opcode::AND, AddressingMode::ABX, 4u8),
        0x3E => (Opcode::ROL, AddressingMode::ABX, 7u8),
        0x3F => (Opcode::ERR, AddressingMode::IMP, 7u8),
        0x40 => (Opcode::RTI, AddressingMode::IMP, 6u8),
        0x41 => (Opcode::EOR, AddressingMode::IZX, 6u8),
        0x42 => (Opcode::ERR, AddressingMode::IMP, 2u8),
        0x43 => (Opcode::ERR, AddressingMode::IMP, 8u8),
        0x44 => (Opcode::ERR, AddressingMode::IMP, 3u8),
        0x45 => (Opcode::EOR, AddressingMode::ZP0, 3u8),
        0x46 => (Opcode::LSR, AddressingMode::ZP0, 5u8),
        0x47 => (Opcode::ERR, AddressingMode::IMP, 5u8),
        0x48 => (Opcode::PHA, AddressingMode::IMP, 3u8),
        0x49 => (Opcode::EOR, AddressingMode::IMM, 2u8),
        0x4A => (Opcode::LSR, AddressingMode::ACC, 2u8),
        0x4B => (Opcode::ERR, AddressingMode::IMP, 2u8),
        0x4C => (Opcode::JMP, AddressingMode::ABS, 3u8),
        0x4D => (Opcode::EOR, AddressingMode::ABS, 4u8),
        0x4E => (Opcode::LSR, AddressingMode::ABS, 6u8),
        0x4F => (Opcode::ERR, AddressingMode::IMP, 6u8),
        0x50 => (Opcode::BVC, AddressingMode::REL, 2u8),
        0x51 => (Opcode::EOR, AddressingMode::IZY, 5u8),
        0x52 => (Opcode::ERR, AddressingMode::IMP, 2u8),
        0x53 => (Opcode::ERR, AddressingMode::IMP, 8u8),
        0x54 => (Opcode::ERR, AddressingMode::IMP, 4u8),
        0x55 => (Opcode::EOR, AddressingMode::ZPX, 4u8),
        0x56 => (Opcode::LSR, AddressingMode::ZPX, 6u8),
        0x57 => (Opcode::ERR, AddressingMode::IMP, 6u8),
        0x58 => (Opcode::CLI, AddressingMode::IMP, 2u8),
        0x59 => (Opcode::EOR, AddressingMode::ABY, 4u8),
        0x5A => (Opcode::ERR, AddressingMode::IMP, 2u8),
        0x5B => (Opcode::ERR, AddressingMode::IMP, 7u8),
        0x5C => (Opcode::ERR, AddressingMode::IMP, 4u8),
        0x5D => (Opcode::EOR, AddressingMode::ABX, 4u8),
        0x5E => (Opcode::LSR, AddressingMode::ABX, 7u8),
        0x5F => (Opcode::ERR, AddressingMode::IMP, 7u8),
        0x60 => (Opcode::RTS, AddressingMode::IMP, 6u8),
        0x61 => (Opcode::ADC, AddressingMode::IZX, 6u8),
        0x62 => (Opcode::ERR, AddressingMode::IMP, 2u8),
        0x63 => (Opcode::ERR, AddressingMode::IMP, 8u8),
        0x64 => (Opcode::ERR, AddressingMode::IMP, 3u8),
        0x65 => (Opcode::ADC, AddressingMode::ZP0, 3u8),
        0x66 => (Opcode::ROR, AddressingMode::ZP0, 5u8),
        0x67 => (Opcode::ERR, AddressingMode::IMP, 5u8),
        0x68 => (Opcode::PLA, AddressingMode::IMP, 4u8),
        0x69 => (Opcode::ADC, AddressingMode::IMM, 2u8),
        0x6A => (Opcode::ROR, AddressingMode::ACC, 2u8),
        0x6B => (Opcode::ERR, AddressingMode::IMP, 2u8),
        0x6C => (Opcode::JMP, AddressingMode::IND, 5u8),
        0x6D => (Opcode::ADC, AddressingMode::ABS, 4u8),
        0x6E => (Opcode::ROR, AddressingMode::ABS, 6u8),
        0x6F => (Opcode::ERR, AddressingMode::IMP, 6u8),
        0x70 => (Opcode::BVS, AddressingMode::REL, 2u8),
        0x71 => (Opcode::ADC, AddressingMode::IZY, 5u8),
        0x72 => (Opcode::ERR, AddressingMode::IMP, 2u8),
        0x73 => (Opcode::ERR, AddressingMode::IMP, 8u8),
        0x74 => (Opcode::ERR, AddressingMode::IMP, 4u8),
        0x75 => (Opcode::ADC, AddressingMode::ZPX, 4u8),
        0x76 => (Opcode::ROR, AddressingMode::ZPX, 6u8),
        0x77 => (Opcode::ERR, AddressingMode::IMP, 6u8),
        0x78 => (Opcode::SEI, AddressingMode::IMP, 2u8),
        0x79 => (Opcode::ADC, AddressingMode::ABY, 4u8),
        0x7A => (Opcode::ERR, AddressingMode::IMP, 2u8),
        0x7B => (Opcode::ERR, AddressingMode::IMP, 7u8),
        0x7C => (Opcode::ERR, AddressingMode::IMP, 4u8),
        0x7D => (Opcode::ADC, AddressingMode::ABX, 4u8),
        0x7E => (Opcode::ROR, AddressingMode::ABX, 7u8),
        0x7F => (Opcode::ERR, AddressingMode::IMP, 7u8),
        0x80 => (Opcode::ERR, AddressingMode::IMP, 2u8),
        0x81 => (Opcode::STA, AddressingMode::IZX, 6u8),
        0x82 => (Opcode::ERR, AddressingMode::IMP, 2u8),
        0x83 => (Opcode::ERR, AddressingMode::IMP, 6u8),
        0x84 => (Opcode::STY, AddressingMode::ZP0, 3u8),
        0x85 => (Opcode::STA, AddressingMode::ZP0, 3u8),
        0x86 => (Opcode::STX, AddressingMode::ZP0, 3u8),
        0x87 => (Opcode::ERR, AddressingMode::IMP, 3u8),
        0x88 => (Opcode::DEY, AddressingMode::IMP, 2u8),
        0x89 => (Opcode::ERR, AddressingMode::IMP, 2u8),
        0x8A => (Opcode::TXA, AddressingMode::IMP, 2u8),
        0x8B => (Opcode::ERR, AddressingMode::IMP, 2u8),
        0x8C => (Opcode::STY, AddressingMode::ABS, 4u8),
        0x8D => (Opcode::STA, AddressingMode::ABS, 4u8),
        0x8E => (Opcode::STX, AddressingMode::ABS, 4u8),
        0x8F => (Opcode::ERR, AddressingMode::IMP, 4u8),
        0x90 => (Opcode::BCC, AddressingMode::REL, 2u8),
        0x91 => (Opcode::STA, AddressingMode::IZY, 6u8),
        0x92 => (Opcode::ERR, AddressingMode::IMP, 2u8),
        0x93 => (Opcode::ERR, AddressingMode::IMP, 6u8),
        0x94 => (Opcode::STY, AddressingMode::ZPX, 4u8),
        0x95 => (Opcode::STA, AddressingMode::ZPX, 4u8),
        0x96 => (Opcode::STX, AddressingMode::ZPY, 4u8),
        0x97 => (Opcode::ERR, AddressingMode::IMP, 4u8),
        0x98 => (Opcode::TYA, AddressingMode::IMP, 2u8),
        0x99 => (Opcode::STA, AddressingMode::ABY, 5u8),
        0x9A => (Opcode::TXS, AddressingMode::IMP, 2u8),
        0x9B => (Opcode::ERR, AddressingMode::IMP, 5u8),
        0x9C => (Opcode::ERR, AddressingMode::IMP, 5u8),
        0x9D => (Opcode::STA, AddressingMode::ABX, 5u8),
        0x9E => (Opcode::ERR, AddressingMode::IMP, 5u8),
        0x9F => (Opcode::ERR, AddressingMode::IMP, 5u8),
        0xA0 => (Opcode::LDY, AddressingMode::IMM, 2u8),
        0xA1 => (Opcode::LDA, AddressingMode::IZX, 6u8),
        0xA2 => (Opcode::LDX, AddressingMode::IMM, 2u8),
        0xA3 => (Opcode::ERR, AddressingMode::IMP, 6u8),
        0xA4 => (Opcode::LDY, AddressingMode::ZP0, 3u8),
        0xA5 => (Opcode::LDA, AddressingMode::ZP0, 3u8),
        0xA6 => (Opcode::LDX, AddressingMode::ZP0, 3u8),
        0xA7 => (Opcode::ERR, AddressingMode::IMP, 3u8),
        0xA8 => (Opcode::TAY, AddressingMode::IMP, 2u8),
        0xA9 => (Opcode::LDA, AddressingMode::IMM, 2u8),
        0xAA => (Opcode::TAX, AddressingMode::IMP, 2u8),
        0xAB => (Opcode::ERR, AddressingMode::IMP, 2u8),
        0xAC => (Opcode::LDY, AddressingMode::ABS, 4u8),
        0xAD => (Opcode::LDA, AddressingMode::ABS, 4u8),
        0xAE => (Opcode::LDX, AddressingMode::ABS, 4u8),
        0xAF => (Opcode::ERR, AddressingMode::IMP, 4u8),
        0xB0 => (Opcode::BCS, AddressingMode::REL, 2u8),
        0xB1 => (Opcode::LDA, AddressingMode::IZY, 5u8),
        0xB2 => (Opcode::ERR, AddressingMode::IMP, 2u8),
        0xB3 => (Opcode::ERR, AddressingMode::IMP, 5u8),
        0xB4 => (Opcode::LDY, AddressingMode::ZPX, 4u8),
        0xB5 => (Opcode::LDA, AddressingMode::ZPX, 4u8),
        0xB6 => (Opcode::LDX, AddressingMode::ZPY, 4u8),
        0xB7 => (Opcode::ERR, AddressingMode::IMP, 4u8),
        0xB8 => (Opcode::CLV, AddressingMode::IMP, 2u8),
        0xB9 => (Opcode::LDA, AddressingMode::ABY, 4u8),
        0xBA => (Opcode::TSX, AddressingMode::IMP, 2u8),
        0xBB => (Opcode::ERR, AddressingMode::IMP, 4u8),
        0xBC => (Opcode::LDY, AddressingMode::ABX, 4u8),
        0xBD => (Opcode::LDA, AddressingMode::ABX, 4u8),
        0xBE => (Opcode::LDX, AddressingMode::ABY, 4u8),
        0xBF => (Opcode::ERR, AddressingMode::IMP, 4u8),
        0xC0 => (Opcode::CPY, AddressingMode::IMM, 2u8),
        0xC1 => (Opcode::CMP, AddressingMode::IZX, 6u8),
        0xC2 => (Opcode::ERR, AddressingMode::IMP, 2u8),
        0xC3 => (Opcode::ERR, AddressingMode::IMP, 8u8),
        0xC4 => (Opcode::CPY, AddressingMode::ZP0, 3u8),
        0xC5 => (Opcode::CMP, AddressingMode::ZP0, 3u8),
        0xC6 => (Opcode::DEC, AddressingMode::ZP0, 5u8),
        0xC7 => (Opcode::ERR, AddressingMode::IMP, 5u8),
        0xC8 => (Opcode::INY, AddressingMode::IMP, 2u8),
        0xC9 => (Opcode::CMP, AddressingMode::IMM, 2u8),
        0xCA => (Opcode::DEX, AddressingMode::IMP, 2u8),
        0xCB => (Opcode::ERR, AddressingMode::IMP, 2u8),
        0xCC => (Opcode::CPY, AddressingMode::ABS, 4u8),
        0xCD => (Opcode::CMP, AddressingMode::ABS, 4u8),
        0xCE => (Opcode::DEC, AddressingMode::ABS, 6u8),
        0xCF => (Opcode::ERR, AddressingMode::IMP, 6u8),
        0xD0 => (Opcode::BNE, AddressingMode::REL, 2u8),
        0xD1 => (Opcode::CMP, AddressingMode::IZY, 5u8),
        0xD2 => (Opcode::ERR, AddressingMode::IMP, 2u8),
        0xD3 => (Opcode::ERR, AddressingMode::IMP, 8u8),
        0xD4 => (Opcode::ERR, AddressingMode::IMP, 4u8),
        0xD5 => (Opcode::CMP, AddressingMode::ZPX, 4u8),
        0xD6 => (Opcode::DEC, AddressingMode::ZPX, 6u8),
        0xD7 => (Opcode::ERR, AddressingMode::IMP, 6u8),
        0xD8 => (Opcode::CLD, AddressingMode::IMP, 2u8),
        0xD9 => (Opcode::CMP, AddressingMode::ABY, 4u8),
        0xDA => (Opcode::NOP, AddressingMode::IMP, 2u8),
        0xDB => (Opcode::ERR, AddressingMode::IMP, 7u8),
        0xDC => (Opcode::ERR, AddressingMode::IMP, 4u8),
        0xDD => (Opcode::CMP, AddressingMode::ABX, 4u8),
        0xDE => (Opcode::DEC, AddressingMode::ABX, 7u8),
        0xDF => (Opcode::ERR, AddressingMode::IMP, 7u8),
        0xE0 => (Opcode::CPX, AddressingMode::IMM, 2u8),
        0xE1 => (Opcode::SBC, AddressingMode::IZX, 6u8),
        0xE2 => (Opcode::ERR, AddressingMode::IMP, 2u8),
        0xE3 => (Opcode::ERR, AddressingMode::IMP, 8u8),
        0xE4 => (Opcode::CPX, AddressingMode::ZP0, 3u8),
        0xE5 => (Opcode::SBC, AddressingMode::ZP0, 3u8),
        0xE6 => (Opcode::INC, AddressingMode::ZP0, 5u8),
        0xE7 => (Opcode::ERR, AddressingMode::IMP, 5u8),
        0xE8 => (Opcode::INX, AddressingMode::IMP, 2u8),
        0xE9 => (Opcode::SBC, AddressingMode::IMM, 2u8),
        0xEA => (Opcode::NOP, AddressingMode::IMP, 2u8),
        0xEB => (Opcode::ERR, AddressingMode::IMP, 2u8),
        0xEC => (Opcode::CPX, AddressingMode::ABS, 4u8),
        0xED => (Opcode::SBC, AddressingMode::ABS, 4u8),
        0xEE => (Opcode::INC, AddressingMode::ABS, 6u8),
        0xEF => (Opcode::ERR, AddressingMode::IMP, 6u8),
        0xF0 => (Opcode::BEQ, AddressingMode::REL, 2u8),
        0xF1 => (Opcode::SBC, AddressingMode::IZY, 5u8),
        0xF2 => (Opcode::ERR, AddressingMode::IMP, 2u8),
        0xF3 => (Opcode::ERR, AddressingMode::IMP, 8u8),
        0xF4 => (Opcode::ERR, AddressingMode::IMP, 4u8),
        0xF5 => (Opcode::SBC, AddressingMode::ZPX, 4u8),
        0xF6 => (Opcode::INC, AddressingMode::ZPX, 6u8),
        0xF7 => (Opcode::ERR, AddressingMode::IMP, 6u8),
        0xF8 => (Opcode::SED, AddressingMode::IMP, 2u8),
        0xF9 => (Opcode::SBC, AddressingMode::ABY, 4u8),
        0xFA => (Opcode::NOP, AddressingMode::IMP, 2u8),
        0xFB => (Opcode::ERR, AddressingMode::IMP, 7u8),
        0xFC => (Opcode::ERR, AddressingMode::IMP, 4u8),
        0xFD => (Opcode::SBC, AddressingMode::ABX, 4u8),
        0xFE => (Opcode::INC, AddressingMode::ABX, 7u8),
        _ => (Opcode::ERR, AddressingMode::IMP, 7u8),
    };
    Instruction { opcode, mode, cycles }
}

} // verus!
