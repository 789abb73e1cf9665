//! The opcode dispatch table: every opcode byte the CPU executes, mapped to
//! its mnemonic, addressing mode, instruction length in bytes and base cycle
//! count. The common undocumented instructions that shipped cartridges rely
//! on (DCP, ISB, LAX, RLA, RRA, SAX, SLO, SRE and the multi-byte NOPs) are
//! included; bytes with no entry fault as unknown opcodes.

use vstd::prelude::*;
use crate::cpu::AddressingMode;

verus! {

/// The instruction mnemonics of the dispatch table.
#[allow(missing_docs)]
#[derive(Clone, Copy, Debug, PartialEq, Eq, Structural)]
pub enum Mnemonic {
    ADC,
    AND,
    ASL,
    BCC,
    BCS,
    BEQ,
    BIT,
    BMI,
    BNE,
    BPL,
    BRK,
    BVC,
    BVS,
    CLC,
    CLD,
    CLI,
    CLV,
    CMP,
    CPX,
    CPY,
    DCP,
    DEC,
    DEX,
    DEY,
    EOR,
    INC,
    INX,
    INY,
    ISB,
    JMP,
    JSR,
    LAX,
    LDA,
    LDX,
    LDY,
    LSR,
    NOP,
    ORA,
    PHA,
    PHP,
    PLA,
    PLP,
    RLA,
    ROL,
    ROR,
    RRA,
    RTI,
    RTS,
    SAX,
    SBC,
    SEC,
    SED,
    SEI,
    SLO,
    SRE,
    STA,
    STX,
    STY,
    TAX,
    TAY,
    TSX,
    TXA,
    TXS,
    TYA,
}

/// One row of the opcode table.
#[derive(Clone, Copy, Debug, PartialEq, Eq, Structural)]
pub struct OpCode {
    pub mnemonic: Mnemonic,
    /// Instruction length in bytes, opcode included.
    pub len: u8,
    /// Base cycle count, before taken-branch and page-cross penalties.
    pub cycles: u8,
    pub mode: AddressingMode,
}

/// The mnemonics whose handlers resolve an operand address, and so are never
/// paired with `NoneAddressing` in the table.
pub open spec fn needs_addr(m: Mnemonic) -> bool {
    ||| m == Mnemonic::ADC ||| m == Mnemonic::AND ||| m == Mnemonic::BIT ||| m == Mnemonic::CMP
    ||| m == Mnemonic::CPX ||| m == Mnemonic::CPY ||| m == Mnemonic::DCP ||| m == Mnemonic::DEC
    ||| m == Mnemonic::EOR ||| m == Mnemonic::INC ||| m == Mnemonic::ISB ||| m == Mnemonic::JMP
    ||| m == Mnemonic::JSR ||| m == Mnemonic::LAX ||| m == Mnemonic::LDA ||| m == Mnemonic::LDX
    ||| m == Mnemonic::LDY ||| m == Mnemonic::ORA ||| m == Mnemonic::RLA ||| m == Mnemonic::RRA
    ||| m == Mnemonic::SAX ||| m == Mnemonic::SBC ||| m == Mnemonic::SLO ||| m == Mnemonic::SRE
    ||| m == Mnemonic::STA ||| m == Mnemonic::STX ||| m == Mnemonic::STY
}

/// Every table row is sane: lengths 1 to 3, base cycles 1 to 8, and an
/// operand-taking mnemonic always comes with a real addressing mode.
pub open spec fn opcode_wf(op: OpCode) -> bool {
    &&& 1 <= op.len <= 3
    &&& 1 <= op.cycles <= 8
    &&& (needs_addr(op.mnemonic) ==> op.mode != AddressingMode::NoneAddressing)
}

/// The table row for an opcode byte, or `None` for a byte the CPU refuses.
pub open spec fn opcode_s(code: u8) -> Option<OpCode> {
    match code {
        0x00 => Some(mk(Mnemonic::BRK, 1, 7, AddressingMode::NoneAddressing)),
        0x01 => Some(mk(Mnemonic::ORA, 2, 6, AddressingMode::Indirect_X)),
        0x03 => Some(mk(Mnemonic::SLO, 2, 8, AddressingMode::Indirect_X)),
        0x04 => Some(mk(Mnemonic::NOP, 2, 3, AddressingMode::ZeroPage)),
        0x05 => Some(mk(Mnemonic::ORA, 2, 3, AddressingMode::ZeroPage)),
        0x06 => Some(mk(Mnemonic::ASL, 2, 5, AddressingMode::ZeroPage)),
        0x07 => Some(mk(Mnemonic::SLO, 2, 5, AddressingMode::ZeroPage)),
        0x08 => Some(mk(Mnemonic::PHP, 1, 3, AddressingMode::NoneAddressing)),
        0x09 => Some(mk(Mnemonic::ORA, 2, 2, AddressingMode::Immediate)),
        0x0A => Some(mk(Mnemonic::ASL, 1, 2, AddressingMode::NoneAddressing)),
        0x0C => Some(mk(Mnemonic::NOP, 3, 4, AddressingMode::Absolute)),
        0x0D => Some(mk(Mnemonic::ORA, 3, 4, AddressingMode::Absolute)),
        0x0E => Some(mk(Mnemonic::ASL, 3, 6, AddressingMode::Absolute)),
        0x0F => Some(mk(Mnemonic::SLO, 3, 6, AddressingMode::Absolute)),
        0x10 => Some(mk(Mnemonic::BPL, 2, 2, AddressingMode::NoneAddressing)),
        0x11 => Some(mk(Mnemonic::ORA, 2, 5, AddressingMode::Indirect_Y)),
        0x13 => Some(mk(Mnemonic::SLO, 2, 8, AddressingMode::Indirect_Y)),
        0x14 => Some(mk(Mnemonic::NOP, 2, 4, AddressingMode::ZeroPage_X)),
        0x15 => Some(mk(Mnemonic::ORA, 2, 4, AddressingMode::ZeroPage_X)),
        0x16 => Some(mk(Mnemonic::ASL, 2, 6, AddressingMode::ZeroPage_X)),
        0x17 => Some(mk(Mnemonic::SLO, 2, 6, AddressingMode::ZeroPage_X)),
        0x18 => Some(mk(Mnemonic::CLC, 1, 2, AddressingMode::NoneAddressing)),
        0x19 => Some(mk(Mnemonic::ORA, 3, 4, AddressingMode::Absolute_Y)),
        0x1A => Some(mk(Mnemonic::NOP, 1, 2, AddressingMode::NoneAddressing)),
        0x1B => Some(mk(Mnemonic::SLO, 3, 7, AddressingMode::Absolute_Y)),
        0x1C => Some(mk(Mnemonic::NOP, 3, 4, AddressingMode::Absolute_X)),
        0x1D => Some(mk(Mnemonic::ORA, 3, 4, AddressingMode::Absolute_X)),
        0x1E => Some(mk(Mnemonic::ASL, 3, 7, AddressingMode::Absolute_X)),
        0x1F => Some(mk(Mnemonic::SLO, 3, 7, AddressingMode::Absolute_X)),
        0x20 => Some(mk(Mnemonic::JSR, 3, 6, AddressingMode::Absolute)),
        0x21 => Some(mk(Mnemonic::AND, 2, 6, AddressingMode::Indirect_X)),
        0x23 => Some(mk(Mnemonic::RLA, 2, 8, AddressingMode::Indirect_X)),
        0x24 => Some(mk(Mnemonic::BIT, 2, 3, AddressingMode::ZeroPage)),
        0x25 => Some(mk(Mnemonic::AND, 2, 3, AddressingMode::ZeroPage)),
        0x26 => Some(mk(Mnemonic::ROL, 2, 5, AddressingMode::ZeroPage)),
        0x27 => Some(mk(Mnemonic::RLA, 2, 5, AddressingMode::ZeroPage)),
        0x28 => Some(mk(Mnemonic::PLP, 1, 4, AddressingMode::NoneAddressing)),
        0x29 => Some(mk(Mnemonic::AND, 2, 2, AddressingMode::Immediate)),
        0x2A => Some(mk(Mnemonic::ROL, 1, 2, AddressingMode::NoneAddressing)),
        0x2C => Some(mk(Mnemonic::BIT, 3, 4, AddressingMode::Absolute)),
        0x2D => Some(mk(Mnemonic::AND, 3, 4, AddressingMode::Absolute)),
        0x2E => Some(mk(Mnemonic::ROL, 3, 6, AddressingMode::Absolute)),
        0x2F => Some(mk(Mnemonic::RLA, 3, 6, AddressingMode::Absolute)),
        0x30 => Some(mk(Mnemonic::BMI, 2, 2, AddressingMode::NoneAddressing)),
        0x31 => Some(mk(Mnemonic::AND, 2, 5, AddressingMode::Indirect_Y)),
        0x33 => Some(mk(Mnemonic::RLA, 2, 8, AddressingMode::Indirect_Y)),
        0x34 => Some(mk(Mnemonic::NOP, 2, 4, AddressingMode::ZeroPage_X)),
        0x35 => Some(mk(Mnemonic::AND, 2, 4, AddressingMode::ZeroPage_X)),
        0x36 => Some(mk(Mnemonic::ROL, 2, 6, AddressingMode::ZeroPage_X)),
        0x37 => Some(mk(Mnemonic::RLA, 2, 6, AddressingMode::ZeroPage_X)),
        0x38 => Some(mk(Mnemonic::SEC, 1, 2, AddressingMode::NoneAddressing)),
        0x39 => Some(mk(Mnemonic::AND, 3, 4, AddressingMode::Absolute_Y)),
        0x3A => Some(mk(Mnemonic::NOP, 1, 2, AddressingMode::NoneAddressing)),
        0x3B => Some(mk(Mnemonic::RLA, 3, 7, AddressingMode::Absolute_Y)),
        0x3C => Some(mk(Mnemonic::NOP, 3, 4, AddressingMode::Absolute_X)),
        0x3D => Some(mk(Mnemonic::AND, 3, 4, AddressingMode::Absolute_X)),
        0x3E => Some(mk(Mnemonic::ROL, 3, 7, AddressingMode::Absolute_X)),
        0x3F => Some(mk(Mnemonic::RLA, 3, 7, AddressingMode::Absolute_X)),
        0x40 => Some(mk(Mnemonic::RTI, 1, 6, AddressingMode::NoneAddressing)),
        0x41 => Some(mk(Mnemonic::EOR, 2, 6, AddressingMode::Indirect_X)),
        0x43 => Some(mk(Mnemonic::SRE, 2, 8, AddressingMode::Indirect_X)),
        0x44 => Some(mk(Mnemonic::NOP, 2, 3, AddressingMode::ZeroPage)),
        0x45 => Some(mk(Mnemonic::EOR, 2, 3, AddressingMode::ZeroPage)),
        0x46 => Some(mk(Mnemonic::LSR, 2, 5, AddressingMode::ZeroPage)),
        0x47 => Some(mk(Mnemonic::SRE, 2, 5, AddressingMode::ZeroPage)),
        0x48 => Some(mk(Mnemonic::PHA, 1, 3, AddressingMode::NoneAddressing)),
        0x49 => Some(mk(Mnemonic::EOR, 2, 2, AddressingMode::Immediate)),
        0x4A => Some(mk(Mnemonic::LSR, 1, 2, AddressingMode::NoneAddressing)),
        0x4C => Some(mk(Mnemonic::JMP, 3, 3, AddressingMode::Absolute)),
        0x4D => Some(mk(Mnemonic::EOR, 3, 4, AddressingMode::Absolute)),
        0x4E => Some(mk(Mnemonic::LSR, 3, 6, AddressingMode::Absolute)),
        0x4F => Some(mk(Mnemonic::SRE, 3, 6, AddressingMode::Absolute)),
        0x50 => Some(mk(Mnemonic::BVC, 2, 2, AddressingMode::NoneAddressing)),
        0x51 => Some(mk(Mnemonic::EOR, 2, 5, AddressingMode::Indirect_Y)),
        0x53 => Some(mk(Mnemonic::SRE, 2, 8, AddressingMode::Indirect_Y)),
        0x54 => Some(mk(Mnemonic::NOP, 2, 4, AddressingMode::ZeroPage_X)),
        0x55 => Some(mk(Mnemonic::EOR, 2, 4, AddressingMode::ZeroPage_X)),
        0x56 => Some(mk(Mnemonic::LSR, 2, 6, AddressingMode::ZeroPage_X)),
        0x57 => Some(mk(Mnemonic::SRE, 2, 6, AddressingMode::ZeroPage_X)),
        0x58 => Some(mk(Mnemonic::CLI, 1, 2, AddressingMode::NoneAddressing)),
        0x59 => Some(mk(Mnemonic::EOR, 3, 4, AddressingMode::Absolute_Y)),
        0x5A => Some(mk(Mnemonic::NOP, 1, 2, AddressingMode::NoneAddressing)),
        0x5B => Some(mk(Mnemonic::SRE, 3, 7, AddressingMode::Absolute_Y)),
        0x5C => Some(mk(Mnemonic::NOP, 3, 4, AddressingMode::Absolute_X)),
        0x5D => Some(mk(Mnemonic::EOR, 3, 4, AddressingMode::Absolute_X)),
        0x5E => Some(mk(Mnemonic::LSR, 3, 7, AddressingMode::Absolute_X)),
        0x5F => Some(mk(Mnemonic::SRE, 3, 7, AddressingMode::Absolute_X)),
        0x60 => Some(mk(Mnemonic::RTS, 1, 6, AddressingMode::NoneAddressing)),
        0x61 => Some(mk(Mnemonic::ADC, 2, 6, AddressingMode::Indirect_X)),
        0x63 => Some(mk(Mnemonic::RRA, 2, 8, AddressingMode::Indirect_X)),
        0x64 => Some(mk(Mnemonic::NOP, 2, 3, AddressingMode::ZeroPage)),
        0x65 => Some(mk(Mnemonic::ADC, 2, 3, AddressingMode::ZeroPage)),
        0x66 => Some(mk(Mnemonic::ROR, 2, 5, AddressingMode::ZeroPage)),
        0x67 => Some(mk(Mnemonic::RRA, 2, 5, AddressingMode::ZeroPage)),
        0x68 => Some(mk(Mnemonic::PLA, 1, 4, AddressingMode::NoneAddressing)),
        0x69 => Some(mk(Mnemonic::ADC, 2, 2, AddressingMode::Immediate)),
        0x6A => Some(mk(Mnemonic::ROR, 1, 2, AddressingMode::NoneAddressing)),
        0x6C => Some(mk(Mnemonic::JMP, 3, 5, AddressingMode::Indirect)),
        0x6D => Some(mk(Mnemonic::ADC, 3, 4, AddressingMode::Absolute)),
        0x6E => Some(mk(Mnemonic::ROR, 3, 6, AddressingMode::Absolute)),
        0x6F => Some(mk(Mnemonic::RRA, 3, 6, AddressingMode::Absolute)),
        0x70 => Some(mk(Mnemonic::BVS, 2, 2, AddressingMode::NoneAddressing)),
        0x71 => Some(mk(Mnemonic::ADC, 2, 5, AddressingMode::Indirect_Y)),
        0x73 => Some(mk(Mnemonic::RRA, 2, 8, AddressingMode::Indirect_Y)),
        0x74 => Some(mk(Mnemonic::NOP, 2, 4, AddressingMode::ZeroPage_X)),
        0x75 => Some(mk(Mnemonic::ADC, 2, 4, AddressingMode::ZeroPage_X)),
        0x76 => Some(mk(Mnemonic::ROR, 2, 6, AddressingMode::ZeroPage_X)),
        0x77 => Some(mk(Mnemonic::RRA, 2, 6, AddressingMode::ZeroPage_X)),
        0x78 => Some(mk(Mnemonic::SEI, 1, 2, AddressingMode::NoneAddressing)),
        0x79 => Some(mk(Mnemonic::ADC, 3, 4, AddressingMode::Absolute_Y)),
        0x7A => Some(mk(Mnemonic::NOP, 1, 2, AddressingMode::NoneAddressing)),
        0x7B => Some(mk(Mnemonic::RRA, 3, 7, AddressingMode::Absolute_Y)),
        0x7C => Some(mk(Mnemonic::NOP, 3, 4, AddressingMode::Absolute_X)),
        0x7D => Some(mk(Mnemonic::ADC, 3, 4, AddressingMode::Absolute_X)),
        0x7E => Some(mk(Mnemonic::ROR, 3, 7, AddressingMode::Absolute_X)),
        0x7F => Some(mk(Mnemonic::RRA, 3, 7, AddressingMode::Absolute_X)),
        0x80 => Some(mk(Mnemonic::NOP, 2, 2, AddressingMode::Immediate)),
        0x81 => Some(mk(Mnemonic::STA, 2, 6, AddressingMode::Indirect_X)),
        0x82 => Some(mk(Mnemonic::NOP, 2, 2, AddressingMode::Immediate)),
        0x83 => Some(mk(Mnemonic::SAX, 2, 6, AddressingMode::Indirect_X)),
        0x84 => Some(mk(Mnemonic::STY, 2, 3, AddressingMode::ZeroPage)),
        0x85 => Some(mk(Mnemonic::STA, 2, 3, AddressingMode::ZeroPage)),
        0x86 => Some(mk(Mnemonic::STX, 2, 3, AddressingMode::ZeroPage)),
        0x87 => Some(mk(Mnemonic::SAX, 2, 3, AddressingMode::ZeroPage)),
        0x88 => Some(mk(Mnemonic::DEY, 1, 2, AddressingMode::NoneAddressing)),
        0x89 => Some(mk(Mnemonic::NOP, 2, 2, AddressingMode::Immediate)),
        0x8A => Some(mk(Mnemonic::TXA, 1, 2, AddressingMode::NoneAddressing)),
        0x8C => Some(mk(Mnemonic::STY, 3, 4, AddressingMode::Absolute)),
        0x8D => Some(mk(Mnemonic::STA, 3, 4, AddressingMode::Absolute)),
        0x8E => Some(mk(Mnemonic::STX, 3, 4, AddressingMode::Absolute)),
        0x8F => Some(mk(Mnemonic::SAX, 3, 4, AddressingMode::Absolute)),
        0x90 => Some(mk(Mnemonic::BCC, 2, 2, AddressingMode::NoneAddressing)),
        0x91 => Some(mk(Mnemonic::STA, 2, 6, AddressingMode::Indirect_Y)),
        0x94 => Some(mk(Mnemonic::STY, 2, 4, AddressingMode::ZeroPage_X)),
        0x95 => Some(mk(Mnemonic::STA, 2, 4, AddressingMode::ZeroPage_X)),
        0x96 => Some(mk(Mnemonic::STX, 2, 4, AddressingMode::ZeroPage_Y)),
        0x97 => Some(mk(Mnemonic::SAX, 2, 4, AddressingMode::ZeroPage_Y)),
        0x98 => Some(mk(Mnemonic::TYA, 1, 2, AddressingMode::NoneAddressing)),
        0x99 => Some(mk(Mnemonic::STA, 3, 5, AddressingMode::Absolute_Y)),
        0x9A => Some(mk(Mnemonic::TXS, 1, 2, AddressingMode::NoneAddressing)),
        0x9D => Some(mk(Mnemonic::STA, 3, 5, AddressingMode::Absolute_X)),
        0xA0 => Some(mk(Mnemonic::LDY, 2, 2, AddressingMode::Immediate)),
        0xA1 => Some(mk(Mnemonic::LDA, 2, 6, AddressingMode::Indirect_X)),
        0xA2 => Some(mk(Mnemonic::LDX, 2, 2, AddressingMode::Immediate)),
        0xA3 => Some(mk(Mnemonic::LAX, 2, 6, AddressingMode::Indirect_X)),
        0xA4 => Some(mk(Mnemonic::LDY, 2, 3, AddressingMode::ZeroPage)),
        0xA5 => Some(mk(Mnemonic::LDA, 2, 3, AddressingMode::ZeroPage)),
        0xA6 => Some(mk(Mnemonic::LDX, 2, 3, AddressingMode::ZeroPage)),
        0xA7 => Some(mk(Mnemonic::LAX, 2, 3, AddressingMode::ZeroPage)),
        0xA8 => Some(mk(Mnemonic::TAY, 1, 2, AddressingMode::NoneAddressing)),
        0xA9 => Some(mk(Mnemonic::LDA, 2, 2, AddressingMode::Immediate)),
        0xAA => Some(mk(Mnemonic::TAX, 1, 2, AddressingMode::NoneAddressing)),
        0xAC => Some(mk(Mnemonic::LDY, 3, 4, AddressingMode::Absolute)),
        0xAD => Some(mk(Mnemonic::LDA, 3, 4, AddressingMode::Absolute)),
        0xAE => Some(mk(Mnemonic::LDX, 3, 4, AddressingMode::Absolute)),
        0xAF => Some(mk(Mnemonic::LAX, 3, 4, AddressingMode::Absolute)),
        0xB0 => Some(mk(Mnemonic::BCS, 2, 2, AddressingMode::NoneAddressing)),
        0xB1 => Some(mk(Mnemonic::LDA, 2, 5, AddressingMode::Indirect_Y)),
        0xB3 => Some(mk(Mnemonic::LAX, 2, 5, AddressingMode::Indirect_Y)),
        0xB4 => Some(mk(Mnemonic::LDY, 2, 4, AddressingMode::ZeroPage_X)),
        0xB5 => Some(mk(Mnemonic::LDA, 2, 4, AddressingMode::ZeroPage_X)),
        0xB6 => Some(mk(Mnemonic::LDX, 2, 4, AddressingMode::ZeroPage_Y)),
        0xB7 => Some(mk(Mnemonic::LAX, 2, 4, AddressingMode::ZeroPage_Y)),
        0xB8 => Some(mk(Mnemonic::CLV, 1, 2, AddressingMode::NoneAddressing)),
        0xB9 => Some(mk(Mnemonic::LDA, 3, 4, AddressingMode::Absolute_Y)),
        0xBA => Some(mk(Mnemonic::TSX, 1, 2, AddressingMode::NoneAddressing)),
        0xBC => Some(mk(Mnemonic::LDY, 3, 4, AddressingMode::Absolute_X)),
        0xBD => Some(mk(Mnemonic::LDA, 3, 4, AddressingMode::Absolute_X)),
        0xBE => Some(mk(Mnemonic::LDX, 3, 4, AddressingMode::Absolute_Y)),
        0xBF => Some(mk(Mnemonic::LAX, 3, 4, AddressingMode::Absolute_Y)),
        0xC0 => Some(mk(Mnemonic::CPY, 2, 2, AddressingMode::Immediate)),
        0xC1 => Some(mk(Mnemonic::CMP, 2, 6, AddressingMode::Indirect_X)),
        0xC2 => Some(mk(Mnemonic::NOP, 2, 2, AddressingMode::Immediate)),
        0xC3 => Some(mk(Mnemonic::DCP, 2, 8, AddressingMode::Indirect_X)),
        0xC4 => Some(mk(Mnemonic::CPY, 2, 3, AddressingMode::ZeroPage)),
        0xC5 => Some(mk(Mnemonic::CMP, 2, 3, AddressingMode::ZeroPage)),
        0xC6 => Some(mk(Mnemonic::DEC, 2, 5, AddressingMode::ZeroPage)),
        0xC7 => Some(mk(Mnemonic::DCP, 2, 5, AddressingMode::ZeroPage)),
        0xC8 => Some(mk(Mnemonic::INY, 1, 2, AddressingMode::NoneAddressing)),
        0xC9 => Some(mk(Mnemonic::CMP, 2, 2, AddressingMode::Immediate)),
        0xCA => Some(mk(Mnemonic::DEX, 1, 2, AddressingMode::NoneAddressing)),
        0xCC => Some(mk(Mnemonic::CPY, 3, 4, AddressingMode::Absolute)),
        0xCD => Some(mk(Mnemonic::CMP, 3, 4, AddressingMode::Absolute)),
        0xCE => Some(mk(Mnemonic::DEC, 3, 6, AddressingMode::Absolute)),
        0xCF => Some(mk(Mnemonic::DCP, 3, 6, AddressingMode::Absolute)),
        0xD0 => Some(mk(Mnemonic::BNE, 2, 2, AddressingMode::NoneAddressing)),
        0xD1 => Some(mk(Mnemonic::CMP, 2, 5, AddressingMode::Indirect_Y)),
        0xD3 => Some(mk(Mnemonic::DCP, 2, 8, AddressingMode::Indirect_Y)),
        0xD4 => Some(mk(Mnemonic::NOP, 2, 4, AddressingMode::ZeroPage_X)),
        0xD5 => Some(mk(Mnemonic::CMP, 2, 4, AddressingMode::ZeroPage_X)),
        0xD6 => Some(mk(Mnemonic::DEC, 2, 6, AddressingMode::ZeroPage_X)),
        0xD7 => Some(mk(Mnemonic::DCP, 2, 6, AddressingMode::ZeroPage_X)),
        0xD8 => Some(mk(Mnemonic::CLD, 1, 2, AddressingMode::NoneAddressing)),
        0xD9 => Some(mk(Mnemonic::CMP, 3, 4, AddressingMode::Absolute_Y)),
        0xDA => Some(mk(Mnemonic::NOP, 1, 2, AddressingMode::NoneAddressing)),
        0xDB => Some(mk(Mnemonic::DCP, 3, 7, AddressingMode::Absolute_Y)),
        0xDC => Some(mk(Mnemonic::NOP, 3, 4, AddressingMode::Absolute_X)),
        0xDD => Some(mk(Mnemonic::CMP, 3, 4, AddressingMode::Absolute_X)),
        0xDE => Some(mk(Mnemonic::DEC, 3, 7, AddressingMode::Absolute_X)),
        0xDF => Some(mk(Mnemonic::DCP, 3, 7, AddressingMode::Absolute_X)),
        0xE0 => Some(mk(Mnemonic::CPX, 2, 2, AddressingMode::Immediate)),
        0xE1 => Some(mk(Mnemonic::SBC, 2, 6, AddressingMode::Indirect_X)),
        0xE2 => Some(mk(Mnemonic::NOP, 2, 2, AddressingMode::Immediate)),
        0xE3 => Some(mk(Mnemonic::ISB, 2, 8, AddressingMode::Indirect_X)),
        0xE4 => Some(mk(Mnemonic::CPX, 2, 3, AddressingMode::ZeroPage)),
        0xE5 => Some(mk(Mnemonic::SBC, 2, 3, AddressingMode::ZeroPage)),
        0xE6 => Some(mk(Mnemonic::INC, 2, 5, AddressingMode::ZeroPage)),
        0xE7 => Some(mk(Mnemonic::ISB, 2, 5, AddressingMode::ZeroPage)),
        0xE8 => Some(mk(Mnemonic::INX, 1, 2, AddressingMode::NoneAddressing)),
        0xE9 => Some(mk(Mnemonic::SBC, 2, 2, AddressingMode::Immediate)),
        0xEA => Some(mk(Mnemonic::NOP, 1, 2, AddressingMode::NoneAddressing)),
        0xEB => Some(mk(Mnemonic::SBC, 2, 2, AddressingMode::Immediate)),
        0xEC => Some(mk(Mnemonic::CPX, 3, 4, AddressingMode::Absolute)),
        0xED => Some(mk(Mnemonic::SBC, 3, 4, AddressingMode::Absolute)),
        0xEE => Some(mk(Mnemonic::INC, 3, 6, AddressingMode::Absolute)),
        0xEF => Some(mk(Mnemonic::ISB, 3, 6, AddressingMode::Absolute)),
        0xF0 => Some(mk(Mnemonic::BEQ, 2, 2, AddressingMode::NoneAddressing)),
        0xF1 => Some(mk(Mnemonic::SBC, 2, 5, AddressingMode::Indirect_Y)),
        0xF3 => Some(mk(Mnemonic::ISB, 2, 8, AddressingMode::Indirect_Y)),
        0xF4 => Some(mk(Mnemonic::NOP, 2, 4, AddressingMode::ZeroPage_X)),
        0xF5 => Some(mk(Mnemonic::SBC, 2, 4, AddressingMode::ZeroPage_X)),
        0xF6 => Some(mk(Mnemonic::INC, 2, 6, AddressingMode::ZeroPage_X)),
        0xF7 => Some(mk(Mnemonic::ISB, 2, 6, AddressingMode::ZeroPage_X)),
        0xF8 => Some(mk(Mnemonic::SED, 1, 2, AddressingMode::NoneAddressing)),
        0xF9 => Some(mk(Mnemonic::SBC, 3, 4, AddressingMode::Absolute_Y)),
        0xFA => Some(mk(Mnemonic::NOP, 1, 2, AddressingMode::NoneAddressing)),
        0xFB => Some(mk(Mnemonic::ISB, 3, 7, AddressingMode::Absolute_Y)),
        0xFC => Some(mk(Mnemonic::NOP, 3, 4, AddressingMode::Absolute_X)),
        0xFD => Some(mk(Mnemonic::SBC, 3, 4, AddressingMode::Absolute_X)),
        0xFE => Some(mk(Mnemonic::INC, 3, 7, AddressingMode::Absolute_X)),
        0xFF => Some(mk(Mnemonic::ISB, 3, 7, AddressingMode::Absolute_X)),
        _ => None,
    }
}

pub open spec fn mk(mnemonic: Mnemonic, len: u8, cycles: u8, mode: AddressingMode) -> OpCode {
    OpCode { mnemonic, len, cycles, mode }
}

fn mk_e(mnemonic: Mnemonic, len: u8, cycles: u8, mode: AddressingMode) -> (r: OpCode)
    ensures
        r == mk(mnemonic, len, cycles, mode),
{
    OpCode { mnemonic, len, cycles, mode }
}

/// Looks an opcode byte up in the table.
#[verifier::rlimit(60)]
pub fn opcode_lookup(code: u8) -> (r: Option<OpCode>)
    ensures
        r == opcode_s(code),
        r matches Some(op) ==> opcode_wf(op),
{
    match code {
        0x00 => Some(mk_e(Mnemonic::BRK, 1, 7, AddressingMode::NoneAddressing)),
        0x01 => Some(mk_e(Mnemonic::ORA, 2, 6, AddressingMode::Indirect_X)),
        0x03 => Some(mk_e(Mnemonic::SLO, 2, 8, AddressingMode::Indirect_X)),
        0x04 => Some(mk_e(Mnemonic::NOP, 2, 3, AddressingMode::ZeroPage)),
        0x05 => Some(mk_e(Mnemonic::ORA, 2, 3, AddressingMode::ZeroPage)),
        0x06 => Some(mk_e(Mnemonic::ASL, 2, 5, AddressingMode::ZeroPage)),
        0x07 => Some(mk_e(Mnemonic::SLO, 2, 5, AddressingMode::ZeroPage)),
        0x08 => Some(mk_e(Mnemonic::PHP, 1, 3, AddressingMode::NoneAddressing)),
        0x09 => Some(mk_e(Mnemonic::ORA, 2, 2, AddressingMode::Immediate)),
        0x0A => Some(mk_e(Mnemonic::ASL, 1, 2, AddressingMode::NoneAddressing)),
        0x0C => Some(mk_e(Mnemonic::NOP, 3, 4, AddressingMode::Absolute)),
        0x0D => Some(mk_e(Mnemonic::ORA, 3, 4, AddressingMode::Absolute)),
        0x0E => Some(mk_e(Mnemonic::ASL, 3, 6, AddressingMode::Absolute)),
        0x0F => Some(mk_e(Mnemonic::SLO, 3, 6, AddressingMode::Absolute)),
        0x10 => Some(mk_e(Mnemonic::BPL, 2, 2, AddressingMode::NoneAddressing)),
        0x11 => Some(mk_e(Mnemonic::ORA, 2, 5, AddressingMode::Indirect_Y)),
        0x13 => Some(mk_e(Mnemonic::SLO, 2, 8, AddressingMode::Indirect_Y)),
        0x14 => Some(mk_e(Mnemonic::NOP, 2, 4, AddressingMode::ZeroPage_X)),
        0x15 => Some(mk_e(Mnemonic::ORA, 2, 4, AddressingMode::ZeroPage_X)),
        0x16 => Some(mk_e(Mnemonic::ASL, 2, 6, AddressingMode::ZeroPage_X)),
        0x17 => Some(mk_e(Mnemonic::SLO, 2, 6, AddressingMode::ZeroPage_X)),
        0x18 => Some(mk_e(Mnemonic::CLC, 1, 2, AddressingMode::NoneAddressing)),
        0x19 => Some(mk_e(Mnemonic::ORA, 3, 4, AddressingMode::Absolute_Y)),
        0x1A => Some(mk_e(Mnemonic::NOP, 1, 2, AddressingMode::NoneAddressing)),
        0x1B => Some(mk_e(Mnemonic::SLO, 3, 7, AddressingMode::Absolute_Y)),
        0x1C => Some(mk_e(Mnemonic::NOP, 3, 4, AddressingMode::Absolute_X)),
        0x1D => Some(mk_e(Mnemonic::ORA, 3, 4, AddressingMode::Absolute_X)),
        0x1E => Some(mk_e(Mnemonic::ASL, 3, 7, AddressingMode::Absolute_X)),
        0x1F => Some(mk_e(Mnemonic::SLO, 3, 7, AddressingMode::Absolute_X)),
        0x20 => Some(mk_e(Mnemonic::JSR, 3, 6, AddressingMode::Absolute)),
        0x21 => Some(mk_e(Mnemonic::AND, 2, 6, AddressingMode::Indirect_X)),
        0x23 => Some(mk_e(Mnemonic::RLA, 2, 8, AddressingMode::Indirect_X)),
        0x24 => Some(mk_e(Mnemonic::BIT, 2, 3, AddressingMode::ZeroPage)),
        0x25 => Some(mk_e(Mnemonic::AND, 2, 3, AddressingMode::ZeroPage)),
        0x26 => Some(mk_e(Mnemonic::ROL, 2, 5, AddressingMode::ZeroPage)),
        0x27 => Some(mk_e(Mnemonic::RLA, 2, 5, AddressingMode::ZeroPage)),
        0x28 => Some(mk_e(Mnemonic::PLP, 1, 4, AddressingMode::NoneAddressing)),
        0x29 => Some(mk_e(Mnemonic::AND, 2, 2, AddressingMode::Immediate)),
        0x2A => Some(mk_e(Mnemonic::ROL, 1, 2, AddressingMode::NoneAddressing)),
        0x2C => Some(mk_e(Mnemonic::BIT, 3, 4, AddressingMode::Absolute)),
        0x2D => Some(mk_e(Mnemonic::AND, 3, 4, AddressingMode::Absolute)),
        0x2E => Some(mk_e(Mnemonic::ROL, 3, 6, AddressingMode::Absolute)),
        0x2F => Some(mk_e(Mnemonic::RLA, 3, 6, AddressingMode::Absolute)),
        0x30 => Some(mk_e(Mnemonic::BMI, 2, 2, AddressingMode::NoneAddressing)),
        0x31 => Some(mk_e(Mnemonic::AND, 2, 5, AddressingMode::Indirect_Y)),
        0x33 => Some(mk_e(Mnemonic::RLA, 2, 8, AddressingMode::Indirect_Y)),
        0x34 => Some(mk_e(Mnemonic::NOP, 2, 4, AddressingMode::ZeroPage_X)),
        0x35 => Some(mk_e(Mnemonic::AND, 2, 4, AddressingMode::ZeroPage_X)),
        0x36 => Some(mk_e(Mnemonic::ROL, 2, 6, AddressingMode::ZeroPage_X)),
        0x37 => Some(mk_e(Mnemonic::RLA, 2, 6, AddressingMode::ZeroPage_X)),
        0x38 => Some(mk_e(Mnemonic::SEC, 1, 2, AddressingMode::NoneAddressing)),
        0x39 => Some(mk_e(Mnemonic::AND, 3, 4, AddressingMode::Absolute_Y)),
        0x3A => Some(mk_e(Mnemonic::NOP, 1, 2, AddressingMode::NoneAddressing)),
        0x3B => Some(mk_e(Mnemonic::RLA, 3, 7, AddressingMode::Absolute_Y)),
        0x3C => Some(mk_e(Mnemonic::NOP, 3, 4, AddressingMode::Absolute_X)),
        0x3D => Some(mk_e(Mnemonic::AND, 3, 4, AddressingMode::Absolute_X)),
        0x3E => Some(mk_e(Mnemonic::ROL, 3, 7, AddressingMode::Absolute_X)),
        0x3F => Some(mk_e(Mnemonic::RLA, 3, 7, AddressingMode::Absolute_X)),
        0x40 => Some(mk_e(Mnemonic::RTI, 1, 6, AddressingMode::NoneAddressing)),
        0x41 => Some(mk_e(Mnemonic::EOR, 2, 6, AddressingMode::Indirect_X)),
        0x43 => Some(mk_e(Mnemonic::SRE, 2, 8, AddressingMode::Indirect_X)),
        0x44 => Some(mk_e(Mnemonic::NOP, 2, 3, AddressingMode::ZeroPage)),
        0x45 => Some(mk_e(Mnemonic::EOR, 2, 3, AddressingMode::ZeroPage)),
        0x46 => Some(mk_e(Mnemonic::LSR, 2, 5, AddressingMode::ZeroPage)),
        0x47 => Some(mk_e(Mnemonic::SRE, 2, 5, AddressingMode::ZeroPage)),
        0x48 => Some(mk_e(Mnemonic::PHA, 1, 3, AddressingMode::NoneAddressing)),
        0x49 => Some(mk_e(Mnemonic::EOR, 2, 2, AddressingMode::Immediate)),
        0x4A => Some(mk_e(Mnemonic::LSR, 1, 2, AddressingMode::NoneAddressing)),
        0x4C => Some(mk_e(Mnemonic::JMP, 3, 3, AddressingMode::Absolute)),
        0x4D => Some(mk_e(Mnemonic::EOR, 3, 4, AddressingMode::Absolute)),
        0x4E => Some(mk_e(Mnemonic::LSR, 3, 6, AddressingMode::Absolute)),
        0x4F => Some(mk_e(Mnemonic::SRE, 3, 6, AddressingMode::Absolute)),
        0x50 => Some(mk_e(Mnemonic::BVC, 2, 2, AddressingMode::NoneAddressing)),
        0x51 => Some(mk_e(Mnemonic::EOR, 2, 5, AddressingMode::Indirect_Y)),
        0x53 => Some(mk_e(Mnemonic::SRE, 2, 8, AddressingMode::Indirect_Y)),
        0x54 => Some(mk_e(Mnemonic::NOP, 2, 4, AddressingMode::ZeroPage_X)),
        0x55 => Some(mk_e(Mnemonic::EOR, 2, 4, AddressingMode::ZeroPage_X)),
        0x56 => Some(mk_e(Mnemonic::LSR, 2, 6, AddressingMode::ZeroPage_X)),
        0x57 => Some(mk_e(Mnemonic::SRE, 2, 6, AddressingMode::ZeroPage_X)),
        0x58 => Some(mk_e(Mnemonic::CLI, 1, 2, AddressingMode::NoneAddressing)),
        0x59 => Some(mk_e(Mnemonic::EOR, 3, 4, AddressingMode::Absolute_Y)),
        0x5A => Some(mk_e(Mnemonic::NOP, 1, 2, AddressingMode::NoneAddressing)),
        0x5B => Some(mk_e(Mnemonic::SRE, 3, 7, AddressingMode::Absolute_Y)),
        0x5C => Some(mk_e(Mnemonic::NOP, 3, 4, AddressingMode::Absolute_X)),
        0x5D => Some(mk_e(Mnemonic::EOR, 3, 4, AddressingMode::Absolute_X)),
        0x5E => Some(mk_e(Mnemonic::LSR, 3, 7, AddressingMode::Absolute_X)),
        0x5F => Some(mk_e(Mnemonic::SRE, 3, 7, AddressingMode::Absolute_X)),
        0x60 => Some(mk_e(Mnemonic::RTS, 1, 6, AddressingMode::NoneAddressing)),
        0x61 => Some(mk_e(Mnemonic::ADC, 2, 6, AddressingMode::Indirect_X)),
        0x63 => Some(mk_e(Mnemonic::RRA, 2, 8, AddressingMode::Indirect_X)),
        0x64 => Some(mk_e(Mnemonic::NOP, 2, 3, AddressingMode::ZeroPage)),
        0x65 => Some(mk_e(Mnemonic::ADC, 2, 3, AddressingMode::ZeroPage)),
        0x66 => Some(mk_e(Mnemonic::ROR, 2, 5, AddressingMode::ZeroPage)),
        0x67 => Some(mk_e(Mnemonic::RRA, 2, 5, AddressingMode::ZeroPage)),
        0x68 => Some(mk_e(Mnemonic::PLA, 1, 4, AddressingMode::NoneAddressing)),
        0x69 => Some(mk_e(Mnemonic::ADC, 2, 2, AddressingMode::Immediate)),
        0x6A => Some(mk_e(Mnemonic::ROR, 1, 2, AddressingMode::NoneAddressing)),
        0x6C => Some(mk_e(Mnemonic::JMP, 3, 5, AddressingMode::Indirect)),
        0x6D => Some(mk_e(Mnemonic::ADC, 3, 4, AddressingMode::Absolute)),
        0x6E => Some(mk_e(Mnemonic::ROR, 3, 6, AddressingMode::Absolute)),
        0x6F => Some(mk_e(Mnemonic::RRA, 3, 6, AddressingMode::Absolute)),
        0x70 => Some(mk_e(Mnemonic::BVS, 2, 2, AddressingMode::NoneAddressing)),
        0x71 => Some(mk_e(Mnemonic::ADC, 2, 5, AddressingMode::Indirect_Y)),
        0x73 => Some(mk_e(Mnemonic::RRA, 2, 8, AddressingMode::Indirect_Y)),
        0x74 => Some(mk_e(Mnemonic::NOP, 2, 4, AddressingMode::ZeroPage_X)),
        0x75 => Some(mk_e(Mnemonic::ADC, 2, 4, AddressingMode::ZeroPage_X)),
        0x76 => Some(mk_e(Mnemonic::ROR, 2, 6, AddressingMode::ZeroPage_X)),
        0x77 => Some(mk_e(Mnemonic::RRA, 2, 6, AddressingMode::ZeroPage_X)),
        0x78 => Some(mk_e(Mnemonic::SEI, 1, 2, AddressingMode::NoneAddressing)),
        0x79 => Some(mk_e(Mnemonic::ADC, 3, 4, AddressingMode::Absolute_Y)),
        0x7A => Some(mk_e(Mnemonic::NOP, 1, 2, AddressingMode::NoneAddressing)),
        0x7B => Some(mk_e(Mnemonic::RRA, 3, 7, AddressingMode::Absolute_Y)),
        0x7C => Some(mk_e(Mnemonic::NOP, 3, 4, AddressingMode::Absolute_X)),
        0x7D => Some(mk_e(Mnemonic::ADC, 3, 4, AddressingMode::Absolute_X)),
        0x7E => Some(mk_e(Mnemonic::ROR, 3, 7, AddressingMode::Absolute_X)),
        0x7F => Some(mk_e(Mnemonic::RRA, 3, 7, AddressingMode::Absolute_X)),
        0x80 => Some(mk_e(Mnemonic::NOP, 2, 2, AddressingMode::Immediate)),
        0x81 => Some(mk_e(Mnemonic::STA, 2, 6, AddressingMode::Indirect_X)),
        0x82 => Some(mk_e(Mnemonic::NOP, 2, 2, AddressingMode::Immediate)),
        0x83 => Some(mk_e(Mnemonic::SAX, 2, 6, AddressingMode::Indirect_X)),
        0x84 => Some(mk_e(Mnemonic::STY, 2, 3, AddressingMode::ZeroPage)),
        0x85 => Some(mk_e(Mnemonic::STA, 2, 3, AddressingMode::ZeroPage)),
        0x86 => Some(mk_e(Mnemonic::STX, 2, 3, AddressingMode::ZeroPage)),
        0x87 => Some(mk_e(Mnemonic::SAX, 2, 3, AddressingMode::ZeroPage)),
        0x88 => Some(mk_e(Mnemonic::DEY, 1, 2, AddressingMode::NoneAddressing)),
        0x89 => Some(mk_e(Mnemonic::NOP, 2, 2, AddressingMode::Immediate)),
        0x8A => Some(mk_e(Mnemonic::TXA, 1, 2, AddressingMode::NoneAddressing)),
        0x8C => Some(mk_e(Mnemonic::STY, 3, 4, AddressingMode::Absolute)),
        0x8D => Some(mk_e(Mnemonic::STA, 3, 4, AddressingMode::Absolute)),
        0x8E => Some(mk_e(Mnemonic::STX, 3, 4, AddressingMode::Absolute)),
        0x8F => Some(mk_e(Mnemonic::SAX, 3, 4, AddressingMode::Absolute)),
        0x90 => Some(mk_e(Mnemonic::BCC, 2, 2, AddressingMode::NoneAddressing)),
        0x91 => Some(mk_e(Mnemonic::STA, 2, 6, AddressingMode::Indirect_Y)),
        0x94 => Some(mk_e(Mnemonic::STY, 2, 4, AddressingMode::ZeroPage_X)),
        0x95 => Some(mk_e(Mnemonic::STA, 2, 4, AddressingMode::ZeroPage_X)),
        0x96 => Some(mk_e(Mnemonic::STX, 2, 4, AddressingMode::ZeroPage_Y)),
        0x97 => Some(mk_e(Mnemonic::SAX, 2, 4, AddressingMode::ZeroPage_Y)),
        0x98 => Some(mk_e(Mnemonic::TYA, 1, 2, AddressingMode::NoneAddressing)),
        0x99 => Some(mk_e(Mnemonic::STA, 3, 5, AddressingMode::Absolute_Y)),
        0x9A => Some(mk_e(Mnemonic::TXS, 1, 2, AddressingMode::NoneAddressing)),
        0x9D => Some(mk_e(Mnemonic::STA, 3, 5, AddressingMode::Absolute_X)),
        0xA0 => Some(mk_e(Mnemonic::LDY, 2, 2, AddressingMode::Immediate)),
        0xA1 => Some(mk_e(Mnemonic::LDA, 2, 6, AddressingMode::Indirect_X)),
        0xA2 => Some(mk_e(Mnemonic::LDX, 2, 2, AddressingMode::Immediate)),
        0xA3 => Some(mk_e(Mnemonic::LAX, 2, 6, AddressingMode::Indirect_X)),
        0xA4 => Some(mk_e(Mnemonic::LDY, 2, 3, AddressingMode::ZeroPage)),
        0xA5 => Some(mk_e(Mnemonic::LDA, 2, 3, AddressingMode::ZeroPage)),
        0xA6 => Some(mk_e(Mnemonic::LDX, 2, 3, AddressingMode::ZeroPage)),
        0xA7 => Some(mk_e(Mnemonic::LAX, 2, 3, AddressingMode::ZeroPage)),
        0xA8 => Some(mk_e(Mnemonic::TAY, 1, 2, AddressingMode::NoneAddressing)),
        0xA9 => Some(mk_e(Mnemonic::LDA, 2, 2, AddressingMode::Immediate)),
        0xAA => Some(mk_e(Mnemonic::TAX, 1, 2, AddressingMode::NoneAddressing)),
        0xAC => Some(mk_e(Mnemonic::LDY, 3, 4, AddressingMode::Absolute)),
        0xAD => Some(mk_e(Mnemonic::LDA, 3, 4, AddressingMode::Absolute)),
        0xAE => Some(mk_e(Mnemonic::LDX, 3, 4, AddressingMode::Absolute)),
        0xAF => Some(mk_e(Mnemonic::LAX, 3, 4, AddressingMode::Absolute)),
        0xB0 => Some(mk_e(Mnemonic::BCS, 2, 2, AddressingMode::NoneAddressing)),
        0xB1 => Some(mk_e(Mnemonic::LDA, 2, 5, AddressingMode::Indirect_Y)),
        0xB3 => Some(mk_e(Mnemonic::LAX, 2, 5, AddressingMode::Indirect_Y)),
        0xB4 => Some(mk_e(Mnemonic::LDY, 2, 4, AddressingMode::ZeroPage_X)),
        0xB5 => Some(mk_e(Mnemonic::LDA, 2, 4, AddressingMode::ZeroPage_X)),
        0xB6 => Some(mk_e(Mnemonic::LDX, 2, 4, AddressingMode::ZeroPage_Y)),
        0xB7 => Some(mk_e(Mnemonic::LAX, 2, 4, AddressingMode::ZeroPage_Y)),
        0xB8 => Some(mk_e(Mnemonic::CLV, 1, 2, AddressingMode::NoneAddressing)),
        0xB9 => Some(mk_e(Mnemonic::LDA, 3, 4, AddressingMode::Absolute_Y)),
        0xBA => Some(mk_e(Mnemonic::TSX, 1, 2, AddressingMode::NoneAddressing)),
        0xBC => Some(mk_e(Mnemonic::LDY, 3, 4, AddressingMode::Absolute_X)),
        0xBD => Some(mk_e(Mnemonic::LDA, 3, 4, AddressingMode::Absolute_X)),
        0xBE => Some(mk_e(Mnemonic::LDX, 3, 4, AddressingMode::Absolute_Y)),
        0xBF => Some(mk_e(Mnemonic::LAX, 3, 4, AddressingMode::Absolute_Y)),
        0xC0 => Some(mk_e(Mnemonic::CPY, 2, 2, AddressingMode::Immediate)),
        0xC1 => Some(mk_e(Mnemonic::CMP, 2, 6, AddressingMode::Indirect_X)),
        0xC2 => Some(mk_e(Mnemonic::NOP, 2, 2, AddressingMode::Immediate)),
        0xC3 => Some(mk_e(Mnemonic::DCP, 2, 8, AddressingMode::Indirect_X)),
        0xC4 => Some(mk_e(Mnemonic::CPY, 2, 3, AddressingMode::ZeroPage)),
        0xC5 => Some(mk_e(Mnemonic::CMP, 2, 3, AddressingMode::ZeroPage)),
        0xC6 => Some(mk_e(Mnemonic::DEC, 2, 5, AddressingMode::ZeroPage)),
        0xC7 => Some(mk_e(Mnemonic::DCP, 2, 5, AddressingMode::ZeroPage)),
        0xC8 => Some(mk_e(Mnemonic::INY, 1, 2, AddressingMode::NoneAddressing)),
        0xC9 => Some(mk_e(Mnemonic::CMP, 2, 2, AddressingMode::Immediate)),
        0xCA => Some(mk_e(Mnemonic::DEX, 1, 2, AddressingMode::NoneAddressing)),
        0xCC => Some(mk_e(Mnemonic::CPY, 3, 4, AddressingMode::Absolute)),
        0xCD => Some(mk_e(Mnemonic::CMP, 3, 4, AddressingMode::Absolute)),
        0xCE => Some(mk_e(Mnemonic::DEC, 3, 6, AddressingMode::Absolute)),
        0xCF => Some(mk_e(Mnemonic::DCP, 3, 6, AddressingMode::Absolute)),
        0xD0 => Some(mk_e(Mnemonic::BNE, 2, 2, AddressingMode::NoneAddressing)),
        0xD1 => Some(mk_e(Mnemonic::CMP, 2, 5, AddressingMode::Indirect_Y)),
        0xD3 => Some(mk_e(Mnemonic::DCP, 2, 8, AddressingMode::Indirect_Y)),
        0xD4 => Some(mk_e(Mnemonic::NOP, 2, 4, AddressingMode::ZeroPage_X)),
        0xD5 => Some(mk_e(Mnemonic::CMP, 2, 4, AddressingMode::ZeroPage_X)),
        0xD6 => Some(mk_e(Mnemonic::DEC, 2, 6, AddressingMode::ZeroPage_X)),
        0xD7 => Some(mk_e(Mnemonic::DCP, 2, 6, AddressingMode::ZeroPage_X)),
        0xD8 => Some(mk_e(Mnemonic::CLD, 1, 2, AddressingMode::NoneAddressing)),
        0xD9 => Some(mk_e(Mnemonic::CMP, 3, 4, AddressingMode::Absolute_Y)),
        0xDA => Some(mk_e(Mnemonic::NOP, 1, 2, AddressingMode::NoneAddressing)),
        0xDB => Some(mk_e(Mnemonic::DCP, 3, 7, AddressingMode::Absolute_Y)),
        0xDC => Some(mk_e(Mnemonic::NOP, 3, 4, AddressingMode::Absolute_X)),
        0xDD => Some(mk_e(Mnemonic::CMP, 3, 4, AddressingMode::Absolute_X)),
        0xDE => Some(mk_e(Mnemonic::DEC, 3, 7, AddressingMode::Absolute_X)),
        0xDF => Some(mk_e(Mnemonic::DCP, 3, 7, AddressingMode::Absolute_X)),
        0xE0 => Some(mk_e(Mnemonic::CPX, 2, 2, AddressingMode::Immediate)),
        0xE1 => Some(mk_e(Mnemonic::SBC, 2, 6, AddressingMode::Indirect_X)),
        0xE2 => Some(mk_e(Mnemonic::NOP, 2, 2, AddressingMode::Immediate)),
        0xE3 => Some(mk_e(Mnemonic::ISB, 2, 8, AddressingMode::Indirect_X)),
        0xE4 => Some(mk_e(Mnemonic::CPX, 2, 3, AddressingMode::ZeroPage)),
        0xE5 => Some(mk_e(Mnemonic::SBC, 2, 3, AddressingMode::ZeroPage)),
        0xE6 => Some(mk_e(Mnemonic::INC, 2, 5, AddressingMode::ZeroPage)),
        0xE7 => Some(mk_e(Mnemonic::ISB, 2, 5, AddressingMode::ZeroPage)),
        0xE8 => Some(mk_e(Mnemonic::INX, 1, 2, AddressingMode::NoneAddressing)),
        0xE9 => Some(mk_e(Mnemonic::SBC, 2, 2, AddressingMode::Immediate)),
        0xEA => Some(mk_e(Mnemonic::NOP, 1, 2, AddressingMode::NoneAddressing)),
        0xEB => Some(mk_e(Mnemonic::SBC, 2, 2, AddressingMode::Immediate)),
        0xEC => Some(mk_e(Mnemonic::CPX, 3, 4, AddressingMode::Absolute)),
        0xED => Some(mk_e(Mnemonic::SBC, 3, 4, AddressingMode::Absolute)),
        0xEE => Some(mk_e(Mnemonic::INC, 3, 6, AddressingMode::Absolute)),
        0xEF => Some(mk_e(Mnemonic::ISB, 3, 6, AddressingMode::Absolute)),
        0xF0 => Some(mk_e(Mnemonic::BEQ, 2, 2, AddressingMode::NoneAddressing)),
        0xF1 => Some(mk_e(Mnemonic::SBC, 2, 5, AddressingMode::Indirect_Y)),
        0xF3 => Some(mk_e(Mnemonic::ISB, 2, 8, AddressingMode::Indirect_Y)),
        0xF4 => Some(mk_e(Mnemonic::NOP, 2, 4, AddressingMode::ZeroPage_X)),
        0xF5 => Some(mk_e(Mnemonic::SBC, 2, 4, AddressingMode::ZeroPage_X)),
        0xF6 => Some(mk_e(Mnemonic::INC, 2, 6, AddressingMode::ZeroPage_X)),
        0xF7 => Some(mk_e(Mnemonic::ISB, 2, 6, AddressingMode::ZeroPage_X)),
        0xF8 => Some(mk_e(Mnemonic::SED, 1, 2, AddressingMode::NoneAddressing)),
        0xF9 => Some(mk_e(Mnemonic::SBC, 3, 4, AddressingMode::Absolute_Y)),
        0xFA => Some(mk_e(Mnemonic::NOP, 1, 2, AddressingMode::NoneAddressing)),
        0xFB => Some(mk_e(Mnemonic::ISB, 3, 7, AddressingMode::Absolute_Y)),
        0xFC => Some(mk_e(Mnemonic::NOP, 3, 4, AddressingMode::Absolute_X)),
        0xFD => Some(mk_e(Mnemonic::SBC, 3, 4, AddressingMode::Absolute_X)),
        0xFE => Some(mk_e(Mnemonic::INC, 3, 7, AddressingMode::Absolute_X)),
        0xFF => Some(mk_e(Mnemonic::ISB, 3, 7, AddressingMode::Absolute_X)),
        _ => None,
    }
}

} // verus!
