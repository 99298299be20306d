//! The 6502 decode table: for each of the 256 opcode bytes, the mnemonic,
//! the addressing mode, and the base cycle cost. The 151 official opcodes
//! are populated from the documented set; the remaining slots execute as
//! NOPs of the documented cycle cost.

use vstd::prelude::*;

verus! {

/// The 6502 addressing modes (NUL marks the one implied slot that fetches
/// nothing at all).
#[allow(non_camel_case_types)]
#[derive(Clone, Copy, PartialEq, Eq, Structural, Debug)]
pub enum AddrMode {
    NUL,
    ACC,
    IMM,
    ZPG,
    ZPX,
    ZPY,
    ABS,
    ABX,
    ABY,
    IND,
    IDX,
    IDY,
    REL,
}

/// The operations the decode table dispatches to. `NUL` is an undocumented
/// slot: it executes as a NOP with its documented cycle cost.
#[allow(non_camel_case_types)]
#[derive(Clone, Copy, PartialEq, Eq, Structural, Debug)]
pub enum OpKind {
    ADC,
    AND,
    ASL,
    BCC,
    BCS,
    BEQ,
    BIT,
    BMI,
    BNE,
    BPL,
    BRK,
    BVC,
    BVS,
    CLC,
    CLD,
    CLI,
    CLV,
    CMP,
    CPX,
    CPY,
    DEC,
    DEX,
    DEY,
    EOR,
    INC,
    INX,
    INY,
    JMP,
    JSR,
    LDA,
    LDX,
    LDY,
    LSR,
    NOP,
    NUL,
    ORA,
    PHA,
    PHP,
    PLA,
    PLP,
    ROL,
    ROR,
    RTI,
    RTS,
    SBC,
    SEC,
    SED,
    SEI,
    STA,
    STX,
    STY,
    TAX,
    TAY,
    TSX,
    TXA,
    TXS,
    TYA,
}

/// One decode-table entry.
#[derive(Clone, Copy, PartialEq, Eq, Structural, Debug)]
pub struct Opcode {
    pub addr_t: AddrMode,
    pub operation: OpKind,
    pub cycles: u8,
}

pub open spec fn spec_opcode_row0(lo: u8) -> Opcode {
        if lo == 0 {
            Opcode { addr_t: AddrMode::ACC, operation: OpKind::BRK, cycles: 7 }
        } else        if lo == 1 {
            Opcode { addr_t: AddrMode::IDX, operation: OpKind::ORA, cycles: 6 }
        } else        if lo == 2 {
            Opcode { addr_t: AddrMode::ACC, operation: OpKind::NUL, cycles: 2 }
        } else        if lo == 3 {
            Opcode { addr_t: AddrMode::ACC, operation: OpKind::NUL, cycles: 8 }
        } else        if lo == 4 {
            Opcode { addr_t: AddrMode::ACC, operation: OpKind::NUL, cycles: 3 }
        } else        if lo == 5 {
            Opcode { addr_t: AddrMode::ZPG, operation: OpKind::ORA, cycles: 3 }
        } else        if lo == 6 {
            Opcode { addr_t: AddrMode::ZPG, operation: OpKind::ASL, cycles: 5 }
        } else        if lo == 7 {
            Opcode { addr_t: AddrMode::ACC, operation: OpKind::NUL, cycles: 5 }
        } else        if lo == 8 {
            Opcode { addr_t: AddrMode::ACC, operation: OpKind::PHP, cycles: 3 }
        } else        if lo == 9 {
            Opcode { addr_t: AddrMode::IMM, operation: OpKind::ORA, cycles: 2 }
        } else        if lo == 10 {
            Opcode { addr_t: AddrMode::ACC, operation: OpKind::ASL, cycles: 2 }
        } else        if lo == 11 {
            Opcode { addr_t: AddrMode::ACC, operation: OpKind::NUL, cycles: 2 }
        } else        if lo == 12 {
            Opcode { addr_t: AddrMode::ACC, operation: OpKind::NUL, cycles: 4 }
        } else        if lo == 13 {
            Opcode { addr_t: AddrMode::ABS, operation: OpKind::ORA, cycles: 4 }
        } else        if lo == 14 {
            Opcode { addr_t: AddrMode::ABS, operation: OpKind::ASL, cycles: 6 }
        } else {
            Opcode { addr_t: AddrMode::ACC, operation: OpKind::NUL, cycles: 6 }
        }
}

pub open spec fn spec_opcode_row1(lo: u8) -> Opcode {
        if lo == 0 {
            Opcode { addr_t: AddrMode::REL, operation: OpKind::BPL, cycles: 2 }
        } else        if lo == 1 {
            Opcode { addr_t: AddrMode::IDY, operation: OpKind::ORA, cycles: 5 }
        } else        if lo == 2 {
            Opcode { addr_t: AddrMode::ACC, operation: OpKind::NUL, cycles: 2 }
        } else        if lo == 3 {
            Opcode { addr_t: AddrMode::ACC, operation: OpKind::NUL, cycles: 8 }
        } else        if lo == 4 {
            Opcode { addr_t: AddrMode::ACC, operation: OpKind::NUL, cycles: 4 }
        } else        if lo == 5 {
            Opcode { addr_t: AddrMode::ZPX, operation: OpKind::ORA, cycles: 4 }
        } else        if lo == 6 {
            Opcode { addr_t: AddrMode::ZPX, operation: OpKind::ASL, cycles: 6 }
        } else        if lo == 7 {
            Opcode { addr_t: AddrMode::ACC, operation: OpKind::NUL, cycles: 6 }
        } else        if lo == 8 {
            Opcode { addr_t: AddrMode::ACC, operation: OpKind::CLC, cycles: 2 }
        } else        if lo == 9 {
            Opcode { addr_t: AddrMode::ABY, operation: OpKind::ORA, cycles: 4 }
        } else        if lo == 10 {
            Opcode { addr_t: AddrMode::ACC, operation: OpKind::NUL, cycles: 2 }
        } else        if lo == 11 {
            Opcode { addr_t: AddrMode::ACC, operation: OpKind::NUL, cycles: 7 }
        } else        if lo == 12 {
            Opcode { addr_t: AddrMode::ACC, operation: OpKind::NUL, cycles: 4 }
        } else        if lo == 13 {
            Opcode { addr_t: AddrMode::ABX, operation: OpKind::ORA, cycles: 4 }
        } else        if lo == 14 {
            Opcode { addr_t: AddrMode::ABX, operation: OpKind::ASL, cycles: 7 }
        } else {
            Opcode { addr_t: AddrMode::ACC, operation: OpKind::NUL, cycles: 7 }
        }
}

pub open spec fn spec_opcode_row2(lo: u8) -> Opcode {
        if lo == 0 {
            Opcode { addr_t: AddrMode::ABS, operation: OpKind::JSR, cycles: 6 }
        } else        if lo == 1 {
            Opcode { addr_t: AddrMode::IDX, operation: OpKind::AND, cycles: 6 }
        } else        if lo == 2 {
            Opcode { addr_t: AddrMode::ACC, operation: OpKind::NUL, cycles: 2 }
        } else        if lo == 3 {
            Opcode { addr_t: AddrMode::ACC, operation: OpKind::NUL, cycles: 8 }
        } else        if lo == 4 {
            Opcode { addr_t: AddrMode::ZPG, operation: OpKind::BIT, cycles: 3 }
        } else        if lo == 5 {
            Opcode { addr_t: AddrMode::ZPG, operation: OpKind::AND, cycles: 3 }
        } else        if lo == 6 {
            Opcode { addr_t: AddrMode::ZPG, operation: OpKind::ROL, cycles: 5 }
        } else        if lo == 7 {
            Opcode { addr_t: AddrMode::ACC, operation: OpKind::NUL, cycles: 5 }
        } else        if lo == 8 {
            Opcode { addr_t: AddrMode::ACC, operation: OpKind::PLP, cycles: 4 }
        } else        if lo == 9 {
            Opcode { addr_t: AddrMode::IMM, operation: OpKind::AND, cycles: 2 }
        } else        if lo == 10 {
            Opcode { addr_t: AddrMode::ACC, operation: OpKind::ROL, cycles: 2 }
        } else        if lo == 11 {
            Opcode { addr_t: AddrMode::ACC, operation: OpKind::NUL, cycles: 2 }
        } else        if lo == 12 {
            Opcode { addr_t: AddrMode::ABS, operation: OpKind::BIT, cycles: 4 }
        } else        if lo == 13 {
            Opcode { addr_t: AddrMode::ABS, operation: OpKind::AND, cycles: 4 }
        } else        if lo == 14 {
            Opcode { addr_t: AddrMode::ABS, operation: OpKind::ROL, cycles: 6 }
        } else {
            Opcode { addr_t: AddrMode::ACC, operation: OpKind::NUL, cycles: 6 }
        }
}

pub open spec fn spec_opcode_row3(lo: u8) -> Opcode {
        if lo == 0 {
            Opcode { addr_t: AddrMode::REL, operation: OpKind::BMI, cycles: 2 }
        } else        if lo == 1 {
            Opcode { addr_t: AddrMode::IDY, operation: OpKind::AND, cycles: 5 }
        } else        if lo == 2 {
            Opcode { addr_t: AddrMode::ACC, operation: OpKind::NUL, cycles: 2 }
        } else        if lo == 3 {
            Opcode { addr_t: AddrMode::ACC, operation: OpKind::NUL, cycles: 8 }
        } else        if lo == 4 {
            Opcode { addr_t: AddrMode::ACC, operation: OpKind::NUL, cycles: 4 }
        } else        if lo == 5 {
            Opcode { addr_t: AddrMode::ZPX, operation: OpKind::AND, cycles: 4 }
        } else        if lo == 6 {
            Opcode { addr_t: AddrMode::ZPX, operation: OpKind::ROL, cycles: 6 }
        } else        if lo == 7 {
            Opcode { addr_t: AddrMode::ACC, operation: OpKind::NUL, cycles: 6 }
        } else        if lo == 8 {
            Opcode { addr_t: AddrMode::ACC, operation: OpKind::SEC, cycles: 2 }
        } else        if lo == 9 {
            Opcode { addr_t: AddrMode::ABY, operation: OpKind::AND, cycles: 4 }
        } else        if lo == 10 {
            Opcode { addr_t: AddrMode::ACC, operation: OpKind::NUL, cycles: 2 }
        } else        if lo == 11 {
            Opcode { addr_t: AddrMode::ACC, operation: OpKind::NUL, cycles: 7 }
        } else        if lo == 12 {
            Opcode { addr_t: AddrMode::ACC, operation: OpKind::NUL, cycles: 4 }
        } else        if lo == 13 {
            Opcode { addr_t: AddrMode::ABX, operation: OpKind::AND, cycles: 4 }
        } else        if lo == 14 {
            Opcode { addr_t: AddrMode::ABX, operation: OpKind::ROL, cycles: 7 }
        } else {
            Opcode { addr_t: AddrMode::ACC, operation: OpKind::NUL, cycles: 7 }
        }
}

pub open spec fn spec_opcode_row4(lo: u8) -> Opcode {
        if lo == 0 {
            Opcode { addr_t: AddrMode::ACC, operation: OpKind::RTI, cycles: 6 }
        } else        if lo == 1 {
            Opcode { addr_t: AddrMode::IDX, operation: OpKind::EOR, cycles: 6 }
        } else        if lo == 2 {
            Opcode { addr_t: AddrMode::ACC, operation: OpKind::NUL, cycles: 2 }
        } else        if lo == 3 {
            Opcode { addr_t: AddrMode::ACC, operation: OpKind::NUL, cycles: 8 }
        } else        if lo == 4 {
            Opcode { addr_t: AddrMode::ACC, operation: OpKind::NUL, cycles: 3 }
        } else        if lo == 5 {
            Opcode { addr_t: AddrMode::ZPG, operation: OpKind::EOR, cycles: 3 }
        } else        if lo == 6 {
            Opcode { addr_t: AddrMode::ZPG, operation: OpKind::LSR, cycles: 5 }
        } else        if lo == 7 {
            Opcode { addr_t: AddrMode::ACC, operation: OpKind::NUL, cycles: 5 }
        } else        if lo == 8 {
            Opcode { addr_t: AddrMode::ACC, operation: OpKind::PHA, cycles: 3 }
        } else        if lo == 9 {
            Opcode { addr_t: AddrMode::IMM, operation: OpKind::EOR, cycles: 2 }
        } else        if lo == 10 {
            Opcode { addr_t: AddrMode::ACC, operation: OpKind::LSR, cycles: 2 }
        } else        if lo == 11 {
            Opcode { addr_t: AddrMode::ACC, operation: OpKind::NUL, cycles: 2 }
        } else        if lo == 12 {
            Opcode { addr_t: AddrMode::ABS, operation: OpKind::JMP, cycles: 3 }
        } else        if lo == 13 {
            Opcode { addr_t: AddrMode::ABS, operation: OpKind::EOR, cycles: 4 }
        } else        if lo == 14 {
            Opcode { addr_t: AddrMode::ABS, operation: OpKind::LSR, cycles: 6 }
        } else {
            Opcode { addr_t: AddrMode::ACC, operation: OpKind::NUL, cycles: 6 }
        }
}

pub open spec fn spec_opcode_row5(lo: u8) -> Opcode {
        if lo == 0 {
            Opcode { addr_t: AddrMode::REL, operation: OpKind::BVC, cycles: 2 }
        } else        if lo == 1 {
            Opcode { addr_t: AddrMode::IDY, operation: OpKind::EOR, cycles: 5 }
        } else        if lo == 2 {
            Opcode { addr_t: AddrMode::ACC, operation: OpKind::NUL, cycles: 2 }
        } else        if lo == 3 {
            Opcode { addr_t: AddrMode::ACC, operation: OpKind::NUL, cycles: 8 }
        } else        if lo == 4 {
            Opcode { addr_t: AddrMode::ACC, operation: OpKind::NUL, cycles: 4 }
        } else        if lo == 5 {
            Opcode { addr_t: AddrMode::ZPX, operation: OpKind::EOR, cycles: 4 }
        } else        if lo == 6 {
            Opcode { addr_t: AddrMode::ZPX, operation: OpKind::LSR, cycles: 6 }
        } else        if lo == 7 {
            Opcode { addr_t: AddrMode::ACC, operation: OpKind::NUL, cycles: 6 }
        } else        if lo == 8 {
            Opcode { addr_t: AddrMode::ACC, operation: OpKind::CLI, cycles: 2 }
        } else        if lo == 9 {
            Opcode { addr_t: AddrMode::ABY, operation: OpKind::EOR, cycles: 4 }
        } else        if lo == 10 {
            Opcode { addr_t: AddrMode::ACC, operation: OpKind::NUL, cycles: 2 }
        } else        if lo == 11 {
            Opcode { addr_t: AddrMode::ACC, operation: OpKind::NUL, cycles: 7 }
        } else        if lo == 12 {
            Opcode { addr_t: AddrMode::ACC, operation: OpKind::NUL, cycles: 4 }
        } else        if lo == 13 {
            Opcode { addr_t: AddrMode::ABX, operation: OpKind::EOR, cycles: 4 }
        } else        if lo == 14 {
            Opcode { addr_t: AddrMode::ABX, operation: OpKind::LSR, cycles: 7 }
        } else {
            Opcode { addr_t: AddrMode::ACC, operation: OpKind::NUL, cycles: 7 }
        }
}

pub open spec fn spec_opcode_row6(lo: u8) -> Opcode {
        if lo == 0 {
            Opcode { addr_t: AddrMode::NUL, operation: OpKind::RTS, cycles: 6 }
        } else        if lo == 1 {
            Opcode { addr_t: AddrMode::IDX, operation: OpKind::ADC, cycles: 6 }
        } else        if lo == 2 {
            Opcode { addr_t: AddrMode::ACC, operation: OpKind::NUL, cycles: 2 }
        } else        if lo == 3 {
            Opcode { addr_t: AddrMode::ACC, operation: OpKind::NUL, cycles: 8 }
        } else        if lo == 4 {
            Opcode { addr_t: AddrMode::ACC, operation: OpKind::NUL, cycles: 3 }
        } else        if lo == 5 {
            Opcode { addr_t: AddrMode::ZPG, operation: OpKind::ADC, cycles: 3 }
        } else        if lo == 6 {
            Opcode { addr_t: AddrMode::ZPG, operation: OpKind::ROR, cycles: 5 }
        } else        if lo == 7 {
            Opcode { addr_t: AddrMode::ACC, operation: OpKind::NUL, cycles: 5 }
        } else        if lo == 8 {
            Opcode { addr_t: AddrMode::ACC, operation: OpKind::PLA, cycles: 4 }
        } else        if lo == 9 {
            Opcode { addr_t: AddrMode::IMM, operation: OpKind::ADC, cycles: 2 }
        } else        if lo == 10 {
            Opcode { addr_t: AddrMode::ACC, operation: OpKind::ROR, cycles: 2 }
        } else        if lo == 11 {
            Opcode { addr_t: AddrMode::ACC, operation: OpKind::NUL, cycles: 2 }
        } else        if lo == 12 {
            Opcode { addr_t: AddrMode::IND, operation: OpKind::JMP, cycles: 5 }
        } else        if lo == 13 {
            Opcode { addr_t: AddrMode::ABS, operation: OpKind::ADC, cycles: 4 }
        } else        if lo == 14 {
            Opcode { addr_t: AddrMode::ABS, operation: OpKind::ROR, cycles: 6 }
        } else {
            Opcode { addr_t: AddrMode::ACC, operation: OpKind::NUL, cycles: 6 }
        }
}

pub open spec fn spec_opcode_row7(lo: u8) -> Opcode {
        if lo == 0 {
            Opcode { addr_t: AddrMode::REL, operation: OpKind::BVS, cycles: 2 }
        } else        if lo == 1 {
            Opcode { addr_t: AddrMode::IDY, operation: OpKind::ADC, cycles: 5 }
        } else        if lo == 2 {
            Opcode { addr_t: AddrMode::ACC, operation: OpKind::NUL, cycles: 2 }
        } else        if lo == 3 {
            Opcode { addr_t: AddrMode::ACC, operation: OpKind::NUL, cycles: 8 }
        } else        if lo == 4 {
            Opcode { addr_t: AddrMode::ACC, operation: OpKind::NUL, cycles: 4 }
        } else        if lo == 5 {
            Opcode { addr_t: AddrMode::ZPX, operation: OpKind::ADC, cycles: 4 }
        } else        if lo == 6 {
            Opcode { addr_t: AddrMode::ZPX, operation: OpKind::ROR, cycles: 6 }
        } else        if lo == 7 {
            Opcode { addr_t: AddrMode::ACC, operation: OpKind::NUL, cycles: 6 }
        } else        if lo == 8 {
            Opcode { addr_t: AddrMode::ACC, operation: OpKind::SEI, cycles: 2 }
        } else        if lo == 9 {
            Opcode { addr_t: AddrMode::ABY, operation: OpKind::ADC, cycles: 4 }
        } else        if lo == 10 {
            Opcode { addr_t: AddrMode::ACC, operation: OpKind::NUL, cycles: 2 }
        } else        if lo == 11 {
            Opcode { addr_t: AddrMode::ACC, operation: OpKind::NUL, cycles: 7 }
        } else        if lo == 12 {
            Opcode { addr_t: AddrMode::ACC, operation: OpKind::NUL, cycles: 4 }
        } else        if lo == 13 {
            Opcode { addr_t: AddrMode::ABX, operation: OpKind::ADC, cycles: 4 }
        } else        if lo == 14 {
            Opcode { addr_t: AddrMode::ABX, operation: OpKind::ROR, cycles: 7 }
        } else {
            Opcode { addr_t: AddrMode::ACC, operation: OpKind::NUL, cycles: 7 }
        }
}

pub open spec fn spec_opcode_row8(lo: u8) -> Opcode {
        if lo == 0 {
            Opcode { addr_t: AddrMode::ACC, operation: OpKind::NUL, cycles: 2 }
        } else        if lo == 1 {
            Opcode { addr_t: AddrMode::IDX, operation: OpKind::STA, cycles: 6 }
        } else        if lo == 2 {
            Opcode { addr_t: AddrMode::ACC, operation: OpKind::NUL, cycles: 2 }
        } else        if lo == 3 {
            Opcode { addr_t: AddrMode::ACC, operation: OpKind::NUL, cycles: 6 }
        } else        if lo == 4 {
            Opcode { addr_t: AddrMode::ZPG, operation: OpKind::STY, cycles: 3 }
        } else        if lo == 5 {
            Opcode { addr_t: AddrMode::ZPG, operation: OpKind::STA, cycles: 3 }
        } else        if lo == 6 {
            Opcode { addr_t: AddrMode::ZPG, operation: OpKind::STX, cycles: 3 }
        } else        if lo == 7 {
            Opcode { addr_t: AddrMode::ACC, operation: OpKind::NUL, cycles: 3 }
        } else        if lo == 8 {
            Opcode { addr_t: AddrMode::ACC, operation: OpKind::DEY, cycles: 2 }
        } else        if lo == 9 {
            Opcode { addr_t: AddrMode::ACC, operation: OpKind::NUL, cycles: 2 }
        } else        if lo == 10 {
            Opcode { addr_t: AddrMode::ACC, operation: OpKind::TXA, cycles: 2 }
        } else        if lo == 11 {
            Opcode { addr_t: AddrMode::ACC, operation: OpKind::NUL, cycles: 2 }
        } else        if lo == 12 {
            Opcode { addr_t: AddrMode::ABS, operation: OpKind::STY, cycles: 4 }
        } else        if lo == 13 {
            Opcode { addr_t: AddrMode::ABS, operation: OpKind::STA, cycles: 4 }
        } else        if lo == 14 {
            Opcode { addr_t: AddrMode::ABS, operation: OpKind::STX, cycles: 4 }
        } else {
            Opcode { addr_t: AddrMode::ACC, operation: OpKind::NUL, cycles: 4 }
        }
}

pub open spec fn spec_opcode_row9(lo: u8) -> Opcode {
        if lo == 0 {
            Opcode { addr_t: AddrMode::REL, operation: OpKind::BCC, cycles: 2 }
        } else        if lo == 1 {
            Opcode { addr_t: AddrMode::IDY, operation: OpKind::STA, cycles: 6 }
        } else        if lo == 2 {
            Opcode { addr_t: AddrMode::ACC, operation: OpKind::NUL, cycles: 2 }
        } else        if lo == 3 {
            Opcode { addr_t: AddrMode::ACC, operation: OpKind::NUL, cycles: 6 }
        } else        if lo == 4 {
            Opcode { addr_t: AddrMode::ZPX, operation: OpKind::STY, cycles: 4 }
        } else        if lo == 5 {
            Opcode { addr_t: AddrMode::ZPX, operation: OpKind::STA, cycles: 4 }
        } else        if lo == 6 {
            Opcode { addr_t: AddrMode::ZPY, operation: OpKind::STA, cycles: 4 }
        } else        if lo == 7 {
            Opcode { addr_t: AddrMode::ACC, operation: OpKind::NUL, cycles: 4 }
        } else        if lo == 8 {
            Opcode { addr_t: AddrMode::ACC, operation: OpKind::TYA, cycles: 2 }
        } else        if lo == 9 {
            Opcode { addr_t: AddrMode::ABY, operation: OpKind::STA, cycles: 5 }
        } else        if lo == 10 {
            Opcode { addr_t: AddrMode::ACC, operation: OpKind::TXS, cycles: 2 }
        } else        if lo == 11 {
            Opcode { addr_t: AddrMode::ACC, operation: OpKind::NUL, cycles: 5 }
        } else        if lo == 12 {
            Opcode { addr_t: AddrMode::ACC, operation: OpKind::NUL, cycles: 5 }
        } else        if lo == 13 {
            Opcode { addr_t: AddrMode::ABX, operation: OpKind::STA, cycles: 5 }
        } else        if lo == 14 {
            Opcode { addr_t: AddrMode::ACC, operation: OpKind::NUL, cycles: 5 }
        } else {
            Opcode { addr_t: AddrMode::ACC, operation: OpKind::NUL, cycles: 5 }
        }
}

pub open spec fn spec_opcode_rowa(lo: u8) -> Opcode {
        if lo == 0 {
            Opcode { addr_t: AddrMode::IMM, operation: OpKind::LDY, cycles: 2 }
        } else        if lo == 1 {
            Opcode { addr_t: AddrMode::IDX, operation: OpKind::LDA, cycles: 6 }
        } else        if lo == 2 {
            Opcode { addr_t: AddrMode::IMM, operation: OpKind::LDX, cycles: 2 }
        } else        if lo == 3 {
            Opcode { addr_t: AddrMode::ACC, operation: OpKind::NUL, cycles: 6 }
        } else        if lo == 4 {
            Opcode { addr_t: AddrMode::ZPG, operation: OpKind::LDY, cycles: 3 }
        } else        if lo == 5 {
            Opcode { addr_t: AddrMode::ZPG, operation: OpKind::LDA, cycles: 3 }
        } else        if lo == 6 {
            Opcode { addr_t: AddrMode::ZPG, operation: OpKind::LDX, cycles: 3 }
        } else        if lo == 7 {
            Opcode { addr_t: AddrMode::ACC, operation: OpKind::NUL, cycles: 3 }
        } else        if lo == 8 {
            Opcode { addr_t: AddrMode::ACC, operation: OpKind::TAY, cycles: 2 }
        } else        if lo == 9 {
            Opcode { addr_t: AddrMode::IMM, operation: OpKind::LDA, cycles: 2 }
        } else        if lo == 10 {
            Opcode { addr_t: AddrMode::ACC, operation: OpKind::TAX, cycles: 2 }
        } else        if lo == 11 {
            Opcode { addr_t: AddrMode::ACC, operation: OpKind::NUL, cycles: 2 }
        } else        if lo == 12 {
            Opcode { addr_t: AddrMode::ABS, operation: OpKind::LDY, cycles: 4 }
        } else        if lo == 13 {
            Opcode { addr_t: AddrMode::ABS, operation: OpKind::LDA, cycles: 4 }
        } else        if lo == 14 {
            Opcode { addr_t: AddrMode::ABS, operation: OpKind::LDX, cycles: 4 }
        } else {
            Opcode { addr_t: AddrMode::ACC, operation: OpKind::NUL, cycles: 4 }
        }
}

pub open spec fn spec_opcode_rowb(lo: u8) -> Opcode {
        if lo == 0 {
            Opcode { addr_t: AddrMode::REL, operation: OpKind::BCS, cycles: 2 }
        } else        if lo == 1 {
            Opcode { addr_t: AddrMode::IDY, operation: OpKind::LDA, cycles: 5 }
        } else        if lo == 2 {
            Opcode { addr_t: AddrMode::ACC, operation: OpKind::NUL, cycles: 2 }
        } else        if lo == 3 {
            Opcode { addr_t: AddrMode::ACC, operation: OpKind::NUL, cycles: 5 }
        } else        if lo == 4 {
            Opcode { addr_t: AddrMode::ZPX, operation: OpKind::LDY, cycles: 4 }
        } else        if lo == 5 {
            Opcode { addr_t: AddrMode::ZPX, operation: OpKind::LDA, cycles: 4 }
        } else        if lo == 6 {
            Opcode { addr_t: AddrMode::ZPY, operation: OpKind::LDX, cycles: 4 }
        } else        if lo == 7 {
            Opcode { addr_t: AddrMode::ACC, operation: OpKind::NUL, cycles: 4 }
        } else        if lo == 8 {
            Opcode { addr_t: AddrMode::ACC, operation: OpKind::CLV, cycles: 2 }
        } else        if lo == 9 {
            Opcode { addr_t: AddrMode::ABY, operation: OpKind::LDA, cycles: 4 }
        } else        if lo == 10 {
            Opcode { addr_t: AddrMode::ACC, operation: OpKind::TSX, cycles: 2 }
        } else        if lo == 11 {
            Opcode { addr_t: AddrMode::ACC, operation: OpKind::NUL, cycles: 4 }
        } else        if lo == 12 {
            Opcode { addr_t: AddrMode::ABX, operation: OpKind::LDY, cycles: 4 }
        } else        if lo == 13 {
            Opcode { addr_t: AddrMode::ABX, operation: OpKind::LDA, cycles: 4 }
        } else        if lo == 14 {
            Opcode { addr_t: AddrMode::ABY, operation: OpKind::LDX, cycles: 4 }
        } else {
            Opcode { addr_t: AddrMode::ACC, operation: OpKind::NUL, cycles: 4 }
        }
}

pub open spec fn spec_opcode_rowc(lo: u8) -> Opcode {
        if lo == 0 {
            Opcode { addr_t: AddrMode::IMM, operation: OpKind::CPY, cycles: 2 }
        } else        if lo == 1 {
            Opcode { addr_t: AddrMode::IDX, operation: OpKind::CMP, cycles: 6 }
        } else        if lo == 2 {
            Opcode { addr_t: AddrMode::ACC, operation: OpKind::NUL, cycles: 2 }
        } else        if lo == 3 {
            Opcode { addr_t: AddrMode::ACC, operation: OpKind::NUL, cycles: 8 }
        } else        if lo == 4 {
            Opcode { addr_t: AddrMode::ZPG, operation: OpKind::CPY, cycles: 3 }
        } else        if lo == 5 {
            Opcode { addr_t: AddrMode::ZPG, operation: OpKind::CMP, cycles: 3 }
        } else        if lo == 6 {
            Opcode { addr_t: AddrMode::ZPG, operation: OpKind::DEC, cycles: 5 }
        } else        if lo == 7 {
            Opcode { addr_t: AddrMode::ACC, operation: OpKind::NUL, cycles: 5 }
        } else        if lo == 8 {
            Opcode { addr_t: AddrMode::ACC, operation: OpKind::INY, cycles: 2 }
        } else        if lo == 9 {
            Opcode { addr_t: AddrMode::IMM, operation: OpKind::CMP, cycles: 2 }
        } else        if lo == 10 {
            Opcode { addr_t: AddrMode::ACC, operation: OpKind::DEX, cycles: 2 }
        } else        if lo == 11 {
            Opcode { addr_t: AddrMode::ACC, operation: OpKind::NUL, cycles: 2 }
        } else        if lo == 12 {
            Opcode { addr_t: AddrMode::ABS, operation: OpKind::CPY, cycles: 4 }
        } else        if lo == 13 {
            Opcode { addr_t: AddrMode::ABS, operation: OpKind::CMP, cycles: 4 }
        } else        if lo == 14 {
            Opcode { addr_t: AddrMode::ABS, operation: OpKind::DEC, cycles: 6 }
        } else {
            Opcode { addr_t: AddrMode::ACC, operation: OpKind::NUL, cycles: 6 }
        }
}

pub open spec fn spec_opcode_rowd(lo: u8) -> Opcode {
        if lo == 0 {
            Opcode { addr_t: AddrMode::REL, operation: OpKind::BNE, cycles: 2 }
        } else        if lo == 1 {
            Opcode { addr_t: AddrMode::IDY, operation: OpKind::CMP, cycles: 5 }
        } else        if lo == 2 {
            Opcode { addr_t: AddrMode::ACC, operation: OpKind::NUL, cycles: 2 }
        } else        if lo == 3 {
            Opcode { addr_t: AddrMode::ACC, operation: OpKind::NUL, cycles: 8 }
        } else        if lo == 4 {
            Opcode { addr_t: AddrMode::ACC, operation: OpKind::NUL, cycles: 4 }
        } else        if lo == 5 {
            Opcode { addr_t: AddrMode::ZPX, operation: OpKind::CMP, cycles: 4 }
        } else        if lo == 6 {
            Opcode { addr_t: AddrMode::ZPX, operation: OpKind::DEC, cycles: 6 }
        } else        if lo == 7 {
            Opcode { addr_t: AddrMode::ACC, operation: OpKind::NUL, cycles: 6 }
        } else        if lo == 8 {
            Opcode { addr_t: AddrMode::ACC, operation: OpKind::CLD, cycles: 2 }
        } else        if lo == 9 {
            Opcode { addr_t: AddrMode::ABY, operation: OpKind::CMP, cycles: 4 }
        } else        if lo == 10 {
            Opcode { addr_t: AddrMode::ACC, operation: OpKind::NUL, cycles: 2 }
        } else        if lo == 11 {
            Opcode { addr_t: AddrMode::ACC, operation: OpKind::NUL, cycles: 7 }
        } else        if lo == 12 {
            Opcode { addr_t: AddrMode::ACC, operation: OpKind::NUL, cycles: 4 }
        } else        if lo == 13 {
            Opcode { addr_t: AddrMode::ABX, operation: OpKind::CMP, cycles: 4 }
        } else        if lo == 14 {
            Opcode { addr_t: AddrMode::ABX, operation: OpKind::DEC, cycles: 7 }
        } else {
            Opcode { addr_t: AddrMode::ACC, operation: OpKind::NUL, cycles: 7 }
        }
}

pub open spec fn spec_opcode_rowe(lo: u8) -> Opcode {
        if lo == 0 {
            Opcode { addr_t: AddrMode::IMM, operation: OpKind::CPX, cycles: 2 }
        } else        if lo == 1 {
            Opcode { addr_t: AddrMode::ZPG, operation: OpKind::SBC, cycles: 6 }
        } else        if lo == 2 {
            Opcode { addr_t: AddrMode::ACC, operation: OpKind::NUL, cycles: 2 }
        } else        if lo == 3 {
            Opcode { addr_t: AddrMode::ACC, operation: OpKind::NUL, cycles: 8 }
        } else        if lo == 4 {
            Opcode { addr_t: AddrMode::ZPG, operation: OpKind::CPX, cycles: 3 }
        } else        if lo == 5 {
            Opcode { addr_t: AddrMode::ZPX, operation: OpKind::SBC, cycles: 3 }
        } else        if lo == 6 {
            Opcode { addr_t: AddrMode::ZPG, operation: OpKind::INC, cycles: 5 }
        } else        if lo == 7 {
            Opcode { addr_t: AddrMode::ACC, operation: OpKind::NUL, cycles: 5 }
        } else        if lo == 8 {
            Opcode { addr_t: AddrMode::ACC, operation: OpKind::INX, cycles: 2 }
        } else        if lo == 9 {
            Opcode { addr_t: AddrMode::IMM, operation: OpKind::SBC, cycles: 2 }
        } else        if lo == 10 {
            Opcode { addr_t: AddrMode::ACC, operation: OpKind::NOP, cycles: 2 }
        } else        if lo == 11 {
            Opcode { addr_t: AddrMode::ACC, operation: OpKind::NUL, cycles: 2 }
        } else        if lo == 12 {
            Opcode { addr_t: AddrMode::ABS, operation: OpKind::CPX, cycles: 4 }
        } else        if lo == 13 {
            Opcode { addr_t: AddrMode::ABS, operation: OpKind::SBC, cycles: 4 }
        } else        if lo == 14 {
            Opcode { addr_t: AddrMode::ABS, operation: OpKind::INC, cycles: 6 }
        } else {
            Opcode { addr_t: AddrMode::ACC, operation: OpKind::NUL, cycles: 6 }
        }
}

pub open spec fn spec_opcode_rowf(lo: u8) -> Opcode {
        if lo == 0 {
            Opcode { addr_t: AddrMode::REL, operation: OpKind::BEQ, cycles: 2 }
        } else        if lo == 1 {
            Opcode { addr_t: AddrMode::ABX, operation: OpKind::SBC, cycles: 5 }
        } else        if lo == 2 {
            Opcode { addr_t: AddrMode::ACC, operation: OpKind::NUL, cycles: 2 }
        } else        if lo == 3 {
            Opcode { addr_t: AddrMode::ACC, operation: OpKind::NUL, cycles: 8 }
        } else        if lo == 4 {
            Opcode { addr_t: AddrMode::ACC, operation: OpKind::NUL, cycles: 4 }
        } else        if lo == 5 {
            Opcode { addr_t: AddrMode::ABY, operation: OpKind::SBC, cycles: 4 }
        } else        if lo == 6 {
            Opcode { addr_t: AddrMode::ZPX, operation: OpKind::INC, cycles: 6 }
        } else        if lo == 7 {
            Opcode { addr_t: AddrMode::ACC, operation: OpKind::NUL, cycles: 6 }
        } else        if lo == 8 {
            Opcode { addr_t: AddrMode::ACC, operation: OpKind::SED, cycles: 2 }
        } else        if lo == 9 {
            Opcode { addr_t: AddrMode::IDX, operation: OpKind::SBC, cycles: 4 }
        } else        if lo == 10 {
            Opcode { addr_t: AddrMode::ACC, operation: OpKind::NUL, cycles: 2 }
        } else        if lo == 11 {
            Opcode { addr_t: AddrMode::ACC, operation: OpKind::NUL, cycles: 7 }
        } else        if lo == 12 {
            Opcode { addr_t: AddrMode::ACC, operation: OpKind::NUL, cycles: 4 }
        } else        if lo == 13 {
            Opcode { addr_t: AddrMode::IDY, operation: OpKind::SBC, cycles: 4 }
        } else        if lo == 14 {
            Opcode { addr_t: AddrMode::ABX, operation: OpKind::INC, cycles: 7 }
        } else {
            Opcode { addr_t: AddrMode::ACC, operation: OpKind::NUL, cycles: 7 }
        }
}

fn opcode_row0(lo: u8) -> (r: Opcode)
    requires
        lo < 16,
    ensures
        r == spec_opcode_row0(lo),
{
    match lo {
            0 => Opcode { addr_t: AddrMode::ACC, operation: OpKind::BRK, cycles: 7 },
            1 => Opcode { addr_t: AddrMode::IDX, operation: OpKind::ORA, cycles: 6 },
            2 => Opcode { addr_t: AddrMode::ACC, operation: OpKind::NUL, cycles: 2 },
            3 => Opcode { addr_t: AddrMode::ACC, operation: OpKind::NUL, cycles: 8 },
            4 => Opcode { addr_t: AddrMode::ACC, operation: OpKind::NUL, cycles: 3 },
            5 => Opcode { addr_t: AddrMode::ZPG, operation: OpKind::ORA, cycles: 3 },
            6 => Opcode { addr_t: AddrMode::ZPG, operation: OpKind::ASL, cycles: 5 },
            7 => Opcode { addr_t: AddrMode::ACC, operation: OpKind::NUL, cycles: 5 },
            8 => Opcode { addr_t: AddrMode::ACC, operation: OpKind::PHP, cycles: 3 },
            9 => Opcode { addr_t: AddrMode::IMM, operation: OpKind::ORA, cycles: 2 },
            10 => Opcode { addr_t: AddrMode::ACC, operation: OpKind::ASL, cycles: 2 },
            11 => Opcode { addr_t: AddrMode::ACC, operation: OpKind::NUL, cycles: 2 },
            12 => Opcode { addr_t: AddrMode::ACC, operation: OpKind::NUL, cycles: 4 },
            13 => Opcode { addr_t: AddrMode::ABS, operation: OpKind::ORA, cycles: 4 },
            14 => Opcode { addr_t: AddrMode::ABS, operation: OpKind::ASL, cycles: 6 },
            _ => Opcode { addr_t: AddrMode::ACC, operation: OpKind::NUL, cycles: 6 },
    }
}

fn opcode_row1(lo: u8) -> (r: Opcode)
    requires
        lo < 16,
    ensures
        r == spec_opcode_row1(lo),
{
    match lo {
            0 => Opcode { addr_t: AddrMode::REL, operation: OpKind::BPL, cycles: 2 },
            1 => Opcode { addr_t: AddrMode::IDY, operation: OpKind::ORA, cycles: 5 },
            2 => Opcode { addr_t: AddrMode::ACC, operation: OpKind::NUL, cycles: 2 },
            3 => Opcode { addr_t: AddrMode::ACC, operation: OpKind::NUL, cycles: 8 },
            4 => Opcode { addr_t: AddrMode::ACC, operation: OpKind::NUL, cycles: 4 },
            5 => Opcode { addr_t: AddrMode::ZPX, operation: OpKind::ORA, cycles: 4 },
            6 => Opcode { addr_t: AddrMode::ZPX, operation: OpKind::ASL, cycles: 6 },
            7 => Opcode { addr_t: AddrMode::ACC, operation: OpKind::NUL, cycles: 6 },
            8 => Opcode { addr_t: AddrMode::ACC, operation: OpKind::CLC, cycles: 2 },
            9 => Opcode { addr_t: AddrMode::ABY, operation: OpKind::ORA, cycles: 4 },
            10 => Opcode { addr_t: AddrMode::ACC, operation: OpKind::NUL, cycles: 2 },
            11 => Opcode { addr_t: AddrMode::ACC, operation: OpKind::NUL, cycles: 7 },
            12 => Opcode { addr_t: AddrMode::ACC, operation: OpKind::NUL, cycles: 4 },
            13 => Opcode { addr_t: AddrMode::ABX, operation: OpKind::ORA, cycles: 4 },
            14 => Opcode { addr_t: AddrMode::ABX, operation: OpKind::ASL, cycles: 7 },
            _ => Opcode { addr_t: AddrMode::ACC, operation: OpKind::NUL, cycles: 7 },
    }
}

fn opcode_row2(lo: u8) -> (r: Opcode)
    requires
        lo < 16,
    ensures
        r == spec_opcode_row2(lo),
{
    match lo {
            0 => Opcode { addr_t: AddrMode::ABS, operation: OpKind::JSR, cycles: 6 },
            1 => Opcode { addr_t: AddrMode::IDX, operation: OpKind::AND, cycles: 6 },
            2 => Opcode { addr_t: AddrMode::ACC, operation: OpKind::NUL, cycles: 2 },
            3 => Opcode { addr_t: AddrMode::ACC, operation: OpKind::NUL, cycles: 8 },
            4 => Opcode { addr_t: AddrMode::ZPG, operation: OpKind::BIT, cycles: 3 },
            5 => Opcode { addr_t: AddrMode::ZPG, operation: OpKind::AND, cycles: 3 },
            6 => Opcode { addr_t: AddrMode::ZPG, operation: OpKind::ROL, cycles: 5 },
            7 => Opcode { addr_t: AddrMode::ACC, operation: OpKind::NUL, cycles: 5 },
            8 => Opcode { addr_t: AddrMode::ACC, operation: OpKind::PLP, cycles: 4 },
            9 => Opcode { addr_t: AddrMode::IMM, operation: OpKind::AND, cycles: 2 },
            10 => Opcode { addr_t: AddrMode::ACC, operation: OpKind::ROL, cycles: 2 },
            11 => Opcode { addr_t: AddrMode::ACC, operation: OpKind::NUL, cycles: 2 },
            12 => Opcode { addr_t: AddrMode::ABS, operation: OpKind::BIT, cycles: 4 },
            13 => Opcode { addr_t: AddrMode::ABS, operation: OpKind::AND, cycles: 4 },
            14 => Opcode { addr_t: AddrMode::ABS, operation: OpKind::ROL, cycles: 6 },
            _ => Opcode { addr_t: AddrMode::ACC, operation: OpKind::NUL, cycles: 6 },
    }
}

fn opcode_row3(lo: u8) -> (r: Opcode)
    requires
        lo < 16,
    ensures
        r == spec_opcode_row3(lo),
{
    match lo {
            0 => Opcode { addr_t: AddrMode::REL, operation: OpKind::BMI, cycles: 2 },
            1 => Opcode { addr_t: AddrMode::IDY, operation: OpKind::AND, cycles: 5 },
            2 => Opcode { addr_t: AddrMode::ACC, operation: OpKind::NUL, cycles: 2 },
            3 => Opcode { addr_t: AddrMode::ACC, operation: OpKind::NUL, cycles: 8 },
            4 => Opcode { addr_t: AddrMode::ACC, operation: OpKind::NUL, cycles: 4 },
            5 => Opcode { addr_t: AddrMode::ZPX, operation: OpKind::AND, cycles: 4 },
            6 => Opcode { addr_t: AddrMode::ZPX, operation: OpKind::ROL, cycles: 6 },
            7 => Opcode { addr_t: AddrMode::ACC, operation: OpKind::NUL, cycles: 6 },
            8 => Opcode { addr_t: AddrMode::ACC, operation: OpKind::SEC, cycles: 2 },
            9 => Opcode { addr_t: AddrMode::ABY, operation: OpKind::AND, cycles: 4 },
            10 => Opcode { addr_t: AddrMode::ACC, operation: OpKind::NUL, cycles: 2 },
            11 => Opcode { addr_t: AddrMode::ACC, operation: OpKind::NUL, cycles: 7 },
            12 => Opcode { addr_t: AddrMode::ACC, operation: OpKind::NUL, cycles: 4 },
            13 => Opcode { addr_t: AddrMode::ABX, operation: OpKind::AND, cycles: 4 },
            14 => Opcode { addr_t: AddrMode::ABX, operation: OpKind::ROL, cycles: 7 },
            _ => Opcode { addr_t: AddrMode::ACC, operation: OpKind::NUL, cycles: 7 },
    }
}

fn opcode_row4(lo: u8) -> (r: Opcode)
    requires
        lo < 16,
    ensures
        r == spec_opcode_row4(lo),
{
    match lo {
            0 => Opcode { addr_t: AddrMode::ACC, operation: OpKind::RTI, cycles: 6 },
            1 => Opcode { addr_t: AddrMode::IDX, operation: OpKind::EOR, cycles: 6 },
            2 => Opcode { addr_t: AddrMode::ACC, operation: OpKind::NUL, cycles: 2 },
            3 => Opcode { addr_t: AddrMode::ACC, operation: OpKind::NUL, cycles: 8 },
            4 => Opcode { addr_t: AddrMode::ACC, operation: OpKind::NUL, cycles: 3 },
            5 => Opcode { addr_t: AddrMode::ZPG, operation: OpKind::EOR, cycles: 3 },
            6 => Opcode { addr_t: AddrMode::ZPG, operation: OpKind::LSR, cycles: 5 },
            7 => Opcode { addr_t: AddrMode::ACC, operation: OpKind::NUL, cycles: 5 },
            8 => Opcode { addr_t: AddrMode::ACC, operation: OpKind::PHA, cycles: 3 },
            9 => Opcode { addr_t: AddrMode::IMM, operation: OpKind::EOR, cycles: 2 },
            10 => Opcode { addr_t: AddrMode::ACC, operation: OpKind::LSR, cycles: 2 },
            11 => Opcode { addr_t: AddrMode::ACC, operation: OpKind::NUL, cycles: 2 },
            12 => Opcode { addr_t: AddrMode::ABS, operation: OpKind::JMP, cycles: 3 },
            13 => Opcode { addr_t: AddrMode::ABS, operation: OpKind::EOR, cycles: 4 },
            14 => Opcode { addr_t: AddrMode::ABS, operation: OpKind::LSR, cycles: 6 },
            _ => Opcode { addr_t: AddrMode::ACC, operation: OpKind::NUL, cycles: 6 },
    }
}

fn opcode_row5(lo: u8) -> (r: Opcode)
    requires
        lo < 16,
    ensures
        r == spec_opcode_row5(lo),
{
    match lo {
            0 => Opcode { addr_t: AddrMode::REL, operation: OpKind::BVC, cycles: 2 },
            1 => Opcode { addr_t: AddrMode::IDY, operation: OpKind::EOR, cycles: 5 },
            2 => Opcode { addr_t: AddrMode::ACC, operation: OpKind::NUL, cycles: 2 },
            3 => Opcode { addr_t: AddrMode::ACC, operation: OpKind::NUL, cycles: 8 },
            4 => Opcode { addr_t: AddrMode::ACC, operation: OpKind::NUL, cycles: 4 },
            5 => Opcode { addr_t: AddrMode::ZPX, operation: OpKind::EOR, cycles: 4 },
            6 => Opcode { addr_t: AddrMode::ZPX, operation: OpKind::LSR, cycles: 6 },
            7 => Opcode { addr_t: AddrMode::ACC, operation: OpKind::NUL, cycles: 6 },
            8 => Opcode { addr_t: AddrMode::ACC, operation: OpKind::CLI, cycles: 2 },
            9 => Opcode { addr_t: AddrMode::ABY, operation: OpKind::EOR, cycles: 4 },
            10 => Opcode { addr_t: AddrMode::ACC, operation: OpKind::NUL, cycles: 2 },
            11 => Opcode { addr_t: AddrMode::ACC, operation: OpKind::NUL, cycles: 7 },
            12 => Opcode { addr_t: AddrMode::ACC, operation: OpKind::NUL, cycles: 4 },
            13 => Opcode { addr_t: AddrMode::ABX, operation: OpKind::EOR, cycles: 4 },
            14 => Opcode { addr_t: AddrMode::ABX, operation: OpKind::LSR, cycles: 7 },
            _ => Opcode { addr_t: AddrMode::ACC, operation: OpKind::NUL, cycles: 7 },
    }
}

fn opcode_row6(lo: u8) -> (r: Opcode)
    requires
        lo < 16,
    ensures
        r == spec_opcode_row6(lo),
{
    match lo {
            0 => Opcode { addr_t: AddrMode::NUL, operation: OpKind::RTS, cycles: 6 },
            1 => Opcode { addr_t: AddrMode::IDX, operation: OpKind::ADC, cycles: 6 },
            2 => Opcode { addr_t: AddrMode::ACC, operation: OpKind::NUL, cycles: 2 },
            3 => Opcode { addr_t: AddrMode::ACC, operation: OpKind::NUL, cycles: 8 },
            4 => Opcode { addr_t: AddrMode::ACC, operation: OpKind::NUL, cycles: 3 },
            5 => Opcode { addr_t: AddrMode::ZPG, operation: OpKind::ADC, cycles: 3 },
            6 => Opcode { addr_t: AddrMode::ZPG, operation: OpKind::ROR, cycles: 5 },
            7 => Opcode { addr_t: AddrMode::ACC, operation: OpKind::NUL, cycles: 5 },
            8 => Opcode { addr_t: AddrMode::ACC, operation: OpKind::PLA, cycles: 4 },
            9 => Opcode { addr_t: AddrMode::IMM, operation: OpKind::ADC, cycles: 2 },
            10 => Opcode { addr_t: AddrMode::ACC, operation: OpKind::ROR, cycles: 2 },
            11 => Opcode { addr_t: AddrMode::ACC, operation: OpKind::NUL, cycles: 2 },
            12 => Opcode { addr_t: AddrMode::IND, operation: OpKind::JMP, cycles: 5 },
            13 => Opcode { addr_t: AddrMode::ABS, operation: OpKind::ADC, cycles: 4 },
            14 => Opcode { addr_t: AddrMode::ABS, operation: OpKind::ROR, cycles: 6 },
            _ => Opcode { addr_t: AddrMode::ACC, operation: OpKind::NUL, cycles: 6 },
    }
}

fn opcode_row7(lo: u8) -> (r: Opcode)
    requires
        lo < 16,
    ensures
        r == spec_opcode_row7(lo),
{
    match lo {
            0 => Opcode { addr_t: AddrMode::REL, operation: OpKind::BVS, cycles: 2 },
            1 => Opcode { addr_t: AddrMode::IDY, operation: OpKind::ADC, cycles: 5 },
            2 => Opcode { addr_t: AddrMode::ACC, operation: OpKind::NUL, cycles: 2 },
            3 => Opcode { addr_t: AddrMode::ACC, operation: OpKind::NUL, cycles: 8 },
            4 => Opcode { addr_t: AddrMode::ACC, operation: OpKind::NUL, cycles: 4 },
            5 => Opcode { addr_t: AddrMode::ZPX, operation: OpKind::ADC, cycles: 4 },
            6 => Opcode { addr_t: AddrMode::ZPX, operation: OpKind::ROR, cycles: 6 },
            7 => Opcode { addr_t: AddrMode::ACC, operation: OpKind::NUL, cycles: 6 },
            8 => Opcode { addr_t: AddrMode::ACC, operation: OpKind::SEI, cycles: 2 },
            9 => Opcode { addr_t: AddrMode::ABY, operation: OpKind::ADC, cycles: 4 },
            10 => Opcode { addr_t: AddrMode::ACC, operation: OpKind::NUL, cycles: 2 },
            11 => Opcode { addr_t: AddrMode::ACC, operation: OpKind::NUL, cycles: 7 },
            12 => Opcode { addr_t: AddrMode::ACC, operation: OpKind::NUL, cycles: 4 },
            13 => Opcode { addr_t: AddrMode::ABX, operation: OpKind::ADC, cycles: 4 },
            14 => Opcode { addr_t: AddrMode::ABX, operation: OpKind::ROR, cycles: 7 },
            _ => Opcode { addr_t: AddrMode::ACC, operation: OpKind::NUL, cycles: 7 },
    }
}

fn opcode_row8(lo: u8) -> (r: Opcode)
    requires
        lo < 16,
    ensures
        r == spec_opcode_row8(lo),
{
    match lo {
            0 => Opcode { addr_t: AddrMode::ACC, operation: OpKind::NUL, cycles: 2 },
            1 => Opcode { addr_t: AddrMode::IDX, operation: OpKind::STA, cycles: 6 },
            2 => Opcode { addr_t: AddrMode::ACC, operation: OpKind::NUL, cycles: 2 },
            3 => Opcode { addr_t: AddrMode::ACC, operation: OpKind::NUL, cycles: 6 },
            4 => Opcode { addr_t: AddrMode::ZPG, operation: OpKind::STY, cycles: 3 },
            5 => Opcode { addr_t: AddrMode::ZPG, operation: OpKind::STA, cycles: 3 },
            6 => Opcode { addr_t: AddrMode::ZPG, operation: OpKind::STX, cycles: 3 },
            7 => Opcode { addr_t: AddrMode::ACC, operation: OpKind::NUL, cycles: 3 },
            8 => Opcode { addr_t: AddrMode::ACC, operation: OpKind::DEY, cycles: 2 },
            9 => Opcode { addr_t: AddrMode::ACC, operation: OpKind::NUL, cycles: 2 },
            10 => Opcode { addr_t: AddrMode::ACC, operation: OpKind::TXA, cycles: 2 },
            11 => Opcode { addr_t: AddrMode::ACC, operation: OpKind::NUL, cycles: 2 },
            12 => Opcode { addr_t: AddrMode::ABS, operation: OpKind::STY, cycles: 4 },
            13 => Opcode { addr_t: AddrMode::ABS, operation: OpKind::STA, cycles: 4 },
            14 => Opcode { addr_t: AddrMode::ABS, operation: OpKind::STX, cycles: 4 },
            _ => Opcode { addr_t: AddrMode::ACC, operation: OpKind::NUL, cycles: 4 },
    }
}

fn opcode_row9(lo: u8) -> (r: Opcode)
    requires
        lo < 16,
    ensures
        r == spec_opcode_row9(lo),
{
    match lo {
            0 => Opcode { addr_t: AddrMode::REL, operation: OpKind::BCC, cycles: 2 },
            1 => Opcode { addr_t: AddrMode::IDY, operation: OpKind::STA, cycles: 6 },
            2 => Opcode { addr_t: AddrMode::ACC, operation: OpKind::NUL, cycles: 2 },
            3 => Opcode { addr_t: AddrMode::ACC, operation: OpKind::NUL, cycles: 6 },
            4 => Opcode { addr_t: AddrMode::ZPX, operation: OpKind::STY, cycles: 4 },
            5 => Opcode { addr_t: AddrMode::ZPX, operation: OpKind::STA, cycles: 4 },
            6 => Opcode { addr_t: AddrMode::ZPY, operation: OpKind::STA, cycles: 4 },
            7 => Opcode { addr_t: AddrMode::ACC, operation: OpKind::NUL, cycles: 4 },
            8 => Opcode { addr_t: AddrMode::ACC, operation: OpKind::TYA, cycles: 2 },
            9 => Opcode { addr_t: AddrMode::ABY, operation: OpKind::STA, cycles: 5 },
            10 => Opcode { addr_t: AddrMode::ACC, operation: OpKind::TXS, cycles: 2 },
            11 => Opcode { addr_t: AddrMode::ACC, operation: OpKind::NUL, cycles: 5 },
            12 => Opcode { addr_t: AddrMode::ACC, operation: OpKind::NUL, cycles: 5 },
            13 => Opcode { addr_t: AddrMode::ABX, operation: OpKind::STA, cycles: 5 },
            14 => Opcode { addr_t: AddrMode::ACC, operation: OpKind::NUL, cycles: 5 },
            _ => Opcode { addr_t: AddrMode::ACC, operation: OpKind::NUL, cycles: 5 },
    }
}

fn opcode_rowa(lo: u8) -> (r: Opcode)
    requires
        lo < 16,
    ensures
        r == spec_opcode_rowa(lo),
{
    match lo {
            0 => Opcode { addr_t: AddrMode::IMM, operation: OpKind::LDY, cycles: 2 },
            1 => Opcode { addr_t: AddrMode::IDX, operation: OpKind::LDA, cycles: 6 },
            2 => Opcode { addr_t: AddrMode::IMM, operation: OpKind::LDX, cycles: 2 },
            3 => Opcode { addr_t: AddrMode::ACC, operation: OpKind::NUL, cycles: 6 },
            4 => Opcode { addr_t: AddrMode::ZPG, operation: OpKind::LDY, cycles: 3 },
            5 => Opcode { addr_t: AddrMode::ZPG, operation: OpKind::LDA, cycles: 3 },
            6 => Opcode { addr_t: AddrMode::ZPG, operation: OpKind::LDX, cycles: 3 },
            7 => Opcode { addr_t: AddrMode::ACC, operation: OpKind::NUL, cycles: 3 },
            8 => Opcode { addr_t: AddrMode::ACC, operation: OpKind::TAY, cycles: 2 },
            9 => Opcode { addr_t: AddrMode::IMM, operation: OpKind::LDA, cycles: 2 },
            10 => Opcode { addr_t: AddrMode::ACC, operation: OpKind::TAX, cycles: 2 },
            11 => Opcode { addr_t: AddrMode::ACC, operation: OpKind::NUL, cycles: 2 },
            12 => Opcode { addr_t: AddrMode::ABS, operation: OpKind::LDY, cycles: 4 },
            13 => Opcode { addr_t: AddrMode::ABS, operation: OpKind::LDA, cycles: 4 },
            14 => Opcode { addr_t: AddrMode::ABS, operation: OpKind::LDX, cycles: 4 },
            _ => Opcode { addr_t: AddrMode::ACC, operation: OpKind::NUL, cycles: 4 },
    }
}

fn opcode_rowb(lo: u8) -> (r: Opcode)
    requires
        lo < 16,
    ensures
        r == spec_opcode_rowb(lo),
{
    match lo {
            0 => Opcode { addr_t: AddrMode::REL, operation: OpKind::BCS, cycles: 2 },
            1 => Opcode { addr_t: AddrMode::IDY, operation: OpKind::LDA, cycles: 5 },
            2 => Opcode { addr_t: AddrMode::ACC, operation: OpKind::NUL, cycles: 2 },
            3 => Opcode { addr_t: AddrMode::ACC, operation: OpKind::NUL, cycles: 5 },
            4 => Opcode { addr_t: AddrMode::ZPX, operation: OpKind::LDY, cycles: 4 },
            5 => Opcode { addr_t: AddrMode::ZPX, operation: OpKind::LDA, cycles: 4 },
            6 => Opcode { addr_t: AddrMode::ZPY, operation: OpKind::LDX, cycles: 4 },
            7 => Opcode { addr_t: AddrMode::ACC, operation: OpKind::NUL, cycles: 4 },
            8 => Opcode { addr_t: AddrMode::ACC, operation: OpKind::CLV, cycles: 2 },
            9 => Opcode { addr_t: AddrMode::ABY, operation: OpKind::LDA, cycles: 4 },
            10 => Opcode { addr_t: AddrMode::ACC, operation: OpKind::TSX, cycles: 2 },
            11 => Opcode { addr_t: AddrMode::ACC, operation: OpKind::NUL, cycles: 4 },
            12 => Opcode { addr_t: AddrMode::ABX, operation: OpKind::LDY, cycles: 4 },
            13 => Opcode { addr_t: AddrMode::ABX, operation: OpKind::LDA, cycles: 4 },
            14 => Opcode { addr_t: AddrMode::ABY, operation: OpKind::LDX, cycles: 4 },
            _ => Opcode { addr_t: AddrMode::ACC, operation: OpKind::NUL, cycles: 4 },
    }
}

fn opcode_rowc(lo: u8) -> (r: Opcode)
    requires
        lo < 16,
    ensures
        r == spec_opcode_rowc(lo),
{
    match lo {
            0 => Opcode { addr_t: AddrMode::IMM, operation: OpKind::CPY, cycles: 2 },
            1 => Opcode { addr_t: AddrMode::IDX, operation: OpKind::CMP, cycles: 6 },
            2 => Opcode { addr_t: AddrMode::ACC, operation: OpKind::NUL, cycles: 2 },
            3 => Opcode { addr_t: AddrMode::ACC, operation: OpKind::NUL, cycles: 8 },
            4 => Opcode { addr_t: AddrMode::ZPG, operation: OpKind::CPY, cycles: 3 },
            5 => Opcode { addr_t: AddrMode::ZPG, operation: OpKind::CMP, cycles: 3 },
            6 => Opcode { addr_t: AddrMode::ZPG, operation: OpKind::DEC, cycles: 5 },
            7 => Opcode { addr_t: AddrMode::ACC, operation: OpKind::NUL, cycles: 5 },
            8 => Opcode { addr_t: AddrMode::ACC, operation: OpKind::INY, cycles: 2 },
            9 => Opcode { addr_t: AddrMode::IMM, operation: OpKind::CMP, cycles: 2 },
            10 => Opcode { addr_t: AddrMode::ACC, operation: OpKind::DEX, cycles: 2 },
            11 => Opcode { addr_t: AddrMode::ACC, operation: OpKind::NUL, cycles: 2 },
            12 => Opcode { addr_t: AddrMode::ABS, operation: OpKind::CPY, cycles: 4 },
            13 => Opcode { addr_t: AddrMode::ABS, operation: OpKind::CMP, cycles: 4 },
            14 => Opcode { addr_t: AddrMode::ABS, operation: OpKind::DEC, cycles: 6 },
            _ => Opcode { addr_t: AddrMode::ACC, operation: OpKind::NUL, cycles: 6 },
    }
}

fn opcode_rowd(lo: u8) -> (r: Opcode)
    requires
        lo < 16,
    ensures
        r == spec_opcode_rowd(lo),
{
    match lo {
            0 => Opcode { addr_t: AddrMode::REL, operation: OpKind::BNE, cycles: 2 },
            1 => Opcode { addr_t: AddrMode::IDY, operation: OpKind::CMP, cycles: 5 },
            2 => Opcode { addr_t: AddrMode::ACC, operation: OpKind::NUL, cycles: 2 },
            3 => Opcode { addr_t: AddrMode::ACC, operation: OpKind::NUL, cycles: 8 },
            4 => Opcode { addr_t: AddrMode::ACC, operation: OpKind::NUL, cycles: 4 },
            5 => Opcode { addr_t: AddrMode::ZPX, operation: OpKind::CMP, cycles: 4 },
            6 => Opcode { addr_t: AddrMode::ZPX, operation: OpKind::DEC, cycles: 6 },
            7 => Opcode { addr_t: AddrMode::ACC, operation: OpKind::NUL, cycles: 6 },
            8 => Opcode { addr_t: AddrMode::ACC, operation: OpKind::CLD, cycles: 2 },
            9 => Opcode { addr_t: AddrMode::ABY, operation: OpKind::CMP, cycles: 4 },
            10 => Opcode { addr_t: AddrMode::ACC, operation: OpKind::NUL, cycles: 2 },
            11 => Opcode { addr_t: AddrMode::ACC, operation: OpKind::NUL, cycles: 7 },
            12 => Opcode { addr_t: AddrMode::ACC, operation: OpKind::NUL, cycles: 4 },
            13 => Opcode { addr_t: AddrMode::ABX, operation: OpKind::CMP, cycles: 4 },
            14 => Opcode { addr_t: AddrMode::ABX, operation: OpKind::DEC, cycles: 7 },
            _ => Opcode { addr_t: AddrMode::ACC, operation: OpKind::NUL, cycles: 7 },
    }
}

fn opcode_rowe(lo: u8) -> (r: Opcode)
    requires
        lo < 16,
    ensures
        r == spec_opcode_rowe(lo),
{
    match lo {
            0 => Opcode { addr_t: AddrMode::IMM, operation: OpKind::CPX, cycles: 2 },
            1 => Opcode { addr_t: AddrMode::ZPG, operation: OpKind::SBC, cycles: 6 },
            2 => Opcode { addr_t: AddrMode::ACC, operation: OpKind::NUL, cycles: 2 },
            3 => Opcode { addr_t: AddrMode::ACC, operation: OpKind::NUL, cycles: 8 },
            4 => Opcode { addr_t: AddrMode::ZPG, operation: OpKind::CPX, cycles: 3 },
            5 => Opcode { addr_t: AddrMode::ZPX, operation: OpKind::SBC, cycles: 3 },
            6 => Opcode { addr_t: AddrMode::ZPG, operation: OpKind::INC, cycles: 5 },
            7 => Opcode { addr_t: AddrMode::ACC, operation: OpKind::NUL, cycles: 5 },
            8 => Opcode { addr_t: AddrMode::ACC, operation: OpKind::INX, cycles: 2 },
            9 => Opcode { addr_t: AddrMode::IMM, operation: OpKind::SBC, cycles: 2 },
            10 => Opcode { addr_t: AddrMode::ACC, operation: OpKind::NOP, cycles: 2 },
            11 => Opcode { addr_t: AddrMode::ACC, operation: OpKind::NUL, cycles: 2 },
            12 => Opcode { addr_t: AddrMode::ABS, operation: OpKind::CPX, cycles: 4 },
            13 => Opcode { addr_t: AddrMode::ABS, operation: OpKind::SBC, cycles: 4 },
            14 => Opcode { addr_t: AddrMode::ABS, operation: OpKind::INC, cycles: 6 },
            _ => Opcode { addr_t: AddrMode::ACC, operation: OpKind::NUL, cycles: 6 },
    }
}

fn opcode_rowf(lo: u8) -> (r: Opcode)
    requires
        lo < 16,
    ensures
        r == spec_opcode_rowf(lo),
{
    match lo {
            0 => Opcode { addr_t: AddrMode::REL, operation: OpKind::BEQ, cycles: 2 },
            1 => Opcode { addr_t: AddrMode::ABX, operation: OpKind::SBC, cycles: 5 },
            2 => Opcode { addr_t: AddrMode::ACC, operation: OpKind::NUL, cycles: 2 },
            3 => Opcode { addr_t: AddrMode::ACC, operation: OpKind::NUL, cycles: 8 },
            4 => Opcode { addr_t: AddrMode::ACC, operation: OpKind::NUL, cycles: 4 },
            5 => Opcode { addr_t: AddrMode::ABY, operation: OpKind::SBC, cycles: 4 },
            6 => Opcode { addr_t: AddrMode::ZPX, operation: OpKind::INC, cycles: 6 },
            7 => Opcode { addr_t: AddrMode::ACC, operation: OpKind::NUL, cycles: 6 },
            8 => Opcode { addr_t: AddrMode::ACC, operation: OpKind::SED, cycles: 2 },
            9 => Opcode { addr_t: AddrMode::IDX, operation: OpKind::SBC, cycles: 4 },
            10 => Opcode { addr_t: AddrMode::ACC, operation: OpKind::NUL, cycles: 2 },
            11 => Opcode { addr_t: AddrMode::ACC, operation: OpKind::NUL, cycles: 7 },
            12 => Opcode { addr_t: AddrMode::ACC, operation: OpKind::NUL, cycles: 4 },
            13 => Opcode { addr_t: AddrMode::IDY, operation: OpKind::SBC, cycles: 4 },
            14 => Opcode { addr_t: AddrMode::ABX, operation: OpKind::INC, cycles: 7 },
            _ => Opcode { addr_t: AddrMode::ACC, operation: OpKind::NUL, cycles: 7 },
    }
}

/// The decode-table entry for opcode byte `code`.
pub open spec fn spec_opcode(code: u8) -> Opcode {
    let hi = code / 16;
    let lo = code % 16;
    if hi == 0 {
        spec_opcode_row0(lo)
    } else    if hi == 1 {
        spec_opcode_row1(lo)
    } else    if hi == 2 {
        spec_opcode_row2(lo)
    } else    if hi == 3 {
        spec_opcode_row3(lo)
    } else    if hi == 4 {
        spec_opcode_row4(lo)
    } else    if hi == 5 {
        spec_opcode_row5(lo)
    } else    if hi == 6 {
        spec_opcode_row6(lo)
    } else    if hi == 7 {
        spec_opcode_row7(lo)
    } else    if hi == 8 {
        spec_opcode_row8(lo)
    } else    if hi == 9 {
        spec_opcode_row9(lo)
    } else    if hi == 10 {
        spec_opcode_rowa(lo)
    } else    if hi == 11 {
        spec_opcode_rowb(lo)
    } else    if hi == 12 {
        spec_opcode_rowc(lo)
    } else    if hi == 13 {
        spec_opcode_rowd(lo)
    } else    if hi == 14 {
        spec_opcode_rowe(lo)
    } else {
        spec_opcode_rowf(lo)
    }
}

/// Every table entry's base cost lies between 1 and 8 cycles.
pub proof fn lemma_opcode_cycles(code: u8)
    ensures
        1 <= spec_opcode(code).cycles <= 8,
{
    let lo = code % 16;
    assert(lo < 16);
}

/// Decode an opcode byte.
pub fn opcode_lookup(code: u8) -> (r: Opcode)
    ensures
        r == spec_opcode(code),
        1 <= r.cycles <= 8,
{
    let hi = code / 16;
    let lo = code % 16;
    let r = if hi == 0 {
        opcode_row0(lo)
    } else if hi == 1 {
        opcode_row1(lo)
    } else if hi == 2 {
        opcode_row2(lo)
    } else if hi == 3 {
        opcode_row3(lo)
    } else if hi == 4 {
        opcode_row4(lo)
    } else if hi == 5 {
        opcode_row5(lo)
    } else if hi == 6 {
        opcode_row6(lo)
    } else if hi == 7 {
        opcode_row7(lo)
    } else if hi == 8 {
        opcode_row8(lo)
    } else if hi == 9 {
        opcode_row9(lo)
    } else if hi == 10 {
        opcode_rowa(lo)
    } else if hi == 11 {
        opcode_rowb(lo)
    } else if hi == 12 {
        opcode_rowc(lo)
    } else if hi == 13 {
        opcode_rowd(lo)
    } else if hi == 14 {
        opcode_rowe(lo)
    } else {
        opcode_rowf(lo)
    };
    proof {
        lemma_opcode_cycles(code);
    }
    r
}

impl Opcode {
    /// The mnemonic, as the disassembly prints it.
    pub fn name(&self) -> (r: &'static str)
    {
        match self.operation {
            OpKind::ADC => "ADC",
            OpKind::AND => "AND",
            OpKind::ASL => "ASL",
            OpKind::BCC => "BCC",
            OpKind::BCS => "BCS",
            OpKind::BEQ => "BEQ",
            OpKind::BIT => "BIT",
            OpKind::BMI => "BMI",
            OpKind::BNE => "BNE",
            OpKind::BPL => "BPL",
            OpKind::BRK => "BRK",
            OpKind::BVC => "BVC",
            OpKind::BVS => "BVS",
            OpKind::CLC => "CLC",
            OpKind::CLD => "CLD",
            OpKind::CLI => "CLI",
            OpKind::CLV => "CLV",
            OpKind::CMP => "CMP",
            OpKind::CPX => "CPX",
            OpKind::CPY => "CPY",
            OpKind::DEC => "DEC",
            OpKind::DEX => "DEX",
            OpKind::DEY => "DEY",
            OpKind::EOR => "XOR",
            OpKind::INC => "INC",
            OpKind::INX => "INX",
            OpKind::INY => "INY",
            OpKind::JMP => "JMP",
            OpKind::JSR => "JSR",
            OpKind::LDA => "LDA",
            OpKind::LDX => "LDX",
            OpKind::LDY => "LDY",
            OpKind::LSR => "LSR",
            OpKind::NOP => "NOP",
            OpKind::NUL => "NUL",
            OpKind::ORA => "ORA",
            OpKind::PHA => "PHA",
            OpKind::PHP => "PHP",
            OpKind::PLA => "PLA",
            OpKind::PLP => "PLP",
            OpKind::ROL => "ROL",
            OpKind::ROR => "ROR",
            OpKind::RTI => "RTI",
            OpKind::RTS => "RTS",
            OpKind::SBC => "SBC",
            OpKind::SEC => "SEC",
            OpKind::SED => "SED",
            OpKind::SEI => "SEI",
            OpKind::STA => "STA",
            OpKind::STX => "STX",
            OpKind::STY => "STY",
            OpKind::TAX => "TAX",
            OpKind::TAY => "TAY",
            OpKind::TSX => "TSX",
            OpKind::TXA => "TXA",
            OpKind::TXS => "TXS",
            OpKind::TYA => "TYA",
        }
    }

    /// Whether this entry is the return-from-subroutine instruction.
    pub fn is_rts(&self) -> (r: bool)
        ensures
            r == (self.operation == OpKind::RTS),
    {
        match self.operation {
            OpKind::RTS => true,
            _ => false,
        }
    }

    /// How many bytes the instruction occupies, by addressing mode.
    pub open spec fn spec_byte_size(self) -> u16 {
        match self.addr_t {
            AddrMode::NUL => 1u16,
            AddrMode::ACC => 1u16,
            AddrMode::IMM => 2u16,
            AddrMode::ZPG => 2u16,
            AddrMode::ZPX => 2u16,
            AddrMode::ZPY => 2u16,
            AddrMode::ABS => 3u16,
            AddrMode::ABX => 3u16,
            AddrMode::ABY => 3u16,
            AddrMode::IND => 3u16,
            AddrMode::IDX => 2u16,
            AddrMode::IDY => 2u16,
            AddrMode::REL => 2u16,
        }
    }

    pub fn get_opcode_byte_size(&self) -> (r: u16)
        ensures
            r == self.spec_byte_size(),
            1 <= r <= 3,
    {
        match self.addr_t {
            AddrMode::NUL => 1,
            AddrMode::ACC => 1,
            AddrMode::IMM => 2,
            AddrMode::ZPG => 2,
            AddrMode::ZPX => 2,
            AddrMode::ZPY => 2,
            AddrMode::ABS => 3,
            AddrMode::ABX => 3,
            AddrMode::ABY => 3,
            AddrMode::IND => 3,
            AddrMode::IDX => 2,
            AddrMode::IDY => 2,
            AddrMode::REL => 2,
        }
    }
}

} // verus!
