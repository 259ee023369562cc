//! The opcode table: what each supported opcode byte stands for.

use crate::cpu::AddressingMode;
use vstd::prelude::*;

verus! {

/// The instruction that an opcode byte selects, whatever its addressing mode.
#[derive(Clone, Copy, Debug, PartialEq, Eq, Structural)]
pub enum Mnemonic {
    /// Add with carry.
    ADC,
    /// Bitwise and with the accumulator.
    AND,
    /// Arithmetic shift left.
    ASL,
    /// Branch if carry clear.
    BCC,
    /// Branch if carry set.
    BCS,
    /// Branch if zero set.
    BEQ,
    /// Bit test.
    BIT,
    /// Branch if negative set.
    BMI,
    /// Branch if zero clear.
    BNE,
    /// Branch if negative clear.
    BPL,
    /// Halt.
    BRK,
    /// Branch if overflow clear.
    BVC,
    /// Branch if overflow set.
    BVS,
    /// Clear carry.
    CLC,
    /// Clear decimal mode.
    CLD,
    /// Clear interrupt disable.
    CLI,
    /// Clear overflow.
    CLV,
    /// Compare with the accumulator.
    CMP,
    /// Compare with X.
    CPX,
    /// Compare with Y.
    CPY,
    /// Decrement memory.
    DEC,
    /// Decrement X.
    DEX,
    /// Decrement Y.
    DEY,
    /// Bitwise exclusive or with the accumulator.
    EOR,
    /// Increment memory.
    INC,
    /// Increment X.
    INX,
    /// Increment Y.
    INY,
    /// Jump.
    JMP,
    /// Jump to subroutine.
    JSR,
    /// Load the accumulator.
    LDA,
    /// Load X.
    LDX,
    /// Load Y.
    LDY,
    /// Logical shift right.
    LSR,
    /// No operation.
    NOP,
    /// Bitwise or with the accumulator.
    ORA,
    /// Push the accumulator.
    PHA,
    /// Push the status register.
    PHP,
    /// Pull the accumulator.
    PLA,
    /// Pull the status register.
    PLP,
    /// Rotate left through carry.
    ROL,
    /// Rotate right through carry.
    ROR,
    /// Return from interrupt.
    RTI,
    /// Return from subroutine.
    RTS,
    /// Subtract with carry.
    SBC,
    /// Set carry.
    SEC,
    /// Set decimal mode.
    SED,
    /// Set interrupt disable.
    SEI,
    /// Store the accumulator.
    STA,
    /// Store X.
    STX,
    /// Store Y.
    STY,
    /// Transfer the accumulator to X.
    TAX,
    /// Transfer the accumulator to Y.
    TAY,
    /// Transfer the stack pointer to X.
    TSX,
    /// Transfer X to the accumulator.
    TXA,
    /// Transfer X to the stack pointer.
    TXS,
    /// Transfer Y to the accumulator.
    TYA,
}

/// The families that the instructions fall into.
#[derive(Clone, Copy, Debug, PartialEq, Eq, Structural)]
pub enum Family {
    /// Loads, stores and register transfers.
    Transfer,
    /// Addition and subtraction, bitwise operations, comparisons, increments
    /// and decrements.
    Arithmetic,
    /// Shifts and rotations.
    Shift,
    /// Conditional branches.
    Branch,
    /// Jumps, calls and returns, the halt and the no-op.
    Control,
    /// Pushes and pops.
    Stack,
    /// Setting and clearing of single flags.
    Flag,
}

impl Mnemonic {
    /// The family of the instruction.
    pub open spec fn family(self) -> Family {
        match self {
            Mnemonic::LDA
            | Mnemonic::LDX
            | Mnemonic::LDY
            | Mnemonic::STA
            | Mnemonic::STX
            | Mnemonic::STY
            | Mnemonic::TAX
            | Mnemonic::TAY
            | Mnemonic::TSX
            | Mnemonic::TXA
            | Mnemonic::TXS
            | Mnemonic::TYA => Family::Transfer,
            Mnemonic::ADC
            | Mnemonic::SBC
            | Mnemonic::AND
            | Mnemonic::EOR
            | Mnemonic::ORA
            | Mnemonic::BIT
            | Mnemonic::CMP
            | Mnemonic::CPX
            | Mnemonic::CPY
            | Mnemonic::INC
            | Mnemonic::DEC
            | Mnemonic::INX
            | Mnemonic::INY
            | Mnemonic::DEX
            | Mnemonic::DEY => Family::Arithmetic,
            Mnemonic::ASL | Mnemonic::LSR | Mnemonic::ROL | Mnemonic::ROR => Family::Shift,
            Mnemonic::BCC
            | Mnemonic::BCS
            | Mnemonic::BEQ
            | Mnemonic::BNE
            | Mnemonic::BMI
            | Mnemonic::BPL
            | Mnemonic::BVC
            | Mnemonic::BVS => Family::Branch,
            Mnemonic::JMP
            | Mnemonic::JSR
            | Mnemonic::RTS
            | Mnemonic::RTI
            | Mnemonic::BRK
            | Mnemonic::NOP => Family::Control,
            Mnemonic::PHA | Mnemonic::PHP | Mnemonic::PLA | Mnemonic::PLP => Family::Stack,
            Mnemonic::CLC
            | Mnemonic::CLD
            | Mnemonic::CLI
            | Mnemonic::CLV
            | Mnemonic::SEC
            | Mnemonic::SED
            | Mnemonic::SEI => Family::Flag,
        }
    }
}

/// One entry of the opcode table.
#[derive(Clone, Copy, Debug)]
pub struct OpCode {
    /// The opcode byte.
    pub code: u8,
    /// The instruction it selects.
    pub mnemonic: Mnemonic,
    /// The length of the whole instruction in bytes, opcode byte included.
    pub len: u8,
    /// The base number of clock cycles. Execution is not paced by it.
    pub cycles: u8,
    /// How the operand, if any, is addressed.
    pub mode: AddressingMode,
}

impl OpCode {
    /// The entry with the given fields.
    pub fn new(code: u8, mnemonic: Mnemonic, len: u8, cycles: u8, mode: AddressingMode) -> (op:
        OpCode)
        ensures
            op == (OpCode { code, mnemonic, len, cycles, mode }),
    {
        OpCode { code, mnemonic, len, cycles, mode }
    }

    /// The instruction reads or writes an operand in memory, found through the
    /// entry's addressing mode.
    pub open spec fn takes_operand(self) -> bool {
        match self.mnemonic {
            Mnemonic::ADC
            | Mnemonic::AND
            | Mnemonic::BIT
            | Mnemonic::CMP
            | Mnemonic::CPX
            | Mnemonic::CPY
            | Mnemonic::DEC
            | Mnemonic::EOR
            | Mnemonic::INC
            | Mnemonic::LDA
            | Mnemonic::LDX
            | Mnemonic::LDY
            | Mnemonic::ORA
            | Mnemonic::SBC
            | Mnemonic::STA
            | Mnemonic::STX
            | Mnemonic::STY => true,
            Mnemonic::ASL | Mnemonic::LSR | Mnemonic::ROL | Mnemonic::ROR => self.mode
                != AddressingMode::NoneAddressing,
            _ => false,
        }
    }

    /// The family of the entry's instruction.
    pub open spec fn family(self) -> Family {
        self.mnemonic.family()
    }

    /// The entry can be executed: it is one to three bytes long, and if its
    /// instruction works on an operand in memory, it says how to address it.
    pub open spec fn executable(self) -> bool {
        &&& 1 <= self.len <= 3
        &&& self.takes_operand() ==> self.mode != AddressingMode::NoneAddressing
    }
}

/// The entry with the given fields, as the table holds it.
pub open spec fn entry(
    code: u8,
    mnemonic: Mnemonic,
    len: u8,
    cycles: u8,
    mode: AddressingMode,
) -> Option<OpCode> {
    Some(OpCode { code, mnemonic, len, cycles, mode })
}

/// The table. A byte without an entry is no instruction of this processor.
#[verifier::opaque]
pub open spec fn opcode(code: u8) -> Option<OpCode> {
    match code {
        0x00 => entry(0x00, Mnemonic::BRK, 1, 7, AddressingMode::NoneAddressing),
        0x01 => entry(0x01, Mnemonic::ORA, 2, 6, AddressingMode::Indirect_X),
        0x05 => entry(0x05, Mnemonic::ORA, 2, 3, AddressingMode::ZeroPage),
        0x06 => entry(0x06, Mnemonic::ASL, 2, 5, AddressingMode::ZeroPage),
        0x08 => entry(0x08, Mnemonic::PHP, 1, 3, AddressingMode::NoneAddressing),
        0x09 => entry(0x09, Mnemonic::ORA, 2, 2, AddressingMode::Immediate),
        0x0A => entry(0x0A, Mnemonic::ASL, 1, 2, AddressingMode::NoneAddressing),
        0x0D => entry(0x0D, Mnemonic::ORA, 3, 4, AddressingMode::Absolute),
        0x0E => entry(0x0E, Mnemonic::ASL, 3, 6, AddressingMode::Absolute),
        0x10 => entry(0x10, Mnemonic::BPL, 2, 2, AddressingMode::NoneAddressing),
        0x11 => entry(0x11, Mnemonic::ORA, 2, 5, AddressingMode::Indirect_Y),
        0x15 => entry(0x15, Mnemonic::ORA, 2, 4, AddressingMode::ZeroPage_X),
        0x16 => entry(0x16, Mnemonic::ASL, 2, 6, AddressingMode::ZeroPage_X),
        0x18 => entry(0x18, Mnemonic::CLC, 1, 2, AddressingMode::NoneAddressing),
        0x19 => entry(0x19, Mnemonic::ORA, 3, 4, AddressingMode::Absolute_Y),
        0x1D => entry(0x1D, Mnemonic::ORA, 3, 4, AddressingMode::Absolute_X),
        0x1E => entry(0x1E, Mnemonic::ASL, 3, 7, AddressingMode::Absolute_X),
        0x20 => entry(0x20, Mnemonic::JSR, 3, 6, AddressingMode::NoneAddressing),
        0x21 => entry(0x21, Mnemonic::AND, 2, 6, AddressingMode::Indirect_X),
        0x24 => entry(0x24, Mnemonic::BIT, 2, 3, AddressingMode::ZeroPage),
        0x25 => entry(0x25, Mnemonic::AND, 2, 3, AddressingMode::ZeroPage),
        0x26 => entry(0x26, Mnemonic::ROL, 2, 5, AddressingMode::ZeroPage),
        0x28 => entry(0x28, Mnemonic::PLP, 1, 4, AddressingMode::NoneAddressing),
        0x29 => entry(0x29, Mnemonic::AND, 2, 2, AddressingMode::Immediate),
        0x2A => entry(0x2A, Mnemonic::ROL, 1, 2, AddressingMode::NoneAddressing),
        0x2C => entry(0x2C, Mnemonic::BIT, 3, 4, AddressingMode::Absolute),
        0x2D => entry(0x2D, Mnemonic::AND, 3, 4, AddressingMode::Absolute),
        0x2E => entry(0x2E, Mnemonic::ROL, 3, 6, AddressingMode::Absolute),
        0x30 => entry(0x30, Mnemonic::BMI, 2, 2, AddressingMode::NoneAddressing),
        0x31 => entry(0x31, Mnemonic::AND, 2, 5, AddressingMode::Indirect_Y),
        0x35 => entry(0x35, Mnemonic::AND, 2, 4, AddressingMode::ZeroPage_X),
        0x36 => entry(0x36, Mnemonic::ROL, 2, 6, AddressingMode::ZeroPage_X),
        0x38 => entry(0x38, Mnemonic::SEC, 1, 2, AddressingMode::NoneAddressing),
        0x39 => entry(0x39, Mnemonic::AND, 3, 4, AddressingMode::Absolute_Y),
        0x3D => entry(0x3D, Mnemonic::AND, 3, 4, AddressingMode::Absolute_X),
        0x3E => entry(0x3E, Mnemonic::ROL, 3, 7, AddressingMode::Absolute_X),
        0x40 => entry(0x40, Mnemonic::RTI, 1, 6, AddressingMode::NoneAddressing),
        0x41 => entry(0x41, Mnemonic::EOR, 2, 6, AddressingMode::Indirect_X),
        0x45 => entry(0x45, Mnemonic::EOR, 2, 3, AddressingMode::ZeroPage),
        0x46 => entry(0x46, Mnemonic::LSR, 2, 5, AddressingMode::ZeroPage),
        0x48 => entry(0x48, Mnemonic::PHA, 1, 3, AddressingMode::NoneAddressing),
        0x49 => entry(0x49, Mnemonic::EOR, 2, 2, AddressingMode::Immediate),
        0x4A => entry(0x4A, Mnemonic::LSR, 1, 2, AddressingMode::NoneAddressing),
        0x4C => entry(0x4C, Mnemonic::JMP, 3, 3, AddressingMode::NoneAddressing),
        0x4D => entry(0x4D, Mnemonic::EOR, 3, 4, AddressingMode::Absolute),
        0x4E => entry(0x4E, Mnemonic::LSR, 3, 6, AddressingMode::Absolute),
        0x50 => entry(0x50, Mnemonic::BVC, 2, 2, AddressingMode::NoneAddressing),
        0x51 => entry(0x51, Mnemonic::EOR, 2, 5, AddressingMode::Indirect_Y),
        0x55 => entry(0x55, Mnemonic::EOR, 2, 4, AddressingMode::ZeroPage_X),
        0x56 => entry(0x56, Mnemonic::LSR, 2, 6, AddressingMode::ZeroPage_X),
        0x58 => entry(0x58, Mnemonic::CLI, 1, 2, AddressingMode::NoneAddressing),
        0x59 => entry(0x59, Mnemonic::EOR, 3, 4, AddressingMode::Absolute_Y),
        0x5D => entry(0x5D, Mnemonic::EOR, 3, 4, AddressingMode::Absolute_X),
        0x5E => entry(0x5E, Mnemonic::LSR, 3, 7, AddressingMode::Absolute_X),
        0x60 => entry(0x60, Mnemonic::RTS, 1, 6, AddressingMode::NoneAddressing),
        0x61 => entry(0x61, Mnemonic::ADC, 2, 6, AddressingMode::Indirect_X),
        0x65 => entry(0x65, Mnemonic::ADC, 2, 3, AddressingMode::ZeroPage),
        0x66 => entry(0x66, Mnemonic::ROR, 2, 5, AddressingMode::ZeroPage),
        0x68 => entry(0x68, Mnemonic::PLA, 1, 4, AddressingMode::NoneAddressing),
        0x69 => entry(0x69, Mnemonic::ADC, 2, 2, AddressingMode::Immediate),
        0x6A => entry(0x6A, Mnemonic::ROR, 1, 2, AddressingMode::NoneAddressing),
        0x6C => entry(0x6C, Mnemonic::JMP, 3, 5, AddressingMode::NoneAddressing),
        0x6D => entry(0x6D, Mnemonic::ADC, 3, 4, AddressingMode::Absolute),
        0x6E => entry(0x6E, Mnemonic::ROR, 3, 6, AddressingMode::Absolute),
        0x70 => entry(0x70, Mnemonic::BVS, 2, 2, AddressingMode::NoneAddressing),
        0x71 => entry(0x71, Mnemonic::ADC, 2, 5, AddressingMode::Indirect_Y),
        0x75 => entry(0x75, Mnemonic::ADC, 2, 4, AddressingMode::ZeroPage_X),
        0x76 => entry(0x76, Mnemonic::ROR, 2, 6, AddressingMode::ZeroPage_X),
        0x78 => entry(0x78, Mnemonic::SEI, 1, 2, AddressingMode::NoneAddressing),
        0x79 => entry(0x79, Mnemonic::ADC, 3, 4, AddressingMode::Absolute_Y),
        0x7D => entry(0x7D, Mnemonic::ADC, 3, 4, AddressingMode::Absolute_X),
        0x7E => entry(0x7E, Mnemonic::ROR, 3, 7, AddressingMode::Absolute_X),
        0x81 => entry(0x81, Mnemonic::STA, 2, 6, AddressingMode::Indirect_X),
        0x84 => entry(0x84, Mnemonic::STY, 2, 3, AddressingMode::ZeroPage),
        0x85 => entry(0x85, Mnemonic::STA, 2, 3, AddressingMode::ZeroPage),
        0x86 => entry(0x86, Mnemonic::STX, 2, 3, AddressingMode::ZeroPage),
        0x88 => entry(0x88, Mnemonic::DEY, 1, 2, AddressingMode::NoneAddressing),
        0x8A => entry(0x8A, Mnemonic::TXA, 1, 2, AddressingMode::NoneAddressing),
        0x8C => entry(0x8C, Mnemonic::STY, 3, 4, AddressingMode::Absolute),
        0x8D => entry(0x8D, Mnemonic::STA, 3, 4, AddressingMode::Absolute),
        0x8E => entry(0x8E, Mnemonic::STX, 3, 4, AddressingMode::Absolute),
        0x90 => entry(0x90, Mnemonic::BCC, 2, 2, AddressingMode::NoneAddressing),
        0x91 => entry(0x91, Mnemonic::STA, 2, 6, AddressingMode::Indirect_Y),
        0x94 => entry(0x94, Mnemonic::STY, 2, 4, AddressingMode::ZeroPage_X),
        0x95 => entry(0x95, Mnemonic::STA, 2, 4, AddressingMode::ZeroPage_X),
        0x96 => entry(0x96, Mnemonic::STX, 2, 4, AddressingMode::ZeroPage_Y),
        0x98 => entry(0x98, Mnemonic::TYA, 1, 2, AddressingMode::NoneAddressing),
        0x99 => entry(0x99, Mnemonic::STA, 3, 5, AddressingMode::Absolute_Y),
        0x9A => entry(0x9A, Mnemonic::TXS, 1, 2, AddressingMode::NoneAddressing),
        0x9D => entry(0x9D, Mnemonic::STA, 3, 5, AddressingMode::Absolute_X),
        0xA0 => entry(0xA0, Mnemonic::LDY, 2, 2, AddressingMode::Immediate),
        0xA1 => entry(0xA1, Mnemonic::LDA, 2, 6, AddressingMode::Indirect_X),
        0xA2 => entry(0xA2, Mnemonic::LDX, 2, 2, AddressingMode::Immediate),
        0xA4 => entry(0xA4, Mnemonic::LDY, 2, 3, AddressingMode::ZeroPage),
        0xA5 => entry(0xA5, Mnemonic::LDA, 2, 3, AddressingMode::ZeroPage),
        0xA6 => entry(0xA6, Mnemonic::LDX, 2, 3, AddressingMode::ZeroPage),
        0xA8 => entry(0xA8, Mnemonic::TAY, 1, 2, AddressingMode::NoneAddressing),
        0xA9 => entry(0xA9, Mnemonic::LDA, 2, 2, AddressingMode::Immediate),
        0xAA => entry(0xAA, Mnemonic::TAX, 1, 2, AddressingMode::NoneAddressing),
        0xAC => entry(0xAC, Mnemonic::LDY, 3, 4, AddressingMode::Absolute),
        0xAD => entry(0xAD, Mnemonic::LDA, 3, 4, AddressingMode::Absolute),
        0xAE => entry(0xAE, Mnemonic::LDX, 3, 4, AddressingMode::Absolute),
        0xB0 => entry(0xB0, Mnemonic::BCS, 2, 2, AddressingMode::NoneAddressing),
        0xB1 => entry(0xB1, Mnemonic::LDA, 2, 5, AddressingMode::Indirect_Y),
        0xB4 => entry(0xB4, Mnemonic::LDY, 2, 4, AddressingMode::ZeroPage_X),
        0xB5 => entry(0xB5, Mnemonic::LDA, 2, 4, AddressingMode::ZeroPage_X),
        0xB6 => entry(0xB6, Mnemonic::LDX, 2, 4, AddressingMode::ZeroPage_Y),
        0xB8 => entry(0xB8, Mnemonic::CLV, 1, 2, AddressingMode::NoneAddressing),
        0xB9 => entry(0xB9, Mnemonic::LDA, 3, 4, AddressingMode::Absolute_Y),
        0xBA => entry(0xBA, Mnemonic::TSX, 1, 2, AddressingMode::NoneAddressing),
        0xBC => entry(0xBC, Mnemonic::LDY, 3, 4, AddressingMode::Absolute_X),
        0xBD => entry(0xBD, Mnemonic::LDA, 3, 4, AddressingMode::Absolute_X),
        0xBE => entry(0xBE, Mnemonic::LDX, 3, 4, AddressingMode::Absolute_Y),
        0xC0 => entry(0xC0, Mnemonic::CPY, 2, 2, AddressingMode::Immediate),
        0xC1 => entry(0xC1, Mnemonic::CMP, 2, 6, AddressingMode::Indirect_X),
        0xC4 => entry(0xC4, Mnemonic::CPY, 2, 3, AddressingMode::ZeroPage),
        0xC5 => entry(0xC5, Mnemonic::CMP, 2, 3, AddressingMode::ZeroPage),
        0xC6 => entry(0xC6, Mnemonic::DEC, 2, 5, AddressingMode::ZeroPage),
        0xC8 => entry(0xC8, Mnemonic::INY, 1, 2, AddressingMode::NoneAddressing),
        0xC9 => entry(0xC9, Mnemonic::CMP, 2, 2, AddressingMode::Immediate),
        0xCA => entry(0xCA, Mnemonic::DEX, 1, 2, AddressingMode::NoneAddressing),
        0xCC => entry(0xCC, Mnemonic::CPY, 3, 4, AddressingMode::Absolute),
        0xCD => entry(0xCD, Mnemonic::CMP, 3, 4, AddressingMode::Absolute),
        0xCE => entry(0xCE, Mnemonic::DEC, 3, 6, AddressingMode::Absolute),
        0xD0 => entry(0xD0, Mnemonic::BNE, 2, 2, AddressingMode::NoneAddressing),
        0xD1 => entry(0xD1, Mnemonic::CMP, 2, 5, AddressingMode::Indirect_Y),
        0xD5 => entry(0xD5, Mnemonic::CMP, 2, 4, AddressingMode::ZeroPage_X),
        0xD6 => entry(0xD6, Mnemonic::DEC, 2, 6, AddressingMode::ZeroPage_X),
        0xD8 => entry(0xD8, Mnemonic::CLD, 1, 2, AddressingMode::NoneAddressing),
        0xD9 => entry(0xD9, Mnemonic::CMP, 3, 4, AddressingMode::Absolute_Y),
        0xDD => entry(0xDD, Mnemonic::CMP, 3, 4, AddressingMode::Absolute_X),
        0xDE => entry(0xDE, Mnemonic::DEC, 3, 7, AddressingMode::Absolute_X),
        0xE0 => entry(0xE0, Mnemonic::CPX, 2, 2, AddressingMode::Immediate),
        0xE1 => entry(0xE1, Mnemonic::SBC, 2, 6, AddressingMode::Indirect_X),
        0xE4 => entry(0xE4, Mnemonic::CPX, 2, 3, AddressingMode::ZeroPage),
        0xE5 => entry(0xE5, Mnemonic::SBC, 2, 3, AddressingMode::ZeroPage),
        0xE6 => entry(0xE6, Mnemonic::INC, 2, 5, AddressingMode::ZeroPage),
        0xE8 => entry(0xE8, Mnemonic::INX, 1, 2, AddressingMode::NoneAddressing),
        0xE9 => entry(0xE9, Mnemonic::SBC, 2, 2, AddressingMode::Immediate),
        0xEA => entry(0xEA, Mnemonic::NOP, 1, 2, AddressingMode::NoneAddressing),
        0xEC => entry(0xEC, Mnemonic::CPX, 3, 4, AddressingMode::Absolute),
        0xED => entry(0xED, Mnemonic::SBC, 3, 4, AddressingMode::Absolute),
        0xEE => entry(0xEE, Mnemonic::INC, 3, 6, AddressingMode::Absolute),
        0xF0 => entry(0xF0, Mnemonic::BEQ, 2, 2, AddressingMode::NoneAddressing),
        0xF1 => entry(0xF1, Mnemonic::SBC, 2, 5, AddressingMode::Indirect_Y),
        0xF5 => entry(0xF5, Mnemonic::SBC, 2, 4, AddressingMode::ZeroPage_X),
        0xF6 => entry(0xF6, Mnemonic::INC, 2, 6, AddressingMode::ZeroPage_X),
        0xF8 => entry(0xF8, Mnemonic::SED, 1, 2, AddressingMode::NoneAddressing),
        0xF9 => entry(0xF9, Mnemonic::SBC, 3, 4, AddressingMode::Absolute_Y),
        0xFD => entry(0xFD, Mnemonic::SBC, 3, 4, AddressingMode::Absolute_X),
        0xFE => entry(0xFE, Mnemonic::INC, 3, 7, AddressingMode::Absolute_X),
        _ => None,
    }
}

/// Looks an opcode byte up in the table.
pub fn lookup(code: u8) -> (entry: Option<OpCode>)
    ensures
        entry == opcode(code),
{
    reveal(opcode);
    match code {
        0x00 => Some(OpCode::new(0x00, Mnemonic::BRK, 1, 7, AddressingMode::NoneAddressing)),
        0x01 => Some(OpCode::new(0x01, Mnemonic::ORA, 2, 6, AddressingMode::Indirect_X)),
        0x05 => Some(OpCode::new(0x05, Mnemonic::ORA, 2, 3, AddressingMode::ZeroPage)),
        0x06 => Some(OpCode::new(0x06, Mnemonic::ASL, 2, 5, AddressingMode::ZeroPage)),
        0x08 => Some(OpCode::new(0x08, Mnemonic::PHP, 1, 3, AddressingMode::NoneAddressing)),
        0x09 => Some(OpCode::new(0x09, Mnemonic::ORA, 2, 2, AddressingMode::Immediate)),
        0x0A => Some(OpCode::new(0x0A, Mnemonic::ASL, 1, 2, AddressingMode::NoneAddressing)),
        0x0D => Some(OpCode::new(0x0D, Mnemonic::ORA, 3, 4, AddressingMode::Absolute)),
        0x0E => Some(OpCode::new(0x0E, Mnemonic::ASL, 3, 6, AddressingMode::Absolute)),
        0x10 => Some(OpCode::new(0x10, Mnemonic::BPL, 2, 2, AddressingMode::NoneAddressing)),
        0x11 => Some(OpCode::new(0x11, Mnemonic::ORA, 2, 5, AddressingMode::Indirect_Y)),
        0x15 => Some(OpCode::new(0x15, Mnemonic::ORA, 2, 4, AddressingMode::ZeroPage_X)),
        0x16 => Some(OpCode::new(0x16, Mnemonic::ASL, 2, 6, AddressingMode::ZeroPage_X)),
        0x18 => Some(OpCode::new(0x18, Mnemonic::CLC, 1, 2, AddressingMode::NoneAddressing)),
        0x19 => Some(OpCode::new(0x19, Mnemonic::ORA, 3, 4, AddressingMode::Absolute_Y)),
        0x1D => Some(OpCode::new(0x1D, Mnemonic::ORA, 3, 4, AddressingMode::Absolute_X)),
        0x1E => Some(OpCode::new(0x1E, Mnemonic::ASL, 3, 7, AddressingMode::Absolute_X)),
        0x20 => Some(OpCode::new(0x20, Mnemonic::JSR, 3, 6, AddressingMode::NoneAddressing)),
        0x21 => Some(OpCode::new(0x21, Mnemonic::AND, 2, 6, AddressingMode::Indirect_X)),
        0x24 => Some(OpCode::new(0x24, Mnemonic::BIT, 2, 3, AddressingMode::ZeroPage)),
        0x25 => Some(OpCode::new(0x25, Mnemonic::AND, 2, 3, AddressingMode::ZeroPage)),
        0x26 => Some(OpCode::new(0x26, Mnemonic::ROL, 2, 5, AddressingMode::ZeroPage)),
        0x28 => Some(OpCode::new(0x28, Mnemonic::PLP, 1, 4, AddressingMode::NoneAddressing)),
        0x29 => Some(OpCode::new(0x29, Mnemonic::AND, 2, 2, AddressingMode::Immediate)),
        0x2A => Some(OpCode::new(0x2A, Mnemonic::ROL, 1, 2, AddressingMode::NoneAddressing)),
        0x2C => Some(OpCode::new(0x2C, Mnemonic::BIT, 3, 4, AddressingMode::Absolute)),
        0x2D => Some(OpCode::new(0x2D, Mnemonic::AND, 3, 4, AddressingMode::Absolute)),
        0x2E => Some(OpCode::new(0x2E, Mnemonic::ROL, 3, 6, AddressingMode::Absolute)),
        0x30 => Some(OpCode::new(0x30, Mnemonic::BMI, 2, 2, AddressingMode::NoneAddressing)),
        0x31 => Some(OpCode::new(0x31, Mnemonic::AND, 2, 5, AddressingMode::Indirect_Y)),
        0x35 => Some(OpCode::new(0x35, Mnemonic::AND, 2, 4, AddressingMode::ZeroPage_X)),
        0x36 => Some(OpCode::new(0x36, Mnemonic::ROL, 2, 6, AddressingMode::ZeroPage_X)),
        0x38 => Some(OpCode::new(0x38, Mnemonic::SEC, 1, 2, AddressingMode::NoneAddressing)),
        0x39 => Some(OpCode::new(0x39, Mnemonic::AND, 3, 4, AddressingMode::Absolute_Y)),
        0x3D => Some(OpCode::new(0x3D, Mnemonic::AND, 3, 4, AddressingMode::Absolute_X)),
        0x3E => Some(OpCode::new(0x3E, Mnemonic::ROL, 3, 7, AddressingMode::Absolute_X)),
        0x40 => Some(OpCode::new(0x40, Mnemonic::RTI, 1, 6, AddressingMode::NoneAddressing)),
        0x41 => Some(OpCode::new(0x41, Mnemonic::EOR, 2, 6, AddressingMode::Indirect_X)),
        0x45 => Some(OpCode::new(0x45, Mnemonic::EOR, 2, 3, AddressingMode::ZeroPage)),
        0x46 => Some(OpCode::new(0x46, Mnemonic::LSR, 2, 5, AddressingMode::ZeroPage)),
        0x48 => Some(OpCode::new(0x48, Mnemonic::PHA, 1, 3, AddressingMode::NoneAddressing)),
        0x49 => Some(OpCode::new(0x49, Mnemonic::EOR, 2, 2, AddressingMode::Immediate)),
        0x4A => Some(OpCode::new(0x4A, Mnemonic::LSR, 1, 2, AddressingMode::NoneAddressing)),
        0x4C => Some(OpCode::new(0x4C, Mnemonic::JMP, 3, 3, AddressingMode::NoneAddressing)),
        0x4D => Some(OpCode::new(0x4D, Mnemonic::EOR, 3, 4, AddressingMode::Absolute)),
        0x4E => Some(OpCode::new(0x4E, Mnemonic::LSR, 3, 6, AddressingMode::Absolute)),
        0x50 => Some(OpCode::new(0x50, Mnemonic::BVC, 2, 2, AddressingMode::NoneAddressing)),
        0x51 => Some(OpCode::new(0x51, Mnemonic::EOR, 2, 5, AddressingMode::Indirect_Y)),
        0x55 => Some(OpCode::new(0x55, Mnemonic::EOR, 2, 4, AddressingMode::ZeroPage_X)),
        0x56 => Some(OpCode::new(0x56, Mnemonic::LSR, 2, 6, AddressingMode::ZeroPage_X)),
        0x58 => Some(OpCode::new(0x58, Mnemonic::CLI, 1, 2, AddressingMode::NoneAddressing)),
        0x59 => Some(OpCode::new(0x59, Mnemonic::EOR, 3, 4, AddressingMode::Absolute_Y)),
        0x5D => Some(OpCode::new(0x5D, Mnemonic::EOR, 3, 4, AddressingMode::Absolute_X)),
        0x5E => Some(OpCode::new(0x5E, Mnemonic::LSR, 3, 7, AddressingMode::Absolute_X)),
        0x60 => Some(OpCode::new(0x60, Mnemonic::RTS, 1, 6, AddressingMode::NoneAddressing)),
        0x61 => Some(OpCode::new(0x61, Mnemonic::ADC, 2, 6, AddressingMode::Indirect_X)),
        0x65 => Some(OpCode::new(0x65, Mnemonic::ADC, 2, 3, AddressingMode::ZeroPage)),
        0x66 => Some(OpCode::new(0x66, Mnemonic::ROR, 2, 5, AddressingMode::ZeroPage)),
        0x68 => Some(OpCode::new(0x68, Mnemonic::PLA, 1, 4, AddressingMode::NoneAddressing)),
        0x69 => Some(OpCode::new(0x69, Mnemonic::ADC, 2, 2, AddressingMode::Immediate)),
        0x6A => Some(OpCode::new(0x6A, Mnemonic::ROR, 1, 2, AddressingMode::NoneAddressing)),
        0x6C => Some(OpCode::new(0x6C, Mnemonic::JMP, 3, 5, AddressingMode::NoneAddressing)),
        0x6D => Some(OpCode::new(0x6D, Mnemonic::ADC, 3, 4, AddressingMode::Absolute)),
        0x6E => Some(OpCode::new(0x6E, Mnemonic::ROR, 3, 6, AddressingMode::Absolute)),
        0x70 => Some(OpCode::new(0x70, Mnemonic::BVS, 2, 2, AddressingMode::NoneAddressing)),
        0x71 => Some(OpCode::new(0x71, Mnemonic::ADC, 2, 5, AddressingMode::Indirect_Y)),
        0x75 => Some(OpCode::new(0x75, Mnemonic::ADC, 2, 4, AddressingMode::ZeroPage_X)),
        0x76 => Some(OpCode::new(0x76, Mnemonic::ROR, 2, 6, AddressingMode::ZeroPage_X)),
        0x78 => Some(OpCode::new(0x78, Mnemonic::SEI, 1, 2, AddressingMode::NoneAddressing)),
        0x79 => Some(OpCode::new(0x79, Mnemonic::ADC, 3, 4, AddressingMode::Absolute_Y)),
        0x7D => Some(OpCode::new(0x7D, Mnemonic::ADC, 3, 4, AddressingMode::Absolute_X)),
        0x7E => Some(OpCode::new(0x7E, Mnemonic::ROR, 3, 7, AddressingMode::Absolute_X)),
        0x81 => Some(OpCode::new(0x81, Mnemonic::STA, 2, 6, AddressingMode::Indirect_X)),
        0x84 => Some(OpCode::new(0x84, Mnemonic::STY, 2, 3, AddressingMode::ZeroPage)),
        0x85 => Some(OpCode::new(0x85, Mnemonic::STA, 2, 3, AddressingMode::ZeroPage)),
        0x86 => Some(OpCode::new(0x86, Mnemonic::STX, 2, 3, AddressingMode::ZeroPage)),
        0x88 => Some(OpCode::new(0x88, Mnemonic::DEY, 1, 2, AddressingMode::NoneAddressing)),
        0x8A => Some(OpCode::new(0x8A, Mnemonic::TXA, 1, 2, AddressingMode::NoneAddressing)),
        0x8C => Some(OpCode::new(0x8C, Mnemonic::STY, 3, 4, AddressingMode::Absolute)),
        0x8D => Some(OpCode::new(0x8D, Mnemonic::STA, 3, 4, AddressingMode::Absolute)),
        0x8E => Some(OpCode::new(0x8E, Mnemonic::STX, 3, 4, AddressingMode::Absolute)),
        0x90 => Some(OpCode::new(0x90, Mnemonic::BCC, 2, 2, AddressingMode::NoneAddressing)),
        0x91 => Some(OpCode::new(0x91, Mnemonic::STA, 2, 6, AddressingMode::Indirect_Y)),
        0x94 => Some(OpCode::new(0x94, Mnemonic::STY, 2, 4, AddressingMode::ZeroPage_X)),
        0x95 => Some(OpCode::new(0x95, Mnemonic::STA, 2, 4, AddressingMode::ZeroPage_X)),
        0x96 => Some(OpCode::new(0x96, Mnemonic::STX, 2, 4, AddressingMode::ZeroPage_Y)),
        0x98 => Some(OpCode::new(0x98, Mnemonic::TYA, 1, 2, AddressingMode::NoneAddressing)),
        0x99 => Some(OpCode::new(0x99, Mnemonic::STA, 3, 5, AddressingMode::Absolute_Y)),
        0x9A => Some(OpCode::new(0x9A, Mnemonic::TXS, 1, 2, AddressingMode::NoneAddressing)),
        0x9D => Some(OpCode::new(0x9D, Mnemonic::STA, 3, 5, AddressingMode::Absolute_X)),
        0xA0 => Some(OpCode::new(0xA0, Mnemonic::LDY, 2, 2, AddressingMode::Immediate)),
        0xA1 => Some(OpCode::new(0xA1, Mnemonic::LDA, 2, 6, AddressingMode::Indirect_X)),
        0xA2 => Some(OpCode::new(0xA2, Mnemonic::LDX, 2, 2, AddressingMode::Immediate)),
        0xA4 => Some(OpCode::new(0xA4, Mnemonic::LDY, 2, 3, AddressingMode::ZeroPage)),
        0xA5 => Some(OpCode::new(0xA5, Mnemonic::LDA, 2, 3, AddressingMode::ZeroPage)),
        0xA6 => Some(OpCode::new(0xA6, Mnemonic::LDX, 2, 3, AddressingMode::ZeroPage)),
        0xA8 => Some(OpCode::new(0xA8, Mnemonic::TAY, 1, 2, AddressingMode::NoneAddressing)),
        0xA9 => Some(OpCode::new(0xA9, Mnemonic::LDA, 2, 2, AddressingMode::Immediate)),
        0xAA => Some(OpCode::new(0xAA, Mnemonic::TAX, 1, 2, AddressingMode::NoneAddressing)),
        0xAC => Some(OpCode::new(0xAC, Mnemonic::LDY, 3, 4, AddressingMode::Absolute)),
        0xAD => Some(OpCode::new(0xAD, Mnemonic::LDA, 3, 4, AddressingMode::Absolute)),
        0xAE => Some(OpCode::new(0xAE, Mnemonic::LDX, 3, 4, AddressingMode::Absolute)),
        0xB0 => Some(OpCode::new(0xB0, Mnemonic::BCS, 2, 2, AddressingMode::NoneAddressing)),
        0xB1 => Some(OpCode::new(0xB1, Mnemonic::LDA, 2, 5, AddressingMode::Indirect_Y)),
        0xB4 => Some(OpCode::new(0xB4, Mnemonic::LDY, 2, 4, AddressingMode::ZeroPage_X)),
        0xB5 => Some(OpCode::new(0xB5, Mnemonic::LDA, 2, 4, AddressingMode::ZeroPage_X)),
        0xB6 => Some(OpCode::new(0xB6, Mnemonic::LDX, 2, 4, AddressingMode::ZeroPage_Y)),
        0xB8 => Some(OpCode::new(0xB8, Mnemonic::CLV, 1, 2, AddressingMode::NoneAddressing)),
        0xB9 => Some(OpCode::new(0xB9, Mnemonic::LDA, 3, 4, AddressingMode::Absolute_Y)),
        0xBA => Some(OpCode::new(0xBA, Mnemonic::TSX, 1, 2, AddressingMode::NoneAddressing)),
        0xBC => Some(OpCode::new(0xBC, Mnemonic::LDY, 3, 4, AddressingMode::Absolute_X)),
        0xBD => Some(OpCode::new(0xBD, Mnemonic::LDA, 3, 4, AddressingMode::Absolute_X)),
        0xBE => Some(OpCode::new(0xBE, Mnemonic::LDX, 3, 4, AddressingMode::Absolute_Y)),
        0xC0 => Some(OpCode::new(0xC0, Mnemonic::CPY, 2, 2, AddressingMode::Immediate)),
        0xC1 => Some(OpCode::new(0xC1, Mnemonic::CMP, 2, 6, AddressingMode::Indirect_X)),
        0xC4 => Some(OpCode::new(0xC4, Mnemonic::CPY, 2, 3, AddressingMode::ZeroPage)),
        0xC5 => Some(OpCode::new(0xC5, Mnemonic::CMP, 2, 3, AddressingMode::ZeroPage)),
        0xC6 => Some(OpCode::new(0xC6, Mnemonic::DEC, 2, 5, AddressingMode::ZeroPage)),
        0xC8 => Some(OpCode::new(0xC8, Mnemonic::INY, 1, 2, AddressingMode::NoneAddressing)),
        0xC9 => Some(OpCode::new(0xC9, Mnemonic::CMP, 2, 2, AddressingMode::Immediate)),
        0xCA => Some(OpCode::new(0xCA, Mnemonic::DEX, 1, 2, AddressingMode::NoneAddressing)),
        0xCC => Some(OpCode::new(0xCC, Mnemonic::CPY, 3, 4, AddressingMode::Absolute)),
        0xCD => Some(OpCode::new(0xCD, Mnemonic::CMP, 3, 4, AddressingMode::Absolute)),
        0xCE => Some(OpCode::new(0xCE, Mnemonic::DEC, 3, 6, AddressingMode::Absolute)),
        0xD0 => Some(OpCode::new(0xD0, Mnemonic::BNE, 2, 2, AddressingMode::NoneAddressing)),
        0xD1 => Some(OpCode::new(0xD1, Mnemonic::CMP, 2, 5, AddressingMode::Indirect_Y)),
        0xD5 => Some(OpCode::new(0xD5, Mnemonic::CMP, 2, 4, AddressingMode::ZeroPage_X)),
        0xD6 => Some(OpCode::new(0xD6, Mnemonic::DEC, 2, 6, AddressingMode::ZeroPage_X)),
        0xD8 => Some(OpCode::new(0xD8, Mnemonic::CLD, 1, 2, AddressingMode::NoneAddressing)),
        0xD9 => Some(OpCode::new(0xD9, Mnemonic::CMP, 3, 4, AddressingMode::Absolute_Y)),
        0xDD => Some(OpCode::new(0xDD, Mnemonic::CMP, 3, 4, AddressingMode::Absolute_X)),
        0xDE => Some(OpCode::new(0xDE, Mnemonic::DEC, 3, 7, AddressingMode::Absolute_X)),
        0xE0 => Some(OpCode::new(0xE0, Mnemonic::CPX, 2, 2, AddressingMode::Immediate)),
        0xE1 => Some(OpCode::new(0xE1, Mnemonic::SBC, 2, 6, AddressingMode::Indirect_X)),
        0xE4 => Some(OpCode::new(0xE4, Mnemonic::CPX, 2, 3, AddressingMode::ZeroPage)),
        0xE5 => Some(OpCode::new(0xE5, Mnemonic::SBC, 2, 3, AddressingMode::ZeroPage)),
        0xE6 => Some(OpCode::new(0xE6, Mnemonic::INC, 2, 5, AddressingMode::ZeroPage)),
        0xE8 => Some(OpCode::new(0xE8, Mnemonic::INX, 1, 2, AddressingMode::NoneAddressing)),
        0xE9 => Some(OpCode::new(0xE9, Mnemonic::SBC, 2, 2, AddressingMode::Immediate)),
        0xEA => Some(OpCode::new(0xEA, Mnemonic::NOP, 1, 2, AddressingMode::NoneAddressing)),
        0xEC => Some(OpCode::new(0xEC, Mnemonic::CPX, 3, 4, AddressingMode::Absolute)),
        0xED => Some(OpCode::new(0xED, Mnemonic::SBC, 3, 4, AddressingMode::Absolute)),
        0xEE => Some(OpCode::new(0xEE, Mnemonic::INC, 3, 6, AddressingMode::Absolute)),
        0xF0 => Some(OpCode::new(0xF0, Mnemonic::BEQ, 2, 2, AddressingMode::NoneAddressing)),
        0xF1 => Some(OpCode::new(0xF1, Mnemonic::SBC, 2, 5, AddressingMode::Indirect_Y)),
        0xF5 => Some(OpCode::new(0xF5, Mnemonic::SBC, 2, 4, AddressingMode::ZeroPage_X)),
        0xF6 => Some(OpCode::new(0xF6, Mnemonic::INC, 2, 6, AddressingMode::ZeroPage_X)),
        0xF8 => Some(OpCode::new(0xF8, Mnemonic::SED, 1, 2, AddressingMode::NoneAddressing)),
        0xF9 => Some(OpCode::new(0xF9, Mnemonic::SBC, 3, 4, AddressingMode::Absolute_Y)),
        0xFD => Some(OpCode::new(0xFD, Mnemonic::SBC, 3, 4, AddressingMode::Absolute_X)),
        0xFE => Some(OpCode::new(0xFE, Mnemonic::INC, 3, 7, AddressingMode::Absolute_X)),
        _ => None,
    }
}

/// Every entry is filed under its own opcode byte and can be executed. The
/// halt instruction is a single byte.
pub proof fn lemma_entry_shape(code: u8)
    requires
        opcode(code) is Some,
    ensures
        opcode(code)->0.code == code,
        opcode(code)->0.executable(),
        opcode(code)->0.mnemonic == Mnemonic::BRK ==> opcode(code)->0.len == 1,
{
    reveal(opcode);
}

/// Every instruction that works on an operand in memory has an entry with a
/// real addressing mode, and no other entry has one.
pub proof fn lemma_operand_has_mode(code: u8)
    requires
        opcode(code) is Some,
    ensures
        opcode(code)->0.takes_operand() <==> opcode(code)->0.mode
            != AddressingMode::NoneAddressing,
{
    reveal(opcode);
}

} // verus!
