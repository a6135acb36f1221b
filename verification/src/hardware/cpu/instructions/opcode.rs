//! The opcode table: which instruction and which addressing mode each
//! opcode stands for, and which of the two can stand together.

use vstd::prelude::*;
use crate::hardware::cpu::instructions::AddressingMode;
use crate::hardware::cpu::instructions::Instruction;
use crate::types::Byte;

verus! {

/// The opcode table: the instruction and the addressing mode that the
/// opcode `op` stands for. The twelve jamming opcodes give `Jam`; every
/// other opcode without a meaning of its own is a NOP.
pub open spec fn decode(op: u8) -> (Instruction, AddressingMode) {
    match op {
        0x00 => (Instruction::BRK, AddressingMode::Implied),
        0x01 => (Instruction::ORA, AddressingMode::IndirectX),
        0x05 => (Instruction::ORA, AddressingMode::ZeroPage),
        0x06 => (Instruction::ASL, AddressingMode::ZeroPage),
        0x08 => (Instruction::PHP, AddressingMode::Implied),
        0x09 => (Instruction::ORA, AddressingMode::Immediate),
        0x0A => (Instruction::ASL, AddressingMode::Implied),
        0x0D => (Instruction::ORA, AddressingMode::Absolute),
        0x0E => (Instruction::ASL, AddressingMode::Absolute),
        0x10 => (Instruction::BPL, AddressingMode::Relative),
        0x11 => (Instruction::ORA, AddressingMode::IndirectY),
        0x15 => (Instruction::ORA, AddressingMode::ZeroPageX),
        0x16 => (Instruction::ASL, AddressingMode::ZeroPageX),
        0x18 => (Instruction::CLC, AddressingMode::Implied),
        0x19 => (Instruction::ORA, AddressingMode::AbsoluteY),
        0x1D => (Instruction::ORA, AddressingMode::AbsoluteX),
        0x1E => (Instruction::ASL, AddressingMode::AbsoluteX),
        0x20 => (Instruction::JSR, AddressingMode::Absolute),
        0x21 => (Instruction::AND, AddressingMode::IndirectX),
        0x24 => (Instruction::BIT, AddressingMode::ZeroPage),
        0x25 => (Instruction::AND, AddressingMode::ZeroPage),
        0x26 => (Instruction::ROL, AddressingMode::ZeroPage),
        0x28 => (Instruction::PLP, AddressingMode::Implied),
        0x29 => (Instruction::AND, AddressingMode::Immediate),
        0x2A => (Instruction::ROL, AddressingMode::Implied),
        0x2C => (Instruction::BIT, AddressingMode::Absolute),
        0x2D => (Instruction::AND, AddressingMode::Absolute),
        0x2E => (Instruction::ROL, AddressingMode::Absolute),
        0x30 => (Instruction::BMI, AddressingMode::Relative),
        0x31 => (Instruction::AND, AddressingMode::IndirectY),
        0x35 => (Instruction::AND, AddressingMode::ZeroPageX),
        0x36 => (Instruction::ROL, AddressingMode::ZeroPageX),
        0x38 => (Instruction::SEC, AddressingMode::Implied),
        0x39 => (Instruction::AND, AddressingMode::AbsoluteY),
        0x3D => (Instruction::AND, AddressingMode::AbsoluteX),
        0x3E => (Instruction::ROL, AddressingMode::AbsoluteX),
        0x40 => (Instruction::RTI, AddressingMode::Implied),
        0x41 => (Instruction::EOR, AddressingMode::IndirectX),
        0x45 => (Instruction::EOR, AddressingMode::ZeroPage),
        0x46 => (Instruction::LSR, AddressingMode::ZeroPage),
        0x48 => (Instruction::PHA, AddressingMode::Implied),
        0x49 => (Instruction::EOR, AddressingMode::Immediate),
        0x4A => (Instruction::LSR, AddressingMode::Implied),
        0x4C => (Instruction::JMP, AddressingMode::Absolute),
        0x4D => (Instruction::EOR, AddressingMode::Absolute),
        0x4E => (Instruction::LSR, AddressingMode::Absolute),
        0x50 => (Instruction::BVC, AddressingMode::Relative),
        0x51 => (Instruction::EOR, AddressingMode::IndirectY),
        0x55 => (Instruction::EOR, AddressingMode::ZeroPageX),
        0x56 => (Instruction::LSR, AddressingMode::ZeroPageX),
        0x58 => (Instruction::CLI, AddressingMode::Implied),
        0x59 => (Instruction::EOR, AddressingMode::AbsoluteY),
        0x5D => (Instruction::EOR, AddressingMode::AbsoluteX),
        0x5E => (Instruction::LSR, AddressingMode::AbsoluteX),
        0x60 => (Instruction::RTS, AddressingMode::Implied),
        0x61 => (Instruction::ADC, AddressingMode::IndirectX),
        0x65 => (Instruction::ADC, AddressingMode::ZeroPage),
        0x66 => (Instruction::ROR, AddressingMode::ZeroPage),
        0x68 => (Instruction::PLA, AddressingMode::Implied),
        0x69 => (Instruction::ADC, AddressingMode::Immediate),
        0x6A => (Instruction::ROR, AddressingMode::Implied),
        0x6C => (Instruction::JMP, AddressingMode::Indirect),
        0x6D => (Instruction::ADC, AddressingMode::Absolute),
        0x6E => (Instruction::ROR, AddressingMode::Absolute),
        0x70 => (Instruction::BVS, AddressingMode::Relative),
        0x71 => (Instruction::ADC, AddressingMode::IndirectY),
        0x75 => (Instruction::ADC, AddressingMode::ZeroPageX),
        0x76 => (Instruction::ROR, AddressingMode::ZeroPageX),
        0x78 => (Instruction::SEI, AddressingMode::Implied),
        0x79 => (Instruction::ADC, AddressingMode::AbsoluteY),
        0x7D => (Instruction::ADC, AddressingMode::AbsoluteX),
        0x7E => (Instruction::ROR, AddressingMode::AbsoluteX),
        0x81 => (Instruction::STA, AddressingMode::IndirectX),
        0x84 => (Instruction::STY, AddressingMode::ZeroPage),
        0x85 => (Instruction::STA, AddressingMode::ZeroPage),
        0x86 => (Instruction::STX, AddressingMode::ZeroPage),
        0x88 => (Instruction::DEY, AddressingMode::Implied),
        0x8A => (Instruction::TXA, AddressingMode::Implied),
        0x8C => (Instruction::STY, AddressingMode::Absolute),
        0x8D => (Instruction::STA, AddressingMode::Absolute),
        0x8E => (Instruction::STX, AddressingMode::Absolute),
        0x90 => (Instruction::BCC, AddressingMode::Relative),
        0x91 => (Instruction::STA, AddressingMode::IndirectY),
        0x94 => (Instruction::STY, AddressingMode::ZeroPageX),
        0x95 => (Instruction::STA, AddressingMode::ZeroPageX),
        0x96 => (Instruction::STX, AddressingMode::ZeroPageY),
        0x98 => (Instruction::TYA, AddressingMode::Implied),
        0x99 => (Instruction::STA, AddressingMode::AbsoluteY),
        0x9A => (Instruction::TXS, AddressingMode::Implied),
        0x9D => (Instruction::STA, AddressingMode::AbsoluteX),
        0xA0 => (Instruction::LDY, AddressingMode::Immediate),
        0xA1 => (Instruction::LDA, AddressingMode::IndirectX),
        0xA2 => (Instruction::LDX, AddressingMode::Immediate),
        0xA4 => (Instruction::LDY, AddressingMode::ZeroPage),
        0xA5 => (Instruction::LDA, AddressingMode::ZeroPage),
        0xA6 => (Instruction::LDX, AddressingMode::ZeroPage),
        0xA8 => (Instruction::TAY, AddressingMode::Implied),
        0xA9 => (Instruction::LDA, AddressingMode::Immediate),
        0xAA => (Instruction::TAX, AddressingMode::Implied),
        0xAC => (Instruction::LDY, AddressingMode::Absolute),
        0xAD => (Instruction::LDA, AddressingMode::Absolute),
        0xAE => (Instruction::LDX, AddressingMode::Absolute),
        0xB0 => (Instruction::BCS, AddressingMode::Relative),
        0xB1 => (Instruction::LDA, AddressingMode::IndirectY),
        0xB4 => (Instruction::LDY, AddressingMode::ZeroPageX),
        0xB5 => (Instruction::LDA, AddressingMode::ZeroPageX),
        0xB6 => (Instruction::LDX, AddressingMode::ZeroPageY),
        0xB8 => (Instruction::CLV, AddressingMode::Implied),
        0xB9 => (Instruction::LDA, AddressingMode::AbsoluteY),
        0xBA => (Instruction::TSX, AddressingMode::Implied),
        0xBC => (Instruction::LDY, AddressingMode::AbsoluteX),
        0xBD => (Instruction::LDA, AddressingMode::AbsoluteX),
        0xBE => (Instruction::LDX, AddressingMode::AbsoluteY),
        0xC0 => (Instruction::CPY, AddressingMode::Immediate),
        0xC1 => (Instruction::CMP, AddressingMode::IndirectX),
        0xC4 => (Instruction::CPY, AddressingMode::ZeroPage),
        0xC5 => (Instruction::CMP, AddressingMode::ZeroPage),
        0xC6 => (Instruction::DEC, AddressingMode::ZeroPage),
        0xC8 => (Instruction::INY, AddressingMode::Implied),
        0xC9 => (Instruction::CMP, AddressingMode::Immediate),
        0xCA => (Instruction::DEX, AddressingMode::Implied),
        0xCC => (Instruction::CPY, AddressingMode::Absolute),
        0xCD => (Instruction::CMP, AddressingMode::Absolute),
        0xCE => (Instruction::DEC, AddressingMode::Absolute),
        0xD0 => (Instruction::BNE, AddressingMode::Relative),
        0xD1 => (Instruction::CMP, AddressingMode::IndirectY),
        0xD5 => (Instruction::CMP, AddressingMode::ZeroPageX),
        0xD6 => (Instruction::DEC, AddressingMode::ZeroPageX),
        0xD8 => (Instruction::CLD, AddressingMode::Implied),
        0xD9 => (Instruction::CMP, AddressingMode::AbsoluteY),
        0xDD => (Instruction::CMP, AddressingMode::AbsoluteX),
        0xDE => (Instruction::DEC, AddressingMode::AbsoluteX),
        0xE0 => (Instruction::CPX, AddressingMode::Immediate),
        0xE1 => (Instruction::SBC, AddressingMode::IndirectX),
        0xE4 => (Instruction::CPX, AddressingMode::ZeroPage),
        0xE5 => (Instruction::SBC, AddressingMode::ZeroPage),
        0xE6 => (Instruction::INC, AddressingMode::ZeroPage),
        0xE8 => (Instruction::INX, AddressingMode::Implied),
        0xE9 => (Instruction::SBC, AddressingMode::Immediate),
        0xEA => (Instruction::NOP, AddressingMode::Implied),
        0xEC => (Instruction::CPX, AddressingMode::Absolute),
        0xED => (Instruction::SBC, AddressingMode::Absolute),
        0xEE => (Instruction::INC, AddressingMode::Absolute),
        0xF0 => (Instruction::BEQ, AddressingMode::Relative),
        0xF1 => (Instruction::SBC, AddressingMode::IndirectY),
        0xF5 => (Instruction::SBC, AddressingMode::ZeroPageX),
        0xF6 => (Instruction::INC, AddressingMode::ZeroPageX),
        0xF8 => (Instruction::SED, AddressingMode::Implied),
        0xF9 => (Instruction::SBC, AddressingMode::AbsoluteY),
        0xFD => (Instruction::SBC, AddressingMode::AbsoluteX),
        0xFE => (Instruction::INC, AddressingMode::AbsoluteX),
        0x02 | 0x12 | 0x22 | 0x32 | 0x42 | 0x52 | 0x62 | 0x72 | 0x92 | 0xB2 | 0xD2 | 0xF2 => (
            Instruction::Jam(op),
            AddressingMode::Implied,
        ),
        _ => (Instruction::NOP, AddressingMode::Implied),
    }
}

/// The instruction and the addressing mode that `op_code` stands for.
pub fn get_instruction(op_code: Byte) -> (r: (Instruction, AddressingMode))
    ensures
        r == decode(op_code.0),
{
    let op: u8 = op_code.0;
    match op {
        0x00 => (Instruction::BRK, AddressingMode::Implied),
        0x01 => (Instruction::ORA, AddressingMode::IndirectX),
        0x05 => (Instruction::ORA, AddressingMode::ZeroPage),
        0x06 => (Instruction::ASL, AddressingMode::ZeroPage),
        0x08 => (Instruction::PHP, AddressingMode::Implied),
        0x09 => (Instruction::ORA, AddressingMode::Immediate),
        0x0A => (Instruction::ASL, AddressingMode::Implied),
        0x0D => (Instruction::ORA, AddressingMode::Absolute),
        0x0E => (Instruction::ASL, AddressingMode::Absolute),
        0x10 => (Instruction::BPL, AddressingMode::Relative),
        0x11 => (Instruction::ORA, AddressingMode::IndirectY),
        0x15 => (Instruction::ORA, AddressingMode::ZeroPageX),
        0x16 => (Instruction::ASL, AddressingMode::ZeroPageX),
        0x18 => (Instruction::CLC, AddressingMode::Implied),
        0x19 => (Instruction::ORA, AddressingMode::AbsoluteY),
        0x1D => (Instruction::ORA, AddressingMode::AbsoluteX),
        0x1E => (Instruction::ASL, AddressingMode::AbsoluteX),
        0x20 => (Instruction::JSR, AddressingMode::Absolute),
        0x21 => (Instruction::AND, AddressingMode::IndirectX),
        0x24 => (Instruction::BIT, AddressingMode::ZeroPage),
        0x25 => (Instruction::AND, AddressingMode::ZeroPage),
        0x26 => (Instruction::ROL, AddressingMode::ZeroPage),
        0x28 => (Instruction::PLP, AddressingMode::Implied),
        0x29 => (Instruction::AND, AddressingMode::Immediate),
        0x2A => (Instruction::ROL, AddressingMode::Implied),
        0x2C => (Instruction::BIT, AddressingMode::Absolute),
        0x2D => (Instruction::AND, AddressingMode::Absolute),
        0x2E => (Instruction::ROL, AddressingMode::Absolute),
        0x30 => (Instruction::BMI, AddressingMode::Relative),
        0x31 => (Instruction::AND, AddressingMode::IndirectY),
        0x35 => (Instruction::AND, AddressingMode::ZeroPageX),
        0x36 => (Instruction::ROL, AddressingMode::ZeroPageX),
        0x38 => (Instruction::SEC, AddressingMode::Implied),
        0x39 => (Instruction::AND, AddressingMode::AbsoluteY),
        0x3D => (Instruction::AND, AddressingMode::AbsoluteX),
        0x3E => (Instruction::ROL, AddressingMode::AbsoluteX),
        0x40 => (Instruction::RTI, AddressingMode::Implied),
        0x41 => (Instruction::EOR, AddressingMode::IndirectX),
        0x45 => (Instruction::EOR, AddressingMode::ZeroPage),
        0x46 => (Instruction::LSR, AddressingMode::ZeroPage),
        0x48 => (Instruction::PHA, AddressingMode::Implied),
        0x49 => (Instruction::EOR, AddressingMode::Immediate),
        0x4A => (Instruction::LSR, AddressingMode::Implied),
        0x4C => (Instruction::JMP, AddressingMode::Absolute),
        0x4D => (Instruction::EOR, AddressingMode::Absolute),
        0x4E => (Instruction::LSR, AddressingMode::Absolute),
        0x50 => (Instruction::BVC, AddressingMode::Relative),
        0x51 => (Instruction::EOR, AddressingMode::IndirectY),
        0x55 => (Instruction::EOR, AddressingMode::ZeroPageX),
        0x56 => (Instruction::LSR, AddressingMode::ZeroPageX),
        0x58 => (Instruction::CLI, AddressingMode::Implied),
        0x59 => (Instruction::EOR, AddressingMode::AbsoluteY),
        0x5D => (Instruction::EOR, AddressingMode::AbsoluteX),
        0x5E => (Instruction::LSR, AddressingMode::AbsoluteX),
        0x60 => (Instruction::RTS, AddressingMode::Implied),
        0x61 => (Instruction::ADC, AddressingMode::IndirectX),
        0x65 => (Instruction::ADC, AddressingMode::ZeroPage),
        0x66 => (Instruction::ROR, AddressingMode::ZeroPage),
        0x68 => (Instruction::PLA, AddressingMode::Implied),
        0x69 => (Instruction::ADC, AddressingMode::Immediate),
        0x6A => (Instruction::ROR, AddressingMode::Implied),
        0x6C => (Instruction::JMP, AddressingMode::Indirect),
        0x6D => (Instruction::ADC, AddressingMode::Absolute),
        0x6E => (Instruction::ROR, AddressingMode::Absolute),
        0x70 => (Instruction::BVS, AddressingMode::Relative),
        0x71 => (Instruction::ADC, AddressingMode::IndirectY),
        0x75 => (Instruction::ADC, AddressingMode::ZeroPageX),
        0x76 => (Instruction::ROR, AddressingMode::ZeroPageX),
        0x78 => (Instruction::SEI, AddressingMode::Implied),
        0x79 => (Instruction::ADC, AddressingMode::AbsoluteY),
        0x7D => (Instruction::ADC, AddressingMode::AbsoluteX),
        0x7E => (Instruction::ROR, AddressingMode::AbsoluteX),
        0x81 => (Instruction::STA, AddressingMode::IndirectX),
        0x84 => (Instruction::STY, AddressingMode::ZeroPage),
        0x85 => (Instruction::STA, AddressingMode::ZeroPage),
        0x86 => (Instruction::STX, AddressingMode::ZeroPage),
        0x88 => (Instruction::DEY, AddressingMode::Implied),
        0x8A => (Instruction::TXA, AddressingMode::Implied),
        0x8C => (Instruction::STY, AddressingMode::Absolute),
        0x8D => (Instruction::STA, AddressingMode::Absolute),
        0x8E => (Instruction::STX, AddressingMode::Absolute),
        0x90 => (Instruction::BCC, AddressingMode::Relative),
        0x91 => (Instruction::STA, AddressingMode::IndirectY),
        0x94 => (Instruction::STY, AddressingMode::ZeroPageX),
        0x95 => (Instruction::STA, AddressingMode::ZeroPageX),
        0x96 => (Instruction::STX, AddressingMode::ZeroPageY),
        0x98 => (Instruction::TYA, AddressingMode::Implied),
        0x99 => (Instruction::STA, AddressingMode::AbsoluteY),
        0x9A => (Instruction::TXS, AddressingMode::Implied),
        0x9D => (Instruction::STA, AddressingMode::AbsoluteX),
        0xA0 => (Instruction::LDY, AddressingMode::Immediate),
        0xA1 => (Instruction::LDA, AddressingMode::IndirectX),
        0xA2 => (Instruction::LDX, AddressingMode::Immediate),
        0xA4 => (Instruction::LDY, AddressingMode::ZeroPage),
        0xA5 => (Instruction::LDA, AddressingMode::ZeroPage),
        0xA6 => (Instruction::LDX, AddressingMode::ZeroPage),
        0xA8 => (Instruction::TAY, AddressingMode::Implied),
        0xA9 => (Instruction::LDA, AddressingMode::Immediate),
        0xAA => (Instruction::TAX, AddressingMode::Implied),
        0xAC => (Instruction::LDY, AddressingMode::Absolute),
        0xAD => (Instruction::LDA, AddressingMode::Absolute),
        0xAE => (Instruction::LDX, AddressingMode::Absolute),
        0xB0 => (Instruction::BCS, AddressingMode::Relative),
        0xB1 => (Instruction::LDA, AddressingMode::IndirectY),
        0xB4 => (Instruction::LDY, AddressingMode::ZeroPageX),
        0xB5 => (Instruction::LDA, AddressingMode::ZeroPageX),
        0xB6 => (Instruction::LDX, AddressingMode::ZeroPageY),
        0xB8 => (Instruction::CLV, AddressingMode::Implied),
        0xB9 => (Instruction::LDA, AddressingMode::AbsoluteY),
        0xBA => (Instruction::TSX, AddressingMode::Implied),
        0xBC => (Instruction::LDY, AddressingMode::AbsoluteX),
        0xBD => (Instruction::LDA, AddressingMode::AbsoluteX),
        0xBE => (Instruction::LDX, AddressingMode::AbsoluteY),
        0xC0 => (Instruction::CPY, AddressingMode::Immediate),
        0xC1 => (Instruction::CMP, AddressingMode::IndirectX),
        0xC4 => (Instruction::CPY, AddressingMode::ZeroPage),
        0xC5 => (Instruction::CMP, AddressingMode::ZeroPage),
        0xC6 => (Instruction::DEC, AddressingMode::ZeroPage),
        0xC8 => (Instruction::INY, AddressingMode::Implied),
        0xC9 => (Instruction::CMP, AddressingMode::Immediate),
        0xCA => (Instruction::DEX, AddressingMode::Implied),
        0xCC => (Instruction::CPY, AddressingMode::Absolute),
        0xCD => (Instruction::CMP, AddressingMode::Absolute),
        0xCE => (Instruction::DEC, AddressingMode::Absolute),
        0xD0 => (Instruction::BNE, AddressingMode::Relative),
        0xD1 => (Instruction::CMP, AddressingMode::IndirectY),
        0xD5 => (Instruction::CMP, AddressingMode::ZeroPageX),
        0xD6 => (Instruction::DEC, AddressingMode::ZeroPageX),
        0xD8 => (Instruction::CLD, AddressingMode::Implied),
        0xD9 => (Instruction::CMP, AddressingMode::AbsoluteY),
        0xDD => (Instruction::CMP, AddressingMode::AbsoluteX),
        0xDE => (Instruction::DEC, AddressingMode::AbsoluteX),
        0xE0 => (Instruction::CPX, AddressingMode::Immediate),
        0xE1 => (Instruction::SBC, AddressingMode::IndirectX),
        0xE4 => (Instruction::CPX, AddressingMode::ZeroPage),
        0xE5 => (Instruction::SBC, AddressingMode::ZeroPage),
        0xE6 => (Instruction::INC, AddressingMode::ZeroPage),
        0xE8 => (Instruction::INX, AddressingMode::Implied),
        0xE9 => (Instruction::SBC, AddressingMode::Immediate),
        0xEA => (Instruction::NOP, AddressingMode::Implied),
        0xEC => (Instruction::CPX, AddressingMode::Absolute),
        0xED => (Instruction::SBC, AddressingMode::Absolute),
        0xEE => (Instruction::INC, AddressingMode::Absolute),
        0xF0 => (Instruction::BEQ, AddressingMode::Relative),
        0xF1 => (Instruction::SBC, AddressingMode::IndirectY),
        0xF5 => (Instruction::SBC, AddressingMode::ZeroPageX),
        0xF6 => (Instruction::INC, AddressingMode::ZeroPageX),
        0xF8 => (Instruction::SED, AddressingMode::Implied),
        0xF9 => (Instruction::SBC, AddressingMode::AbsoluteY),
        0xFD => (Instruction::SBC, AddressingMode::AbsoluteX),
        0xFE => (Instruction::INC, AddressingMode::AbsoluteX),
        0x02 | 0x12 | 0x22 | 0x32 | 0x42 | 0x52 | 0x62 | 0x72 | 0x92 | 0xB2 | 0xD2 | 0xF2 => (
            Instruction::Jam(op),
            AddressingMode::Implied,
        ),
        _ => (Instruction::NOP, AddressingMode::Implied),
    }
}

impl Instruction {
    /// Whether the instruction can stand with the addressing mode `mode`:
    /// some opcode means the two together. `Jam` stands with the implied
    /// mode.
    pub open spec fn takes(self, mode: AddressingMode) -> bool {
        match self {
            Instruction::Jam(_) => mode is Implied,
            _ => exists|op: u8| decode(op) == (self, mode),
        }
    }

    /// Whether the instruction can stand with `addressing_mode`: looks for
    /// an opcode that means the two together.
    pub fn valid_address_mode(&self, addressing_mode: AddressingMode) -> (valid: bool)
        ensures
            valid == self.takes(addressing_mode),
    {
        if let Instruction::Jam(_) = self {
            return matches!(addressing_mode, AddressingMode::Implied);
        }
        let mut op: u8 = 0;
        loop
            invariant
                !(*self is Jam),
                forall|k: u8| k < op ==> decode(k) != (*self, addressing_mode),
            ensures
                forall|k: u8| decode(k) != (*self, addressing_mode),
            decreases 255 - op,
        {
            let (instruction, mode) = get_instruction(Byte(op));
            if instruction == *self && mode == addressing_mode {
                assert(decode(op) == (*self, addressing_mode));
                return true;
            }
            if op == 255 {
                break ;
            }
            op = op + 1;
        }
        false
    }
}

/// Every pair of instruction and addressing mode that the opcode table
/// holds is a valid one.
pub proof fn lemma_decoded_pair_is_valid(op: u8)
    ensures
        decode(op).0.takes(decode(op).1),
{
}

} // verus!
