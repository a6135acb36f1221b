//! The mnemonics of the instructions.

use vstd::prelude::*;
use vstd::string::StringSliceAdditionalSpecFns;
use crate::hardware::cpu::instructions::Instruction;
use crate::text::bytes_of;
use crate::text::is_key;
use crate::text::is_keyword;

verus! {

/// The instruction with the mnemonic `name`, in capitals. A name that is no
/// mnemonic gives `Jam(0xff)`.
pub open spec fn instruction_named(name: Seq<u8>) -> Instruction {
    if is_key(name, "ADC") {
        Instruction::ADC
    } else if is_key(name, "AND") {
        Instruction::AND
    } else if is_key(name, "ASL") {
        Instruction::ASL
    } else if is_key(name, "BCC") {
        Instruction::BCC
    } else if is_key(name, "BCS") {
        Instruction::BCS
    } else if is_key(name, "BEQ") {
        Instruction::BEQ
    } else if is_key(name, "BIT") {
        Instruction::BIT
    } else if is_key(name, "BMI") {
        Instruction::BMI
    } else if is_key(name, "BNE") {
        Instruction::BNE
    } else if is_key(name, "BPL") {
        Instruction::BPL
    } else if is_key(name, "BRK") {
        Instruction::BRK
    } else if is_key(name, "BVC") {
        Instruction::BVC
    } else if is_key(name, "BVS") {
        Instruction::BVS
    } else if is_key(name, "CLC") {
        Instruction::CLC
    } else if is_key(name, "CLD") {
        Instruction::CLD
    } else if is_key(name, "CLI") {
        Instruction::CLI
    } else if is_key(name, "CLV") {
        Instruction::CLV
    } else if is_key(name, "CMP") {
        Instruction::CMP
    } else if is_key(name, "CPX") {
        Instruction::CPX
    } else if is_key(name, "CPY") {
        Instruction::CPY
    } else if is_key(name, "DEC") {
        Instruction::DEC
    } else if is_key(name, "DEX") {
        Instruction::DEX
    } else if is_key(name, "DEY") {
        Instruction::DEY
    } else if is_key(name, "EOR") {
        Instruction::EOR
    } else if is_key(name, "INC") {
        Instruction::INC
    } else if is_key(name, "INX") {
        Instruction::INX
    } else if is_key(name, "INY") {
        Instruction::INY
    } else if is_key(name, "JMP") {
        Instruction::JMP
    } else if is_key(name, "JSR") {
        Instruction::JSR
    } else if is_key(name, "LDA") {
        Instruction::LDA
    } else if is_key(name, "LDX") {
        Instruction::LDX
    } else if is_key(name, "LDY") {
        Instruction::LDY
    } else if is_key(name, "LSR") {
        Instruction::LSR
    } else if is_key(name, "NOP") {
        Instruction::NOP
    } else if is_key(name, "ORA") {
        Instruction::ORA
    } else if is_key(name, "PHA") {
        Instruction::PHA
    } else if is_key(name, "PHP") {
        Instruction::PHP
    } else if is_key(name, "PLA") {
        Instruction::PLA
    } else if is_key(name, "PLP") {
        Instruction::PLP
    } else if is_key(name, "ROL") {
        Instruction::ROL
    } else if is_key(name, "ROR") {
        Instruction::ROR
    } else if is_key(name, "RTI") {
        Instruction::RTI
    } else if is_key(name, "RTS") {
        Instruction::RTS
    } else if is_key(name, "SBC") {
        Instruction::SBC
    } else if is_key(name, "SEC") {
        Instruction::SEC
    } else if is_key(name, "SED") {
        Instruction::SED
    } else if is_key(name, "SEI") {
        Instruction::SEI
    } else if is_key(name, "STA") {
        Instruction::STA
    } else if is_key(name, "STX") {
        Instruction::STX
    } else if is_key(name, "STY") {
        Instruction::STY
    } else if is_key(name, "TAX") {
        Instruction::TAX
    } else if is_key(name, "TAY") {
        Instruction::TAY
    } else if is_key(name, "TSX") {
        Instruction::TSX
    } else if is_key(name, "TXA") {
        Instruction::TXA
    } else if is_key(name, "TXS") {
        Instruction::TXS
    } else if is_key(name, "TYA") {
        Instruction::TYA
    } else {
        Instruction::Jam(0xff)
    }
}

impl Instruction {
    /// The mnemonic of the instruction. `Jam` has none and is written
    /// `XXX`.
    pub open spec fn mnemonic(self) -> Seq<char> {
        match self {
            Instruction::ADC => "ADC"@,
            Instruction::AND => "AND"@,
            Instruction::ASL => "ASL"@,
            Instruction::BCC => "BCC"@,
            Instruction::BCS => "BCS"@,
            Instruction::BEQ => "BEQ"@,
            Instruction::BIT => "BIT"@,
            Instruction::BMI => "BMI"@,
            Instruction::BNE => "BNE"@,
            Instruction::BPL => "BPL"@,
            Instruction::BRK => "BRK"@,
            Instruction::BVC => "BVC"@,
            Instruction::BVS => "BVS"@,
            Instruction::CLC => "CLC"@,
            Instruction::CLD => "CLD"@,
            Instruction::CLI => "CLI"@,
            Instruction::CLV => "CLV"@,
            Instruction::CMP => "CMP"@,
            Instruction::CPX => "CPX"@,
            Instruction::CPY => "CPY"@,
            Instruction::DEC => "DEC"@,
            Instruction::DEX => "DEX"@,
            Instruction::DEY => "DEY"@,
            Instruction::EOR => "EOR"@,
            Instruction::INC => "INC"@,
            Instruction::INX => "INX"@,
            Instruction::INY => "INY"@,
            Instruction::JMP => "JMP"@,
            Instruction::JSR => "JSR"@,
            Instruction::LDA => "LDA"@,
            Instruction::LDX => "LDX"@,
            Instruction::LDY => "LDY"@,
            Instruction::LSR => "LSR"@,
            Instruction::NOP => "NOP"@,
            Instruction::ORA => "ORA"@,
            Instruction::PHA => "PHA"@,
            Instruction::PHP => "PHP"@,
            Instruction::PLA => "PLA"@,
            Instruction::PLP => "PLP"@,
            Instruction::ROL => "ROL"@,
            Instruction::ROR => "ROR"@,
            Instruction::RTI => "RTI"@,
            Instruction::RTS => "RTS"@,
            Instruction::SBC => "SBC"@,
            Instruction::SEC => "SEC"@,
            Instruction::SED => "SED"@,
            Instruction::SEI => "SEI"@,
            Instruction::STA => "STA"@,
            Instruction::STX => "STX"@,
            Instruction::STY => "STY"@,
            Instruction::TAX => "TAX"@,
            Instruction::TAY => "TAY"@,
            Instruction::TSX => "TSX"@,
            Instruction::TXA => "TXA"@,
            Instruction::TXS => "TXS"@,
            Instruction::TYA => "TYA"@,
            Instruction::Jam(_) => "XXX"@,
        }
    }

    /// The mnemonic of the instruction.
    pub fn name(&self) -> (name: &'static str)
        ensures
            name@ == self.mnemonic(),
    {
        match self {
            Instruction::ADC => "ADC",
            Instruction::AND => "AND",
            Instruction::ASL => "ASL",
            Instruction::BCC => "BCC",
            Instruction::BCS => "BCS",
            Instruction::BEQ => "BEQ",
            Instruction::BIT => "BIT",
            Instruction::BMI => "BMI",
            Instruction::BNE => "BNE",
            Instruction::BPL => "BPL",
            Instruction::BRK => "BRK",
            Instruction::BVC => "BVC",
            Instruction::BVS => "BVS",
            Instruction::CLC => "CLC",
            Instruction::CLD => "CLD",
            Instruction::CLI => "CLI",
            Instruction::CLV => "CLV",
            Instruction::CMP => "CMP",
            Instruction::CPX => "CPX",
            Instruction::CPY => "CPY",
            Instruction::DEC => "DEC",
            Instruction::DEX => "DEX",
            Instruction::DEY => "DEY",
            Instruction::EOR => "EOR",
            Instruction::INC => "INC",
            Instruction::INX => "INX",
            Instruction::INY => "INY",
            Instruction::JMP => "JMP",
            Instruction::JSR => "JSR",
            Instruction::LDA => "LDA",
            Instruction::LDX => "LDX",
            Instruction::LDY => "LDY",
            Instruction::LSR => "LSR",
            Instruction::NOP => "NOP",
            Instruction::ORA => "ORA",
            Instruction::PHA => "PHA",
            Instruction::PHP => "PHP",
            Instruction::PLA => "PLA",
            Instruction::PLP => "PLP",
            Instruction::ROL => "ROL",
            Instruction::ROR => "ROR",
            Instruction::RTI => "RTI",
            Instruction::RTS => "RTS",
            Instruction::SBC => "SBC",
            Instruction::SEC => "SEC",
            Instruction::SED => "SED",
            Instruction::SEI => "SEI",
            Instruction::STA => "STA",
            Instruction::STX => "STX",
            Instruction::STY => "STY",
            Instruction::TAX => "TAX",
            Instruction::TAY => "TAY",
            Instruction::TSX => "TSX",
            Instruction::TXA => "TXA",
            Instruction::TXS => "TXS",
            Instruction::TYA => "TYA",
            Instruction::Jam(_) => "XXX",
        }
    }

    /// The instruction with the mnemonic `val`, in capitals.
    pub fn from(val: &str) -> (instruction: Instruction)
        ensures
            instruction == instruction_named(val.spec_bytes()),
    {
        let name = bytes_of(val);
        if is_keyword(&name, "ADC") {
            Instruction::ADC
        } else if is_keyword(&name, "AND") {
            Instruction::AND
        } else if is_keyword(&name, "ASL") {
            Instruction::ASL
        } else if is_keyword(&name, "BCC") {
            Instruction::BCC
        } else if is_keyword(&name, "BCS") {
            Instruction::BCS
        } else if is_keyword(&name, "BEQ") {
            Instruction::BEQ
        } else if is_keyword(&name, "BIT") {
            Instruction::BIT
        } else if is_keyword(&name, "BMI") {
            Instruction::BMI
        } else if is_keyword(&name, "BNE") {
            Instruction::BNE
        } else if is_keyword(&name, "BPL") {
            Instruction::BPL
        } else if is_keyword(&name, "BRK") {
            Instruction::BRK
        } else if is_keyword(&name, "BVC") {
            Instruction::BVC
        } else if is_keyword(&name, "BVS") {
            Instruction::BVS
        } else if is_keyword(&name, "CLC") {
            Instruction::CLC
        } else if is_keyword(&name, "CLD") {
            Instruction::CLD
        } else if is_keyword(&name, "CLI") {
            Instruction::CLI
        } else if is_keyword(&name, "CLV") {
            Instruction::CLV
        } else if is_keyword(&name, "CMP") {
            Instruction::CMP
        } else if is_keyword(&name, "CPX") {
            Instruction::CPX
        } else if is_keyword(&name, "CPY") {
            Instruction::CPY
        } else if is_keyword(&name, "DEC") {
            Instruction::DEC
        } else if is_keyword(&name, "DEX") {
            Instruction::DEX
        } else if is_keyword(&name, "DEY") {
            Instruction::DEY
        } else if is_keyword(&name, "EOR") {
            Instruction::EOR
        } else if is_keyword(&name, "INC") {
            Instruction::INC
        } else if is_keyword(&name, "INX") {
            Instruction::INX
        } else if is_keyword(&name, "INY") {
            Instruction::INY
        } else if is_keyword(&name, "JMP") {
            Instruction::JMP
        } else if is_keyword(&name, "JSR") {
            Instruction::JSR
        } else if is_keyword(&name, "LDA") {
            Instruction::LDA
        } else if is_keyword(&name, "LDX") {
            Instruction::LDX
        } else if is_keyword(&name, "LDY") {
            Instruction::LDY
        } else if is_keyword(&name, "LSR") {
            Instruction::LSR
        } else if is_keyword(&name, "NOP") {
            Instruction::NOP
        } else if is_keyword(&name, "ORA") {
            Instruction::ORA
        } else if is_keyword(&name, "PHA") {
            Instruction::PHA
        } else if is_keyword(&name, "PHP") {
            Instruction::PHP
        } else if is_keyword(&name, "PLA") {
            Instruction::PLA
        } else if is_keyword(&name, "PLP") {
            Instruction::PLP
        } else if is_keyword(&name, "ROL") {
            Instruction::ROL
        } else if is_keyword(&name, "ROR") {
            Instruction::ROR
        } else if is_keyword(&name, "RTI") {
            Instruction::RTI
        } else if is_keyword(&name, "RTS") {
            Instruction::RTS
        } else if is_keyword(&name, "SBC") {
            Instruction::SBC
        } else if is_keyword(&name, "SEC") {
            Instruction::SEC
        } else if is_keyword(&name, "SED") {
            Instruction::SED
        } else if is_keyword(&name, "SEI") {
            Instruction::SEI
        } else if is_keyword(&name, "STA") {
            Instruction::STA
        } else if is_keyword(&name, "STX") {
            Instruction::STX
        } else if is_keyword(&name, "STY") {
            Instruction::STY
        } else if is_keyword(&name, "TAX") {
            Instruction::TAX
        } else if is_keyword(&name, "TAY") {
            Instruction::TAY
        } else if is_keyword(&name, "TSX") {
            Instruction::TSX
        } else if is_keyword(&name, "TXA") {
            Instruction::TXA
        } else if is_keyword(&name, "TXS") {
            Instruction::TXS
        } else if is_keyword(&name, "TYA") {
            Instruction::TYA
        } else {
            Instruction::Jam(0xff)
        }
    }
}

} // verus!
