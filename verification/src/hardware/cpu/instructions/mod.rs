//! The instruction set: what each opcode means, how an addressing mode
//! finds the operand, and what each instruction does.

use vstd::prelude::*;
use crate::hardware::cpu::instructions::shift::Shift;
use crate::hardware::cpu::model::CpuModel;
use crate::hardware::cpu::Fault;
use crate::hardware::cpu::Flag;
use crate::hardware::cpu::CPU;
use crate::types::wrap16;
use crate::types::wrap8;
use crate::types::Addr;
use crate::types::Byte;

pub mod arithmetic;
pub mod branch;
pub mod flag;
pub mod increment_decrement;
pub mod jump_call;
pub mod load_store;
pub mod logical;
pub mod mnemonic;
pub mod opcode;
pub mod shift;
pub mod stack_op;

verus! {

/// The operand of an instruction, as its addressing mode found it.
#[derive(Clone, Copy, Debug, PartialEq, Eq, Structural)]
pub enum InstructionArgument {
    Immediate(Byte),
    Offset(Byte),
    Address(Addr),
    Implied,
}

/// The rule by which an instruction's operand is found from the bytes that
/// follow its opcode and from the registers.
#[derive(Clone, Copy, Debug, Hash, PartialEq, Eq, Structural)]
pub enum AddressingMode {
    Immediate,
    ZeroPage,
    ZeroPageX,
    ZeroPageY,
    Absolute,
    AbsoluteX,
    AbsoluteY,
    Indirect,
    IndirectX,
    IndirectY,
    Relative,
    Implied,
}

/// The 56 instructions, and `Jam` with its opcode for the opcodes that stop
/// the processor.
#[derive(Clone, Copy, Debug, Hash, PartialEq, Eq, Structural)]
pub enum Instruction {
    ADC, AND, ASL, BCC,
    BCS, BEQ, BIT, BMI,
    BNE, BPL, BRK, BVC,
    BVS, CLC, CLD, CLI,
    CLV, CMP, CPX, CPY,
    DEC, DEX, DEY, EOR,
    INC, INX, INY, JMP,
    JSR, LDA, LDX, LDY,
    LSR, NOP, ORA, PHA,
    PHP, PLA, PLP, ROL,
    ROR, RTI, RTS, SBC,
    SEC, SED, SEI, STA,
    STX, STY, TAX, TAY,
    TSX, TXA, TXS, TYA,
    Jam(u8),
}

impl CpuModel {
    /// The machine stopped because a handler was given an argument that its
    /// instruction cannot take.
    pub open spec fn illegal(self) -> CpuModel {
        self.fail(Fault::IllegalAddressingMode)
    }

    /// The value that an instruction works on, and the machine after it was
    /// found: the immediate byte itself, or the byte read at the address.
    /// Other arguments carry no value.
    pub open spec fn value(self, arg: InstructionArgument) -> Option<(u8, CpuModel)> {
        match arg {
            InstructionArgument::Immediate(v) => Some((v.0, self)),
            InstructionArgument::Address(addr) => Some(self.read(addr.0)),
            _ => None,
        }
    }

    /// The operand that `mode` finds, and the machine after the bytes behind
    /// the opcode, and the pointer for the indirect modes, were read.
    #[verifier::opaque]
    pub open spec fn operand(self, mode: AddressingMode) -> (InstructionArgument, CpuModel) {
        match mode {
            AddressingMode::Immediate => {
                let f = self.fetch();
                (InstructionArgument::Immediate(Byte(f.0)), f.1)
            },
            AddressingMode::ZeroPage => {
                let f = self.fetch();
                (InstructionArgument::Address(Addr(f.0 as u16)), f.1)
            },
            AddressingMode::ZeroPageX => {
                let f = self.fetch();
                (InstructionArgument::Address(Addr(wrap8(f.0 + self.x) as u16)), f.1)
            },
            AddressingMode::ZeroPageY => {
                let f = self.fetch();
                (InstructionArgument::Address(Addr(wrap8(f.0 + self.y) as u16)), f.1)
            },
            AddressingMode::Absolute => {
                let f = self.fetch_word();
                (InstructionArgument::Address(Addr(f.0)), f.1)
            },
            AddressingMode::AbsoluteX => {
                let f = self.fetch_word();
                (InstructionArgument::Address(Addr(wrap16(f.0 + self.x))), f.1)
            },
            AddressingMode::AbsoluteY => {
                let f = self.fetch_word();
                (InstructionArgument::Address(Addr(wrap16(f.0 + self.y))), f.1)
            },
            AddressingMode::Indirect => {
                let f = self.fetch_word();
                let r = f.1.read_word(f.0);
                (InstructionArgument::Address(Addr(r.0)), r.1)
            },
            AddressingMode::IndirectX => {
                let f = self.fetch();
                let r = f.1.read_word(wrap8(f.0 + self.x) as u16);
                (InstructionArgument::Address(Addr(r.0)), r.1)
            },
            AddressingMode::IndirectY => {
                let f = self.fetch();
                let r = f.1.read_word(f.0 as u16);
                (InstructionArgument::Address(Addr(wrap16(r.0 + self.y))), r.1)
            },
            AddressingMode::Relative => {
                let f = self.fetch();
                (InstructionArgument::Offset(Byte(f.0)), f.1)
            },
            AddressingMode::Implied => (InstructionArgument::Implied, self),
        }
    }
}

/// Whether an argument carries a value: it is an immediate byte or an
/// address to read from.
pub open spec fn has_value(arg: InstructionArgument) -> bool {
    arg is Immediate || arg is Address
}

/// Finds the value that `arg` carries: the immediate byte, or the byte read
/// at the address.
pub(crate) fn value_of(arg: InstructionArgument, cpu: &mut CPU) -> (r: Option<Byte>)
    requires
        old(cpu)@.wf(),
    ensures
        match old(cpu)@.value(arg) {
            Some(found) => r == Some(Byte(found.0)) && final(cpu)@ == found.1,
            None => r is None && final(cpu)@ == old(cpu)@,
        },
        r is Some <==> has_value(arg),
        final(cpu)@.wf(),
{
    match arg {
        InstructionArgument::Immediate(v) => Some(v),
        InstructionArgument::Address(addr) => Some(cpu.read(addr)),
        _ => None,
    }
}

/// Stops the CPU because a handler was given an argument that its
/// instruction cannot take.
pub(crate) fn refuse(cpu: &mut CPU) -> (advance: bool)
    requires
        old(cpu)@.wf(),
    ensures
        final(cpu)@ == old(cpu)@.illegal(),
        final(cpu)@.wf(),
        !advance,
{
    cpu.halt(Fault::IllegalAddressingMode);
    false
}

impl AddressingMode {
    /// The number of bus reads that finding the operand takes: one for each
    /// byte behind the opcode, and two more for the pointer of an indirect
    /// mode.
    pub open spec fn reads(self) -> nat {
        match self {
            AddressingMode::Implied => 0,
            AddressingMode::Immediate | AddressingMode::ZeroPage | AddressingMode::ZeroPageX
            | AddressingMode::ZeroPageY | AddressingMode::Relative => 1,
            AddressingMode::Absolute | AddressingMode::AbsoluteX | AddressingMode::AbsoluteY => 2,
            AddressingMode::IndirectX | AddressingMode::IndirectY => 3,
            AddressingMode::Indirect => 4,
        }
    }

    /// Finds the operand: reads the bytes behind the opcode, stepping PC
    /// past them, and for the indirect modes the pointer that they name.
    pub fn get(self, cpu: &mut CPU) -> (arg: InstructionArgument)
        requires
            old(cpu)@.wf(),
        ensures
            (arg, final(cpu)@) == old(cpu)@.operand(self),
            final(cpu)@.wf(),
    {
        proof {
            reveal(CpuModel::operand);
        }
        match self {
            AddressingMode::Immediate => InstructionArgument::Immediate(cpu.read_pc()),
            AddressingMode::ZeroPage => {
                let zp = cpu.read_pc();
                InstructionArgument::Address(Addr(zp.0 as u16))
            },
            AddressingMode::ZeroPageX => {
                let x = cpu.x;
                let zp = cpu.read_pc();
                InstructionArgument::Address(Addr(zp.0.wrapping_add(x.0) as u16))
            },
            AddressingMode::ZeroPageY => {
                let y = cpu.y;
                let zp = cpu.read_pc();
                InstructionArgument::Address(Addr(zp.0.wrapping_add(y.0) as u16))
            },
            AddressingMode::Absolute => InstructionArgument::Address(cpu.read_pc_word()),
            AddressingMode::AbsoluteX => {
                let x = cpu.x;
                let base = cpu.read_pc_word();
                InstructionArgument::Address(base.offset(x.0 as u16))
            },
            AddressingMode::AbsoluteY => {
                let y = cpu.y;
                let base = cpu.read_pc_word();
                InstructionArgument::Address(base.offset(y.0 as u16))
            },
            AddressingMode::Indirect => {
                let pointer = cpu.read_pc_word();
                InstructionArgument::Address(cpu.read_word(pointer))
            },
            AddressingMode::IndirectX => {
                let x = cpu.x;
                let zp = cpu.read_pc();
                let pointer = Addr(zp.0.wrapping_add(x.0) as u16);
                InstructionArgument::Address(cpu.read_word(pointer))
            },
            AddressingMode::IndirectY => {
                let y = cpu.y;
                let zp = cpu.read_pc();
                let base = cpu.read_word(Addr(zp.0 as u16));
                InstructionArgument::Address(base.offset(y.0 as u16))
            },
            AddressingMode::Relative => InstructionArgument::Offset(cpu.read_pc()),
            AddressingMode::Implied => InstructionArgument::Implied,
        }
    }
}

impl CpuModel {
    /// The machine after `instruction` was executed on the operand `arg`.
    /// A NOP changes nothing; a jamming opcode stops the CPU.
    #[verifier::opaque]
    pub open spec fn execute(self, instruction: Instruction, arg: InstructionArgument) -> CpuModel {
        match instruction {
            Instruction::LDA => self.lda(arg),
            Instruction::LDX => self.ldx(arg),
            Instruction::LDY => self.ldy(arg),
            Instruction::STA => self.store(arg, self.a),
            Instruction::STX => self.store(arg, self.x),
            Instruction::STY => self.store(arg, self.y),
            Instruction::TAX => self.tax(arg),
            Instruction::TAY => self.tay(arg),
            Instruction::TXA => self.txa(arg),
            Instruction::TYA => self.tya(arg),
            Instruction::TSX => self.tsx(arg),
            Instruction::TXS => self.txs(arg),
            Instruction::PHA => self.pha(arg),
            Instruction::PHP => self.php(arg),
            Instruction::PLA => self.pla(arg),
            Instruction::PLP => self.plp(arg),
            Instruction::AND => self.and(arg),
            Instruction::EOR => self.eor(arg),
            Instruction::ORA => self.ora(arg),
            Instruction::BIT => self.bit(arg),
            Instruction::CMP => self.compare(self.a, arg),
            Instruction::CPX => self.compare(self.x, arg),
            Instruction::CPY => self.compare(self.y, arg),
            Instruction::ADC => self.adc(arg),
            Instruction::SBC => self.sbc(arg),
            Instruction::INC => self.step_memory(arg, 1),
            Instruction::INX => self.step_x(arg, 1),
            Instruction::INY => self.step_y(arg, 1),
            Instruction::DEC => self.step_memory(arg, -1),
            Instruction::DEX => self.step_x(arg, -1),
            Instruction::DEY => self.step_y(arg, -1),
            Instruction::ASL => self.shift(Shift::Asl, arg),
            Instruction::LSR => self.shift(Shift::Lsr, arg),
            Instruction::ROL => self.shift(Shift::Rol, arg),
            Instruction::ROR => self.shift(Shift::Ror, arg),
            Instruction::JMP => self.jmp(arg),
            Instruction::JSR => self.jsr(arg),
            Instruction::RTS => self.rts(arg),
            Instruction::BRK => self.brk(arg),
            Instruction::RTI => self.rti(arg),
            Instruction::BCC => self.branch(arg, !self.flag(Flag::Carry)),
            Instruction::BCS => self.branch(arg, self.flag(Flag::Carry)),
            Instruction::BEQ => self.branch(arg, self.flag(Flag::Zero)),
            Instruction::BMI => self.branch(arg, self.flag(Flag::Negative)),
            Instruction::BNE => self.branch(arg, !self.flag(Flag::Zero)),
            Instruction::BPL => self.branch(arg, !self.flag(Flag::Negative)),
            Instruction::BVC => self.branch(arg, !self.flag(Flag::Overflow)),
            Instruction::BVS => self.branch(arg, self.flag(Flag::Overflow)),
            Instruction::CLC => self.flag_op(arg, Flag::Carry, false),
            Instruction::CLD => self.flag_op(arg, Flag::DecimalMode, false),
            Instruction::CLI => self.flag_op(arg, Flag::InterruptDisable, false),
            Instruction::CLV => self.flag_op(arg, Flag::Overflow, false),
            Instruction::SEC => self.flag_op(arg, Flag::Carry, true),
            Instruction::SED => self.flag_op(arg, Flag::DecimalMode, true),
            Instruction::SEI => self.flag_op(arg, Flag::InterruptDisable, true),
            Instruction::NOP => self,
            Instruction::Jam(op) => self.fail(Fault::Jam(op)),
        }
    }

    /// Whether `instruction` leaves it to the fetch of its operand where PC
    /// stands: it neither jumped nor stopped the CPU.
    pub open spec fn advances(self, instruction: Instruction, arg: InstructionArgument) -> bool {
        match instruction {
            Instruction::LDA | Instruction::LDX | Instruction::LDY | Instruction::AND
            | Instruction::EOR | Instruction::ORA | Instruction::ADC | Instruction::SBC
            | Instruction::CMP | Instruction::CPX | Instruction::CPY => has_value(arg),
            Instruction::STA | Instruction::STX | Instruction::STY | Instruction::BIT
            | Instruction::INC | Instruction::DEC => arg is Address,
            Instruction::ASL | Instruction::LSR | Instruction::ROL | Instruction::ROR => arg
                is Implied || arg is Address,
            Instruction::JMP | Instruction::JSR | Instruction::RTS | Instruction::BRK
            | Instruction::RTI => false,
            Instruction::BCC => arg is Offset && self.flag(Flag::Carry),
            Instruction::BCS => arg is Offset && !self.flag(Flag::Carry),
            Instruction::BEQ => arg is Offset && !self.flag(Flag::Zero),
            Instruction::BMI => arg is Offset && !self.flag(Flag::Negative),
            Instruction::BNE => arg is Offset && self.flag(Flag::Zero),
            Instruction::BPL => arg is Offset && self.flag(Flag::Negative),
            Instruction::BVC => arg is Offset && self.flag(Flag::Overflow),
            Instruction::BVS => arg is Offset && !self.flag(Flag::Overflow),
            Instruction::NOP => true,
            Instruction::Jam(_) => false,
            _ => arg is Implied,
        }
    }
}

impl Instruction {
    /// Executes the instruction on the operand `arg`. The result says
    /// whether the instruction left PC where the fetch of its operand put
    /// it; it is `false` where the instruction jumped or stopped the CPU.
    pub fn exec(&self, arg: InstructionArgument, cpu: &mut CPU) -> (advance: bool)
        requires
            old(cpu)@.wf(),
        ensures
            final(cpu)@ == old(cpu)@.execute(*self, arg),
            final(cpu)@.wf(),
            advance == old(cpu)@.advances(*self, arg),
    {
        proof {
            reveal(CpuModel::execute);
        }
        match self {
            Instruction::LDA => load_store::lda(arg, cpu),
            Instruction::LDX => load_store::ldx(arg, cpu),
            Instruction::LDY => load_store::ldy(arg, cpu),
            Instruction::STA => load_store::sta(arg, cpu),
            Instruction::STX => load_store::stx(arg, cpu),
            Instruction::STY => load_store::sty(arg, cpu),

            Instruction::TAX => stack_op::tax(arg, cpu),
            Instruction::TAY => stack_op::tay(arg, cpu),
            Instruction::TXA => stack_op::txa(arg, cpu),
            Instruction::TYA => stack_op::tya(arg, cpu),
            Instruction::TSX => stack_op::tsx(arg, cpu),
            Instruction::TXS => stack_op::txs(arg, cpu),
            Instruction::PHA => stack_op::pha(arg, cpu),
            Instruction::PHP => stack_op::php(arg, cpu),
            Instruction::PLA => stack_op::pla(arg, cpu),
            Instruction::PLP => stack_op::plp(arg, cpu),

            Instruction::AND => logical::and(arg, cpu),
            Instruction::EOR => logical::eor(arg, cpu),
            Instruction::ORA => logical::ora(arg, cpu),
            Instruction::BIT => logical::bit(arg, cpu),
            Instruction::CMP => logical::cmp(arg, cpu),
            Instruction::CPX => logical::cpx(arg, cpu),
            Instruction::CPY => logical::cpy(arg, cpu),

            Instruction::ADC => arithmetic::adc(arg, cpu),
            Instruction::SBC => arithmetic::sbc(arg, cpu),

            Instruction::INC => increment_decrement::inc(arg, cpu),
            Instruction::INX => increment_decrement::inx(arg, cpu),
            Instruction::INY => increment_decrement::iny(arg, cpu),
            Instruction::DEC => increment_decrement::dec(arg, cpu),
            Instruction::DEX => increment_decrement::dex(arg, cpu),
            Instruction::DEY => increment_decrement::dey(arg, cpu),

            Instruction::ASL => shift::asl(arg, cpu),
            Instruction::LSR => shift::lsr(arg, cpu),
            Instruction::ROL => shift::rol(arg, cpu),
            Instruction::ROR => shift::ror(arg, cpu),

            Instruction::JMP => jump_call::jmp(arg, cpu),
            Instruction::JSR => jump_call::jsr(arg, cpu),
            Instruction::RTS => jump_call::rts(arg, cpu),
            Instruction::BRK => jump_call::brk(arg, cpu),
            Instruction::RTI => jump_call::rti(arg, cpu),

            Instruction::BCC => branch::bcc(arg, cpu),
            Instruction::BCS => branch::bcs(arg, cpu),
            Instruction::BEQ => branch::beq(arg, cpu),
            Instruction::BMI => branch::bmi(arg, cpu),
            Instruction::BNE => branch::bne(arg, cpu),
            Instruction::BPL => branch::bpl(arg, cpu),
            Instruction::BVC => branch::bvc(arg, cpu),
            Instruction::BVS => branch::bvs(arg, cpu),

            Instruction::CLC => flag::clc(arg, cpu),
            Instruction::CLD => flag::cld(arg, cpu),
            Instruction::CLI => flag::cli(arg, cpu),
            Instruction::CLV => flag::clv(arg, cpu),
            Instruction::SEC => flag::sec(arg, cpu),
            Instruction::SED => flag::sed(arg, cpu),
            Instruction::SEI => flag::sei(arg, cpu),

            Instruction::NOP => true,
            Instruction::Jam(op) => {
                cpu.halt(Fault::Jam(*op));
                false
            },
        }
    }
}

} // verus!
