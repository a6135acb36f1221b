//! The conditional branches.

use vstd::prelude::*;
use crate::hardware::cpu::instructions::opcode::decode;
use crate::hardware::cpu::instructions::refuse;
use crate::hardware::cpu::instructions::AddressingMode;
use crate::hardware::cpu::instructions::Instruction;
use crate::hardware::cpu::instructions::InstructionArgument;
use crate::hardware::cpu::lemmas::refused;
use crate::hardware::cpu::lemmas::same_control;
use crate::hardware::cpu::model::CpuModel;
use crate::hardware::cpu::Flag;
use crate::hardware::cpu::CPU;
use crate::types::wrap16;
use crate::types::Addr;
use crate::types::Byte;

verus! {

/// The offset byte of a branch as the signed number it stands for: a byte
/// with bit 7 set is its value less 256.
pub open spec fn signed_offset(offset: u8) -> int {
    if offset >= 0x80 {
        offset - 256
    } else {
        offset as int
    }
}

impl CpuModel {
    /// The machine after a branch was taken: the signed offset is added to
    /// PC, which stands behind the branch instruction. A branch that lands
    /// on its own opcode traps.
    pub open spec fn offset_pc(self, offset: u8) -> CpuModel {
        let target = wrap16(self.pc + signed_offset(offset));
        CpuModel { pc: target, trap: self.trap || target == self.previous_pc, ..self }
    }

    /// A branch: taken where `taken` holds, else nothing changes.
    pub open spec fn branch(self, arg: InstructionArgument, taken: bool) -> CpuModel {
        match arg {
            InstructionArgument::Offset(offset) => if taken {
                self.offset_pc(offset.0)
            } else {
                self
            },
            _ => self.illegal(),
        }
    }
}

/// Whether `instruction` is one of the eight branches.
pub open spec fn is_branch(instruction: Instruction) -> bool {
    matches!(
        instruction,
        Instruction::BCC | Instruction::BCS | Instruction::BEQ | Instruction::BMI
            | Instruction::BNE | Instruction::BPL | Instruction::BVC | Instruction::BVS
    )
}

/// Whether the condition that guards the branch `instruction` holds in `s`.
pub open spec fn branch_taken(instruction: Instruction, s: CpuModel) -> bool {
    match instruction {
        Instruction::BCC => !s.flag(Flag::Carry),
        Instruction::BCS => s.flag(Flag::Carry),
        Instruction::BEQ => s.flag(Flag::Zero),
        Instruction::BMI => s.flag(Flag::Negative),
        Instruction::BNE => !s.flag(Flag::Zero),
        Instruction::BPL => !s.flag(Flag::Negative),
        Instruction::BVC => !s.flag(Flag::Overflow),
        Instruction::BVS => s.flag(Flag::Overflow),
        _ => false,
    }
}

/// What executing a branch does.
pub proof fn lemma_execute_branch(s: CpuModel, instruction: Instruction, arg: InstructionArgument)
    requires
        is_branch(instruction),
    ensures
        s.execute(instruction, arg) == s.branch(arg, branch_taken(instruction, s)),
{
    reveal(CpuModel::execute);
}

/// What the relative mode finds: the byte behind the opcode, as an offset.
pub proof fn lemma_operand_relative(s: CpuModel)
    ensures
        s.operand(AddressingMode::Relative) == (
            InstructionArgument::Offset(Byte(s.fetch().0)),
            s.fetch().1,
        ),
{
    reveal(CpuModel::operand);
}

/// Where a step leaves PC if the instruction that it fetches is a branch
/// and no interrupt is taken first: two behind the opcode where the guarding
/// condition does not hold, and that plus the signed offset where it does.
pub proof fn lemma_branch_moves_pc(s: CpuModel)
    requires
        s.wf(),
        !s.reset,
        !s.halted(),
        !s.nmi_pending,
        !(s.irq_pending && !s.flag(Flag::InterruptDisable)),
        is_branch(decode(s.read(s.pc).0).0),
    ensures
        ({
            let branch = decode(s.read(s.pc).0).0;
            let offset = s.read(s.pc).1.read(wrap16(s.pc + 1)).0;
            &&& !branch_taken(branch, s) ==> s.step().pc == wrap16(s.pc + 2)
            &&& branch_taken(branch, s) ==> s.step().pc == wrap16(
                s.pc + 2 + signed_offset(offset),
            )
        }),
{
    reveal(CpuModel::run_one);
    let decoded = s.fetch_decode();
    assert(decoded.0.1 is Relative);
    lemma_operand_relative(decoded.1);
    let fetched = decoded.1.operand(decoded.0.1);
    lemma_execute_branch(fetched.1, decoded.0.0, fetched.0);
    assert(fetched.1.pc == wrap16(s.pc + 2));
    assert(fetched.1.ps == s.ps);
    assert(fetched.0 == InstructionArgument::Offset(
        Byte(s.read(s.pc).1.read(wrap16(s.pc + 1)).0),
    ));
}

/// Moves PC by the signed `offset`, and traps where PC then points at the
/// branch itself.
pub fn offset_pc(cpu: &mut CPU, offset: Byte)
    ensures
        final(cpu)@ == old(cpu)@.offset_pc(offset.0),
{
    let pc: u16 = cpu.pc.0;
    let target: u16 = if offset.0 >= 0x80 {
        pc.wrapping_sub(256 - offset.0 as u16)
    } else {
        pc.wrapping_add(offset.0 as u16)
    };
    if target == cpu.previous_pc.0 {
        cpu.trap();
    }
    cpu.pc = Addr(target);
}

/// Branches by the offset in `arg` where `taken` holds.
fn branch(arg: InstructionArgument, cpu: &mut CPU, taken: bool) -> (advance: bool)
    requires
        old(cpu)@.wf(),
    ensures
        final(cpu)@ == old(cpu)@.branch(arg, taken),
        final(cpu)@.wf(),
        advance == (arg is Offset && !taken),
{
    match arg {
        InstructionArgument::Offset(offset) => {
            if taken {
                offset_pc(cpu, offset);
                false
            } else {
                true
            }
        },
        _ => refuse(cpu),
    }
}

/// BCC: branch if Carry is clear.
pub fn bcc(arg: InstructionArgument, cpu: &mut CPU) -> (advance: bool)
    requires
        old(cpu)@.wf(),
    ensures
        final(cpu)@ == old(cpu)@.branch(arg, !old(cpu)@.flag(Flag::Carry)),
        final(cpu)@.wf(),
        advance == (arg is Offset && old(cpu)@.flag(Flag::Carry)),
{
    let taken = !cpu.is_set(Flag::Carry);
    branch(arg, cpu, taken)
}

/// BCS: branch if Carry is set.
pub fn bcs(arg: InstructionArgument, cpu: &mut CPU) -> (advance: bool)
    requires
        old(cpu)@.wf(),
    ensures
        final(cpu)@ == old(cpu)@.branch(arg, old(cpu)@.flag(Flag::Carry)),
        final(cpu)@.wf(),
        advance == (arg is Offset && !old(cpu)@.flag(Flag::Carry)),
{
    let taken = cpu.is_set(Flag::Carry);
    branch(arg, cpu, taken)
}

/// BEQ: branch if Zero is set.
pub fn beq(arg: InstructionArgument, cpu: &mut CPU) -> (advance: bool)
    requires
        old(cpu)@.wf(),
    ensures
        final(cpu)@ == old(cpu)@.branch(arg, old(cpu)@.flag(Flag::Zero)),
        final(cpu)@.wf(),
        advance == (arg is Offset && !old(cpu)@.flag(Flag::Zero)),
{
    let taken = cpu.is_set(Flag::Zero);
    branch(arg, cpu, taken)
}

/// BMI: branch if Negative is set.
pub fn bmi(arg: InstructionArgument, cpu: &mut CPU) -> (advance: bool)
    requires
        old(cpu)@.wf(),
    ensures
        final(cpu)@ == old(cpu)@.branch(arg, old(cpu)@.flag(Flag::Negative)),
        final(cpu)@.wf(),
        advance == (arg is Offset && !old(cpu)@.flag(Flag::Negative)),
{
    let taken = cpu.is_set(Flag::Negative);
    branch(arg, cpu, taken)
}

/// BNE: branch if Zero is clear.
pub fn bne(arg: InstructionArgument, cpu: &mut CPU) -> (advance: bool)
    requires
        old(cpu)@.wf(),
    ensures
        final(cpu)@ == old(cpu)@.branch(arg, !old(cpu)@.flag(Flag::Zero)),
        final(cpu)@.wf(),
        advance == (arg is Offset && old(cpu)@.flag(Flag::Zero)),
{
    let taken = !cpu.is_set(Flag::Zero);
    branch(arg, cpu, taken)
}

/// BPL: branch if Negative is clear.
pub fn bpl(arg: InstructionArgument, cpu: &mut CPU) -> (advance: bool)
    requires
        old(cpu)@.wf(),
    ensures
        final(cpu)@ == old(cpu)@.branch(arg, !old(cpu)@.flag(Flag::Negative)),
        final(cpu)@.wf(),
        advance == (arg is Offset && old(cpu)@.flag(Flag::Negative)),
{
    let taken = !cpu.is_set(Flag::Negative);
    branch(arg, cpu, taken)
}

/// BVC: branch if Overflow is clear.
pub fn bvc(arg: InstructionArgument, cpu: &mut CPU) -> (advance: bool)
    requires
        old(cpu)@.wf(),
    ensures
        final(cpu)@ == old(cpu)@.branch(arg, !old(cpu)@.flag(Flag::Overflow)),
        final(cpu)@.wf(),
        advance == (arg is Offset && old(cpu)@.flag(Flag::Overflow)),
{
    let taken = !cpu.is_set(Flag::Overflow);
    branch(arg, cpu, taken)
}

/// BVS: branch if Overflow is set.
pub fn bvs(arg: InstructionArgument, cpu: &mut CPU) -> (advance: bool)
    requires
        old(cpu)@.wf(),
    ensures
        final(cpu)@ == old(cpu)@.branch(arg, old(cpu)@.flag(Flag::Overflow)),
        final(cpu)@.wf(),
        advance == (arg is Offset && !old(cpu)@.flag(Flag::Overflow)),
{
    let taken = cpu.is_set(Flag::Overflow);
    branch(arg, cpu, taken)
}

/// Branches leave the control latches alone.
pub proof fn lemma_keeps_control(s: CpuModel, arg: InstructionArgument, taken: bool)
    ensures
        same_control(s, s.branch(arg, taken)),
{
}

/// A branch with an offset is not refused.
pub proof fn lemma_not_refused(s: CpuModel, arg: InstructionArgument, taken: bool)
    requires
        !refused(s),
    ensures
        arg is Offset ==> !refused(s.branch(arg, taken)),
{
}

} // verus!
