//! The instructions that set or clear one flag.

use vstd::prelude::*;
use crate::hardware::cpu::instructions::refuse;
use crate::hardware::cpu::instructions::InstructionArgument;
use crate::hardware::cpu::lemmas::refused;
use crate::hardware::cpu::lemmas::same_control;
use crate::hardware::cpu::model::CpuModel;
use crate::hardware::cpu::Flag;
use crate::hardware::cpu::CPU;
use crate::types::Bit;

verus! {

impl CpuModel {
    /// An implied instruction that sets or clears `flag`.
    pub open spec fn flag_op(self, arg: InstructionArgument, flag: Flag, on: bool) -> CpuModel {
        match arg {
            InstructionArgument::Implied => self.set(flag, on),
            _ => self.illegal(),
        }
    }
}

/// Sets or clears `flag`, if the argument is the implied one.
fn flag_op(arg: InstructionArgument, cpu: &mut CPU, flag: Flag, on: bool) -> (advance: bool)
    requires
        old(cpu)@.wf(),
        !(flag is Break),
    ensures
        final(cpu)@ == old(cpu)@.flag_op(arg, flag, on),
        final(cpu)@.wf(),
        advance == arg is Implied,
{
    match arg {
        InstructionArgument::Implied => {
            cpu.set(flag, Bit(on));
            true
        },
        _ => refuse(cpu),
    }
}

/// CLC: clear Carry.
pub fn clc(arg: InstructionArgument, cpu: &mut CPU) -> (advance: bool)
    requires
        old(cpu)@.wf(),
    ensures
        final(cpu)@ == old(cpu)@.flag_op(arg, Flag::Carry, false),
        final(cpu)@.wf(),
        advance == arg is Implied,
{
    flag_op(arg, cpu, Flag::Carry, false)
}

/// CLD: clear DecimalMode.
pub fn cld(arg: InstructionArgument, cpu: &mut CPU) -> (advance: bool)
    requires
        old(cpu)@.wf(),
    ensures
        final(cpu)@ == old(cpu)@.flag_op(arg, Flag::DecimalMode, false),
        final(cpu)@.wf(),
        advance == arg is Implied,
{
    flag_op(arg, cpu, Flag::DecimalMode, false)
}

/// CLI: clear InterruptDisable.
pub fn cli(arg: InstructionArgument, cpu: &mut CPU) -> (advance: bool)
    requires
        old(cpu)@.wf(),
    ensures
        final(cpu)@ == old(cpu)@.flag_op(arg, Flag::InterruptDisable, false),
        final(cpu)@.wf(),
        advance == arg is Implied,
{
    flag_op(arg, cpu, Flag::InterruptDisable, false)
}

/// CLV: clear Overflow.
pub fn clv(arg: InstructionArgument, cpu: &mut CPU) -> (advance: bool)
    requires
        old(cpu)@.wf(),
    ensures
        final(cpu)@ == old(cpu)@.flag_op(arg, Flag::Overflow, false),
        final(cpu)@.wf(),
        advance == arg is Implied,
{
    flag_op(arg, cpu, Flag::Overflow, false)
}

/// SEC: set Carry.
pub fn sec(arg: InstructionArgument, cpu: &mut CPU) -> (advance: bool)
    requires
        old(cpu)@.wf(),
    ensures
        final(cpu)@ == old(cpu)@.flag_op(arg, Flag::Carry, true),
        final(cpu)@.wf(),
        advance == arg is Implied,
{
    flag_op(arg, cpu, Flag::Carry, true)
}

/// SED: set DecimalMode.
pub fn sed(arg: InstructionArgument, cpu: &mut CPU) -> (advance: bool)
    requires
        old(cpu)@.wf(),
    ensures
        final(cpu)@ == old(cpu)@.flag_op(arg, Flag::DecimalMode, true),
        final(cpu)@.wf(),
        advance == arg is Implied,
{
    flag_op(arg, cpu, Flag::DecimalMode, true)
}

/// SEI: set InterruptDisable.
pub fn sei(arg: InstructionArgument, cpu: &mut CPU) -> (advance: bool)
    requires
        old(cpu)@.wf(),
    ensures
        final(cpu)@ == old(cpu)@.flag_op(arg, Flag::InterruptDisable, true),
        final(cpu)@.wf(),
        advance == arg is Implied,
{
    flag_op(arg, cpu, Flag::InterruptDisable, true)
}

/// Flag instructions leave the control latches alone.
pub proof fn lemma_keeps_control(s: CpuModel, arg: InstructionArgument, flag: Flag, on: bool)
    ensures
        same_control(s, s.flag_op(arg, flag, on)),
{
}

/// A flag instruction with the implied argument is not refused.
pub proof fn lemma_not_refused(s: CpuModel, arg: InstructionArgument, flag: Flag, on: bool)
    requires
        !refused(s),
    ensures
        arg is Implied ==> !refused(s.flag_op(arg, flag, on)),
{
}

} // verus!
