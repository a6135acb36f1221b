//! Increments and decrements of memory and of the index registers.

use vstd::prelude::*;
use crate::hardware::cpu::instructions::refuse;
use crate::hardware::cpu::instructions::InstructionArgument;
use crate::hardware::cpu::lemmas::refused;
use crate::hardware::cpu::lemmas::same_control;
use crate::hardware::cpu::model::CpuModel;
use crate::hardware::cpu::CPU;
use crate::types::wrap8;
use crate::types::Byte;

verus! {

impl CpuModel {
    /// INC and DEC: the byte at the address is read, `step` (1 or -1) is
    /// added to it with wrap-around, the result is written back, and Zero
    /// and Negative are set from it.
    pub open spec fn step_memory(self, arg: InstructionArgument, step: int) -> CpuModel {
        match arg {
            InstructionArgument::Address(addr) => {
                let found = self.read(addr.0);
                let result = wrap8(found.0 + step);
                found.1.write(addr.0, result).set_nz(result)
            },
            _ => self.illegal(),
        }
    }

    /// INX and DEX: `step` (1 or -1) is added to X with wrap-around, and
    /// Zero and Negative are set from it.
    pub open spec fn step_x(self, arg: InstructionArgument, step: int) -> CpuModel {
        match arg {
            InstructionArgument::Implied => CpuModel { x: wrap8(self.x + step), ..self }.set_nz(
                wrap8(self.x + step),
            ),
            _ => self.illegal(),
        }
    }

    /// INY and DEY: `step` (1 or -1) is added to Y with wrap-around, and
    /// Zero and Negative are set from it.
    pub open spec fn step_y(self, arg: InstructionArgument, step: int) -> CpuModel {
        match arg {
            InstructionArgument::Implied => CpuModel { y: wrap8(self.y + step), ..self }.set_nz(
                wrap8(self.y + step),
            ),
            _ => self.illegal(),
        }
    }
}

/// INC: add one to the byte at the operand's address.
pub fn inc(arg: InstructionArgument, cpu: &mut CPU) -> (advance: bool)
    requires
        old(cpu)@.wf(),
    ensures
        final(cpu)@ == old(cpu)@.step_memory(arg, 1),
        final(cpu)@.wf(),
        advance == arg is Address,
{
    match arg {
        InstructionArgument::Address(addr) => {
            let val = Byte(cpu.read(addr).0.wrapping_add(1));
            cpu.write(addr, val);
            cpu.set_nz(val);
            true
        },
        _ => refuse(cpu),
    }
}

/// INX: add one to X.
pub fn inx(arg: InstructionArgument, cpu: &mut CPU) -> (advance: bool)
    requires
        old(cpu)@.wf(),
    ensures
        final(cpu)@ == old(cpu)@.step_x(arg, 1),
        final(cpu)@.wf(),
        advance == arg is Implied,
{
    match arg {
        InstructionArgument::Implied => {
            let val = Byte(cpu.x.0.wrapping_add(1));
            cpu.x = val;
            cpu.set_nz(val);
            true
        },
        _ => refuse(cpu),
    }
}

/// INY: add one to Y.
pub fn iny(arg: InstructionArgument, cpu: &mut CPU) -> (advance: bool)
    requires
        old(cpu)@.wf(),
    ensures
        final(cpu)@ == old(cpu)@.step_y(arg, 1),
        final(cpu)@.wf(),
        advance == arg is Implied,
{
    match arg {
        InstructionArgument::Implied => {
            let val = Byte(cpu.y.0.wrapping_add(1));
            cpu.y = val;
            cpu.set_nz(val);
            true
        },
        _ => refuse(cpu),
    }
}

/// DEC: take one from the byte at the operand's address.
pub fn dec(arg: InstructionArgument, cpu: &mut CPU) -> (advance: bool)
    requires
        old(cpu)@.wf(),
    ensures
        final(cpu)@ == old(cpu)@.step_memory(arg, -1),
        final(cpu)@.wf(),
        advance == arg is Address,
{
    match arg {
        InstructionArgument::Address(addr) => {
            let val = Byte(cpu.read(addr).0.wrapping_sub(1));
            cpu.write(addr, val);
            cpu.set_nz(val);
            true
        },
        _ => refuse(cpu),
    }
}

/// DEX: take one from X.
pub fn dex(arg: InstructionArgument, cpu: &mut CPU) -> (advance: bool)
    requires
        old(cpu)@.wf(),
    ensures
        final(cpu)@ == old(cpu)@.step_x(arg, -1),
        final(cpu)@.wf(),
        advance == arg is Implied,
{
    match arg {
        InstructionArgument::Implied => {
            let val = Byte(cpu.x.0.wrapping_sub(1));
            cpu.x = val;
            cpu.set_nz(val);
            true
        },
        _ => refuse(cpu),
    }
}

/// DEY: take one from Y.
pub fn dey(arg: InstructionArgument, cpu: &mut CPU) -> (advance: bool)
    requires
        old(cpu)@.wf(),
    ensures
        final(cpu)@ == old(cpu)@.step_y(arg, -1),
        final(cpu)@.wf(),
        advance == arg is Implied,
{
    match arg {
        InstructionArgument::Implied => {
            let val = Byte(cpu.y.0.wrapping_sub(1));
            cpu.y = val;
            cpu.set_nz(val);
            true
        },
        _ => refuse(cpu),
    }
}

/// Increments and decrements leave the control latches alone.
pub proof fn lemma_keeps_control(s: CpuModel, arg: InstructionArgument, step: int)
    ensures
        same_control(s, s.step_memory(arg, step)),
        same_control(s, s.step_x(arg, step)),
        same_control(s, s.step_y(arg, step)),
{
}

/// An increment or decrement of memory with an address, and one of a register
/// with the implied argument, is not refused.
pub proof fn lemma_not_refused(s: CpuModel, arg: InstructionArgument, step: int)
    requires
        !refused(s),
    ensures
        arg is Address ==> !refused(s.step_memory(arg, step)),
        arg is Implied ==> !refused(s.step_x(arg, step)),
        arg is Implied ==> !refused(s.step_y(arg, step)),
{
}

} // verus!
