//! Loads and stores.

use vstd::prelude::*;
use crate::hardware::cpu::instructions::has_value;
use crate::hardware::cpu::instructions::refuse;
use crate::hardware::cpu::instructions::value_of;
use crate::hardware::cpu::instructions::InstructionArgument;
use crate::hardware::cpu::lemmas::refused;
use crate::hardware::cpu::lemmas::same_control;
use crate::hardware::cpu::model::CpuModel;
use crate::hardware::cpu::CPU;

verus! {

impl CpuModel {
    /// LDA: A is loaded, Zero and Negative are set from it.
    pub open spec fn lda(self, arg: InstructionArgument) -> CpuModel {
        match self.value(arg) {
            Some(found) => CpuModel { a: found.0, ..found.1 }.set_nz(found.0),
            None => self.illegal(),
        }
    }

    /// LDX: X is loaded, Zero and Negative are set from it.
    pub open spec fn ldx(self, arg: InstructionArgument) -> CpuModel {
        match self.value(arg) {
            Some(found) => CpuModel { x: found.0, ..found.1 }.set_nz(found.0),
            None => self.illegal(),
        }
    }

    /// LDY: Y is loaded, Zero and Negative are set from it.
    pub open spec fn ldy(self, arg: InstructionArgument) -> CpuModel {
        match self.value(arg) {
            Some(found) => CpuModel { y: found.0, ..found.1 }.set_nz(found.0),
            None => self.illegal(),
        }
    }

    /// A store of `data`: it is written to the address, no flag changes.
    pub open spec fn store(self, arg: InstructionArgument, data: u8) -> CpuModel {
        match arg {
            InstructionArgument::Address(addr) => self.write(addr.0, data),
            _ => self.illegal(),
        }
    }
}

/// LDA: load A from the operand.
pub fn lda(arg: InstructionArgument, cpu: &mut CPU) -> (advance: bool)
    requires
        old(cpu)@.wf(),
    ensures
        final(cpu)@ == old(cpu)@.lda(arg),
        final(cpu)@.wf(),
        advance == has_value(arg),
{
    match value_of(arg, cpu) {
        Some(val) => {
            cpu.a = val;
            cpu.set_nz(val);
            true
        },
        None => refuse(cpu),
    }
}

/// LDX: load X from the operand.
pub fn ldx(arg: InstructionArgument, cpu: &mut CPU) -> (advance: bool)
    requires
        old(cpu)@.wf(),
    ensures
        final(cpu)@ == old(cpu)@.ldx(arg),
        final(cpu)@.wf(),
        advance == has_value(arg),
{
    match value_of(arg, cpu) {
        Some(val) => {
            cpu.x = val;
            cpu.set_nz(val);
            true
        },
        None => refuse(cpu),
    }
}

/// LDY: load Y from the operand.
pub fn ldy(arg: InstructionArgument, cpu: &mut CPU) -> (advance: bool)
    requires
        old(cpu)@.wf(),
    ensures
        final(cpu)@ == old(cpu)@.ldy(arg),
        final(cpu)@.wf(),
        advance == has_value(arg),
{
    match value_of(arg, cpu) {
        Some(val) => {
            cpu.y = val;
            cpu.set_nz(val);
            true
        },
        None => refuse(cpu),
    }
}

/// STA: store A at the operand's address.
pub fn sta(arg: InstructionArgument, cpu: &mut CPU) -> (advance: bool)
    requires
        old(cpu)@.wf(),
    ensures
        final(cpu)@ == old(cpu)@.store(arg, old(cpu)@.a),
        final(cpu)@.wf(),
        advance == arg is Address,
{
    match arg {
        InstructionArgument::Address(addr) => {
            let data = cpu.a;
            cpu.write(addr, data);
            true
        },
        _ => refuse(cpu),
    }
}

/// STX: store X at the operand's address.
pub fn stx(arg: InstructionArgument, cpu: &mut CPU) -> (advance: bool)
    requires
        old(cpu)@.wf(),
    ensures
        final(cpu)@ == old(cpu)@.store(arg, old(cpu)@.x),
        final(cpu)@.wf(),
        advance == arg is Address,
{
    match arg {
        InstructionArgument::Address(addr) => {
            let data = cpu.x;
            cpu.write(addr, data);
            true
        },
        _ => refuse(cpu),
    }
}

/// STY: store Y at the operand's address.
pub fn sty(arg: InstructionArgument, cpu: &mut CPU) -> (advance: bool)
    requires
        old(cpu)@.wf(),
    ensures
        final(cpu)@ == old(cpu)@.store(arg, old(cpu)@.y),
        final(cpu)@.wf(),
        advance == arg is Address,
{
    match arg {
        InstructionArgument::Address(addr) => {
            let data = cpu.y;
            cpu.write(addr, data);
            true
        },
        _ => refuse(cpu),
    }
}

/// Loads and stores leave the control latches alone.
pub proof fn lemma_keeps_control(s: CpuModel, arg: InstructionArgument, data: u8)
    ensures
        same_control(s, s.lda(arg)),
        same_control(s, s.ldx(arg)),
        same_control(s, s.ldy(arg)),
        same_control(s, s.store(arg, data)),
{
}

/// A load with a value to load, and a store with an address to store at, is
/// not refused.
pub proof fn lemma_not_refused(s: CpuModel, arg: InstructionArgument, data: u8)
    requires
        !refused(s),
    ensures
        has_value(arg) ==> !refused(s.lda(arg)),
        has_value(arg) ==> !refused(s.ldx(arg)),
        has_value(arg) ==> !refused(s.ldy(arg)),
        arg is Address ==> !refused(s.store(arg, data)),
{
}

} // verus!
