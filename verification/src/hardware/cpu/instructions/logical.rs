//! The logical operations on A, the bit test and the comparisons.

use vstd::prelude::*;
use crate::hardware::cpu::instructions::has_value;
use crate::hardware::cpu::instructions::refuse;
use crate::hardware::cpu::instructions::value_of;
use crate::hardware::cpu::instructions::InstructionArgument;
use crate::hardware::cpu::lemmas::refused;
use crate::hardware::cpu::lemmas::same_control;
use crate::hardware::cpu::model::CpuModel;
use crate::hardware::cpu::Flag;
use crate::hardware::cpu::CPU;
use crate::types::Bit;
use crate::types::Byte;

verus! {

impl CpuModel {
    /// The machine with `result` in A, and Zero and Negative set from it.
    pub open spec fn into_a(self, result: u8) -> CpuModel {
        CpuModel { a: result, ..self }.set_nz(result)
    }

    /// AND: A and the operand, bit by bit.
    pub open spec fn and(self, arg: InstructionArgument) -> CpuModel {
        match self.value(arg) {
            Some(found) => found.1.into_a(self.a & found.0),
            None => self.illegal(),
        }
    }

    /// EOR: A exclusive-or the operand, bit by bit.
    pub open spec fn eor(self, arg: InstructionArgument) -> CpuModel {
        match self.value(arg) {
            Some(found) => found.1.into_a(self.a ^ found.0),
            None => self.illegal(),
        }
    }

    /// ORA: A or the operand, bit by bit.
    pub open spec fn ora(self, arg: InstructionArgument) -> CpuModel {
        match self.value(arg) {
            Some(found) => found.1.into_a(self.a | found.0),
            None => self.illegal(),
        }
    }

    /// BIT: Zero says whether A and the byte in memory share no bit;
    /// Negative and Overflow are bits 7 and 6 of that byte.
    pub open spec fn bit(self, arg: InstructionArgument) -> CpuModel {
        match arg {
            InstructionArgument::Address(addr) => {
                let found = self.read(addr.0);
                found.1.set(Flag::Zero, found.0 & self.a == 0).set(
                    Flag::Negative,
                    found.0 & 0x80 != 0,
                ).set(Flag::Overflow, found.0 & 0x40 != 0)
            },
            _ => self.illegal(),
        }
    }

    /// The flags after the register value `reg` was compared with `v`:
    /// Carry says `reg >= v`, Zero `reg == v`, Negative `reg < v`.
    pub open spec fn compared(self, reg: u8, v: u8) -> CpuModel {
        self.set(Flag::Carry, reg >= v).set(Flag::Zero, reg == v).set(Flag::Negative, reg < v)
    }

    /// A comparison of the register value `reg` with the operand.
    pub open spec fn compare(self, reg: u8, arg: InstructionArgument) -> CpuModel {
        match self.value(arg) {
            Some(found) => found.1.compared(reg, found.0),
            None => self.illegal(),
        }
    }
}

/// Puts `result` into A and sets Zero and Negative from it.
fn into_a(cpu: &mut CPU, result: Byte)
    requires
        old(cpu)@.wf(),
    ensures
        final(cpu)@ == old(cpu)@.into_a(result.0),
        final(cpu)@.wf(),
{
    cpu.a = result;
    cpu.set_nz(result);
}

/// Sets Carry, Zero and Negative from the comparison of `reg` with `val`.
fn compared(cpu: &mut CPU, reg: Byte, val: Byte)
    requires
        old(cpu)@.wf(),
    ensures
        final(cpu)@ == old(cpu)@.compared(reg.0, val.0),
        final(cpu)@.wf(),
{
    cpu.set(Flag::Carry, Bit(reg.0 >= val.0));
    cpu.set(Flag::Zero, Bit(reg.0 == val.0));
    cpu.set(Flag::Negative, Bit(reg.0 < val.0));
}

/// AND: A becomes A and the operand.
pub fn and(arg: InstructionArgument, cpu: &mut CPU) -> (advance: bool)
    requires
        old(cpu)@.wf(),
    ensures
        final(cpu)@ == old(cpu)@.and(arg),
        final(cpu)@.wf(),
        advance == has_value(arg),
{
    let a = cpu.a;
    match value_of(arg, cpu) {
        Some(val) => {
            into_a(cpu, Byte(a.0 & val.0));
            true
        },
        None => refuse(cpu),
    }
}

/// EOR: A becomes A exclusive-or the operand.
pub fn eor(arg: InstructionArgument, cpu: &mut CPU) -> (advance: bool)
    requires
        old(cpu)@.wf(),
    ensures
        final(cpu)@ == old(cpu)@.eor(arg),
        final(cpu)@.wf(),
        advance == has_value(arg),
{
    let a = cpu.a;
    match value_of(arg, cpu) {
        Some(val) => {
            into_a(cpu, Byte(a.0 ^ val.0));
            true
        },
        None => refuse(cpu),
    }
}

/// ORA: A becomes A or the operand.
pub fn ora(arg: InstructionArgument, cpu: &mut CPU) -> (advance: bool)
    requires
        old(cpu)@.wf(),
    ensures
        final(cpu)@ == old(cpu)@.ora(arg),
        final(cpu)@.wf(),
        advance == has_value(arg),
{
    let a = cpu.a;
    match value_of(arg, cpu) {
        Some(val) => {
            into_a(cpu, Byte(a.0 | val.0));
            true
        },
        None => refuse(cpu),
    }
}

/// BIT: test the bits of the byte in memory against A.
pub fn bit(arg: InstructionArgument, cpu: &mut CPU) -> (advance: bool)
    requires
        old(cpu)@.wf(),
    ensures
        final(cpu)@ == old(cpu)@.bit(arg),
        final(cpu)@.wf(),
        advance == arg is Address,
{
    match arg {
        InstructionArgument::Address(addr) => {
            let a = cpu.a;
            let val = cpu.read(addr);
            cpu.set(Flag::Zero, Bit(val.0 & a.0 == 0));
            cpu.set(Flag::Negative, Bit(val.0 & 0x80 != 0));
            cpu.set(Flag::Overflow, Bit(val.0 & 0x40 != 0));
            true
        },
        _ => refuse(cpu),
    }
}

/// CMP: compare A with the operand.
pub fn cmp(arg: InstructionArgument, cpu: &mut CPU) -> (advance: bool)
    requires
        old(cpu)@.wf(),
    ensures
        final(cpu)@ == old(cpu)@.compare(old(cpu)@.a, arg),
        final(cpu)@.wf(),
        advance == has_value(arg),
{
    let reg = cpu.a;
    match value_of(arg, cpu) {
        Some(val) => {
            compared(cpu, reg, val);
            true
        },
        None => refuse(cpu),
    }
}

/// CPX: compare X with the operand.
pub fn cpx(arg: InstructionArgument, cpu: &mut CPU) -> (advance: bool)
    requires
        old(cpu)@.wf(),
    ensures
        final(cpu)@ == old(cpu)@.compare(old(cpu)@.x, arg),
        final(cpu)@.wf(),
        advance == has_value(arg),
{
    let reg = cpu.x;
    match value_of(arg, cpu) {
        Some(val) => {
            compared(cpu, reg, val);
            true
        },
        None => refuse(cpu),
    }
}

/// CPY: compare Y with the operand.
pub fn cpy(arg: InstructionArgument, cpu: &mut CPU) -> (advance: bool)
    requires
        old(cpu)@.wf(),
    ensures
        final(cpu)@ == old(cpu)@.compare(old(cpu)@.y, arg),
        final(cpu)@.wf(),
        advance == has_value(arg),
{
    let reg = cpu.y;
    match value_of(arg, cpu) {
        Some(val) => {
            compared(cpu, reg, val);
            true
        },
        None => refuse(cpu),
    }
}

/// Logical operations, the bit test and comparisons leave the control latches
/// alone.
pub proof fn lemma_keeps_control(s: CpuModel, arg: InstructionArgument, data: u8)
    ensures
        same_control(s, s.and(arg)),
        same_control(s, s.eor(arg)),
        same_control(s, s.ora(arg)),
        same_control(s, s.bit(arg)),
        same_control(s, s.compare(data, arg)),
{
}

/// A logical operation or comparison with a value, and a bit test with an
/// address, is not refused.
pub proof fn lemma_not_refused(s: CpuModel, arg: InstructionArgument, data: u8)
    requires
        !refused(s),
    ensures
        has_value(arg) ==> !refused(s.and(arg)),
        has_value(arg) ==> !refused(s.eor(arg)),
        has_value(arg) ==> !refused(s.ora(arg)),
        arg is Address ==> !refused(s.bit(arg)),
        has_value(arg) ==> !refused(s.compare(data, arg)),
{
}

} // verus!
