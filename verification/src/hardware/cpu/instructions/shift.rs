//! Shifts and rotates, of A or of a byte in memory.

use vstd::prelude::*;
use crate::hardware::cpu::instructions::refuse;
use crate::hardware::cpu::instructions::InstructionArgument;
use crate::hardware::cpu::lemmas::refused;
use crate::hardware::cpu::lemmas::same_control;
use crate::hardware::cpu::model::CpuModel;
use crate::hardware::cpu::Flag;
use crate::hardware::cpu::CPU;
use crate::types::Bit;
use crate::types::Byte;

verus! {

/// The four ways to move the bits of a byte by one place.
#[derive(Clone, Copy, Debug, PartialEq, Eq, Structural)]
pub enum Shift {
    /// To the left; bit 0 becomes zero.
    Asl,
    /// To the right; bit 7 becomes zero.
    Lsr,
    /// To the left; bit 0 becomes the old Carry.
    Rol,
    /// To the right; bit 7 becomes the old Carry.
    Ror,
}

/// The byte `v` shifted or rotated, with `carry` as the bit that a rotate
/// moves in.
pub open spec fn shifted(kind: Shift, v: u8, carry: bool) -> u8 {
    match kind {
        Shift::Asl => v << 1u8,
        Shift::Lsr => v >> 1u8,
        Shift::Rol => (v << 1u8) | (if carry {
            0x01u8
        } else {
            0x00u8
        }),
        Shift::Ror => (v >> 1u8) | (if carry {
            0x80u8
        } else {
            0x00u8
        }),
    }
}

/// The bit of `v` that the shift or rotate moves out: bit 7 to the left,
/// bit 0 to the right.
pub open spec fn shifted_out(kind: Shift, v: u8) -> bool {
    match kind {
        Shift::Asl | Shift::Rol => v & 0x80 != 0,
        Shift::Lsr | Shift::Ror => v & 0x01 != 0,
    }
}

impl CpuModel {
    /// The flags after `v` was shifted or rotated: Carry is the bit moved
    /// out, Zero and Negative are set from the result.
    pub open spec fn shift_flags(self, kind: Shift, v: u8) -> CpuModel {
        self.set(Flag::Carry, shifted_out(kind, v)).set_nz(
            shifted(kind, v, self.flag(Flag::Carry)),
        )
    }

    /// A shift or rotate: of A where the argument is implied, else of the
    /// byte at the address, which is read and written back.
    pub open spec fn shift(self, kind: Shift, arg: InstructionArgument) -> CpuModel {
        match arg {
            InstructionArgument::Implied => CpuModel {
                a: shifted(kind, self.a, self.flag(Flag::Carry)),
                ..self.shift_flags(kind, self.a)
            },
            InstructionArgument::Address(addr) => {
                let found = self.read(addr.0);
                found.1.shift_flags(kind, found.0).write(
                    addr.0,
                    shifted(kind, found.0, self.flag(Flag::Carry)),
                )
            },
            _ => self.illegal(),
        }
    }
}

/// Shifts or rotates `val`, sets the flags from it and gives the result.
fn shift_value(cpu: &mut CPU, kind: Shift, val: Byte) -> (result: Byte)
    requires
        old(cpu)@.wf(),
    ensures
        result.0 == shifted(kind, val.0, old(cpu)@.flag(Flag::Carry)),
        final(cpu)@ == old(cpu)@.shift_flags(kind, val.0),
        final(cpu)@.wf(),
{
    let v: u8 = val.0;
    let carry = cpu.is_set(Flag::Carry);
    let (result, out): (u8, bool) = match kind {
        Shift::Asl => (v << 1u8, v & 0x80 != 0),
        Shift::Lsr => (v >> 1u8, v & 0x01 != 0),
        Shift::Rol => ((v << 1u8) | (if carry {
            0x01u8
        } else {
            0x00u8
        }), v & 0x80 != 0),
        Shift::Ror => ((v >> 1u8) | (if carry {
            0x80u8
        } else {
            0x00u8
        }), v & 0x01 != 0),
    };
    cpu.set(Flag::Carry, Bit(out));
    cpu.set_nz(Byte(result));
    Byte(result)
}

/// Shifts or rotates A or the byte at the operand's address.
fn shift(kind: Shift, arg: InstructionArgument, cpu: &mut CPU) -> (advance: bool)
    requires
        old(cpu)@.wf(),
    ensures
        final(cpu)@ == old(cpu)@.shift(kind, arg),
        final(cpu)@.wf(),
        advance == (arg is Implied || arg is Address),
{
    match arg {
        InstructionArgument::Implied => {
            let a = cpu.a;
            let result = shift_value(cpu, kind, a);
            cpu.a = result;
            true
        },
        InstructionArgument::Address(addr) => {
            let val = cpu.read(addr);
            let result = shift_value(cpu, kind, val);
            cpu.write(addr, result);
            true
        },
        _ => refuse(cpu),
    }
}

/// ASL: shift left; Carry takes bit 7.
pub fn asl(arg: InstructionArgument, cpu: &mut CPU) -> (advance: bool)
    requires
        old(cpu)@.wf(),
    ensures
        final(cpu)@ == old(cpu)@.shift(Shift::Asl, arg),
        final(cpu)@.wf(),
        advance == (arg is Implied || arg is Address),
{
    shift(Shift::Asl, arg, cpu)
}

/// LSR: shift right; Carry takes bit 0.
pub fn lsr(arg: InstructionArgument, cpu: &mut CPU) -> (advance: bool)
    requires
        old(cpu)@.wf(),
    ensures
        final(cpu)@ == old(cpu)@.shift(Shift::Lsr, arg),
        final(cpu)@.wf(),
        advance == (arg is Implied || arg is Address),
{
    shift(Shift::Lsr, arg, cpu)
}

/// ROL: rotate left through Carry.
pub fn rol(arg: InstructionArgument, cpu: &mut CPU) -> (advance: bool)
    requires
        old(cpu)@.wf(),
    ensures
        final(cpu)@ == old(cpu)@.shift(Shift::Rol, arg),
        final(cpu)@.wf(),
        advance == (arg is Implied || arg is Address),
{
    shift(Shift::Rol, arg, cpu)
}

/// ROR: rotate right through Carry.
pub fn ror(arg: InstructionArgument, cpu: &mut CPU) -> (advance: bool)
    requires
        old(cpu)@.wf(),
    ensures
        final(cpu)@ == old(cpu)@.shift(Shift::Ror, arg),
        final(cpu)@.wf(),
        advance == (arg is Implied || arg is Address),
{
    shift(Shift::Ror, arg, cpu)
}

/// Shifts and rotates leave the control latches alone.
pub proof fn lemma_keeps_control(s: CpuModel, arg: InstructionArgument, kind: Shift)
    ensures
        same_control(s, s.shift(kind, arg)),
{
}

/// A shift or rotate with the implied argument or an address is not refused.
pub proof fn lemma_not_refused(s: CpuModel, arg: InstructionArgument, kind: Shift)
    requires
        !refused(s),
    ensures
        (arg is Implied || arg is Address) ==> !refused(s.shift(kind, arg)),
{
}

} // verus!
