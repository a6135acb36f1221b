//! Add and subtract with carry.

use vstd::prelude::*;
use crate::hardware::cpu::instructions::has_value;
use crate::hardware::cpu::instructions::refuse;
use crate::hardware::cpu::instructions::value_of;
use crate::hardware::cpu::instructions::InstructionArgument;
use crate::hardware::cpu::model::flag_set;
use crate::hardware::cpu::lemmas::lemma_flag_after_set;
use crate::hardware::cpu::lemmas::refused;
use crate::hardware::cpu::lemmas::same_control;
use crate::hardware::cpu::model::with_flag;
use crate::hardware::cpu::model::CpuModel;
use crate::hardware::cpu::Flag;
use crate::hardware::cpu::CPU;
use crate::types::wrap8;
use crate::types::Bit;
use crate::types::Byte;

verus! {

/// The carry flag as a number.
pub open spec fn carry_in(s: CpuModel) -> int {
    if s.flag(Flag::Carry) {
        1
    } else {
        0
    }
}

/// Whether adding `v` to `a` with result `r` overflowed as two's
/// complement: `a` and `v` have the same sign and `r` has the other.
pub open spec fn overflowed(a: u8, v: u8, r: u8) -> bool {
    (!(a ^ v) & (a ^ r)) & 0x80 != 0
}

impl CpuModel {
    /// The machine after `v` and the carry were added to A: A holds the low
    /// byte of the sum, Carry says whether the sum went over 0xff, Overflow
    /// whether it overflowed as two's complement, Zero and Negative are set
    /// from the new A.
    pub open spec fn add_with_carry(self, v: u8) -> CpuModel {
        let sum = self.a + v + carry_in(self);
        let result = wrap8(sum);
        CpuModel {
            a: result,
            ..self.set(Flag::Carry, sum > 0xff).set(
                Flag::Overflow,
                overflowed(self.a, v, result),
            ).set_nz(result)
        }
    }

    /// ADC: the operand and the carry are added to A.
    pub open spec fn adc(self, arg: InstructionArgument) -> CpuModel {
        match self.value(arg) {
            Some(found) => found.1.add_with_carry(found.0),
            None => self.illegal(),
        }
    }

    /// SBC: the complement of the operand is added.
    pub open spec fn sbc(self, arg: InstructionArgument) -> CpuModel {
        match self.value(arg) {
            Some(found) => found.1.add_with_carry(!found.0),
            None => self.illegal(),
        }
    }
}

/// What an addition with carry leaves in A and in the flags.
pub proof fn lemma_add_with_carry(s: CpuModel, v: u8)
    ensures
        ({
            let sum = s.a + v + carry_in(s);
            let after = s.add_with_carry(v);
            &&& after.a == sum % 256
            &&& after.flag(Flag::Carry) == (sum > 0xff)
            &&& after.flag(Flag::Zero) == (after.a == 0)
            &&& after.flag(Flag::Negative) == (after.a & 0x80 != 0)
            &&& after.flag(Flag::Overflow) == ((!(s.a ^ v) & (s.a ^ after.a)) & 0x80 != 0)
            &&& after.flag(Flag::InterruptDisable) == s.flag(Flag::InterruptDisable)
            &&& after.flag(Flag::DecimalMode) == s.flag(Flag::DecimalMode)
        }),
{
    let sum = s.a + v + carry_in(s);
    let r = wrap8(sum);
    lemma_flags_after_four(s.ps, sum > 0xff, overflowed(s.a, v, r), r & 0x80 != 0, r == 0);
}

/// How each flag reads after Carry, Overflow, Negative and Zero were set in
/// turn.
pub proof fn lemma_flags_after_four(ps: u8, c: bool, v: bool, n: bool, z: bool)
    ensures
        ({
            let carried = with_flag(ps, Flag::Carry, c);
            let overflown = with_flag(carried, Flag::Overflow, v);
            let signed = with_flag(overflown, Flag::Negative, n);
            let after = with_flag(signed, Flag::Zero, z);
            &&& flag_set(after, Flag::Carry) == c
            &&& flag_set(after, Flag::Overflow) == v
            &&& flag_set(after, Flag::Negative) == n
            &&& flag_set(after, Flag::Zero) == z
            &&& flag_set(after, Flag::InterruptDisable)
                == flag_set(ps, Flag::InterruptDisable)
            &&& flag_set(after, Flag::DecimalMode)
                == flag_set(ps, Flag::DecimalMode)
        }),
{
    let carried = with_flag(ps, Flag::Carry, c);
    let overflown = with_flag(carried, Flag::Overflow, v);
    let signed = with_flag(overflown, Flag::Negative, n);
    lemma_flag_after_set(ps, Flag::Carry, c, Flag::Carry);
    lemma_flag_after_set(ps, Flag::Carry, c, Flag::InterruptDisable);
    lemma_flag_after_set(ps, Flag::Carry, c, Flag::DecimalMode);
    lemma_flag_after_set(carried, Flag::Overflow, v, Flag::Carry);
    lemma_flag_after_set(carried, Flag::Overflow, v, Flag::Overflow);
    lemma_flag_after_set(carried, Flag::Overflow, v, Flag::InterruptDisable);
    lemma_flag_after_set(carried, Flag::Overflow, v, Flag::DecimalMode);
    lemma_flag_after_set(overflown, Flag::Negative, n, Flag::Carry);
    lemma_flag_after_set(overflown, Flag::Negative, n, Flag::Overflow);
    lemma_flag_after_set(overflown, Flag::Negative, n, Flag::Negative);
    lemma_flag_after_set(overflown, Flag::Negative, n, Flag::InterruptDisable);
    lemma_flag_after_set(overflown, Flag::Negative, n, Flag::DecimalMode);
    lemma_flag_after_set(signed, Flag::Zero, z, Flag::Carry);
    lemma_flag_after_set(signed, Flag::Zero, z, Flag::Overflow);
    lemma_flag_after_set(signed, Flag::Zero, z, Flag::Negative);
    lemma_flag_after_set(signed, Flag::Zero, z, Flag::Zero);
    lemma_flag_after_set(signed, Flag::Zero, z, Flag::InterruptDisable);
    lemma_flag_after_set(signed, Flag::Zero, z, Flag::DecimalMode);
}

/// The overflow flag of an addition says that the sum of the three numbers,
/// A and the operand taken as signed bytes, does not fit into a signed byte.
pub proof fn lemma_overflow_is_signed_overflow(a: u8, v: u8, carry: bool)
    ensures
        ({
            let c: int = if carry {
                1
            } else {
                0
            };
            let signed = (a as i8) + (v as i8) + c;
            overflowed(a, v, wrap8(a + v + c)) == (signed < -128 || signed > 127)
        }),
{
    let c: u8 = if carry {
        1
    } else {
        0
    };
    let r: u8 = wrap8(a + v + c);
    assert(r == ((a as u16 + v as u16 + c as u16) % 256) as u8);
    assert(c <= 1 ==> (((!(a ^ v) & (a ^ (((a as u16 + v as u16 + c as u16) % 256) as u8))) & 0x80
        != 0) == ((a as i8) as i16 + (v as i8) as i16 + (c as i16) < -128 || (a as i8) as i16 + (
    v as i8) as i16 + (c as i16) > 127))) by (bit_vector);
}

/// Adds `val` and the carry to A.
fn add_with_carry(cpu: &mut CPU, val: Byte)
    requires
        old(cpu)@.wf(),
    ensures
        final(cpu)@ == old(cpu)@.add_with_carry(val.0),
        final(cpu)@.wf(),
{
    let a: u8 = cpu.a.0;
    let v: u8 = val.0;
    let carry: u16 = if cpu.is_set(Flag::Carry) {
        1
    } else {
        0
    };
    let sum: u16 = (a as u16) + (v as u16) + carry;
    let result: u8 = (sum % 256) as u8;
    cpu.set(Flag::Carry, Bit(sum > 0xff));
    cpu.set(Flag::Overflow, Bit((!(a ^ v) & (a ^ result)) & 0x80 != 0));
    cpu.set_nz(Byte(result));
    cpu.a = Byte(result);
}

/// ADC: add the operand and the carry to A.
///
/// With `s = A + operand + Carry`: A becomes `s mod 256`, Carry is
/// `s > 0xff`, Zero says whether the new A is zero, Negative is its bit 7,
/// and Overflow is bit 7 of `~(A ^ operand) & (A ^ new A)`.
pub fn adc(arg: InstructionArgument, cpu: &mut CPU) -> (advance: bool)
    requires
        old(cpu)@.wf(),
    ensures
        final(cpu)@ == old(cpu)@.adc(arg),
        final(cpu)@.wf(),
        advance == has_value(arg),
        match old(cpu)@.value(arg) {
            Some(found) => {
                let a = old(cpu)@.a;
                let v = found.0;
                let sum = a + v + carry_in(old(cpu)@);
                let after = final(cpu)@;
                &&& after.a == sum % 256
                &&& after.flag(Flag::Carry) == (sum > 0xff)
                &&& after.flag(Flag::Zero) == (after.a == 0)
                &&& after.flag(Flag::Negative) == (after.a & 0x80 != 0)
                &&& after.flag(Flag::Overflow) == ((!(a ^ v) & (a ^ after.a)) & 0x80 != 0)
            },
            None => true,
        },
{
    match value_of(arg, cpu) {
        Some(val) => {
            proof {
                lemma_add_with_carry(cpu@, val.0);
            }
            add_with_carry(cpu, val);
            true
        },
        None => refuse(cpu),
    }
}

/// SBC: subtract the operand and the borrow from A, as the addition of the
/// operand's complement and the carry.
pub fn sbc(arg: InstructionArgument, cpu: &mut CPU) -> (advance: bool)
    requires
        old(cpu)@.wf(),
    ensures
        final(cpu)@ == old(cpu)@.sbc(arg),
        final(cpu)@.wf(),
        advance == has_value(arg),
{
    match value_of(arg, cpu) {
        Some(val) => {
            add_with_carry(cpu, Byte(!val.0));
            true
        },
        None => refuse(cpu),
    }
}

/// Additions and subtractions leave the control latches alone.
pub proof fn lemma_keeps_control(s: CpuModel, arg: InstructionArgument)
    ensures
        same_control(s, s.adc(arg)),
        same_control(s, s.sbc(arg)),
{
}

/// An addition or subtraction with a value is not refused.
pub proof fn lemma_not_refused(s: CpuModel, arg: InstructionArgument)
    requires
        !refused(s),
    ensures
        has_value(arg) ==> !refused(s.adc(arg)),
        has_value(arg) ==> !refused(s.sbc(arg)),
{
}

} // verus!
