//! Register transfers and the stack instructions.

use vstd::prelude::*;
use crate::hardware::cpu::instructions::refuse;
use crate::hardware::cpu::instructions::InstructionArgument;
use crate::hardware::cpu::lemmas::lemma_push_then_pop;
use crate::hardware::cpu::model::observed;
use crate::hardware::cpu::model::stack_addr;
use crate::hardware::cpu::model::stored_part;
use crate::hardware::cpu::lemmas::refused;
use crate::hardware::cpu::lemmas::same_control;
use crate::hardware::cpu::model::CpuModel;
use crate::hardware::cpu::Flag;
use crate::hardware::cpu::CPU;
use crate::hardware::cpu::UNSTORED;
use crate::types::Byte;

verus! {

/// The copy of the status `ps` that PHP and BRK push: Break and Reserved are
/// set in it.
pub open spec fn pushed_status(ps: u8) -> u8 {
    observed(ps) | Flag::Break.mask()
}

impl CpuModel {
    /// What an implied instruction does: `after` where the argument is the
    /// implied one, else the machine stops.
    pub open spec fn implied(self, arg: InstructionArgument, after: CpuModel) -> CpuModel {
        match arg {
            InstructionArgument::Implied => after,
            _ => self.illegal(),
        }
    }

    /// TAX: X takes A.
    pub open spec fn tax(self, arg: InstructionArgument) -> CpuModel {
        self.implied(arg, CpuModel { x: self.a, ..self }.set_nz(self.a))
    }

    /// TAY: Y takes A.
    pub open spec fn tay(self, arg: InstructionArgument) -> CpuModel {
        self.implied(arg, CpuModel { y: self.a, ..self }.set_nz(self.a))
    }

    /// TXA: A takes X.
    pub open spec fn txa(self, arg: InstructionArgument) -> CpuModel {
        self.implied(arg, CpuModel { a: self.x, ..self }.set_nz(self.x))
    }

    /// TYA: A takes Y.
    pub open spec fn tya(self, arg: InstructionArgument) -> CpuModel {
        self.implied(arg, CpuModel { a: self.y, ..self }.set_nz(self.y))
    }

    /// TSX: X takes SP.
    pub open spec fn tsx(self, arg: InstructionArgument) -> CpuModel {
        self.implied(arg, CpuModel { x: self.sp, ..self }.set_nz(self.sp))
    }

    /// TXS: SP takes X; no flag changes.
    pub open spec fn txs(self, arg: InstructionArgument) -> CpuModel {
        self.implied(arg, CpuModel { sp: self.x, ..self })
    }

    /// PHA: A is pushed.
    pub open spec fn pha(self, arg: InstructionArgument) -> CpuModel {
        self.implied(arg, self.push(self.a))
    }

    /// PHP: the status is pushed with Break and Reserved set in the copy.
    pub open spec fn php(self, arg: InstructionArgument) -> CpuModel {
        self.implied(arg, self.push(pushed_status(self.ps)))
    }

    /// PLA: A is popped, Zero and Negative are set from it.
    pub open spec fn pla(self, arg: InstructionArgument) -> CpuModel {
        self.implied(arg, CpuModel { a: self.pop().0, ..self.pop().1 }.set_nz(self.pop().0))
    }

    /// PLP: the status is popped; Break and Reserved are not taken over.
    pub open spec fn plp(self, arg: InstructionArgument) -> CpuModel {
        self.implied(arg, CpuModel { ps: stored_part(self.pop().0), ..self.pop().1 })
    }
}

/// The stored part of any byte holds neither Break nor Reserved.
pub proof fn lemma_stored_part(ps: u8)
    ensures
        stored_part(ps) & UNSTORED == 0,
{
    assert((ps & !0x30u8) & 0x30u8 == 0) by (bit_vector);
}

/// PLP after PHP gives the status back as it was: Break, which PHP sets in
/// the pushed copy, does not reach the live status, and Reserved still reads
/// as set. The stack pointer is back where it stood. The stack cell has to
/// be RAM.
pub proof fn lemma_php_then_plp(s: CpuModel)
    requires
        s.wf(),
        s.bus.is_ram(stack_addr(s.sp)),
    ensures
        ({
            let after = s.php(InstructionArgument::Implied).plp(InstructionArgument::Implied);
            &&& after.ps == s.ps
            &&& after.sp == s.sp
            &&& !after.flag(Flag::Break)
            &&& after.flag(Flag::Reserved)
            &&& after.wf()
        }),
{
    let ps = s.ps;
    lemma_push_then_pop(s, pushed_status(ps));
    assert(ps & 0x30 == 0 ==> ((ps | 0x20) | 0x10) & !0x30u8 == ps && ps & 0x10 == 0)
        by (bit_vector);
}

/// TAX: transfer A to X.
pub fn tax(arg: InstructionArgument, cpu: &mut CPU) -> (advance: bool)
    requires
        old(cpu)@.wf(),
    ensures
        final(cpu)@ == old(cpu)@.tax(arg),
        final(cpu)@.wf(),
        advance == arg is Implied,
{
    match arg {
        InstructionArgument::Implied => {
            let val = cpu.a;
            cpu.x = val;
            cpu.set_nz(val);
            true
        },
        _ => refuse(cpu),
    }
}

/// TAY: transfer A to Y.
pub fn tay(arg: InstructionArgument, cpu: &mut CPU) -> (advance: bool)
    requires
        old(cpu)@.wf(),
    ensures
        final(cpu)@ == old(cpu)@.tay(arg),
        final(cpu)@.wf(),
        advance == arg is Implied,
{
    match arg {
        InstructionArgument::Implied => {
            let val = cpu.a;
            cpu.y = val;
            cpu.set_nz(val);
            true
        },
        _ => refuse(cpu),
    }
}

/// TXA: transfer X to A.
pub fn txa(arg: InstructionArgument, cpu: &mut CPU) -> (advance: bool)
    requires
        old(cpu)@.wf(),
    ensures
        final(cpu)@ == old(cpu)@.txa(arg),
        final(cpu)@.wf(),
        advance == arg is Implied,
{
    match arg {
        InstructionArgument::Implied => {
            let val = cpu.x;
            cpu.a = val;
            cpu.set_nz(val);
            true
        },
        _ => refuse(cpu),
    }
}

/// TYA: transfer Y to A.
pub fn tya(arg: InstructionArgument, cpu: &mut CPU) -> (advance: bool)
    requires
        old(cpu)@.wf(),
    ensures
        final(cpu)@ == old(cpu)@.tya(arg),
        final(cpu)@.wf(),
        advance == arg is Implied,
{
    match arg {
        InstructionArgument::Implied => {
            let val = cpu.y;
            cpu.a = val;
            cpu.set_nz(val);
            true
        },
        _ => refuse(cpu),
    }
}

/// TSX: transfer SP to X.
pub fn tsx(arg: InstructionArgument, cpu: &mut CPU) -> (advance: bool)
    requires
        old(cpu)@.wf(),
    ensures
        final(cpu)@ == old(cpu)@.tsx(arg),
        final(cpu)@.wf(),
        advance == arg is Implied,
{
    match arg {
        InstructionArgument::Implied => {
            let val = cpu.sp;
            cpu.x = val;
            cpu.set_nz(val);
            true
        },
        _ => refuse(cpu),
    }
}

/// TXS: transfer X to SP. No flag changes.
pub fn txs(arg: InstructionArgument, cpu: &mut CPU) -> (advance: bool)
    requires
        old(cpu)@.wf(),
    ensures
        final(cpu)@ == old(cpu)@.txs(arg),
        final(cpu)@.wf(),
        advance == arg is Implied,
{
    match arg {
        InstructionArgument::Implied => {
            cpu.sp = cpu.x;
            true
        },
        _ => refuse(cpu),
    }
}

/// PHA: push A.
pub fn pha(arg: InstructionArgument, cpu: &mut CPU) -> (advance: bool)
    requires
        old(cpu)@.wf(),
    ensures
        final(cpu)@ == old(cpu)@.pha(arg),
        final(cpu)@.wf(),
        advance == arg is Implied,
{
    match arg {
        InstructionArgument::Implied => {
            let val = cpu.a;
            cpu.push_stack(val);
            true
        },
        _ => refuse(cpu),
    }
}

/// PHP: push the processor status, with Break and Reserved set in the
/// pushed copy.
pub fn php(arg: InstructionArgument, cpu: &mut CPU) -> (advance: bool)
    requires
        old(cpu)@.wf(),
    ensures
        final(cpu)@ == old(cpu)@.php(arg),
        final(cpu)@.wf(),
        advance == arg is Implied,
{
    match arg {
        InstructionArgument::Implied => {
            let ps: u8 = cpu.ps.0;
            cpu.push_stack(Byte((ps | 0x20) | 0x10));
            true
        },
        _ => refuse(cpu),
    }
}

/// PLA: pop A.
pub fn pla(arg: InstructionArgument, cpu: &mut CPU) -> (advance: bool)
    requires
        old(cpu)@.wf(),
    ensures
        final(cpu)@ == old(cpu)@.pla(arg),
        final(cpu)@.wf(),
        advance == arg is Implied,
{
    match arg {
        InstructionArgument::Implied => {
            let val = cpu.pop_stack();
            cpu.a = val;
            cpu.set_nz(val);
            true
        },
        _ => refuse(cpu),
    }
}

/// PLP: pop the processor status. Break is cleared on the live status.
pub fn plp(arg: InstructionArgument, cpu: &mut CPU) -> (advance: bool)
    requires
        old(cpu)@.wf(),
    ensures
        final(cpu)@ == old(cpu)@.plp(arg),
        final(cpu)@.wf(),
        advance == arg is Implied,
{
    match arg {
        InstructionArgument::Implied => {
            let val = cpu.pop_stack();
            proof {
                lemma_stored_part(val.0);
            }
            cpu.ps = Byte(val.0 & !0x30u8);
            true
        },
        _ => refuse(cpu),
    }
}

/// Transfers and stack instructions leave the control latches alone.
pub proof fn lemma_keeps_control(s: CpuModel, arg: InstructionArgument)
    ensures
        same_control(s, s.tax(arg)),
        same_control(s, s.tay(arg)),
        same_control(s, s.txa(arg)),
        same_control(s, s.tya(arg)),
        same_control(s, s.tsx(arg)),
        same_control(s, s.txs(arg)),
        same_control(s, s.pha(arg)),
        same_control(s, s.php(arg)),
        same_control(s, s.pla(arg)),
        same_control(s, s.plp(arg)),
{
}

/// A transfer or stack instruction with the implied argument is not refused.
pub proof fn lemma_not_refused(s: CpuModel, arg: InstructionArgument)
    requires
        !refused(s),
    ensures
        arg is Implied ==> !refused(s.tax(arg)),
        arg is Implied ==> !refused(s.tay(arg)),
        arg is Implied ==> !refused(s.txa(arg)),
        arg is Implied ==> !refused(s.tya(arg)),
        arg is Implied ==> !refused(s.tsx(arg)),
        arg is Implied ==> !refused(s.txs(arg)),
        arg is Implied ==> !refused(s.pha(arg)),
        arg is Implied ==> !refused(s.php(arg)),
        arg is Implied ==> !refused(s.pla(arg)),
        arg is Implied ==> !refused(s.plp(arg)),
{
}

} // verus!
