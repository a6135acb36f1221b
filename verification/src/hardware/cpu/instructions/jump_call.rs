//! Jumps, calls, returns and the software interrupt.

use vstd::prelude::*;
use crate::hardware::cpu::instructions::refuse;
use crate::hardware::cpu::instructions::stack_op::lemma_stored_part;
use crate::hardware::cpu::instructions::stack_op::pushed_status;
use crate::hardware::cpu::instructions::InstructionArgument;
use crate::hardware::cpu::lemmas::holds;
use crate::hardware::cpu::lemmas::lemma_flag_after_set;
use crate::hardware::cpu::lemmas::lemma_pop_holds;
use crate::hardware::cpu::lemmas::lemma_push_holds;
use crate::hardware::cpu::lemmas::lemma_read_holds;
use crate::hardware::cpu::lemmas::lemma_push_word_then_pop_word;
use crate::hardware::cpu::lemmas::lemma_with_flag_stored;
use crate::hardware::cpu::lemmas::same_registers;
use crate::hardware::cpu::model::stack_addr;
use crate::hardware::cpu::model::stored_part;
use crate::hardware::cpu::lemmas::refused;
use crate::hardware::cpu::lemmas::same_control;
use crate::hardware::cpu::model::CpuModel;
use crate::hardware::cpu::Flag;
use crate::hardware::cpu::CPU;
use crate::hardware::cpu::IRQ_VECTOR;
use crate::types::high_byte;
use crate::types::lemma_word_of_bytes;
use crate::types::low_byte;
use crate::types::word;
use crate::types::wrap16;
use crate::types::wrap8;
use crate::types::Addr;
use crate::types::Bit;
use crate::types::Byte;

verus! {

impl CpuModel {
    /// JMP: PC is loaded with the address.
    pub open spec fn jmp(self, arg: InstructionArgument) -> CpuModel {
        match arg {
            InstructionArgument::Address(addr) => CpuModel { pc: addr.0, ..self },
            _ => self.illegal(),
        }
    }

    /// JSR: the address of the last byte of the instruction is pushed, high
    /// byte first, and PC is loaded with the address.
    pub open spec fn jsr(self, arg: InstructionArgument) -> CpuModel {
        match arg {
            InstructionArgument::Address(addr) => CpuModel {
                pc: addr.0,
                ..self.push_word(wrap16(self.pc - 1))
            },
            _ => self.illegal(),
        }
    }

    /// RTS: an address is popped, low byte first, and PC is loaded with the
    /// address after it.
    pub open spec fn rts(self, arg: InstructionArgument) -> CpuModel {
        self.implied(arg, CpuModel { pc: wrap16(self.pop_word().0 + 1), ..self.pop_word().1 })
    }

    /// BRK: the address two past the opcode is pushed, high byte first, then
    /// the status with Break and Reserved set in the copy; PC is loaded from
    /// the IRQ vector and interrupts are disabled.
    pub open spec fn brk(self, arg: InstructionArgument) -> CpuModel {
        self.implied(arg, self.software_interrupt())
    }

    /// What BRK does to the machine.
    pub open spec fn software_interrupt(self) -> CpuModel {
        let saved = self.push_word(wrap16(self.previous_pc + 2)).push(pushed_status(self.ps));
        let target = saved.read_word(IRQ_VECTOR);
        CpuModel { pc: target.0, ..target.1 }.set(Flag::InterruptDisable, true)
    }

    /// RTI: the status is popped, without Break and Reserved, then PC, low
    /// byte first.
    pub open spec fn rti(self, arg: InstructionArgument) -> CpuModel {
        self.implied(arg, self.interrupt_return())
    }

    /// What RTI does to the machine.
    #[verifier::opaque]
    pub open spec fn interrupt_return(self) -> CpuModel {
        let status = self.pop();
        let target = CpuModel { ps: stored_part(status.0), ..status.1 }.pop_word();
        CpuModel { pc: target.0, ..target.1 }
    }
}

/// RTS after JSR continues at the byte behind the bytes of the JSR: it puts
/// PC where it stood when the JSR had fetched its operand, and the stack
/// pointer where it stood before the call. The two stack cells have to be
/// RAM.
pub proof fn lemma_jsr_then_rts(s: CpuModel, target: Addr)
    requires
        s.wf(),
        s.bus.is_ram(stack_addr(s.sp)),
        s.bus.is_ram(stack_addr(wrap8(s.sp - 1))),
    ensures
        ({
            let called = s.jsr(InstructionArgument::Address(target));
            let back = called.rts(InstructionArgument::Implied);
            &&& called.pc == target.0
            &&& called.sp == wrap8(s.sp - 2)
            &&& back.pc == s.pc
            &&& back.sp == s.sp
            &&& back.wf()
        }),
{
    let pushed = s.push_word(wrap16(s.pc - 1));
    let called = CpuModel { pc: target.0, ..pushed };
    lemma_push_word_then_pop_word(s, wrap16(s.pc - 1));
    assert(called.pop_word().0 == pushed.pop_word().0);
    assert(called.pop_word().1 == CpuModel { pc: target.0, ..pushed.pop_word().1 });
}

/// What the push of a return address and of a status leaves, where the
/// three stack cells are RAM: the three bytes in their cells, the stack
/// pointer three down, and every register as it was.
pub proof fn lemma_frame_pushed(s: CpuModel, pc: u16, status: u8)
    requires
        s.wf(),
        s.bus.is_ram(stack_addr(s.sp)),
        s.bus.is_ram(stack_addr(wrap8(s.sp - 1))),
        s.bus.is_ram(stack_addr(wrap8(s.sp - 2))),
    ensures
        ({
            let pushed = s.push_word(pc).push(status);
            &&& pushed.wf()
            &&& pushed.sp == wrap8(s.sp - 3)
            &&& same_registers(s, pushed)
            &&& holds(pushed, stack_addr(s.sp), high_byte(pc))
            &&& holds(pushed, stack_addr(wrap8(s.sp - 1)), low_byte(pc))
            &&& holds(pushed, stack_addr(wrap8(s.sp - 2)), status)
        }),
{
    let top = stack_addr(s.sp);
    let mid = stack_addr(wrap8(s.sp - 1));
    let low = stack_addr(wrap8(s.sp - 2));
    let one = s.push(high_byte(pc));
    lemma_push_holds(s, high_byte(pc));
    assert(holds(one, mid, s.bus.read(mid)));
    assert(holds(one, low, s.bus.read(low)));
    let two = one.push(low_byte(pc));
    lemma_push_holds(one, low_byte(pc));
    assert(holds(two, top, high_byte(pc)));
    assert(holds(two, low, s.bus.read(low)));
    let three = two.push(status);
    lemma_push_holds(two, status);
    assert(holds(three, top, high_byte(pc)));
    assert(holds(three, mid, low_byte(pc)));
}

/// What the read of a word leaves: every RAM cell and every register as it
/// was.
pub proof fn lemma_read_word_holds(s: CpuModel, addr: u16)
    requires
        s.wf(),
    ensures
        s.read_word(addr).1.wf(),
        s.read_word(addr).1.sp == s.sp,
        same_registers(s, s.read_word(addr).1),
        forall|other: u16, d: u8|
            holds(s, other, d) ==> #[trigger] holds(s.read_word(addr).1, other, d),
{
    let first = s.read(addr);
    lemma_read_holds(s, addr);
    lemma_read_holds(first.1, wrap16(addr + 1));
    assert forall|other: u16, d: u8| holds(s, other, d) implies #[trigger] holds(
        s.read_word(addr).1,
        other,
        d,
    ) by {
        assert(holds(first.1, other, d));
    }
}

/// What taking an interrupt leaves, where the three stack cells are RAM:
/// the high byte of PC, its low byte and the status as it was stored on the
/// stack, in this order downwards; the stack pointer three down; A, X and Y
/// as they were; and interrupts disabled.
pub proof fn lemma_interrupt_holds(s: CpuModel, vector: u16)
    requires
        s.wf(),
        s.bus.is_ram(stack_addr(s.sp)),
        s.bus.is_ram(stack_addr(wrap8(s.sp - 1))),
        s.bus.is_ram(stack_addr(wrap8(s.sp - 2))),
    ensures
        ({
            let taken = s.interrupt(vector);
            &&& taken.wf()
            &&& taken.flag(Flag::InterruptDisable)
            &&& taken.sp == wrap8(s.sp - 3)
            &&& taken.a == s.a
            &&& taken.x == s.x
            &&& taken.y == s.y
            &&& holds(taken, stack_addr(s.sp), high_byte(s.pc))
            &&& holds(taken, stack_addr(wrap8(s.sp - 1)), low_byte(s.pc))
            &&& holds(taken, stack_addr(wrap8(s.sp - 2)), s.ps)
        }),
{
    reveal(CpuModel::interrupt);
    let top = stack_addr(s.sp);
    let mid = stack_addr(wrap8(s.sp - 1));
    let low = stack_addr(wrap8(s.sp - 2));
    let pushed = s.push_word(s.pc).push(s.ps);
    lemma_frame_pushed(s, s.pc, s.ps);
    lemma_with_flag_stored(s.ps, Flag::InterruptDisable, true);
    lemma_flag_after_set(s.ps, Flag::InterruptDisable, true, Flag::InterruptDisable);
    let masked = pushed.set(Flag::InterruptDisable, true);
    assert(holds(masked, top, high_byte(s.pc)));
    assert(holds(masked, mid, low_byte(s.pc)));
    assert(holds(masked, low, s.ps));
    let target = masked.read_word(vector);
    lemma_read_word_holds(masked, vector);
    assert(holds(target.1, top, high_byte(s.pc)));
    assert(holds(target.1, mid, low_byte(s.pc)));
    assert(holds(target.1, low, s.ps));
}

/// RTI after an interrupt was taken gives the status and PC back as they
/// were before the interrupt, and puts the stack pointer back where it
/// stood. The three stack cells have to be RAM.
pub proof fn lemma_interrupt_then_rti(s: CpuModel, vector: u16)
    requires
        s.wf(),
        s.bus.is_ram(stack_addr(s.sp)),
        s.bus.is_ram(stack_addr(wrap8(s.sp - 1))),
        s.bus.is_ram(stack_addr(wrap8(s.sp - 2))),
    ensures
        s.interrupt(vector).flag(Flag::InterruptDisable),
        s.interrupt(vector).sp == wrap8(s.sp - 3),
        s.interrupt(vector).rti(InstructionArgument::Implied).pc == s.pc,
        s.interrupt(vector).rti(InstructionArgument::Implied).ps == s.ps,
        s.interrupt(vector).rti(InstructionArgument::Implied).sp == s.sp,
        s.interrupt(vector).rti(InstructionArgument::Implied).wf(),
{
    lemma_interrupt_holds(s, vector);
    lemma_stack_unwinds(s.interrupt(vector), s.pc, s.ps);
    let ps = s.ps;
    assert(ps & 0x30 == 0 ==> ps & !0x30u8 == ps) by (bit_vector);
}

/// RTI gives back the PC and the status that lie on the stack: where the
/// three cells above the stack pointer are RAM and hold a status byte, the
/// low and the high byte of `pc`, RTI leaves `pc` in PC, the stored part of
/// the status byte in PS and the stack pointer three up.
pub proof fn lemma_stack_unwinds(s: CpuModel, pc: u16, status: u8)
    requires
        s.wf(),
        holds(s, stack_addr(wrap8(s.sp + 1)), status),
        holds(s, stack_addr(wrap8(s.sp + 2)), low_byte(pc)),
        holds(s, stack_addr(wrap8(s.sp + 3)), high_byte(pc)),
    ensures
        s.rti(InstructionArgument::Implied).pc == pc,
        s.rti(InstructionArgument::Implied).ps == stored_part(status),
        s.rti(InstructionArgument::Implied).sp == wrap8(s.sp + 3),
        s.rti(InstructionArgument::Implied).wf(),
{
    reveal(CpuModel::interrupt_return);
    let popped = s.pop();
    lemma_pop_holds(s, status);
    lemma_stored_part(status);
    let restored = CpuModel { ps: stored_part(popped.0), ..popped.1 };
    assert(restored.bus == s.bus);
    let l = restored.pop();
    lemma_pop_holds(restored, low_byte(pc));
    let h = l.1.pop();
    lemma_pop_holds(l.1, high_byte(pc));
    lemma_word_of_bytes(pc);
}

/// JMP: continue at the operand's address.
pub fn jmp(arg: InstructionArgument, cpu: &mut CPU) -> (advance: bool)
    requires
        old(cpu)@.wf(),
    ensures
        final(cpu)@ == old(cpu)@.jmp(arg),
        final(cpu)@.wf(),
        !advance,
{
    match arg {
        InstructionArgument::Address(addr) => {
            cpu.pc = addr;
            false
        },
        _ => refuse(cpu),
    }
}

/// JSR: call the subroutine at the operand's address.
pub fn jsr(arg: InstructionArgument, cpu: &mut CPU) -> (advance: bool)
    requires
        old(cpu)@.wf(),
    ensures
        final(cpu)@ == old(cpu)@.jsr(arg),
        final(cpu)@.wf(),
        !advance,
{
    match arg {
        InstructionArgument::Address(addr) => {
            let back = Addr(cpu.pc.0.wrapping_sub(1));
            cpu.push_word(back);
            cpu.pc = addr;
            false
        },
        _ => refuse(cpu),
    }
}

/// RTS: return from a subroutine, to the byte after the call.
pub fn rts(arg: InstructionArgument, cpu: &mut CPU) -> (advance: bool)
    requires
        old(cpu)@.wf(),
    ensures
        final(cpu)@ == old(cpu)@.rts(arg),
        final(cpu)@.wf(),
        !advance,
{
    match arg {
        InstructionArgument::Implied => {
            let back = cpu.pop_word();
            cpu.pc = back.offset(1);
            false
        },
        _ => refuse(cpu),
    }
}

/// BRK: force an interrupt through the IRQ vector.
pub fn brk(arg: InstructionArgument, cpu: &mut CPU) -> (advance: bool)
    requires
        old(cpu)@.wf(),
    ensures
        final(cpu)@ == old(cpu)@.brk(arg),
        final(cpu)@.wf(),
        !advance,
{
    match arg {
        InstructionArgument::Implied => {
            let back = cpu.previous_pc.offset(2);
            let ps: u8 = cpu.ps.0;
            cpu.push_word(back);
            cpu.push_stack(Byte((ps | 0x20) | 0x10));
            let target = cpu.read_word(Addr(IRQ_VECTOR));
            cpu.pc = target;
            cpu.set(Flag::InterruptDisable, Bit(true));
            false
        },
        _ => refuse(cpu),
    }
}

/// RTI: return from an interrupt.
pub fn rti(arg: InstructionArgument, cpu: &mut CPU) -> (advance: bool)
    requires
        old(cpu)@.wf(),
    ensures
        final(cpu)@ == old(cpu)@.rti(arg),
        final(cpu)@.wf(),
        !advance,
{
    match arg {
        InstructionArgument::Implied => {
            let status = cpu.pop_stack();
            proof {
                reveal(CpuModel::interrupt_return);
                lemma_stored_part(status.0);
            }
            cpu.ps = Byte(status.0 & !0x30u8);
            let target = cpu.pop_word();
            cpu.pc = target;
            false
        },
        _ => refuse(cpu),
    }
}

/// Jumps, calls, returns and BRK leave the control latches alone.
pub proof fn lemma_keeps_control(s: CpuModel, arg: InstructionArgument)
    ensures
        same_control(s, s.jmp(arg)),
        same_control(s, s.jsr(arg)),
        same_control(s, s.rts(arg)),
        same_control(s, s.brk(arg)),
        same_control(s, s.rti(arg)),
{
    reveal(CpuModel::interrupt_return);
}

/// A jump or call with an address, and a return or BRK with the implied
/// argument, is not refused.
pub proof fn lemma_not_refused(s: CpuModel, arg: InstructionArgument)
    requires
        !refused(s),
    ensures
        arg is Address ==> !refused(s.jmp(arg)),
        arg is Address ==> !refused(s.jsr(arg)),
        arg is Implied ==> !refused(s.rts(arg)),
        arg is Implied ==> !refused(s.brk(arg)),
        arg is Implied ==> !refused(s.rti(arg)),
{
    reveal(CpuModel::interrupt_return);
}

} // verus!
