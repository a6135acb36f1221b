//! What holds of the machine: RAM keeps what was written, the stack gives
//! back what was pushed, every bus transaction takes one clock cycle,
//! running instructions leaves the control latches alone, and no handler
//! refuses what the opcode table pairs.

use vstd::prelude::*;
use crate::hardware::bus::lemma_access_keeps_wf;
use crate::hardware::bus::lemma_ram_read_is_silent;
use crate::hardware::bus::lemma_ram_write_then_read;
use crate::hardware::bus::lemma_read_keeps_ram;
use crate::hardware::bus::lemma_write_keeps_other_ram;
use crate::hardware::clock::next_cycle;
use crate::hardware::cpu::instructions;
use crate::hardware::cpu::instructions::has_value;
use crate::hardware::cpu::instructions::opcode::decode;
use crate::hardware::cpu::instructions::shift::Shift;
use crate::hardware::cpu::instructions::AddressingMode;
use crate::hardware::cpu::instructions::Instruction;
use crate::hardware::cpu::instructions::InstructionArgument;
use crate::hardware::cpu::model::flag_set;
use crate::hardware::cpu::model::stack_addr;
use crate::hardware::cpu::model::with_flag;
use crate::hardware::cpu::model::CpuModel;
use crate::hardware::cpu::Fault;
use crate::hardware::cpu::Flag;
use crate::hardware::cpu::UNSTORED;
use crate::types::high_byte;
use crate::types::lemma_word_of_bytes;
use crate::types::low_byte;
use crate::types::wrap8;

verus! {

/// A byte written to RAM is the byte read there next, and that read changes
/// nothing but the clock.
pub proof fn lemma_write_then_read(s: CpuModel, addr: u16, data: u8)
    requires
        s.wf(),
        s.bus.is_ram(addr),
    ensures
        s.write(addr, data).read(addr) == (data, s.write(addr, data).cycle()),
        s.write(addr, data).wf(),
{
    lemma_ram_write_then_read(s.bus, addr, data);
    lemma_access_keeps_wf(s.bus, addr, data);
}

/// A pop that follows a push gives the byte that was pushed and puts the
/// stack pointer back where it stood, if the stack cell is RAM. Of the rest
/// of the machine the pop changes the clock only.
pub proof fn lemma_push_then_pop(s: CpuModel, data: u8)
    requires
        s.wf(),
        s.bus.is_ram(stack_addr(s.sp)),
    ensures
        s.push(data).pop().0 == data,
        s.push(data).pop().1.sp == s.sp,
        s.push(data).pop().1 == (CpuModel { sp: s.sp, ..s.push(data).cycle() }),
        s.push(data).pop().1.wf(),
{
    let pushed = s.push(data);
    let up = CpuModel { sp: wrap8(pushed.sp + 1), ..pushed };
    assert(up.sp == s.sp);
    let written = s.write(stack_addr(s.sp), data);
    assert(up == CpuModel { sp: s.sp, ..written });
    lemma_write_then_read(s, stack_addr(s.sp), data);
    lemma_ram_write_then_read(s.bus, stack_addr(s.sp), data);
}

/// Two pops that follow the push of a word give the word back and put the
/// stack pointer back where it stood, if both stack cells are RAM. Of the
/// rest of the machine the pops change the clock only.
pub proof fn lemma_push_word_then_pop_word(s: CpuModel, w: u16)
    requires
        s.wf(),
        s.bus.is_ram(stack_addr(s.sp)),
        s.bus.is_ram(stack_addr(wrap8(s.sp - 1))),
    ensures
        s.push_word(w).pop_word().0 == w,
        s.push_word(w).pop_word().1 == (CpuModel {
            sp: s.sp,
            ..s.push_word(w).cycle().cycle()
        }),
        s.push_word(w).pop_word().1.wf(),
{
    let top = stack_addr(s.sp);
    let below = stack_addr(wrap8(s.sp - 1));
    let one = s.push(high_byte(w));
    let two = one.push(low_byte(w));
    lemma_ram_write_then_read(s.bus, top, high_byte(w));
    lemma_access_keeps_wf(s.bus, top, high_byte(w));
    lemma_write_keeps_other_ram(s.bus, top, high_byte(w), below);
    assert(one.wf());
    assert(one.bus.is_ram(below));
    lemma_push_then_pop(one, low_byte(w));
    let back = two.pop();
    assert(back.0 == low_byte(w));
    assert(back.1.sp == one.sp);
    lemma_write_keeps_other_ram(one.bus, below, low_byte(w), top);
    lemma_ram_read_is_silent(back.1.bus, top);
    lemma_word_of_bytes(w);
}

/// Every bus transaction takes one clock cycle, and none in debug mode. It
/// leaves the phase of the clock low.
pub proof fn lemma_access_takes_one_cycle(s: CpuModel, addr: u16, data: u8)
    ensures
        s.debug ==> s.read(addr).1.clock == s.clock && s.write(addr, data).clock == s.clock,
        !s.debug ==> s.read(addr).1.clock == s.clock.cycle() && s.write(addr, data).clock
            == s.clock.cycle(),
        s.clock.cycle().cycles == next_cycle(s.clock.cycles),
        !s.clock.cycle().high,
{
}

/// Finding an operand takes as many clock cycles as it takes bus reads.
pub proof fn lemma_operand_cycles(s: CpuModel, mode: AddressingMode)
    requires
        !s.debug,
        s.clock.cycles + mode.reads() <= u64::MAX,
    ensures
        s.operand(mode).1.clock.cycles == s.clock.cycles + mode.reads(),
{
    reveal(CpuModel::operand);
}

/// Whether `after` has the control latches of `before`: the debug mode,
/// the breakpoints, the owed reset and the pending interrupts.
pub open spec fn same_control(before: CpuModel, after: CpuModel) -> bool {
    &&& after.debug == before.debug
    &&& after.breakpoints == before.breakpoints
    &&& after.breaked == before.breaked
    &&& after.reset == before.reset
    &&& after.irq_pending == before.irq_pending
    &&& after.nmi_pending == before.nmi_pending
}

/// A read leaves the control latches alone.
pub proof fn lemma_read_keeps_control(s: CpuModel, addr: u16)
    ensures
        same_control(s, s.read(addr).1),
        same_control(s, s.read_word(addr).1),
        same_control(s, s.fetch().1),
        same_control(s, s.fetch_word().1),
{
}

/// Fetching an operand leaves the control latches alone.
pub proof fn lemma_operand_keeps_control(s: CpuModel, mode: AddressingMode)
    ensures
        same_control(s, s.operand(mode).1),
{
    reveal(CpuModel::operand);
    lemma_read_keeps_control(s, 0);
    match mode {
        AddressingMode::Indirect => {
            lemma_read_keeps_control(s.fetch_word().1, s.fetch_word().0);
        },
        AddressingMode::IndirectX => {
            lemma_read_keeps_control(s.fetch().1, wrap8(s.fetch().0 + s.x) as u16);
        },
        AddressingMode::IndirectY => {
            lemma_read_keeps_control(s.fetch().1, s.fetch().0 as u16);
        },
        _ => {},
    }
}

/// Executing an instruction leaves the control latches alone.
pub proof fn lemma_execute_keeps_control(
    s: CpuModel,
    instruction: Instruction,
    arg: InstructionArgument,
)
    ensures
        same_control(s, s.execute(instruction, arg)),
{
    reveal(CpuModel::execute);
    match instruction {
        Instruction::LDA | Instruction::LDX | Instruction::LDY | Instruction::STA
        | Instruction::STX | Instruction::STY => {
            instructions::load_store::lemma_keeps_control(s, arg, s.a);
            instructions::load_store::lemma_keeps_control(s, arg, s.x);
            instructions::load_store::lemma_keeps_control(s, arg, s.y);
        },
        Instruction::TAX | Instruction::TAY | Instruction::TXA | Instruction::TYA
        | Instruction::TSX | Instruction::TXS | Instruction::PHA | Instruction::PHP
        | Instruction::PLA | Instruction::PLP => {
            instructions::stack_op::lemma_keeps_control(s, arg);
        },
        Instruction::AND | Instruction::EOR | Instruction::ORA | Instruction::BIT
        | Instruction::CMP | Instruction::CPX | Instruction::CPY => {
            instructions::logical::lemma_keeps_control(s, arg, s.a);
            instructions::logical::lemma_keeps_control(s, arg, s.x);
            instructions::logical::lemma_keeps_control(s, arg, s.y);
        },
        Instruction::ADC | Instruction::SBC => {
            instructions::arithmetic::lemma_keeps_control(s, arg);
        },
        Instruction::INC | Instruction::INX | Instruction::INY | Instruction::DEC
        | Instruction::DEX | Instruction::DEY => {
            instructions::increment_decrement::lemma_keeps_control(s, arg, 1);
            instructions::increment_decrement::lemma_keeps_control(s, arg, -1);
        },
        Instruction::ASL | Instruction::LSR | Instruction::ROL | Instruction::ROR => {
            instructions::shift::lemma_keeps_control(s, arg, Shift::Asl);
            instructions::shift::lemma_keeps_control(s, arg, Shift::Lsr);
            instructions::shift::lemma_keeps_control(s, arg, Shift::Rol);
            instructions::shift::lemma_keeps_control(s, arg, Shift::Ror);
        },
        Instruction::JMP | Instruction::JSR | Instruction::RTS | Instruction::BRK
        | Instruction::RTI => {
            instructions::jump_call::lemma_keeps_control(s, arg);
        },
        Instruction::BCC | Instruction::BCS | Instruction::BEQ | Instruction::BMI
        | Instruction::BNE | Instruction::BPL | Instruction::BVC | Instruction::BVS => {
            instructions::branch::lemma_keeps_control(s, arg, true);
            instructions::branch::lemma_keeps_control(s, arg, false);
        },
        Instruction::CLC | Instruction::CLD | Instruction::CLI | Instruction::CLV
        | Instruction::SEC | Instruction::SED | Instruction::SEI => {
            instructions::flag::lemma_keeps_control(s, arg, Flag::Carry, true);
            instructions::flag::lemma_keeps_control(s, arg, Flag::Carry, false);
            instructions::flag::lemma_keeps_control(s, arg, Flag::DecimalMode, true);
            instructions::flag::lemma_keeps_control(s, arg, Flag::DecimalMode, false);
            instructions::flag::lemma_keeps_control(s, arg, Flag::InterruptDisable, true);
            instructions::flag::lemma_keeps_control(s, arg, Flag::InterruptDisable, false);
            instructions::flag::lemma_keeps_control(s, arg, Flag::Overflow, false);
        },
        Instruction::NOP | Instruction::Jam(_) => {},
    }
}

/// Running one instruction leaves the control latches alone.
pub proof fn lemma_run_one_keeps_control(s: CpuModel)
    ensures
        same_control(s, s.run_one()),
{
    reveal(CpuModel::run_one);
    let decoded = s.fetch_decode();
    let fetched = decoded.1.operand(decoded.0.1);
    lemma_operand_keeps_control(decoded.1, decoded.0.1);
    lemma_execute_keeps_control(fetched.1, decoded.0.0, fetched.0);
}

/// A step under the debugger leaves the debug mode on or off as it was.
pub proof fn lemma_debug_step_keeps_control(s: CpuModel)
    ensures
        s.debug_step().debug == s.debug,
        s.debug_step().breakpoints == s.breakpoints,
        s.debug_step().reset == s.reset,
        s.debug_step().irq_pending == s.irq_pending,
        s.debug_step().nmi_pending == s.nmi_pending,
{
    lemma_run_one_keeps_control(CpuModel { breaked: false, ..s });
}

/// Whether the RAM cell at `addr` holds `data`.
pub open spec fn holds(s: CpuModel, addr: u16, data: u8) -> bool {
    s.bus.is_ram(addr) && s.bus.read(addr) == data
}

/// Whether `after` has the registers and latches of `before`: they differ,
/// if at all, in the stack pointer, the clock, the fault and what is on the
/// bus.
pub open spec fn same_registers(before: CpuModel, after: CpuModel) -> bool {
    after == (CpuModel {
        sp: after.sp,
        clock: after.clock,
        bus: after.bus,
        fault: after.fault,
        ..before
    })
}

/// What a push leaves: the byte in its stack cell, the stack pointer one
/// down, every other RAM cell and every register as it was.
pub proof fn lemma_push_holds(s: CpuModel, data: u8)
    requires
        s.wf(),
        s.bus.is_ram(stack_addr(s.sp)),
    ensures
        s.push(data).wf(),
        s.push(data).sp == wrap8(s.sp - 1),
        s.push(data).fault == s.fault,
        same_registers(s, s.push(data)),
        holds(s.push(data), stack_addr(s.sp), data),
        forall|other: u16, d: u8|
            other != stack_addr(s.sp) && holds(s, other, d) ==> #[trigger] holds(
                s.push(data),
                other,
                d,
            ),
{
    let at = stack_addr(s.sp);
    lemma_ram_write_then_read(s.bus, at, data);
    lemma_access_keeps_wf(s.bus, at, data);
    assert forall|other: u16, d: u8| other != at && holds(s, other, d) implies #[trigger] holds(
        s.push(data),
        other,
        d,
    ) by {
        lemma_write_keeps_other_ram(s.bus, at, data, other);
    }
}

/// What a read leaves: every RAM cell and every register as it was.
pub proof fn lemma_read_holds(s: CpuModel, addr: u16)
    requires
        s.wf(),
    ensures
        s.read(addr).1.wf(),
        s.read(addr).1.sp == s.sp,
        same_registers(s, s.read(addr).1),
        forall|other: u16, d: u8| holds(s, other, d) ==> #[trigger] holds(s.read(addr).1, other, d),
{
    if s.bus.mapped(addr) {
        lemma_access_keeps_wf(s.bus, addr, 0);
        assert forall|other: u16, d: u8| holds(s, other, d) implies #[trigger] holds(
            s.read(addr).1,
            other,
            d,
        ) by {
            lemma_read_keeps_ram(s.bus, addr, other);
        }
    }
}

/// What a pop gives where the stack cell above the stack pointer is RAM:
/// the byte in that cell. The stack pointer is one up, and nothing on the
/// bus nor any register has changed.
pub proof fn lemma_pop_holds(s: CpuModel, data: u8)
    requires
        s.wf(),
        holds(s, stack_addr(wrap8(s.sp + 1)), data),
    ensures
        s.pop().0 == data,
        s.pop().1.wf(),
        s.pop().1.sp == wrap8(s.sp + 1),
        s.pop().1.bus == s.bus,
        s.pop().1.fault == s.fault,
        same_registers(s, s.pop().1),
{
    lemma_ram_read_is_silent(s.bus, stack_addr(wrap8(s.sp + 1)));
}

/// After a flag was set or cleared it reads as it was set, and every other
/// flag reads as before.
pub proof fn lemma_flag_after_set(ps: u8, flag: Flag, on: bool, other: Flag)
    requires
        flag.stored(),
    ensures
        flag_set(with_flag(ps, flag, on), other) == (if other == flag {
            on
        } else {
            flag_set(ps, other)
        }),
{
    let m = flag.mask();
    let n = other.mask();
    assert((m == 0x01 || m == 0x02 || m == 0x04 || m == 0x08 || m == 0x10 || m == 0x20 || m == 0x40
        || m == 0x80) && (n == 0x01 || n == 0x02 || n == 0x04 || n == 0x08 || n == 0x10 || n
        == 0x20 || n == 0x40 || n == 0x80) ==> (m == n ==> (ps | m) & n != 0 && (ps & !m) & n == 0)
        && (m != n ==> (ps | m) & n == ps & n && (ps & !m) & n == ps & n)) by (bit_vector);
}

/// Setting or clearing a flag never stores Break or Reserved.
pub proof fn lemma_with_flag_stored(ps: u8, flag: Flag, on: bool)
    requires
        ps & UNSTORED == 0,
    ensures
        with_flag(ps, flag, on) & UNSTORED == 0,
{
    let m = flag.mask();
    if flag.stored() {
        assert((m == 0x01 || m == 0x02 || m == 0x04 || m == 0x08 || m == 0x40 || m == 0x80) && ps
            & 0x30 == 0 ==> (ps | m) & 0x30 == 0 && (ps & !m) & 0x30 == 0) by (bit_vector);
    }
}

/// Whether the CPU has stopped because a handler was given an argument that
/// its instruction cannot take.
pub open spec fn refused(s: CpuModel) -> bool {
    s.fault == Some(Fault::IllegalAddressingMode)
}

/// Whether `arg` is an argument that `instruction` can take.
pub open spec fn fits(instruction: Instruction, arg: InstructionArgument) -> bool {
    match instruction {
        Instruction::LDA | Instruction::LDX | Instruction::LDY | Instruction::AND
        | Instruction::EOR | Instruction::ORA | Instruction::ADC | Instruction::SBC
        | Instruction::CMP | Instruction::CPX | Instruction::CPY => has_value(arg),
        Instruction::STA | Instruction::STX | Instruction::STY | Instruction::BIT
        | Instruction::INC | Instruction::DEC | Instruction::JMP | Instruction::JSR => arg
            is Address,
        Instruction::ASL | Instruction::LSR | Instruction::ROL | Instruction::ROR => arg
            is Implied || arg is Address,
        Instruction::BCC | Instruction::BCS | Instruction::BEQ | Instruction::BMI
        | Instruction::BNE | Instruction::BPL | Instruction::BVC | Instruction::BVS => arg
            is Offset,
        Instruction::NOP | Instruction::Jam(_) => true,
        _ => arg is Implied,
    }
}

/// No read makes a handler refuse.
pub proof fn lemma_read_not_refused(s: CpuModel, addr: u16)
    requires
        !refused(s),
    ensures
        !refused(s.read(addr).1),
        !refused(s.read_word(addr).1),
        !refused(s.fetch().1),
        !refused(s.fetch_word().1),
{
}

/// The operand that an addressing mode finds is of the kind that goes with
/// the mode, and finding it makes no handler refuse.
pub proof fn lemma_operand_kind(s: CpuModel, mode: AddressingMode)
    ensures
        s.operand(mode).0 is Immediate <==> mode is Immediate,
        s.operand(mode).0 is Offset <==> mode is Relative,
        s.operand(mode).0 is Implied <==> mode is Implied,
        !refused(s) ==> !refused(s.operand(mode).1),
{
    reveal(CpuModel::operand);
    if !refused(s) {
        lemma_read_not_refused(s, 0);
        match mode {
            AddressingMode::Indirect => {
                lemma_read_not_refused(s.fetch_word().1, s.fetch_word().0);
            },
            AddressingMode::IndirectX => {
                lemma_read_not_refused(s.fetch().1, wrap8(s.fetch().0 + s.x) as u16);
            },
            AddressingMode::IndirectY => {
                lemma_read_not_refused(s.fetch().1, s.fetch().0 as u16);
            },
            _ => {},
        }
    }
}

/// An instruction that is given an argument that it can take is not
/// refused.
pub proof fn lemma_fitting_argument_is_not_refused(
    s: CpuModel,
    instruction: Instruction,
    arg: InstructionArgument,
)
    requires
        !refused(s),
        fits(instruction, arg),
    ensures
        !refused(s.execute(instruction, arg)),
{
    reveal(CpuModel::execute);
    match instruction {
        Instruction::LDA | Instruction::LDX | Instruction::LDY | Instruction::STA
        | Instruction::STX | Instruction::STY => {
            instructions::load_store::lemma_not_refused(s, arg, s.a);
            instructions::load_store::lemma_not_refused(s, arg, s.x);
            instructions::load_store::lemma_not_refused(s, arg, s.y);
        },
        Instruction::TAX | Instruction::TAY | Instruction::TXA | Instruction::TYA
        | Instruction::TSX | Instruction::TXS | Instruction::PHA | Instruction::PHP
        | Instruction::PLA | Instruction::PLP => {
            instructions::stack_op::lemma_not_refused(s, arg);
        },
        Instruction::AND | Instruction::EOR | Instruction::ORA | Instruction::BIT
        | Instruction::CMP | Instruction::CPX | Instruction::CPY => {
            instructions::logical::lemma_not_refused(s, arg, s.a);
            instructions::logical::lemma_not_refused(s, arg, s.x);
            instructions::logical::lemma_not_refused(s, arg, s.y);
        },
        Instruction::ADC | Instruction::SBC => {
            instructions::arithmetic::lemma_not_refused(s, arg);
        },
        Instruction::INC | Instruction::INX | Instruction::INY | Instruction::DEC
        | Instruction::DEX | Instruction::DEY => {
            instructions::increment_decrement::lemma_not_refused(s, arg, 1);
            instructions::increment_decrement::lemma_not_refused(s, arg, -1);
        },
        Instruction::ASL | Instruction::LSR | Instruction::ROL | Instruction::ROR => {
            instructions::shift::lemma_not_refused(s, arg, Shift::Asl);
            instructions::shift::lemma_not_refused(s, arg, Shift::Lsr);
            instructions::shift::lemma_not_refused(s, arg, Shift::Rol);
            instructions::shift::lemma_not_refused(s, arg, Shift::Ror);
        },
        Instruction::JMP | Instruction::JSR | Instruction::RTS | Instruction::BRK
        | Instruction::RTI => {
            instructions::jump_call::lemma_not_refused(s, arg);
        },
        Instruction::BCC | Instruction::BCS | Instruction::BEQ | Instruction::BMI
        | Instruction::BNE | Instruction::BPL | Instruction::BVC | Instruction::BVS => {
            instructions::branch::lemma_not_refused(s, arg, true);
            instructions::branch::lemma_not_refused(s, arg, false);
        },
        Instruction::CLC | Instruction::CLD | Instruction::CLI | Instruction::CLV
        | Instruction::SEC | Instruction::SED | Instruction::SEI => {
            instructions::flag::lemma_not_refused(s, arg, Flag::Carry, true);
            instructions::flag::lemma_not_refused(s, arg, Flag::Carry, false);
            instructions::flag::lemma_not_refused(s, arg, Flag::DecimalMode, true);
            instructions::flag::lemma_not_refused(s, arg, Flag::DecimalMode, false);
            instructions::flag::lemma_not_refused(s, arg, Flag::InterruptDisable, true);
            instructions::flag::lemma_not_refused(s, arg, Flag::InterruptDisable, false);
            instructions::flag::lemma_not_refused(s, arg, Flag::Overflow, false);
        },
        Instruction::NOP | Instruction::Jam(_) => {},
    }
}

/// The operand that an opcode's addressing mode finds is one that the
/// opcode's instruction can take.
pub proof fn lemma_decoded_argument_fits(s: CpuModel, op: u8)
    ensures
        fits(decode(op).0, s.operand(decode(op).1).0),
{
    lemma_operand_kind(s, decode(op).1);
}

/// Running one instruction from a state in which no handler has refused
/// ends in such a state.
proof fn lemma_run_one_from(s: CpuModel)
    requires
        !refused(s),
    ensures
        !refused(s.run_one()),
{
    reveal(CpuModel::run_one);
    let decoded = s.fetch_decode();
    let op = s.fetch().0;
    lemma_read_not_refused(CpuModel { previous_pc: s.pc, ..s }, 0);
    lemma_operand_kind(decoded.1, decoded.0.1);
    lemma_decoded_argument_fits(decoded.1, CpuModel { previous_pc: s.pc, ..s }.fetch().0);
    let fetched = decoded.1.operand(decoded.0.1);
    lemma_fitting_argument_is_not_refused(fetched.1, decoded.0.0, fetched.0);
}

/// Running an instruction from memory never ends with a handler that
/// refuses its argument: what the opcode table pairs, the handlers take.
pub proof fn lemma_run_one_is_never_refused(s: CpuModel)
    requires
        !refused(s),
    ensures
        !refused(s.run_one()),
        !refused(s.step()),
        !refused(s.debug_step()),
{
    lemma_run_one_from(s);
    if s.nmi_pending || s.irq_pending {
        lemma_interrupt_not_refused(s);
    }
    lemma_run_one_from(s.service_nmi().service_irq());
    lemma_run_one_from(CpuModel { breaked: false, ..s });
}

/// Taking an interrupt makes no handler refuse.
pub proof fn lemma_interrupt_not_refused(s: CpuModel)
    requires
        !refused(s),
    ensures
        !refused(s.service_nmi()),
        !refused(s.service_irq()),
        !refused(s.service_nmi().service_irq()),
{
    reveal(CpuModel::interrupt);
}

} // verus!
