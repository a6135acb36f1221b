//! The CPU: its registers, the stack, the interrupt sequences and the
//! fetch / decode / execute step.

use vstd::prelude::*;
use std::collections::HashSet;
use either::Either;
use crate::hardware::bus::Bus;
use crate::hardware::clock::Clock;
use crate::hardware::cpu::instructions::opcode::get_instruction;
use crate::hardware::cpu::instructions::AddressingMode;
use crate::hardware::cpu::instructions::Instruction;
use crate::hardware::cpu::instructions::InstructionArgument;
use crate::hardware::cpu::lemmas::lemma_run_one_is_never_refused;
use crate::hardware::cpu::lemmas::lemma_with_flag_stored;
use crate::hardware::cpu::lemmas::refused;
use crate::hardware::cpu::model::stack_addr;
use crate::hardware::cpu::model::CpuModel;
use crate::types::Addr;
use crate::types::Bit;
use crate::types::Byte;

pub mod instructions;
pub mod lemmas;
pub mod model;
pub mod system;

verus! {

/// The first address of the stack page.
pub const STACK_START: u16 = 0x0100;

/// The last address of the stack page.
pub const STACK_END: u16 = 0x01ff;

/// The offset of the last stack cell in its page.
pub const STACK_SIZE: usize = 0xff;

/// Where the address of the NMI handler stands, low byte first.
pub const NMI_VECTOR: u16 = 0xfffa;

/// Where the address that a reset loads into PC stands, low byte first.
pub const RESET_VECTOR: u16 = 0xfffc;

/// Where the address of the IRQ and BRK handler stands, low byte first.
pub const IRQ_VECTOR: u16 = 0xfffe;

/// The stack pointer after a reset.
pub const STACK_RESET: u8 = 0xfd;

/// The bits of the processor status that are never stored: Break and
/// Reserved.
pub const UNSTORED: u8 = 0x30;

/// The processor status flags, in the order of their bits.
///
/// * `Carry`: the last operation carried out of bit 7 or borrowed
/// * `Zero`: the last result was zero
/// * `InterruptDisable`: maskable interrupts are ignored
/// * `DecimalMode`: kept, not acted upon
/// * `Break`: set only in the copy of the status that BRK and PHP push
/// * `Reserved`: always reads as set
/// * `Overflow`: the last ADC or SBC overflowed as two's complement
/// * `Negative`: bit 7 of the last result
#[derive(Clone, Copy, Debug, PartialEq, Eq, Structural)]
pub enum Flag {
    Carry,
    Zero,
    InterruptDisable,
    DecimalMode,
    Break,
    Reserved,
    Overflow,
    Negative,
}

impl Flag {
    /// The number of the flag's bit in the processor status.
    pub open spec fn index(self) -> u8 {
        match self {
            Flag::Carry => 0,
            Flag::Zero => 1,
            Flag::InterruptDisable => 2,
            Flag::DecimalMode => 3,
            Flag::Break => 4,
            Flag::Reserved => 5,
            Flag::Overflow => 6,
            Flag::Negative => 7,
        }
    }

    /// The byte in which only the flag's bit is set.
    pub open spec fn mask(self) -> u8 {
        match self {
            Flag::Carry => 0x01,
            Flag::Zero => 0x02,
            Flag::InterruptDisable => 0x04,
            Flag::DecimalMode => 0x08,
            Flag::Break => 0x10,
            Flag::Reserved => 0x20,
            Flag::Overflow => 0x40,
            Flag::Negative => 0x80,
        }
    }

    /// Whether the flag has a bit of its own in the stored status.
    pub open spec fn stored(self) -> bool {
        !(self is Break) && !(self is Reserved)
    }

    /// The number of the flag's bit in the processor status.
    pub fn bit_index(self) -> (i: u8)
        ensures
            i == self.index(),
            i < 8,
    {
        match self {
            Flag::Carry => 0,
            Flag::Zero => 1,
            Flag::InterruptDisable => 2,
            Flag::DecimalMode => 3,
            Flag::Break => 4,
            Flag::Reserved => 5,
            Flag::Overflow => 6,
            Flag::Negative => 7,
        }
    }

    /// The byte in which only the flag's bit is set.
    pub fn bit_mask(self) -> (m: u8)
        ensures
            m == self.mask(),
            m == 1u8 << self.index(),
    {
        assert(0x01u8 == 1u8 << 0u8 && 0x02u8 == 1u8 << 1u8 && 0x04u8 == 1u8 << 2u8 && 0x08u8
            == 1u8 << 3u8 && 0x10u8 == 1u8 << 4u8 && 0x20u8 == 1u8 << 5u8 && 0x40u8 == 1u8 << 6u8
            && 0x80u8 == 1u8 << 7u8) by (bit_vector);
        match self {
            Flag::Carry => 0x01,
            Flag::Zero => 0x02,
            Flag::InterruptDisable => 0x04,
            Flag::DecimalMode => 0x08,
            Flag::Break => 0x10,
            Flag::Reserved => 0x20,
            Flag::Overflow => 0x40,
            Flag::Negative => 0x80,
        }
    }
}

/// The registers of the CPU.
#[derive(Clone, Copy, Debug, PartialEq, Eq, Structural)]
pub enum Register {
    A,
    X,
    Y,
    PS,
    SP,
    PC,
}

/// Why the CPU has stopped for good.
#[derive(Clone, Copy, Debug, PartialEq, Eq, Structural)]
pub enum Fault {
    /// A read from an address that no device owns.
    UnmappedRead(Addr),
    /// A handler was given an argument that its instruction cannot take.
    IllegalAddressingMode,
    /// A jamming opcode was executed.
    Jam(u8),
}

/// The sum type `Either` of the `either` crate, with the two variants
/// `Left` and `Right` that the crate declares. A register value is a byte on
/// the left or an address on the right.
#[verifier::external_type_specification]
#[verifier::reject_recursive_types(L)]
#[verifier::reject_recursive_types(R)]
pub struct ExEither<L, R>(Either<L, R>);

/// The CPU state.
///
/// * `pc`: program counter
/// * `sp`: stack pointer
/// * `a`: accumulator
/// * `x`, `y`: index registers
/// * `ps`: processor status
pub struct CPU {
    pub(crate) pc: Addr,
    pub(crate) sp: Byte,
    pub(crate) a: Byte,
    pub(crate) x: Byte,
    pub(crate) y: Byte,
    pub(crate) ps: Byte,
    pub(crate) bus: Bus,
    pub(crate) previous_pc: Addr,
    pub(crate) reset: bool,
    pub(crate) trap: bool,
    pub(crate) fault: Option<Fault>,
    pub(crate) dropped: Option<Addr>,
    pub(crate) clk: Clock,
    pub(crate) irq_pending: bool,
    pub(crate) nmi_pending: bool,
    pub(crate) debug: bool,
    pub(crate) breakpoints: HashSet<u16>,
    pub(crate) breaked: bool,
}

impl CPU {
    /// The state of the machine.
    pub open(crate) spec fn view(&self) -> CpuModel {
        CpuModel {
            pc: self.pc.0,
            sp: self.sp.0,
            a: self.a.0,
            x: self.x.0,
            y: self.y.0,
            ps: self.ps.0,
            bus: self.bus@,
            clock: self.clk@,
            previous_pc: self.previous_pc.0,
            reset: self.reset,
            trap: self.trap,
            fault: self.fault,
            dropped: self.dropped,
            irq_pending: self.irq_pending,
            nmi_pending: self.nmi_pending,
            debug: self.debug,
            breakpoints: self.breakpoints@,
            breaked: self.breaked,
        }
    }

    /// Create a CPU connected to `bus` and paced by `clk`. It runs nothing
    /// before it was reset.
    pub fn new(bus: Bus, clk: Clock) -> (cpu: CPU)
        requires
            bus@.wf(),
        ensures
            cpu@ == CpuModel::power_on(bus@, clk@),
            cpu@.wf(),
    {
        let cpu = CPU {
            pc: Addr(RESET_VECTOR),
            sp: Byte(STACK_RESET),
            a: Byte(0x00),
            x: Byte(0x00),
            y: Byte(0x00),
            ps: Byte(0x00),
            previous_pc: Addr(0x0000),
            bus,
            reset: true,
            trap: false,
            fault: None,
            dropped: None,
            debug: false,
            breakpoints: HashSet::new(),
            breaked: false,
            clk,
            irq_pending: false,
            nmi_pending: false,
        };
        assert(0u8 & UNSTORED == 0) by (bit_vector);
        assert(cpu@.breakpoints =~= Set::<u16>::empty());
        cpu
    }

    /// Switch to debug mode: from now on bus accesses do not run the clock.
    pub fn debug(&mut self)
        ensures
            final(self)@ == (CpuModel { debug: true, ..old(self)@ }),
    {
        self.debug = true;
    }

    /// Add `bp` to the breakpoints.
    pub fn breakpoint(&mut self, bp: Addr)
        ensures
            final(self)@ == (CpuModel {
                breakpoints: old(self)@.breakpoints.insert(bp.0),
                ..old(self)@
            }),
    {
        self.breakpoints.insert(bp.0);
    }

    /// Check if `flag` of the processor status is set. Reserved always is,
    /// Break never.
    pub fn is_set(&self, flag: Flag) -> (on: bool)
        requires
            self@.wf(),
        ensures
            on == self@.flag(flag),
            flag is Reserved ==> on,
            flag is Break ==> !on,
    {
        let ps: u8 = self.ps.0;
        assert(ps & UNSTORED == 0 ==> ps & 0x10 == 0) by (bit_vector);
        match flag {
            Flag::Reserved => true,
            _ => (ps & flag.bit_mask()) != 0,
        }
    }

    /// Set `flag` of the processor status to `bit`. Reserved has no stored
    /// bit: setting it changes nothing.
    pub fn set(&mut self, flag: Flag, bit: Bit)
        requires
            old(self)@.wf(),
            !(flag is Break),
        ensures
            final(self)@ == old(self)@.set(flag, bit.0),
            final(self)@.wf(),
    {
        let ps: u8 = self.ps.0;
        let mask: u8 = flag.bit_mask();
        proof {
            lemma_with_flag_stored(ps, flag, bit.0);
        }
        match flag {
            Flag::Reserved => {},
            _ => {
                if bit.0 {
                    self.ps = Byte(ps | mask);
                } else {
                    self.ps = Byte(ps & !mask);
                }
            },
        }
    }

    /// Set Negative and Zero from `value`.
    pub(crate) fn set_nz(&mut self, value: Byte)
        requires
            old(self)@.wf(),
        ensures
            final(self)@ == old(self)@.set_nz(value.0),
            final(self)@.wf(),
    {
        self.set(Flag::Negative, Bit(value.0 & 0x80 != 0));
        self.set(Flag::Zero, Bit(value.0 == 0));
    }

    /// Lets the clock pace one bus transaction: waits for the tick, which
    /// the CPU gives itself where nobody else did, and answers it. In debug
    /// mode the clock is left alone.
    fn cycle(&mut self)
        ensures
            final(self)@ == old(self)@.cycle(),
    {
        if !self.debug {
            self.clk.cycle();
        }
    }

    /// Latches `fault`, unless an earlier fault is latched.
    pub fn halt(&mut self, fault: Fault)
        ensures
            final(self)@ == old(self)@.fail(fault),
    {
        if self.fault.is_none() {
            self.fault = Some(fault);
        }
    }

    /// Latches the trap.
    pub fn trap(&mut self)
        ensures
            final(self)@ == (CpuModel { trap: true, ..old(self)@ }),
    {
        self.trap = true;
    }

    /// Read from the bus at `addr`. A read from an address that no device
    /// owns gives zero and stops the CPU with `Fault::UnmappedRead`.
    pub fn read(&mut self, addr: Addr) -> (data: Byte)
        requires
            old(self)@.wf(),
        ensures
            (data.0, final(self)@) == old(self)@.read(addr.0),
            final(self)@.wf(),
    {
        self.cycle();
        if self.bus.is_mapped(addr) {
            self.bus.read(addr)
        } else {
            self.halt(Fault::UnmappedRead(addr));
            Byte(0x00)
        }
    }

    /// Write `data` to the bus at `addr`. A write that no device takes is
    /// dropped; `take_dropped` then tells its address.
    pub fn write(&mut self, addr: Addr, data: Byte)
        requires
            old(self)@.wf(),
        ensures
            final(self)@ == old(self)@.write(addr.0, data.0),
            final(self)@.wf(),
    {
        self.cycle();
        if !self.bus.write(addr, data) {
            self.dropped = Some(addr);
        }
    }

    /// Push `data` onto the stack.
    ///
    /// Note: This decrements the stack pointer.
    pub fn push_stack(&mut self, data: Byte)
        requires
            old(self)@.wf(),
        ensures
            final(self)@ == old(self)@.push(data.0),
            final(self)@.wf(),
            STACK_START <= stack_addr(old(self)@.sp) <= STACK_END,
    {
        let at = Addr(STACK_START + self.sp.0 as u16);
        self.write(at, data);
        if self.sp.0 == 0 {
            self.sp = Byte(0xff);
        } else {
            self.sp = Byte(self.sp.0 - 1);
        }
    }

    /// Pop a byte from the stack.
    ///
    /// Note: This increments the stack pointer.
    pub fn pop_stack(&mut self) -> (data: Byte)
        requires
            old(self)@.wf(),
        ensures
            (data.0, final(self)@) == old(self)@.pop(),
            final(self)@.wf(),
    {
        if self.sp.0 == 0xff {
            self.sp = Byte(0);
        } else {
            self.sp = Byte(self.sp.0 + 1);
        }
        let at = Addr(STACK_START + self.sp.0 as u16);
        self.read(at)
    }

    /// Read the byte at PC and step PC past it.
    pub fn read_pc(&mut self) -> (data: Byte)
        requires
            old(self)@.wf(),
        ensures
            (data.0, final(self)@) == old(self)@.fetch(),
            final(self)@.wf(),
    {
        let at = self.pc;
        let data = self.read(at);
        self.pc = at.offset(1);
        data
    }

    /// Read the word at PC, low byte first, and step PC past it.
    pub fn read_pc_word(&mut self) -> (w: Addr)
        requires
            old(self)@.wf(),
        ensures
            (w.0, final(self)@) == old(self)@.fetch_word(),
            final(self)@.wf(),
    {
        let low = self.read_pc();
        let high = self.read_pc();
        Addr::new(high, low)
    }

    /// Read the word at `addr`, low byte first.
    pub fn read_word(&mut self, addr: Addr) -> (w: Addr)
        requires
            old(self)@.wf(),
        ensures
            (w.0, final(self)@) == old(self)@.read_word(addr.0),
            final(self)@.wf(),
    {
        let low = self.read(addr);
        let high = self.read(addr.offset(1));
        Addr::new(high, low)
    }

    /// Push the word `w`, high byte first.
    pub fn push_word(&mut self, w: Addr)
        requires
            old(self)@.wf(),
        ensures
            final(self)@ == old(self)@.push_word(w.0),
            final(self)@.wf(),
    {
        self.push_stack(w.high());
        self.push_stack(w.low());
    }

    /// Pop a word, low byte first.
    pub fn pop_word(&mut self) -> (w: Addr)
        requires
            old(self)@.wf(),
        ensures
            (w.0, final(self)@) == old(self)@.pop_word(),
            final(self)@.wf(),
    {
        let low = self.pop_stack();
        let high = self.pop_stack();
        Addr::new(high, low)
    }

    /// Emulate a hard reset.
    pub fn reset(&mut self)
        requires
            old(self)@.wf(),
        ensures
            final(self)@ == old(self)@.after_reset(),
            final(self)@.wf(),
            !final(self)@.reset,
    {
        self.x = Byte(0x00);
        self.y = Byte(0x00);
        self.a = Byte(0x00);
        self.sp = Byte(STACK_RESET);
        self.ps = Byte(0x04);
        assert(0x04u8 & UNSTORED == 0) by (bit_vector);
        let target = self.read_word(Addr(RESET_VECTOR));
        self.pc = target;
        self.reset = false;
    }

    /// Takes an interrupt through the vector at `vector`: pushes PC, high
    /// byte first, and the stored status, disables interrupts and loads PC
    /// from the vector.
    fn interrupt(&mut self, vector: Addr)
        requires
            old(self)@.wf(),
        ensures
            final(self)@ == old(self)@.interrupt(vector.0),
            final(self)@.wf(),
    {
        proof {
            reveal(CpuModel::interrupt);
        }
        let pc = self.pc;
        let ps = self.ps;
        self.push_word(pc);
        self.push_stack(ps);
        self.set(Flag::InterruptDisable, Bit(true));
        let target = self.read_word(vector);
        self.pc = target;
    }

    /// Handle an interrupt request: if one is pending and interrupts are
    /// not disabled, take it through the IRQ vector.
    pub fn irq(&mut self)
        requires
            old(self)@.wf(),
        ensures
            final(self)@ == old(self)@.service_irq(),
            final(self)@.wf(),
    {
        if self.irq_pending && !self.is_set(Flag::InterruptDisable) {
            self.irq_pending = false;
            self.interrupt(Addr(IRQ_VECTOR));
        }
    }

    /// Handle a non-maskable interrupt: if one is pending, take it through
    /// the NMI vector.
    pub fn nmi_irq(&mut self)
        requires
            old(self)@.wf(),
        ensures
            final(self)@ == old(self)@.service_nmi(),
            final(self)@.wf(),
    {
        if self.nmi_pending {
            self.nmi_pending = false;
            self.interrupt(Addr(NMI_VECTOR));
        }
    }

    /// Set a pending interrupt request.
    pub fn pend_irq(&mut self)
        ensures
            final(self)@ == (CpuModel { irq_pending: true, ..old(self)@ }),
    {
        self.irq_pending = true;
    }

    /// Withdraw a pending interrupt request.
    pub fn unpend_irq(&mut self)
        ensures
            final(self)@ == (CpuModel { irq_pending: false, ..old(self)@ }),
    {
        self.irq_pending = false;
    }

    /// Set a pending non-maskable interrupt.
    pub fn pend_nmi(&mut self)
        ensures
            final(self)@ == (CpuModel { nmi_pending: true, ..old(self)@ }),
    {
        self.nmi_pending = true;
    }

    /// Fetch the opcode at PC and decode it.
    pub fn fetch_decode(&mut self) -> (decoded: (Instruction, AddressingMode))
        requires
            old(self)@.wf(),
        ensures
            (decoded, final(self)@) == old(self)@.fetch_decode(),
            final(self)@.wf(),
    {
        self.previous_pc = self.pc;
        let op_code = self.read_pc();
        get_instruction(op_code)
    }

    /// Fetch the operand that `mode` asks for.
    pub fn fetch_argument(&mut self, mode: AddressingMode) -> (arg: InstructionArgument)
        requires
            old(self)@.wf(),
        ensures
            (arg, final(self)@) == old(self)@.operand(mode),
            final(self)@.wf(),
    {
        mode.get(self)
    }

    /// Fetches, decodes and executes one instruction, and latches the trap
    /// if PC did not move.
    fn run_one(&mut self)
        requires
            old(self)@.wf(),
        ensures
            final(self)@ == old(self)@.run_one(),
            final(self)@.wf(),
    {
        proof {
            reveal(CpuModel::run_one);
        }
        let start = self.pc;
        let (instruction, addressing_mode) = self.fetch_decode();
        let arg = self.fetch_argument(addressing_mode);
        instruction.exec(arg, self);
        if self.pc.0 == start.0 {
            self.trap();
        }
    }

    /// Whether the CPU has stopped for good: it is trapped, or a fault is
    /// latched.
    pub fn is_halted(&self) -> (halted: bool)
        ensures
            halted == self@.halted(),
    {
        self.trap || self.fault.is_some()
    }

    /// Execute the next instruction.
    ///
    /// If an interrupt is pending then handle that first. Nothing runs
    /// before the first reset, nor once the CPU has stopped. The result
    /// says whether execution may go on. No step stops the CPU with
    /// `Fault::IllegalAddressingMode`: the handlers take what the opcode
    /// table pairs.
    pub fn exec(&mut self) -> (running: bool)
        requires
            old(self)@.wf(),
        ensures
            final(self)@ == old(self)@.step(),
            final(self)@.wf(),
            running == (!old(self)@.reset && !final(self)@.halted()),
            !refused(old(self)@) ==> !refused(final(self)@),
    {
        proof {
            if !refused(self@) {
                lemma_run_one_is_never_refused(self@);
            }
        }
        if self.reset || self.is_halted() {
            return false;
        }
        self.nmi_irq();
        self.irq();
        self.run_one();
        !self.is_halted()
    }

    /// Execute the next instruction under the debugger.
    ///
    /// If PC is at a breakpoint that was not just reported, only report
    /// it. The result says whether execution may go on: it is `false` at
    /// a breakpoint and once the CPU has stopped.
    pub fn debug_exec(&mut self) -> (running: bool)
        requires
            old(self)@.wf(),
        ensures
            final(self)@ == old(self)@.debug_step(),
            final(self)@.wf(),
            running == (!final(self)@.halted() && !final(self)@.breaked),
            !refused(old(self)@) ==> !refused(final(self)@),
    {
        proof {
            if !refused(self@) {
                lemma_run_one_is_never_refused(self@);
            }
        }
        if self.is_halted() {
            return false;
        }
        if self.at_breakpoint() {
            self.breaked = true;
            return false;
        }
        self.breaked = false;
        self.run_one();
        !self.is_halted() && !self.breaked
    }

    /// Whether PC stands at a breakpoint that was not just reported.
    fn at_breakpoint(&self) -> (hit: bool)
        ensures
            hit == (!self@.breaked && self@.breakpoints.contains(self@.pc)),
    {
        !self.breaked && self.breakpoints.contains(&self.pc.0)
    }

    /// Read the program counter.
    pub fn get_pc(&self) -> (pc: Addr)
        ensures
            pc.0 == self@.pc,
    {
        self.pc
    }

    /// Set the program counter.
    pub fn set_pc(&mut self, addr: Addr)
        ensures
            final(self)@ == (CpuModel { pc: addr.0, ..old(self)@ }),
    {
        self.pc = addr;
    }

    /// Read the stack pointer.
    pub fn get_sp(&self) -> (sp: Byte)
        ensures
            sp.0 == self@.sp,
    {
        self.sp
    }

    /// Read register `reg`. The processor status always reads with
    /// Reserved set.
    pub fn get_reg(&self, reg: Register) -> (val: Either<Byte, Addr>)
        ensures
            val == self@.reg(reg),
            reg is PS ==> (match val {
                Either::Left(ps) => ps.0 & 0x20 != 0,
                Either::Right(_) => false,
            }),
    {
        match reg {
            Register::A => Either::Left(self.a),
            Register::X => Either::Left(self.x),
            Register::Y => Either::Left(self.y),
            Register::PS => {
                let ps: u8 = self.ps.0;
                assert((ps | 0x20) & 0x20 != 0) by (bit_vector);
                Either::Left(Byte(ps | 0x20))
            },
            Register::SP => Either::Left(self.sp),
            Register::PC => Either::Right(self.pc),
        }
    }

    /// Write `val` into register `reg`, in debug mode. Nothing else
    /// changes.
    pub fn set_reg(&mut self, reg: Register, val: Either<Byte, Addr>)
        requires
            old(self)@.wf(),
            old(self)@.debug,
            CpuModel::fits(reg, val),
        ensures
            final(self)@ == old(self)@.with_reg(reg, val),
            final(self)@.wf(),
    {
        match val {
            Either::Left(byte) => match reg {
                Register::A => {
                    self.a = byte;
                },
                Register::X => {
                    self.x = byte;
                },
                Register::Y => {
                    self.y = byte;
                },
                Register::PS => {
                    let ps: u8 = byte.0;
                    assert((ps & !0x30u8) & 0x30u8 == 0) by (bit_vector);
                    self.ps = Byte(ps & !0x30u8);
                },
                Register::SP => {
                    self.sp = byte;
                },
                Register::PC => {},
            },
            Either::Right(addr) => match reg {
                Register::PC => {
                    self.pc = addr;
                },
                _ => {},
            },
        }
    }

    /// Whether debug mode is on.
    pub fn is_debug(&self) -> (debug: bool)
        ensures
            debug == self@.debug,
    {
        self.debug
    }

    /// Whether the trap is latched.
    pub fn is_trapped(&self) -> (trapped: bool)
        ensures
            trapped == self@.trap,
    {
        self.trap
    }

    /// The fault that stopped the CPU, if one did.
    pub fn fault(&self) -> (fault: Option<Fault>)
        ensures
            fault == self@.fault,
    {
        self.fault
    }

    /// The number of clock cycles so far: one for each bus transaction
    /// outside debug mode.
    pub fn cycles(&self) -> (n: u64)
        ensures
            n == self@.clock.cycles,
    {
        self.clk.ticks()
    }

    /// Looks at the byte at `addr` for the host, as a read on the bus does
    /// but without the clock: `None` where no device owns the address.
    pub fn inspect(&mut self, addr: Addr) -> (data: Option<Byte>)
        requires
            old(self)@.wf(),
        ensures
            data == (if old(self)@.bus.mapped(addr.0) {
                Some(Byte(old(self)@.bus.read(addr.0)))
            } else {
                None
            }),
            final(self)@ == (if old(self)@.bus.mapped(addr.0) {
                CpuModel { bus: old(self)@.bus.after_read(addr.0), ..old(self)@ }
            } else {
                old(self)@
            }),
            final(self)@.wf(),
    {
        if self.bus.is_mapped(addr) {
            Some(self.bus.read(addr))
        } else {
            None
        }
    }

    /// The address of the last write that no device took, if there was one
    /// since the last call. The host may want to log it.
    pub fn take_dropped(&mut self) -> (addr: Option<Addr>)
        ensures
            addr == old(self)@.dropped,
            final(self)@ == (CpuModel { dropped: None, ..old(self)@ }),
    {
        let addr = self.dropped;
        self.dropped = None;
        addr
    }

    /// The host reports a key. The result says whether a keyboard on the
    /// bus took it.
    pub fn key_press(&mut self, scancode: u8) -> (taken: bool)
        requires
            old(self)@.wf(),
        ensures
            final(self)@ == (CpuModel { bus: old(self)@.bus.after_key(scancode), ..old(self)@ }),
            final(self)@.wf(),
            taken == old(self)@.bus.has_keyboard(),
    {
        self.bus.key_press(scancode)
    }

    /// Hands out what the machine wrote to the display since the last
    /// call, for the host to show.
    pub fn take_output(&mut self) -> (bytes: Vec<u8>)
        requires
            old(self)@.wf(),
        ensures
            final(self)@ == (CpuModel { bus: old(self)@.bus.after_output(), ..old(self)@ }),
            final(self)@.wf(),
            bytes@ == old(self)@.bus.output(),
    {
        self.bus.take_output()
    }
}

} // verus!
