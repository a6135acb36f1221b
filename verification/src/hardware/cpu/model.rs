//! The machine as a value: its state, and what each of its operations makes
//! of a state.

use vstd::prelude::*;
use either::Either;
use crate::hardware::bus::BusModel;
use crate::hardware::clock::ClockModel;
use crate::hardware::cpu::instructions::opcode::decode;
use crate::hardware::cpu::instructions::AddressingMode;
use crate::hardware::cpu::instructions::Instruction;
use crate::hardware::cpu::Fault;
use crate::hardware::cpu::Flag;
use crate::hardware::cpu::Register;
use crate::hardware::cpu::IRQ_VECTOR;
use crate::hardware::cpu::NMI_VECTOR;
use crate::hardware::cpu::RESET_VECTOR;
use crate::hardware::cpu::STACK_RESET;
use crate::hardware::cpu::STACK_START;
use crate::hardware::cpu::UNSTORED;
use crate::types::high_byte;
use crate::types::low_byte;
use crate::types::word;
use crate::types::wrap16;
use crate::types::wrap8;
use crate::types::Addr;
use crate::types::Byte;

verus! {

/// Whether `flag` reads as set in the status byte `ps`. Reserved always
/// does.
pub open spec fn flag_set(ps: u8, flag: Flag) -> bool {
    flag is Reserved || ps & flag.mask() != 0
}

/// The stored status `ps` with `flag` set or cleared. Break and Reserved
/// have no stored bit: for them nothing changes.
pub open spec fn with_flag(ps: u8, flag: Flag, on: bool) -> u8 {
    if !flag.stored() {
        ps
    } else if on {
        ps | flag.mask()
    } else {
        ps & !flag.mask()
    }
}

/// The status byte as every observer reads it: Reserved is set.
pub open spec fn observed(ps: u8) -> u8 {
    ps | Flag::Reserved.mask()
}

/// The part of a status byte that is stored: all but Break and Reserved.
pub open spec fn stored_part(ps: u8) -> u8 {
    ps & !UNSTORED
}

/// The state of the machine: the registers, what is on the bus, the clock
/// and the latches of the control logic.
pub struct CpuModel {
    /// The address of the next byte to fetch.
    pub pc: u16,
    /// The stack pointer: the stack cell in use next is `0x0100 | sp`.
    pub sp: u8,
    pub a: u8,
    pub x: u8,
    pub y: u8,
    /// The stored processor status. Break and Reserved are never set in it.
    pub ps: u8,
    pub bus: BusModel,
    pub clock: ClockModel,
    /// The address of the opcode of the instruction in progress.
    pub previous_pc: u16,
    /// A reset is still owed before anything can run.
    pub reset: bool,
    /// PC did not move across an instruction: the CPU stands still.
    pub trap: bool,
    /// The first fault that stopped the CPU, if any did.
    pub fault: Option<Fault>,
    /// The address of the last write that no device took, until the host
    /// asks for it.
    pub dropped: Option<Addr>,
    pub irq_pending: bool,
    pub nmi_pending: bool,
    /// In debug mode bus accesses do not run the clock.
    pub debug: bool,
    pub breakpoints: Set<u16>,
    /// The last `debug_exec` stopped at a breakpoint without executing.
    pub breaked: bool,
}

/// The address of the stack cell that the stack pointer `sp` names. It lies
/// in the stack page whatever `sp` is.
pub open spec fn stack_addr(sp: u8) -> u16 {
    (STACK_START + sp) as u16
}

impl CpuModel {
    /// The bus is well formed and neither Break nor Reserved is stored.
    pub open spec fn wf(self) -> bool {
        &&& self.bus.wf()
        &&& self.ps & UNSTORED == 0
    }

    /// The machine right after construction over `bus` and `clock`.
    pub open spec fn power_on(bus: BusModel, clock: ClockModel) -> CpuModel {
        CpuModel {
            pc: RESET_VECTOR,
            sp: STACK_RESET,
            a: 0,
            x: 0,
            y: 0,
            ps: 0,
            bus,
            clock,
            previous_pc: 0,
            reset: true,
            trap: false,
            fault: None,
            dropped: None,
            irq_pending: false,
            nmi_pending: false,
            debug: false,
            breakpoints: Set::empty(),
            breaked: false,
        }
    }

    /// Whether `flag` reads as set.
    pub open spec fn flag(self, flag: Flag) -> bool {
        flag_set(self.ps, flag)
    }

    /// The machine with `flag` set or cleared.
    pub open spec fn set(self, flag: Flag, on: bool) -> CpuModel {
        CpuModel { ps: with_flag(self.ps, flag, on), ..self }
    }

    /// The machine with Negative and Zero set from `value`.
    pub open spec fn set_nz(self, value: u8) -> CpuModel {
        self.set(Flag::Negative, value & 0x80 != 0).set(Flag::Zero, value == 0)
    }

    /// Whether the CPU has stopped for good.
    pub open spec fn halted(self) -> bool {
        self.trap || self.fault is Some
    }

    /// The machine with `fault` latched, unless an earlier fault is.
    pub open spec fn fail(self, fault: Fault) -> CpuModel {
        if self.fault is Some {
            self
        } else {
            CpuModel { fault: Some(fault), ..self }
        }
    }

    /// The machine after the clock has paced one bus transaction. In debug
    /// mode the clock stands still.
    pub open spec fn cycle(self) -> CpuModel {
        if self.debug {
            self
        } else {
            CpuModel { clock: self.clock.cycle(), ..self }
        }
    }

    /// One read on the bus: the byte read and the machine after it. A read
    /// from an address that nobody owns gives zero and latches the fault.
    pub open spec fn read(self, addr: u16) -> (u8, CpuModel) {
        if self.bus.mapped(addr) {
            (self.bus.read(addr), CpuModel { bus: self.bus.after_read(addr), ..self.cycle() })
        } else {
            (0u8, self.cycle().fail(Fault::UnmappedRead(Addr(addr))))
        }
    }

    /// One write on the bus. A write that no device takes is dropped, and
    /// its address is kept for the host.
    pub open spec fn write(self, addr: u16, data: u8) -> CpuModel {
        CpuModel {
            bus: self.bus.after_write(addr, data),
            dropped: if self.bus.accepts(addr) {
                self.dropped
            } else {
                Some(Addr(addr))
            },
            ..self.cycle()
        }
    }

    /// Two reads: the low byte of a word at `addr`, then its high byte at
    /// the address after it.
    pub open spec fn read_word(self, addr: u16) -> (u16, CpuModel) {
        let low = self.read(addr);
        let high = low.1.read(wrap16(addr + 1));
        (word(high.0, low.0), high.1)
    }

    /// A push: `data` goes to the stack cell that SP names, then SP steps
    /// down, from 0x00 round to 0xff.
    pub open spec fn push(self, data: u8) -> CpuModel {
        CpuModel { sp: wrap8(self.sp - 1), ..self.write(stack_addr(self.sp), data) }
    }

    /// A pop: SP steps up, from 0xff round to 0x00, then the stack cell that
    /// it names is read.
    pub open spec fn pop(self) -> (u8, CpuModel) {
        let up = CpuModel { sp: wrap8(self.sp + 1), ..self };
        up.read(stack_addr(up.sp))
    }

    /// Two pops: the low byte of a word, then its high byte.
    pub open spec fn pop_word(self) -> (u16, CpuModel) {
        let low = self.pop();
        let high = low.1.pop();
        (word(high.0, low.0), high.1)
    }

    /// Two pushes: the high byte of `w`, then its low byte.
    pub open spec fn push_word(self, w: u16) -> CpuModel {
        self.push(high_byte(w)).push(low_byte(w))
    }

    /// The byte at PC is read and PC steps past it.
    pub open spec fn fetch(self) -> (u8, CpuModel) {
        let r = self.read(self.pc);
        (r.0, CpuModel { pc: wrap16(self.pc + 1), ..r.1 })
    }

    /// Two fetches: the low byte of a word, then its high byte.
    pub open spec fn fetch_word(self) -> (u16, CpuModel) {
        let low = self.fetch();
        let high = low.1.fetch();
        (word(high.0, low.0), high.1)
    }

    /// The machine after a reset: X, Y, A and the status cleared, SP at
    /// 0xfd, interrupts disabled, PC loaded from the reset vector.
    pub open spec fn after_reset(self) -> CpuModel {
        let start = CpuModel {
            x: 0,
            y: 0,
            a: 0,
            ps: Flag::InterruptDisable.mask(),
            sp: STACK_RESET,
            ..self
        };
        let vector = start.read_word(RESET_VECTOR);
        CpuModel { pc: vector.0, reset: false, ..vector.1 }
    }

    /// The machine after an interrupt was taken through the vector at
    /// `vector`: PC is pushed, high byte first, then the status as it is
    /// stored, with neither Break nor Reserved set in the copy; interrupts
    /// are disabled and PC is loaded from the vector.
    #[verifier::opaque]
    pub open spec fn interrupt(self, vector: u16) -> CpuModel {
        let saved = self.push_word(self.pc).push(self.ps).set(Flag::InterruptDisable, true);
        let target = saved.read_word(vector);
        CpuModel { pc: target.0, ..target.1 }
    }

    /// The machine after the pending NMI, if there is one, was taken.
    pub open spec fn service_nmi(self) -> CpuModel {
        if self.nmi_pending {
            CpuModel { nmi_pending: false, ..self }.interrupt(NMI_VECTOR)
        } else {
            self
        }
    }

    /// The machine after the pending IRQ, if there is one and interrupts
    /// are not disabled, was taken. A masked request stays pending.
    pub open spec fn service_irq(self) -> CpuModel {
        if self.irq_pending && !self.flag(Flag::InterruptDisable) {
            CpuModel { irq_pending: false, ..self }.interrupt(IRQ_VECTOR)
        } else {
            self
        }
    }

    /// The opcode at PC is fetched and decoded. The address it was fetched
    /// from is kept.
    pub open spec fn fetch_decode(self) -> ((Instruction, AddressingMode), CpuModel) {
        let f = CpuModel { previous_pc: self.pc, ..self }.fetch();
        (decode(f.0), f.1)
    }

    /// One instruction: it is fetched and decoded, its operand is fetched,
    /// and it is executed. If PC then stands where it stood before the
    /// fetch, the trap is latched.
    #[verifier::opaque]
    pub open spec fn run_one(self) -> CpuModel {
        let decoded = self.fetch_decode();
        let fetched = decoded.1.operand(decoded.0.1);
        let done = fetched.1.execute(decoded.0.0, fetched.0);
        if done.pc == self.pc {
            CpuModel { trap: true, ..done }
        } else {
            done
        }
    }

    /// One step of the machine. Nothing happens before the first reset, nor
    /// once the CPU has stopped. Else a pending NMI is taken, then a pending
    /// IRQ unless interrupts are disabled, and one instruction runs.
    pub open spec fn step(self) -> CpuModel {
        if self.reset || self.halted() {
            self
        } else {
            self.service_nmi().service_irq().run_one()
        }
    }

    /// One step of the machine under the debugger. Nothing happens once the
    /// CPU has stopped. At a breakpoint the step only notes that it was
    /// hit; the step after that runs the instruction there.
    pub open spec fn debug_step(self) -> CpuModel {
        if self.halted() {
            self
        } else if !self.breaked && self.breakpoints.contains(self.pc) {
            CpuModel { breaked: true, ..self }
        } else {
            CpuModel { breaked: false, ..self }.run_one()
        }
    }

    /// What `get_reg` gives: a byte for A, X, Y, PS and SP, an address for
    /// PC. The status is given as it reads, with Reserved set.
    pub open spec fn reg(self, reg: Register) -> Either<Byte, Addr> {
        match reg {
            Register::A => Either::Left(Byte(self.a)),
            Register::X => Either::Left(Byte(self.x)),
            Register::Y => Either::Left(Byte(self.y)),
            Register::PS => Either::Left(Byte(observed(self.ps))),
            Register::SP => Either::Left(Byte(self.sp)),
            Register::PC => Either::Right(Addr(self.pc)),
        }
    }

    /// Whether `val` is of the kind that `reg` holds: an address for PC, a
    /// byte for the others.
    pub open spec fn fits(reg: Register, val: Either<Byte, Addr>) -> bool {
        match val {
            Either::Left(_) => !(reg is PC),
            Either::Right(_) => reg is PC,
        }
    }

    /// The machine with `val` in the register `reg`. Of a status byte only
    /// the stored part is taken.
    pub open spec fn with_reg(self, reg: Register, val: Either<Byte, Addr>) -> CpuModel {
        match val {
            Either::Left(byte) => match reg {
                Register::A => CpuModel { a: byte.0, ..self },
                Register::X => CpuModel { x: byte.0, ..self },
                Register::Y => CpuModel { y: byte.0, ..self },
                Register::PS => CpuModel { ps: stored_part(byte.0), ..self },
                Register::SP => CpuModel { sp: byte.0, ..self },
                Register::PC => self,
            },
            Either::Right(addr) => match reg {
                Register::PC => CpuModel { pc: addr.0, ..self },
                _ => self,
            },
        }
    }
}

} // verus!
