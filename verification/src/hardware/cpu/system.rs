//! A builder for a ready machine: 64 KiB of RAM with chosen contents, a
//! CPU that was reset, and chosen register values.

use vstd::prelude::*;
use crate::hardware::bus::Bus;
use crate::hardware::bus::BusModel;
use crate::hardware::clock::Clock;
use crate::hardware::clock::ClockModel;
use crate::hardware::cpu::instructions::stack_op::lemma_stored_part;
use crate::hardware::cpu::model::stored_part;
use crate::hardware::cpu::model::CpuModel;
use crate::hardware::cpu::CPU;
use crate::hardware::memory::Memory;
use crate::hardware::Device;
use crate::hardware::DeviceModel;
use crate::hardware::Peripheral;
use crate::types::Addr;
use crate::types::Byte;

verus! {

/// What a builder was told so far.
pub struct SystemModel {
    /// The bytes to put into memory, in the order in which they were given.
    pub memory: Seq<(u16, u8)>,
    pub a: Option<u8>,
    pub x: Option<u8>,
    pub y: Option<u8>,
    pub ps: Option<u8>,
    pub pc: Option<u16>,
    pub sp: Option<u8>,
}

/// The bus after the `writes` were made on it, first to last.
pub open spec fn written(bus: BusModel, writes: Seq<(u16, u8)>) -> BusModel
    decreases writes.len(),
{
    if writes.len() == 0 {
        bus
    } else {
        written(bus.after_write(writes[0].0, writes[0].1), writes.drop_first())
    }
}

/// A bus with zeroed RAM for the whole address space as its only device.
pub open spec fn all_ram() -> BusModel {
    (BusModel { devices: Seq::empty(), index: Map::empty() }).with_device(
        DeviceModel::Ram { start: 0, end: 0xffff, cells: Seq::new(0x10000, |i: int| 0u8) },
    )
}

/// `value` where there is one, else `default`.
pub open spec fn or_else<T>(value: Option<T>, default: T) -> T {
    match value {
        Some(v) => v,
        None => default,
    }
}

impl SystemModel {
    /// The machine that the builder makes: RAM with the chosen bytes, a
    /// fresh clock, a CPU that was reset, and then the chosen values in its
    /// registers. Of a chosen status only the stored part is taken.
    pub open spec fn prepared(self) -> CpuModel {
        let ready = CpuModel::power_on(
            written(all_ram(), self.memory),
            ClockModel { high: false, cycles: 0 },
        ).after_reset();
        CpuModel {
            a: or_else(self.a, ready.a),
            x: or_else(self.x, ready.x),
            y: or_else(self.y, ready.y),
            ps: match self.ps {
                Some(ps) => stored_part(ps),
                None => ready.ps,
            },
            pc: or_else(self.pc, ready.pc),
            sp: or_else(self.sp, ready.sp),
            ..ready
        }
    }
}

/// A builder for a machine with 64 KiB of RAM.
pub struct System {
    memory: Vec<(u16, u8)>,
    a: Option<u8>,
    x: Option<u8>,
    y: Option<u8>,
    ps: Option<u8>,
    pc: Option<u16>,
    sp: Option<u8>,
}

impl View for System {
    type V = SystemModel;

    closed spec fn view(&self) -> SystemModel {
        SystemModel {
            memory: self.memory@,
            a: self.a,
            x: self.x,
            y: self.y,
            ps: self.ps,
            pc: self.pc,
            sp: self.sp,
        }
    }
}

impl System {
    /// A builder that was told nothing yet.
    pub fn new() -> (system: System)
        ensures
            system@ == (SystemModel {
                memory: Seq::empty(),
                a: None,
                x: None,
                y: None,
                ps: None,
                pc: None,
                sp: None,
            }),
    {
        System { memory: Vec::new(), a: None, x: None, y: None, ps: None, pc: None, sp: None }
    }

    /// Puts `val` into memory at `addr`.
    pub fn memory(self, addr: u16, val: u8) -> (system: System)
        ensures
            system@ == (SystemModel { memory: self@.memory.push((addr, val)), ..self@ }),
    {
        let mut system = self;
        system.memory.push((addr, val));
        system
    }

    /// Puts `val` into memory at `addr`.
    pub fn set_memory(&mut self, addr: u16, val: u8)
        ensures
            final(self)@ == (SystemModel {
                memory: old(self)@.memory.push((addr, val)),
                ..old(self)@
            }),
    {
        self.memory.push((addr, val));
    }

    /// Chooses the value of A.
    pub fn a(self, a: u8) -> (system: System)
        ensures
            system@ == (SystemModel { a: Some(a), ..self@ }),
    {
        let mut system = self;
        system.a = Some(a);
        system
    }

    /// Chooses the value of X.
    pub fn x(self, x: u8) -> (system: System)
        ensures
            system@ == (SystemModel { x: Some(x), ..self@ }),
    {
        let mut system = self;
        system.x = Some(x);
        system
    }

    /// Chooses the value of Y.
    pub fn y(self, y: u8) -> (system: System)
        ensures
            system@ == (SystemModel { y: Some(y), ..self@ }),
    {
        let mut system = self;
        system.y = Some(y);
        system
    }

    /// Chooses the processor status.
    pub fn ps(self, ps: u8) -> (system: System)
        ensures
            system@ == (SystemModel { ps: Some(ps), ..self@ }),
    {
        let mut system = self;
        system.ps = Some(ps);
        system
    }

    /// Chooses the program counter.
    pub fn pc(self, pc: u16) -> (system: System)
        ensures
            system@ == (SystemModel { pc: Some(pc), ..self@ }),
    {
        let mut system = self;
        system.pc = Some(pc);
        system
    }

    /// Chooses the stack pointer.
    pub fn sp(self, sp: u8) -> (system: System)
        ensures
            system@ == (SystemModel { sp: Some(sp), ..self@ }),
    {
        let mut system = self;
        system.sp = Some(sp);
        system
    }

    /// Builds the machine: RAM for the whole address space with the chosen
    /// bytes in it, a CPU on it that was reset, and the chosen values in its
    /// registers.
    pub fn prepare(self) -> (cpu: CPU)
        ensures
            cpu@ == self@.prepared(),
            cpu@.wf(),
    {
        let mut bus = Bus::new();
        let ram = Memory::new(Addr(0x0000), Addr(0xffff));
        let ghost empty = bus@;
        assert(empty.devices =~= Seq::<DeviceModel>::empty());
        let registered = bus.register(Peripheral::Ram(ram));
        assert(registered is Ok && bus@ == all_ram()) by {
            assert(empty.free_for(ram@));
        }
        assert(self.memory@.skip(0) =~= self.memory@);
        let mut i: usize = 0;
        while i < self.memory.len()
            invariant
                i <= self.memory.len(),
                bus@.wf(),
                written(all_ram(), self.memory@) == written(bus@, self.memory@.skip(i as int)),
            decreases self.memory.len() - i,
        {
            let (addr, val) = self.memory[i];
            proof {
                let rest = self.memory@.skip(i as int);
                assert(rest.drop_first() =~= self.memory@.skip(i + 1));
                assert(rest[0] == (addr, val));
            }
            bus.write(Addr(addr), Byte(val));
            i = i + 1;
        }
        assert(self.memory@.skip(i as int).len() == 0);
        let mut cpu = CPU::new(bus, Clock::new());
        cpu.reset();
        if let Some(a) = self.a {
            cpu.a = Byte(a);
        }
        if let Some(x) = self.x {
            cpu.x = Byte(x);
        }
        if let Some(y) = self.y {
            cpu.y = Byte(y);
        }
        if let Some(ps) = self.ps {
            proof {
                lemma_stored_part(ps);
            }
            cpu.ps = Byte(ps & !0x30u8);
        }
        if let Some(pc) = self.pc {
            cpu.pc = Addr(pc);
        }
        if let Some(sp) = self.sp {
            cpu.sp = Byte(sp);
        }
        cpu
    }
}

impl Default for System {
    /// A builder that was told nothing yet.
    fn default() -> (system: System)
        ensures
            system@ == (SystemModel {
                memory: Seq::empty(),
                a: None,
                x: None,
                y: None,
                ps: None,
                pc: None,
                sp: None,
            }),
    {
        System::new()
    }
}

} // verus!
