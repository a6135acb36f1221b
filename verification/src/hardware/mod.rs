//! The hardware of the machine: the devices, the bus that routes to them, the
//! clock and the CPU.

use vstd::prelude::*;
use crate::types::Addr;
use crate::types::Byte;
use crate::hardware::display::Display;
use crate::hardware::keyboard::Keyboard;
use crate::hardware::memory::Memory;
use crate::hardware::rom::Rom;

pub mod bus;
pub mod clock;
pub mod cpu;
pub mod display;
pub mod keyboard;
pub mod memory;
pub mod rom;

verus! {

/// What a device on the bus is, as far as the rest of the machine can tell.
pub enum DeviceModel {
    /// Readable and writable cells for the addresses `start ..= end`.
    Ram { start: u16, end: u16, cells: Seq<u8> },
    /// Read-only cells for the addresses from `rom::ADDR_START` upwards.
    Rom { cells: Seq<u8> },
    /// The scancodes that were pushed and not yet read, oldest first.
    Keyboard { queue: Seq<u8> },
    /// The bytes written to the display and not yet taken out, oldest first.
    Display { emitted: Seq<u8> },
}

impl DeviceModel {
    /// The first and last address the device owns.
    pub open spec fn range(self) -> (u16, u16) {
        match self {
            DeviceModel::Ram { start, end, .. } => (start, end),
            DeviceModel::Rom { .. } => (rom::ADDR_START, rom::ADDR_END),
            DeviceModel::Keyboard { .. } => (keyboard::KEY_DATA, keyboard::KEY_READY),
            DeviceModel::Display { .. } => (display::KEY_DATA, display::KEY_READY),
        }
    }

    /// Whether `addr` lies in the device's range.
    pub open spec fn covers(self, addr: u16) -> bool {
        self.range().0 <= addr <= self.range().1
    }

    /// The range is not empty, and backing cells are as many as the range is
    /// long.
    pub open spec fn wf(self) -> bool {
        match self {
            DeviceModel::Ram { start, end, cells } => start <= end && cells.len() == end - start
                + 1,
            DeviceModel::Rom { cells } => cells.len() == rom::ROM_SIZE + 1,
            DeviceModel::Keyboard { .. } => true,
            DeviceModel::Display { .. } => true,
        }
    }

    /// The byte that a read of `addr` puts on the bus.
    pub open spec fn tx_byte(self, addr: u16) -> u8 {
        match self {
            DeviceModel::Ram { start, cells, .. } => cells[addr - start],
            DeviceModel::Rom { cells } => cells[addr - rom::ADDR_START],
            DeviceModel::Keyboard { queue } => if queue.len() == 0 {
                0
            } else if addr == keyboard::KEY_DATA {
                queue[0]
            } else {
                keyboard::READY
            },
            DeviceModel::Display { .. } => if addr == display::KEY_READY {
                display::READY
            } else {
                0
            },
        }
    }

    /// The device after a read of `addr`: reading the keyboard's data address
    /// takes the oldest scancode out; no other read changes anything.
    pub open spec fn after_tx(self, addr: u16) -> DeviceModel {
        match self {
            DeviceModel::Keyboard { queue } => if queue.len() > 0 && addr == keyboard::KEY_DATA {
                DeviceModel::Keyboard { queue: queue.drop_first() }
            } else {
                self
            },
            _ => self,
        }
    }

    /// Whether the device takes a write to `addr`.
    pub open spec fn accepts(self, addr: u16) -> bool {
        match self {
            DeviceModel::Ram { .. } => true,
            DeviceModel::Rom { .. } => false,
            DeviceModel::Keyboard { .. } => false,
            DeviceModel::Display { .. } => addr == display::KEY_DATA,
        }
    }

    /// The device after a write of `data` to `addr`. A write that the device
    /// does not take leaves it as it was.
    pub open spec fn after_rx(self, addr: u16, data: u8) -> DeviceModel {
        match self {
            DeviceModel::Ram { start, end, cells } => DeviceModel::Ram {
                start,
                end,
                cells: cells.update(addr - start, data),
            },
            DeviceModel::Display { emitted } => if addr == display::KEY_DATA {
                DeviceModel::Display { emitted: emitted.push(data) }
            } else {
                self
            },
            _ => self,
        }
    }
}

/// What every device on the bus can do: name its address range, answer a
/// read and, if it supports that, take a write.
pub trait Device {
    /// The device as the bus sees it.
    spec fn view(&self) -> DeviceModel;

    /// Someone writes `data` to `addr`, which belongs to this device. The
    /// result says whether the device took the write.
    fn rx(&mut self, addr: Addr, data: Byte) -> (accepted: bool)
        requires
            old(self)@.wf(),
            old(self)@.covers(addr.0),
        ensures
            accepted == old(self)@.accepts(addr.0),
            final(self)@ == old(self)@.after_rx(addr.0, data.0),
            final(self)@.wf(),
            final(self)@.range() == old(self)@.range(),
    ;

    /// Someone reads from `addr`, which belongs to this device.
    fn tx(&mut self, addr: Addr) -> (data: Byte)
        requires
            old(self)@.wf(),
            old(self)@.covers(addr.0),
        ensures
            data.0 == old(self)@.tx_byte(addr.0),
            final(self)@ == old(self)@.after_tx(addr.0),
            final(self)@.wf(),
            final(self)@.range() == old(self)@.range(),
    ;

    /// The first and the last address that belong to this device.
    fn range(&self) -> (r: (Addr, Addr))
        requires
            self@.wf(),
        ensures
            (r.0.0, r.1.0) == self@.range(),
            r.0.0 <= r.1.0,
    ;
}

/// One of the devices that the bus can hold.
pub enum Peripheral {
    Ram(Memory),
    Rom(Rom),
    Keyboard(Keyboard),
    Display(Display),
}

impl Peripheral {
    /// On the bus each device is of the kind that its variant names.
    pub proof fn lemma_kind(&self)
        ensures
            match self {
                Peripheral::Ram(_) => self@ is Ram,
                Peripheral::Rom(_) => self@ is Rom,
                Peripheral::Keyboard(_) => self@ is Keyboard,
                Peripheral::Display(_) => self@ is Display,
            },
    {
        match self {
            Peripheral::Ram(d) => d.lemma_kind(),
            Peripheral::Rom(d) => d.lemma_kind(),
            Peripheral::Keyboard(d) => d.lemma_kind(),
            Peripheral::Display(d) => d.lemma_kind(),
        }
    }

    /// The host reports a key to the device. A keyboard queues its
    /// scancode; the result says whether the device is one.
    pub fn press(&mut self, scancode: u8) -> (taken: bool)
        ensures
            taken == old(self)@ is Keyboard,
            final(self)@ == (match old(self)@ {
                DeviceModel::Keyboard { queue } => DeviceModel::Keyboard {
                    queue: queue.push(scancode),
                },
                other => other,
            }),
    {
        proof {
            self.lemma_kind();
        }
        match self {
            Peripheral::Keyboard(keys) => {
                keys.press(scancode);
                true
            },
            _ => false,
        }
    }

    /// Hands out what was written to the device if it is a display, and
    /// empties it. Other devices give nothing.
    pub fn take_output(&mut self) -> (bytes: Vec<u8>)
        ensures
            bytes@ == (match old(self)@ {
                DeviceModel::Display { emitted } => emitted,
                _ => Seq::empty(),
            }),
            final(self)@ == (match old(self)@ {
                DeviceModel::Display { .. } => DeviceModel::Display { emitted: Seq::empty() },
                other => other,
            }),
    {
        proof {
            self.lemma_kind();
        }
        match self {
            Peripheral::Display(screen) => screen.take_output(),
            _ => Vec::new(),
        }
    }
}

impl Device for Peripheral {
    open spec fn view(&self) -> DeviceModel {
        match self {
            Peripheral::Ram(d) => d@,
            Peripheral::Rom(d) => d@,
            Peripheral::Keyboard(d) => d@,
            Peripheral::Display(d) => d@,
        }
    }

    fn rx(&mut self, addr: Addr, data: Byte) -> (accepted: bool) {
        match self {
            Peripheral::Ram(d) => d.rx(addr, data),
            Peripheral::Rom(d) => d.rx(addr, data),
            Peripheral::Keyboard(d) => d.rx(addr, data),
            Peripheral::Display(d) => d.rx(addr, data),
        }
    }

    fn tx(&mut self, addr: Addr) -> (data: Byte) {
        match self {
            Peripheral::Ram(d) => d.tx(addr),
            Peripheral::Rom(d) => d.tx(addr),
            Peripheral::Keyboard(d) => d.tx(addr),
            Peripheral::Display(d) => d.tx(addr),
        }
    }

    fn range(&self) -> (r: (Addr, Addr)) {
        match self {
            Peripheral::Ram(d) => d.range(),
            Peripheral::Rom(d) => d.range(),
            Peripheral::Keyboard(d) => d.range(),
            Peripheral::Display(d) => d.range(),
        }
    }
}

} // verus!
