//! The display: the device that the machine writes characters to.

use vstd::prelude::*;
use crate::hardware::Device;
use crate::hardware::DeviceModel;
use crate::types::Addr;
use crate::types::Byte;

verus! {

/// The address to which a character is written.
pub const KEY_DATA: u16 = 0x5002;

/// The address at which the display says that it can take a character.
pub const KEY_READY: u16 = 0x5003;

/// What `KEY_READY` reads as: the display is always ready.
pub const READY: u8 = 0x08;

/// The characters that the machine wrote, kept until the host takes them
/// out to show them.
pub struct Display {
    out: Vec<u8>,
}

impl Display {
    /// A display to which nothing was written yet.
    pub fn new() -> (d: Display)
        ensures
            d@ == (DeviceModel::Display { emitted: Seq::empty() }),
    {
        Display { out: Vec::new() }
    }

    /// Hands out the characters written since the last call, oldest first,
    /// and forgets them.
    pub fn take_output(&mut self) -> (bytes: Vec<u8>)
        ensures
            bytes@ == old(self)@->emitted,
            final(self)@ == (DeviceModel::Display { emitted: Seq::empty() }),
    {
        let mut bytes: Vec<u8> = Vec::new();
        std::mem::swap(&mut bytes, &mut self.out);
        bytes
    }
}

impl Default for Display {
    fn default() -> (d: Display)
        ensures
            d@ == (DeviceModel::Display { emitted: Seq::empty() }),
    {
        Display::new()
    }
}

impl Display {
    /// On the bus the device is a display.
    pub proof fn lemma_kind(&self)
        ensures
            self@ is Display,
    {
    }
}

impl Device for Display {
    closed spec fn view(&self) -> DeviceModel {
        DeviceModel::Display { emitted: self.out@ }
    }

    fn rx(&mut self, addr: Addr, data: Byte) -> (accepted: bool) {
        if addr.0 == KEY_DATA {
            self.out.push(data.0);
            true
        } else {
            false
        }
    }

    fn tx(&mut self, addr: Addr) -> (data: Byte) {
        if addr.0 == KEY_READY {
            Byte(READY)
        } else {
            Byte(0x00)
        }
    }

    fn range(&self) -> (r: (Addr, Addr)) {
        (Addr(KEY_DATA), Addr(KEY_READY))
    }
}

} // verus!
