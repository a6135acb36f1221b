//! The keyboard: the device that the machine reads scancodes from.

use vstd::prelude::*;
use std::collections::VecDeque;
use crate::hardware::Device;
use crate::hardware::DeviceModel;
use crate::types::Addr;
use crate::types::Byte;

verus! {

/// The address at which the oldest scancode is read.
pub const KEY_DATA: u16 = 0x5000;

/// The address at which the keyboard says whether a scancode waits.
pub const KEY_READY: u16 = 0x5001;

/// What `KEY_READY` reads as while a scancode waits.
pub const READY: u8 = 0x08;

/// What `KEY_READY` reads as while none does.
pub const NOT_READY: u8 = 0x00;

/// A queue of scancodes that the host fills and the machine reads.
pub struct Keyboard {
    data: VecDeque<u8>,
}

impl Keyboard {
    /// A keyboard on which nothing was pressed yet.
    pub fn new() -> (k: Keyboard)
        ensures
            k@ == (DeviceModel::Keyboard { queue: Seq::empty() }),
    {
        Keyboard { data: VecDeque::new() }
    }

    /// The host reports a key: its scancode goes to the end of the queue.
    pub fn press(&mut self, scancode: u8)
        ensures
            final(self)@ == (DeviceModel::Keyboard { queue: old(self)@->queue.push(scancode) }),
    {
        self.data.push_back(scancode);
    }
}

impl Keyboard {
    /// On the bus the device is a keyboard.
    pub proof fn lemma_kind(&self)
        ensures
            self@ is Keyboard,
    {
    }
}

impl Device for Keyboard {
    closed spec fn view(&self) -> DeviceModel {
        DeviceModel::Keyboard { queue: self.data@ }
    }

    fn rx(&mut self, addr: Addr, data: Byte) -> (accepted: bool) {
        false
    }

    fn tx(&mut self, addr: Addr) -> (data: Byte) {
        if addr.0 == KEY_DATA {
            match self.data.pop_front() {
                Some(code) => Byte(code),
                None => Byte(0x00),
            }
        } else if self.data.len() > 0 {
            Byte(READY)
        } else {
            Byte(NOT_READY)
        }
    }

    fn range(&self) -> (r: (Addr, Addr)) {
        (Addr(KEY_DATA), Addr(KEY_READY))
    }
}

} // verus!
