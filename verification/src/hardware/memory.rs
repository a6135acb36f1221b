//! Random-access memory.

use vstd::prelude::*;
use crate::hardware::Device;
use crate::hardware::DeviceModel;
use crate::types::Addr;
use crate::types::Byte;

verus! {

/// The first address of the default memory.
pub const ADDR_START: u16 = 0x0000;

/// The last address of the default memory.
pub const ADDR_END: u16 = 0x3fff;

/// The number of cells of the default memory.
pub const MEMORY_SIZE: usize = 0x4000;

/// Readable and writable memory for a closed range of addresses.
pub struct Memory {
    data: Vec<u8>,
    start: Addr,
    end: Addr,
}

impl Memory {
    /// Zeroed memory for the addresses `start ..= end`.
    pub fn new(start: Addr, end: Addr) -> (m: Memory)
        requires
            start.0 <= end.0,
        ensures
            m@ == (DeviceModel::Ram {
                start: start.0,
                end: end.0,
                cells: Seq::new((end.0 - start.0 + 1) as nat, |i: int| 0u8),
            }),
            m@.wf(),
    {
        let size: usize = (end.0 - start.0) as usize + 1;
        let mut data: Vec<u8> = Vec::new();
        let mut i: usize = 0;
        while i < size
            invariant
                i <= size,
                data@ == Seq::new(i as nat, |k: int| 0u8),
            decreases size - i,
        {
            data.push(0);
            i = i + 1;
        }
        Memory { data, start, end }
    }
}

impl Default for Memory {
    /// Zeroed memory for the addresses `ADDR_START ..= ADDR_END`.
    fn default() -> (m: Memory)
        ensures
            m@ == (DeviceModel::Ram {
                start: ADDR_START,
                end: ADDR_END,
                cells: Seq::new(MEMORY_SIZE as nat, |i: int| 0u8),
            }),
    {
        Memory::new(Addr(ADDR_START), Addr(ADDR_END))
    }
}

impl Memory {
    /// On the bus the device is a RAM.
    pub proof fn lemma_kind(&self)
        ensures
            self@ is Ram,
    {
    }
}

impl Device for Memory {
    closed spec fn view(&self) -> DeviceModel {
        DeviceModel::Ram { start: self.start.0, end: self.end.0, cells: self.data@ }
    }

    fn rx(&mut self, addr: Addr, data: Byte) -> (accepted: bool) {
        let at: usize = (addr.0 - self.start.0) as usize;
        self.data.set(at, data.0);
        true
    }

    fn tx(&mut self, addr: Addr) -> (data: Byte) {
        let at: usize = (addr.0 - self.start.0) as usize;
        Byte(self.data[at])
    }

    fn range(&self) -> (r: (Addr, Addr)) {
        (self.start, self.end)
    }
}

} // verus!
