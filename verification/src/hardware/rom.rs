//! Read-only memory.

use vstd::prelude::*;
use crate::hardware::Device;
use crate::hardware::DeviceModel;
use crate::types::Addr;
use crate::types::Byte;

verus! {

/// The offset of the last cell of the ROM.
pub const ROM_SIZE: u16 = 0x80ff;

/// The first address of the ROM.
pub const ADDR_START: u16 = 0x7f00;

/// The last address of the ROM.
pub const ADDR_END: u16 = 0xffff;

/// What a ROM holds that was made from `image`: the image from its first
/// cell on, cut off at the end of the ROM, and zeroes behind it.
pub open spec fn rom_cells(image: Option<Seq<u8>>) -> Seq<u8> {
    Seq::new(
        (ROM_SIZE + 1) as nat,
        |i: int|
            match image {
                Some(bytes) => if i < bytes.len() {
                    bytes[i]
                } else {
                    0u8
                },
                None => 0u8,
            },
    )
}

/// The bytes of an image, if there is one.
pub open spec fn image_bytes(image: Option<Vec<u8>>) -> Option<Seq<u8>> {
    match image {
        Some(bytes) => Some(bytes@),
        None => None,
    }
}

/// Memory that can be read and not written. It holds the reset, interrupt
/// and NMI vectors at the top of the address space.
pub struct Rom {
    data: Vec<u8>,
}

impl Rom {
    /// A ROM that holds `image`, or zeroes where there is none.
    pub fn new(image: Option<Vec<u8>>) -> (rom: Rom)
        ensures
            rom@ == (DeviceModel::Rom {
                cells: rom_cells(image_bytes(image)),
            }),
            rom@.wf(),
    {
        let ghost want = rom_cells(image_bytes(image));
        let size: usize = ROM_SIZE as usize + 1;
        let mut data: Vec<u8> = Vec::new();
        let mut i: usize = 0;
        while i < size
            invariant
                i <= size,
                size == ROM_SIZE + 1,
                want == rom_cells(image_bytes(image)),
                data@ == want.subrange(0, i as int),
            decreases size - i,
        {
            let byte: u8 = match &image {
                Some(bytes) => if i < bytes.len() {
                    bytes[i]
                } else {
                    0
                },
                None => 0,
            };
            data.push(byte);
            i = i + 1;
        }
        assert(data@ == want);
        Rom { data }
    }
}

impl Rom {
    /// On the bus the device is a ROM.
    pub proof fn lemma_kind(&self)
        ensures
            self@ is Rom,
    {
    }
}

impl Device for Rom {
    closed spec fn view(&self) -> DeviceModel {
        DeviceModel::Rom { cells: self.data@ }
    }

    fn rx(&mut self, addr: Addr, data: Byte) -> (accepted: bool) {
        false
    }

    fn tx(&mut self, addr: Addr) -> (data: Byte) {
        let at: usize = (addr.0 - ADDR_START) as usize;
        Byte(self.data[at])
    }

    fn range(&self) -> (r: (Addr, Addr)) {
        (Addr(ADDR_START), Addr(ADDR_END))
    }
}

} // verus!
