//! The 16-bit bus: a set of devices with disjoint address ranges, and the
//! routing of each read and write to the device that owns the address.

use vstd::prelude::*;
use std::collections::HashMap;
use crate::hardware::display;
use crate::hardware::keyboard;
use crate::hardware::Device;
use crate::hardware::DeviceModel;
use crate::hardware::Peripheral;
use crate::types::Addr;
use crate::types::Byte;

verus! {

/// Why a device could not be put on the bus.
#[derive(Clone, Copy, Debug, PartialEq, Eq, Structural)]
pub enum BusError {
    /// An address of the device's range belongs to a device registered
    /// before.
    OverlappingRange,
}

/// The bus as the CPU sees it: the registered devices in the order of their
/// registration, and for each claimed address the place of its owner in that
/// order.
pub struct BusModel {
    pub devices: Seq<DeviceModel>,
    pub index: Map<u16, usize>,
}

impl BusModel {
    /// Every device is well formed, and the table of owners says exactly
    /// which device covers which address. No address has two owners.
    pub open spec fn wf(self) -> bool {
        &&& self.devices.len() <= usize::MAX
        &&& forall|i: int| 0 <= i < self.devices.len() ==> (#[trigger] self.devices[i]).wf()
        &&& forall|a: u16| #[trigger]
            self.index.contains_key(a) ==> self.index[a] < self.devices.len()
                && self.devices[self.index[a] as int].covers(a)
        &&& forall|i: int, a: u16|
            0 <= i < self.devices.len() && (#[trigger] self.devices[i].covers(a))
                ==> self.index.contains_key(a) && self.index[a] == i
    }

    /// Whether some device owns `addr`.
    pub open spec fn mapped(self, addr: u16) -> bool {
        self.index.contains_key(addr)
    }

    /// The place of the device that owns `addr`.
    pub open spec fn owner(self, addr: u16) -> int {
        self.index[addr] as int
    }

    /// Whether no address of `dev` is claimed yet.
    pub open spec fn free_for(self, dev: DeviceModel) -> bool {
        forall|a: u16| #[trigger] dev.covers(a) ==> !self.mapped(a)
    }

    /// The bus with `dev` put on it as its newest device.
    pub open spec fn with_device(self, dev: DeviceModel) -> BusModel {
        BusModel {
            devices: self.devices.push(dev),
            index: Map::new(
                |a: u16| self.index.contains_key(a) || dev.covers(a),
                |a: u16|
                    if dev.covers(a) {
                        self.devices.len() as usize
                    } else {
                        self.index[a]
                    },
            ),
        }
    }

    /// The byte that a read of the mapped address `addr` returns.
    pub open spec fn read(self, addr: u16) -> u8 {
        self.devices[self.owner(addr)].tx_byte(addr)
    }

    /// The bus after a read of the mapped address `addr`.
    pub open spec fn after_read(self, addr: u16) -> BusModel {
        BusModel {
            devices: self.devices.update(
                self.owner(addr),
                self.devices[self.owner(addr)].after_tx(addr),
            ),
            index: self.index,
        }
    }

    /// Whether a write to `addr` reaches a device that takes it.
    pub open spec fn accepts(self, addr: u16) -> bool {
        self.mapped(addr) && self.devices[self.owner(addr)].accepts(addr)
    }

    /// The bus after a write of `data` to `addr`. A write to an address that
    /// nobody owns is dropped.
    pub open spec fn after_write(self, addr: u16, data: u8) -> BusModel {
        if self.mapped(addr) {
            BusModel {
                devices: self.devices.update(
                    self.owner(addr),
                    self.devices[self.owner(addr)].after_rx(addr, data),
                ),
                index: self.index,
            }
        } else {
            self
        }
    }

    /// Whether a keyboard stands at the keyboard's addresses.
    pub open spec fn has_keyboard(self) -> bool {
        self.mapped(keyboard::KEY_DATA) && self.devices[self.owner(keyboard::KEY_DATA)] is Keyboard
    }

    /// The bus after the host reported a key: its scancode waits at the end
    /// of the keyboard's queue. Without a keyboard nothing changes.
    pub open spec fn after_key(self, scancode: u8) -> BusModel {
        if self.has_keyboard() {
            let at = self.owner(keyboard::KEY_DATA);
            BusModel {
                devices: self.devices.update(
                    at,
                    DeviceModel::Keyboard { queue: self.devices[at]->queue.push(scancode) },
                ),
                index: self.index,
            }
        } else {
            self
        }
    }

    /// Whether a display stands at the display's addresses.
    pub open spec fn has_display(self) -> bool {
        self.mapped(display::KEY_DATA) && self.devices[self.owner(display::KEY_DATA)] is Display
    }

    /// The bytes written to the display and not yet taken out.
    pub open spec fn output(self) -> Seq<u8> {
        if self.has_display() {
            self.devices[self.owner(display::KEY_DATA)]->emitted
        } else {
            Seq::empty()
        }
    }

    /// The bus after the display's output was taken out.
    pub open spec fn after_output(self) -> BusModel {
        if self.has_display() {
            BusModel {
                devices: self.devices.update(
                    self.owner(display::KEY_DATA),
                    DeviceModel::Display { emitted: Seq::empty() },
                ),
                index: self.index,
            }
        } else {
            self
        }
    }

    /// Whether `addr` belongs to a RAM.
    pub open spec fn is_ram(self, addr: u16) -> bool {
        self.mapped(addr) && self.devices[self.owner(addr)] is Ram
    }
}

/// Reading and writing keep the bus well formed and every address with its
/// owner.
pub proof fn lemma_access_keeps_wf(bus: BusModel, addr: u16, data: u8)
    requires
        bus.wf(),
    ensures
        bus.mapped(addr) ==> bus.after_read(addr).wf(),
        bus.after_write(addr, data).wf(),
{
    if bus.mapped(addr) {
        let o = bus.owner(addr);
        let r = bus.after_read(addr);
        let w = bus.after_write(addr, data);
        assert(bus.devices[o].wf());
        assert forall|i: int| 0 <= i < r.devices.len() implies (#[trigger] r.devices[i]).wf() by {
            assert(bus.devices[i].wf());
        }
        assert forall|i: int| 0 <= i < w.devices.len() implies (#[trigger] w.devices[i]).wf() by {
            assert(bus.devices[i].wf());
        }
        assert forall|i: int, a: u16|
            0 <= i < r.devices.len() && (#[trigger] r.devices[i].covers(a)) implies
        r.index.contains_key(a) && r.index[a] == i by {
            assert(bus.devices[i].covers(a));
        }
        assert forall|i: int, a: u16|
            0 <= i < w.devices.len() && (#[trigger] w.devices[i].covers(a)) implies
        w.index.contains_key(a) && w.index[a] == i by {
            assert(bus.devices[i].covers(a));
        }
    }
}

/// A byte written to RAM is the byte read there afterwards, and the read
/// leaves the bus as the write left it.
pub proof fn lemma_ram_write_then_read(bus: BusModel, addr: u16, data: u8)
    requires
        bus.wf(),
        bus.is_ram(addr),
    ensures
        bus.after_write(addr, data).is_ram(addr),
        bus.after_write(addr, data).read(addr) == data,
        bus.after_write(addr, data).after_read(addr) == bus.after_write(addr, data),
{
    let o = bus.owner(addr);
    let w = bus.after_write(addr, data);
    assert(bus.devices[o].wf());
    assert(bus.devices[o].covers(addr));
    assert(w.after_read(addr).devices =~= w.devices);
}

/// A read from RAM changes nothing on the bus.
pub proof fn lemma_ram_read_is_silent(bus: BusModel, addr: u16)
    requires
        bus.wf(),
        bus.is_ram(addr),
    ensures
        bus.after_read(addr) == bus,
{
    assert(bus.after_read(addr).devices =~= bus.devices);
}

/// A write to one address leaves what RAM holds at every other address.
pub proof fn lemma_write_keeps_other_ram(bus: BusModel, addr: u16, data: u8, other: u16)
    requires
        bus.wf(),
        bus.is_ram(other),
        addr != other,
    ensures
        bus.after_write(addr, data).is_ram(other),
        bus.after_write(addr, data).read(other) == bus.read(other),
{
    assert(bus.devices[bus.owner(other)].covers(other));
    if bus.mapped(addr) {
        assert(bus.devices[bus.owner(addr)].covers(addr));
        assert(bus.devices[bus.owner(addr)].wf());
    }
}

/// A read at any mapped address leaves what RAM holds.
pub proof fn lemma_read_keeps_ram(bus: BusModel, addr: u16, other: u16)
    requires
        bus.wf(),
        bus.mapped(addr),
        bus.is_ram(other),
    ensures
        bus.after_read(addr).is_ram(other),
        bus.after_read(addr).read(other) == bus.read(other),
{
}

/// The 16-bit wide bus.
pub struct Bus {
    devices: Vec<Peripheral>,
    indices: HashMap<u16, usize>,
}

impl View for Bus {
    type V = BusModel;

    closed spec fn view(&self) -> BusModel {
        BusModel {
            devices: Seq::new(self.devices@.len(), |i: int| self.devices@[i]@),
            index: self.indices@,
        }
    }
}

impl Bus {
    /// A bus with no device on it.
    pub fn new() -> (bus: Bus)
        ensures
            bus@.devices.len() == 0,
            bus@.index == Map::<u16, usize>::empty(),
            bus@.wf(),
    {
        Bus { devices: Vec::new(), indices: HashMap::new() }
    }

    /// Whether some device owns `addr`.
    pub fn is_mapped(&self, addr: Addr) -> (b: bool)
        ensures
            b == self@.mapped(addr.0),
    {
        self.indices.contains_key(&addr.0)
    }

    /// Puts `dev` on the bus, so that every address of its range is routed
    /// to it. Fails, and changes nothing, where one of these addresses
    /// belongs to a device that is on the bus already.
    pub fn register(&mut self, dev: Peripheral) -> (r: Result<(), BusError>)
        requires
            old(self)@.wf(),
            dev@.wf(),
        ensures
            r is Ok <==> old(self)@.free_for(dev@),
            r is Ok ==> final(self)@ == old(self)@.with_device(dev@),
            r is Err ==> r == Err::<(), BusError>(BusError::OverlappingRange) && final(self)@
                == old(self)@,
            final(self)@.wf(),
    {
        let (start, end) = dev.range();
        let ghost model = dev@;
        let ghost before = self@;
        let mut a: u16 = start.0;
        loop
            invariant
                start.0 <= a <= end.0,
                (start.0, end.0) == model.range(),
                model == dev@,
                before == old(self)@,
                before.wf(),
                *self == *old(self),
                forall|k: u16| start.0 <= k < a ==> !before.mapped(k),
            ensures
                forall|k: u16| start.0 <= k <= end.0 ==> !before.mapped(k),
            decreases end.0 - a,
        {
            if self.indices.contains_key(&a) {
                assert(model.covers(a) && before.mapped(a));
                return Err(BusError::OverlappingRange);
            }
            if a == end.0 {
                break ;
            }
            a = a + 1;
        }
        assert(before.free_for(model)) by {
            assert forall|k: u16| #[trigger] model.covers(k) implies !before.mapped(k) by {}
        }
        let at: usize = self.devices.len();
        self.devices.push(dev);
        let count: usize = self.devices.len();
        assert(before.devices.len() < usize::MAX);
        let mut a: u16 = start.0;
        loop
            invariant_except_break
                forall|k: u16|
                    self.indices@.contains_key(k) <==> before.index.contains_key(k) || start.0
                        <= k < a,
                forall|k: u16|
                    #[trigger] self.indices@.contains_key(k) ==> self.indices@[k] == (if start.0
                        <= k < a {
                        at
                    } else {
                        before.index[k]
                    }),
            invariant
                start.0 <= a <= end.0,
                self.devices@ == old(self).devices@.push(dev),
                at == old(self).devices@.len(),
            ensures
                forall|k: u16|
                    self.indices@.contains_key(k) <==> before.index.contains_key(k) || start.0
                        <= k <= end.0,
                forall|k: u16|
                    #[trigger] self.indices@.contains_key(k) ==> self.indices@[k] == (if start.0
                        <= k <= end.0 {
                        at
                    } else {
                        before.index[k]
                    }),
            decreases end.0 - a,
        {
            self.indices.insert(a, at);
            if a == end.0 {
                break ;
            }
            a = a + 1;
        }
        proof {
            let now = self@;
            let want = before.with_device(model);
            assert(now.devices =~= want.devices);
            assert(now.index =~= want.index);
            lemma_with_device_keeps_wf(before, model);
        }
        Ok(())
    }

    /// Reads the byte at `addr` from the device that owns it.
    pub fn read(&mut self, addr: Addr) -> (data: Byte)
        requires
            old(self)@.wf(),
            old(self)@.mapped(addr.0),
        ensures
            data.0 == old(self)@.read(addr.0),
            final(self)@ == old(self)@.after_read(addr.0),
            final(self)@.wf(),
    {
        let at: usize = *self.indices.get(&addr.0).unwrap();
        let ghost before = self@;
        assert(before.devices[at as int].wf());
        assert(before.devices[at as int].covers(addr.0));
        let data = self.devices[at].tx(addr);
        proof {
            assert(self@.devices =~= before.after_read(addr.0).devices);
            lemma_access_keeps_wf(before, addr.0, 0);
        }
        data
    }

    /// Writes `data` to `addr`. The result says whether a device took the
    /// write: a write to an address that nobody owns, or that its owner
    /// refuses, is dropped.
    pub fn write(&mut self, addr: Addr, data: Byte) -> (accepted: bool)
        requires
            old(self)@.wf(),
        ensures
            accepted == old(self)@.accepts(addr.0),
            final(self)@ == old(self)@.after_write(addr.0, data.0),
            final(self)@.wf(),
    {
        let ghost before = self@;
        proof {
            lemma_access_keeps_wf(before, addr.0, data.0);
        }
        match self.indices.get(&addr.0) {
            None => false,
            Some(found) => {
                let at: usize = *found;
                assert(before.devices[at as int].wf());
                assert(before.devices[at as int].covers(addr.0));
                let accepted = self.devices[at].rx(addr, data);
                proof {
                    assert(self@.devices =~= before.after_write(addr.0, data.0).devices);
                }
                accepted
            },
        }
    }
}

impl Bus {
    /// The host reports a key: its scancode is queued in the keyboard, if
    /// one stands at the keyboard's addresses. The result says whether one
    /// does.
    pub fn key_press(&mut self, scancode: u8) -> (taken: bool)
        requires
            old(self)@.wf(),
        ensures
            final(self)@ == old(self)@.after_key(scancode),
            final(self)@.wf(),
            taken == old(self)@.has_keyboard(),
    {
        let ghost before = self@;
        match self.indices.get(&keyboard::KEY_DATA) {
            None => false,
            Some(found) => {
                let at: usize = *found;
                assert(before.mapped(keyboard::KEY_DATA));
                assert(before.devices[at as int].wf());
                let taken = self.devices[at].press(scancode);
                proof {
                    assert(self@.devices =~= before.after_key(scancode).devices);
                    lemma_same_ranges_keep_wf(before, self@);
                }
                taken
            },
        }
    }

    /// Hands out the bytes that were written to the display, if one stands
    /// at the display's addresses, and empties it.
    pub fn take_output(&mut self) -> (bytes: Vec<u8>)
        requires
            old(self)@.wf(),
        ensures
            final(self)@ == old(self)@.after_output(),
            final(self)@.wf(),
            bytes@ == old(self)@.output(),
    {
        let ghost before = self@;
        match self.indices.get(&display::KEY_DATA) {
            None => Vec::new(),
            Some(found) => {
                let at: usize = *found;
                assert(before.mapped(display::KEY_DATA));
                assert(before.devices[at as int].wf());
                let bytes = self.devices[at].take_output();
                proof {
                    assert(self@.devices =~= before.after_output().devices);
                    lemma_same_ranges_keep_wf(before, self@);
                }
                bytes
            },
        }
    }
}

/// A bus stays well formed where its devices change but stay well formed
/// and keep their ranges.
pub proof fn lemma_same_ranges_keep_wf(before: BusModel, after: BusModel)
    requires
        before.wf(),
        after.index == before.index,
        after.devices.len() == before.devices.len(),
        forall|i: int|
            0 <= i < after.devices.len() ==> (#[trigger] after.devices[i]).wf()
                && after.devices[i].range() == before.devices[i].range(),
    ensures
        after.wf(),
{
    assert forall|i: int, a: u16|
        0 <= i < after.devices.len() && (#[trigger] after.devices[i].covers(a)) implies
        after.index.contains_key(a) && after.index[a] == i by {
        assert(before.devices[i].covers(a));
    }
    assert forall|a: u16| #[trigger] after.index.contains_key(a) implies after.index[a]
        < after.devices.len() && after.devices[after.index[a] as int].covers(a) by {
        assert(before.devices[before.index[a] as int].covers(a));
    }
}

impl Default for Bus {
    /// A bus with no device on it.
    fn default() -> (bus: Bus)
        ensures
            bus@.devices.len() == 0,
            bus@.index == Map::<u16, usize>::empty(),
            bus@.wf(),
    {
        Bus::new()
    }
}

/// A device whose range is free can join a well-formed bus.
pub proof fn lemma_with_device_keeps_wf(bus: BusModel, dev: DeviceModel)
    requires
        bus.wf(),
        dev.wf(),
        bus.free_for(dev),
        bus.devices.len() < usize::MAX,
    ensures
        bus.with_device(dev).wf(),
{
    let n = bus.with_device(dev);
    assert forall|i: int| 0 <= i < n.devices.len() implies (#[trigger] n.devices[i]).wf() by {
        if i < bus.devices.len() {
            assert(bus.devices[i].wf());
        }
    }
    assert forall|i: int, a: u16|
        0 <= i < n.devices.len() && (#[trigger] n.devices[i].covers(a)) implies
        n.index.contains_key(a) && n.index[a] == i by {
        if i < bus.devices.len() {
            assert(bus.devices[i].covers(a));
            assert(bus.mapped(a));
            assert(!dev.covers(a));
        }
    }
}

} // verus!
