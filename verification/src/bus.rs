use vstd::prelude::*;
use crate::bus::model::{
    access_tics, accepts, block_fits, byte_at, device_at, is_first_cover, is_mapped,
    lemma_accepted_device_keeps_windows_disjoint, lemma_device_at, lemma_one_device_per_address,
    lemma_same_layout, lemma_store_all_keeps_layout, lemma_store_all_then_read,
    lemma_store_keeps_layout, lemma_wrapping_add_twice, store, store_all, window_free,
    windows_disjoint, word_at, word_tics, DeviceModel,
};
use crate::clock::Clock;
use crate::cpu::regs::make_pair;
use crate::error::Error;

pub mod model;

verus! {

/// A device that can be attached to the bus. It occupies a window of addresses and
/// answers byte reads and writes in it.
///
/// `read` and `write` are the accesses that the processor makes while it runs: they
/// may cost tics. `peek`, `poke` and `write_vec` are for loading and inspecting: they
/// leave the clock alone.
pub trait BusDevice {
    /// The device as a mathematical value.
    spec fn model(&self) -> DeviceModel;

    /// The first address of the device's window.
    fn get_base_address(&self) -> (base_address: u16)
        ensures
            base_address == self.model().base_address,
    ;

    /// The number of addresses in the device's window.
    fn get_size(&self) -> (size: u16)
        ensures
            size == self.model().size,
    ;

    /// The byte at `address`, at no cost.
    fn peek(&self, address: u16) -> (value: u8)
        ensures
            value == self.model().byte_at(address),
    ;

    /// Stores `value` at `address`, at no cost.
    fn poke(&mut self, address: u16, value: u8)
        ensures
            final(self).model() == old(self).model().store(address, value),
    ;

    /// The byte at `address`; the clock advances by the device's access cost.
    fn read(&self, address: u16, clock: &mut Clock) -> (value: u8)
        ensures
            value == self.model().byte_at(address),
            final(clock).tics() == old(clock).tics().wrapping_add(self.model().access_tics),
    ;

    /// Stores `value` at `address`; the clock advances by the device's access cost.
    fn write(&mut self, address: u16, value: u8, clock: &mut Clock)
        ensures
            final(self).model() == old(self).model().store(address, value),
            final(clock).tics() == old(clock).tics().wrapping_add(old(self).model().access_tics),
    ;

    /// Stores the bytes of `data` from `address` on, at no cost.
    fn write_vec(&mut self, address: u16, data: Vec<u8>)
        ensures
            final(self).model() == old(self).model().store_all(address, data@),
    ;
}

/// The devices attached to the processor, each in its own window of the 16-bit address
/// space. An access is routed to the device whose window holds the address.
///
/// `new` makes a bus whose windows are disjoint, and `add_device` and every store keep
/// them so.
pub struct Bus<D: BusDevice> {
    devices: Vec<D>,
}

impl<D: BusDevice> View for Bus<D> {
    type V = Seq<DeviceModel>;

    /// The devices in the order in which they were added.
    closed spec fn view(&self) -> Seq<DeviceModel> {
        Seq::new(self.devices@.len(), |i: int| self.devices@[i].model())
    }
}

impl<D: BusDevice> Bus<D> {
    /// A bus with no device on it.
    pub fn new() -> (bus: Self)
        ensures
            bus@ == Seq::<DeviceModel>::empty(),
            windows_disjoint(bus@),
    {
        let bus = Self { devices: Vec::new() };
        assert(bus@ =~= Seq::<DeviceModel>::empty());
        bus
    }

    /// Puts `device` on the bus, unless its window reaches past the end of the address
    /// space or overlaps the window of a device that is already there.
    pub fn add_device(&mut self, device: D) -> (result: Result<(), Error>)
        ensures
            accepts(old(self)@, device.model()) ==> result == Ok::<(), Error>(()) && final(self)@
                == old(self)@.push(device.model()),
            !accepts(old(self)@, device.model()) ==> result == Err::<(), Error>(
                Error::AddressConflict,
            ) && final(self)@ == old(self)@,
            windows_disjoint(old(self)@) ==> windows_disjoint(final(self)@),
    {
        let base_address = device.get_base_address();
        let size = device.get_size();
        if self.is_available(base_address, size) {
            let ghost before = self@;
            let ghost model = device.model();
            proof {
                if windows_disjoint(before) {
                    lemma_accepted_device_keeps_windows_disjoint(before, model);
                }
            }
            self.devices.push(device);
            assert(self@ =~= before.push(model));
            Ok(())
        } else {
            Err(Error::AddressConflict)
        }
    }

    /// Tells whether a device with the window `[address, address + size)` could be added.
    pub fn is_available(&self, address: u16, size: u16) -> (available: bool)
        ensures
            available == window_free(self@, address, size),
    {
        if address as u32 + size as u32 > 0x10000 {
            return false;
        }
        let mut i: usize = 0;
        while i < self.devices.len()
            invariant
                i <= self.devices@.len(),
                self@.len() == self.devices@.len(),
                forall|k: int|
                    0 <= k < self@.len() ==> #[trigger] self@[k] == self.devices@[k].model(),
                forall|k: int|
                    0 <= k < i ==> !(#[trigger] self@[k]).overlaps_window(address, size),
            decreases self.devices@.len() - i,
        {
            let base = self.devices[i].get_base_address() as u32;
            let end = base + self.devices[i].get_size() as u32;
            if !(address as u32 + size as u32 <= base || end <= address as u32) {
                assert(self@[i as int].overlaps_window(address, size));
                return false;
            }
            i = i + 1;
        }
        true
    }

    /// The position of the device that an access to `address` is routed to, if there is
    /// one: the first in the order of adding whose window holds the address. Where the
    /// windows are disjoint no other device covers the address.
    pub fn find_device(&self, address: u16) -> (found: Option<usize>)
        ensures
            is_mapped(self@, address) ==> found == Some(device_at(self@, address) as usize),
            !is_mapped(self@, address) ==> found.is_none(),
            found matches Some(i) ==> is_first_cover(self@, address, i as int),
            found matches Some(i) ==> windows_disjoint(self@) ==> forall|j: int|
                0 <= j < self@.len() && j != i ==> !(#[trigger] self@[j]).covers(address),
    {
        let mut i: usize = 0;
        while i < self.devices.len()
            invariant
                i <= self.devices@.len(),
                self@.len() == self.devices@.len(),
                forall|k: int|
                    0 <= k < self@.len() ==> #[trigger] self@[k] == self.devices@[k].model(),
                forall|k: int| 0 <= k < i ==> !(#[trigger] self@[k]).covers(address),
            decreases self.devices@.len() - i,
        {
            let base = self.devices[i].get_base_address() as u32;
            let end = base + self.devices[i].get_size() as u32;
            if base <= address as u32 && (address as u32) < end {
                proof {
                    lemma_device_at(self@, address, i as int);
                    if windows_disjoint(self@) {
                        assert forall|j: int| 0 <= j < self@.len() && j != i implies !(
                        #[trigger] self@[j]).covers(address) by {
                            if self@[j].covers(address) {
                                lemma_one_device_per_address(self@, address, i as int, j);
                            }
                        }
                    }
                }
                return Some(i);
            }
            i = i + 1;
        }
        proof {
            if is_mapped(self@, address) {
                let k = device_at(self@, address);
                assert(self@[k].covers(address));
            }
        }
        None
    }

    /// Reads the byte at `address` as the processor does: the covering device answers
    /// and debits the clock. Where no device covers the address the byte is `0xFF` and
    /// the clock stands.
    pub fn read(&self, address: u16, clock: &mut Clock) -> (value: u8)
        ensures
            value == byte_at(self@, address),
            final(clock).tics() == old(clock).tics().wrapping_add(access_tics(self@, address)),
    {
        match self.find_device(address) {
            Some(i) => self.devices[i].read(address, clock),
            None => 0xFF,
        }
    }

    /// Stores `value` at `address` as the processor does: the covering device takes it
    /// and debits the clock. Where no device covers the address nothing happens.
    pub fn write(&mut self, address: u16, value: u8, clock: &mut Clock)
        ensures
            final(self)@ == store(old(self)@, address, value),
            final(clock).tics() == old(clock).tics().wrapping_add(
                access_tics(old(self)@, address),
            ),
            windows_disjoint(old(self)@) ==> windows_disjoint(final(self)@),
    {
        let ghost before = self@;
        proof {
            lemma_store_keeps_layout(before, address, value);
            lemma_same_layout(before, store(before, address, value));
        }
        match self.find_device(address) {
            Some(i) => {
                self.devices[i].write(address, value, clock);
                assert(self@ =~= store(before, address, value));
            },
            None => {},
        }
    }

    /// The byte at `address`, at no cost: `0xFF` where no device covers the address.
    pub fn peek(&self, address: u16) -> (value: u8)
        ensures
            value == byte_at(self@, address),
    {
        match self.find_device(address) {
            Some(i) => self.devices[i].peek(address),
            None => 0xFF,
        }
    }

    /// Hands the block `data` to the device that covers `address`, which stores it from
    /// `address` on at no cost. Where no device covers `address` nothing happens.
    ///
    /// Where the windows are disjoint and a writable device holds the whole block, each
    /// byte of the block is afterwards seen at its address.
    pub fn write_vec(&mut self, address: u16, data: Vec<u8>)
        ensures
            final(self)@ == store_all(old(self)@, address, data@),
            windows_disjoint(old(self)@) ==> windows_disjoint(final(self)@),
            windows_disjoint(old(self)@) && block_fits(old(self)@, address, data@.len())
                ==> forall|i: int|
                0 <= i < data@.len() ==> byte_at(final(self)@, (address + i) as u16) == data@[i],
    {
        let ghost before = self@;
        let ghost block = data@;
        proof {
            lemma_store_all_keeps_layout(before, address, block);
            lemma_same_layout(before, store_all(before, address, block));
        }
        match self.find_device(address) {
            Some(i) => {
                self.devices[i].write_vec(address, data);
                assert(self@ =~= store_all(before, address, block));
            },
            None => {},
        }
        proof {
            if windows_disjoint(before) && block_fits(before, address, block.len()) {
                assert forall|i: int| 0 <= i < block.len() implies byte_at(
                    self@,
                    (address + i) as u16,
                ) == block[i] by {
                    lemma_store_all_then_read(before, address, block, i);
                }
            }
        }
    }

    /// Reads the 16-bit word at `address`, low byte first, as two byte reads. Where no
    /// device covers `address` the word is `0xFFFF` and the clock stands.
    pub fn read_word(&self, address: u16, clock: &mut Clock) -> (value: u16)
        ensures
            value == word_at(self@, address),
            final(clock).tics() == old(clock).tics().wrapping_add(word_tics(self@, address)),
    {
        match self.find_device(address) {
            Some(i) => {
                let lo = self.devices[i].read(address, clock);
                let hi = self.read(address.wrapping_add(1), clock);
                proof {
                    lemma_wrapping_add_twice(
                        old(clock).tics(),
                        access_tics(self@, address),
                        access_tics(self@, address.wrapping_add(1)),
                    );
                }
                make_pair(hi, lo)
            },
            None => 0xFFFF,
        }
    }
}

} // verus!
