use vstd::prelude::*;
use crate::bus::model::DeviceModel;
use crate::bus::BusDevice;
use crate::clock::Clock;

verus! {

/// The tics that one read or one write of a RAM byte adds to the clock.
pub const RAM_ACCESS_TICS: u32 = 3;

/// Random access memory over a fixed window of addresses.
pub struct Ram {
    base_address: u16,
    size: u16,
    data: Vec<u8>,
}

impl Ram {
    #[verifier::type_invariant]
    spec fn holds_one_byte_per_address(self) -> bool {
        self.data@.len() == self.size
    }

    /// A RAM over `[base_address, base_address + size)` that holds `fill` at every address.
    pub open spec fn filled(base_address: u16, size: u16, fill: u8) -> DeviceModel {
        DeviceModel {
            base_address,
            size,
            contents: Map::new(
                |a: u16| base_address <= a < base_address + size,
                |a: u16| fill,
            ),
            writable: true,
            access_tics: RAM_ACCESS_TICS,
        }
    }

    /// A RAM over the window `[base_address, base_address + size)`, every byte `0x00`.
    pub fn new(base_address: u16, size: u16) -> (ram: Self)
        ensures
            ram.model() == Ram::filled(base_address, size, 0x00),
    {
        let mut data: Vec<u8> = Vec::new();
        let mut i: u16 = 0;
        while i < size
            invariant
                i <= size,
                data@.len() == i,
                forall|k: int| 0 <= k < i ==> data@[k] == 0x00u8,
            decreases size - i,
        {
            data.push(0x00);
            i = i + 1;
        }
        let ram = Ram { base_address, size, data };
        assert(ram.model().contents =~= Ram::filled(base_address, size, 0x00).contents);
        ram
    }

    /// The position in `data` of the byte at `address`, where the window holds the address.
    fn offset(&self, address: u16) -> (offset: Option<usize>)
        ensures
            self.model().covers(address) ==> offset == Some((address - self.base_address) as usize)
                && address - self.base_address < self.data@.len(),
            !self.model().covers(address) ==> offset.is_none(),
    {
        proof {
            use_type_invariant(self);
        }
        if address >= self.base_address && address - self.base_address < self.size {
            Some((address - self.base_address) as usize)
        } else {
            None
        }
    }
}

impl BusDevice for Ram {
    closed spec fn model(&self) -> DeviceModel {
        DeviceModel {
            base_address: self.base_address,
            size: self.size,
            contents: Map::new(
                |a: u16| self.base_address <= a < self.base_address + self.size,
                |a: u16| self.data@[a - self.base_address],
            ),
            writable: true,
            access_tics: RAM_ACCESS_TICS,
        }
    }

    fn get_base_address(&self) -> (base_address: u16) {
        self.base_address
    }

    fn get_size(&self) -> (size: u16) {
        self.size
    }

    fn peek(&self, address: u16) -> (value: u8) {
        match self.offset(address) {
            Some(offset) => self.data[offset],
            None => 0xFF,
        }
    }

    fn poke(&mut self, address: u16, value: u8) {
        proof {
            use_type_invariant(&*self);
        }
        match self.offset(address) {
            Some(offset) => {
                self.data[offset] = value;
                assert(self.model().contents =~= old(self).model().store(address, value).contents);
            },
            None => {},
        }
    }

    fn read(&self, address: u16, clock: &mut Clock) -> (value: u8) {
        clock.add(RAM_ACCESS_TICS);
        self.peek(address)
    }

    fn write(&mut self, address: u16, value: u8, clock: &mut Clock) {
        clock.add(RAM_ACCESS_TICS);
        self.poke(address, value);
    }

    fn write_vec(&mut self, address: u16, data: Vec<u8>) {
        let ghost before = self.model();
        let mut i: usize = 0;
        assert(self.model().contents =~= before.store_all(
            address,
            data@.subrange(0, 0),
        ).contents);
        while i < data.len() && i <= 0xFFFF - address as usize
            invariant
                i <= data@.len(),
                self.model() == before.store_all(address, data@.subrange(0, i as int)),
                before == old(self).model(),
            decreases data@.len() - i,
        {
            let ghost stored = self.model();
            self.poke((address as usize + i) as u16, data[i]);
            assert(self.model().contents =~= before.store_all(
                address,
                data@.subrange(0, i + 1),
            ).contents);
            i = i + 1;
        }
        assert(self.model().contents =~= before.store_all(address, data@).contents);
    }
}

} // verus!
