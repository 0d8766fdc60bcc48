use vstd::prelude::*;

verus! {

/// What a device on the bus is, as a mathematical value: the window of addresses it
/// occupies, the byte it shows at each of them, whether it keeps what is stored in it,
/// and what one observable access to it costs.
pub struct DeviceModel {
    /// First address of the window.
    pub base_address: u16,
    /// Number of addresses in the window.
    pub size: u16,
    /// The byte shown at each address of the window.
    pub contents: Map<u16, u8>,
    /// Whether a stored byte is kept. A device that is not writable ignores every store.
    pub writable: bool,
    /// The tics that one `read` or one `write` adds to the clock.
    pub access_tics: u32,
}

impl DeviceModel {
    /// Whether `address` lies in the half-open window `[base_address, base_address + size)`.
    pub open spec fn covers(self, address: u16) -> bool {
        self.base_address <= address < self.base_address + self.size
    }

    /// Whether the window ends at or before the end of the 16-bit address space.
    pub open spec fn fits(self) -> bool {
        self.base_address + self.size <= 0x10000
    }

    /// Whether the window overlaps the window `[address, address + size)`: neither ends
    /// at or before the start of the other.
    pub open spec fn overlaps_window(self, address: u16, size: u16) -> bool {
        !(address + size <= self.base_address || self.base_address + self.size <= address)
    }

    /// Whether the windows of the two devices overlap.
    pub open spec fn overlaps(self, other: DeviceModel) -> bool {
        self.overlaps_window(other.base_address, other.size)
    }

    /// The byte observed at `address`: what the device shows there, `0xFF` outside its
    /// window.
    pub open spec fn byte_at(self, address: u16) -> u8 {
        if self.covers(address) {
            self.contents[address]
        } else {
            0xFF
        }
    }

    /// The device after `value` was stored at `address`. Only a writable device changes,
    /// and only at an address of its window.
    pub open spec fn store(self, address: u16, value: u8) -> DeviceModel {
        if self.writable && self.covers(address) {
            DeviceModel { contents: self.contents.insert(address, value), ..self }
        } else {
            self
        }
    }

    /// Whether a block of `len` bytes stored from `address` on puts one of its bytes at
    /// `target` in this device: `target` is in the window and in the block's range.
    pub open spec fn takes(self, address: u16, len: nat, target: u16) -> bool {
        self.writable && self.covers(target) && address <= target < address + len
    }

    /// The device after the bytes of `data` were stored at `address`, `address + 1`, and
    /// so on. A byte whose address falls outside the window is dropped.
    pub open spec fn store_all(self, address: u16, data: Seq<u8>) -> DeviceModel {
        DeviceModel {
            contents: Map::new(
                |a: u16| self.contents.dom().contains(a) || self.takes(address, data.len(), a),
                |a: u16|
                    if self.takes(address, data.len(), a) {
                        data[a - address]
                    } else {
                        self.contents[a]
                    },
            ),
            ..self
        }
    }

    /// Whether `after` occupies the same window as this device, costs the same and is
    /// writable exactly if this device is.
    pub open spec fn same_window(self, after: DeviceModel) -> bool {
        &&& after.base_address == self.base_address
        &&& after.size == self.size
        &&& after.writable == self.writable
        &&& after.access_tics == self.access_tics
    }
}

/// Whether no two devices of `devices` have overlapping windows and each window ends
/// within the address space.
pub open spec fn windows_disjoint(devices: Seq<DeviceModel>) -> bool {
    &&& forall|i: int| 0 <= i < devices.len() ==> (#[trigger] devices[i]).fits()
    &&& forall|i: int, j: int|
        0 <= i < j < devices.len() ==> !(#[trigger] devices[i]).overlaps(#[trigger] devices[j])
}

/// Whether a device with the window `[address, address + size)` can join `devices`: the
/// window ends within the address space and overlaps the window of none of them.
pub open spec fn window_free(devices: Seq<DeviceModel>, address: u16, size: u16) -> bool {
    &&& address + size <= 0x10000
    &&& forall|i: int|
        0 <= i < devices.len() ==> !(#[trigger] devices[i]).overlaps_window(address, size)
}

/// Whether `device` can join `devices`.
pub open spec fn accepts(devices: Seq<DeviceModel>, device: DeviceModel) -> bool {
    window_free(devices, device.base_address, device.size)
}

/// Whether the device at position `i` covers `address` and none before it does. The
/// bus routes an access to that device.
pub open spec fn is_first_cover(devices: Seq<DeviceModel>, address: u16, i: int) -> bool {
    &&& 0 <= i < devices.len()
    &&& devices[i].covers(address)
    &&& forall|j: int| 0 <= j < i ==> !(#[trigger] devices[j]).covers(address)
}

/// Whether some device of `devices` covers `address`.
pub open spec fn is_mapped(devices: Seq<DeviceModel>, address: u16) -> bool {
    exists|i: int| is_first_cover(devices, address, i)
}

/// The position of the first device that covers `address`. Where the windows are
/// disjoint it is the only one.
pub open spec fn device_at(devices: Seq<DeviceModel>, address: u16) -> int
    recommends
        is_mapped(devices, address),
{
    choose|i: int| is_first_cover(devices, address, i)
}

/// The byte observed on the bus at `address`: that of the covering device, `0xFF`
/// where no device covers the address.
pub open spec fn byte_at(devices: Seq<DeviceModel>, address: u16) -> u8 {
    if is_mapped(devices, address) {
        devices[device_at(devices, address)].byte_at(address)
    } else {
        0xFF
    }
}

/// The tics that one read or write at `address` adds to the clock: the access cost of
/// the covering device, nothing where no device covers the address.
pub open spec fn access_tics(devices: Seq<DeviceModel>, address: u16) -> u32 {
    if is_mapped(devices, address) {
        devices[device_at(devices, address)].access_tics
    } else {
        0
    }
}

/// The devices after `value` was stored at `address`: the covering device stores it,
/// and a store to an address that no device covers is lost.
pub open spec fn store(devices: Seq<DeviceModel>, address: u16, value: u8) -> Seq<DeviceModel> {
    if is_mapped(devices, address) {
        let i = device_at(devices, address);
        devices.update(i, devices[i].store(address, value))
    } else {
        devices
    }
}

/// The devices after the block `data` was handed to the device that covers `address`.
/// Nothing changes where no device covers `address`.
pub open spec fn store_all(devices: Seq<DeviceModel>, address: u16, data: Seq<u8>) -> Seq<
    DeviceModel,
> {
    if is_mapped(devices, address) {
        let i = device_at(devices, address);
        devices.update(i, devices[i].store_all(address, data))
    } else {
        devices
    }
}

/// The 16-bit word read at `address`, low byte first. The high byte comes from the
/// address after it, which is `0` after `0xFFFF`. Where no device covers `address` the
/// word is `0xFFFF`.
pub open spec fn word_at(devices: Seq<DeviceModel>, address: u16) -> u16 {
    if is_mapped(devices, address) {
        (byte_at(devices, address.wrapping_add(1)) * 256 + byte_at(devices, address)) as u16
    } else {
        0xFFFF
    }
}

/// The tics that reading a word at `address` adds to the clock: the cost of the two
/// byte reads, nothing where no device covers `address`.
pub open spec fn word_tics(devices: Seq<DeviceModel>, address: u16) -> u32 {
    if is_mapped(devices, address) {
        access_tics(devices, address).wrapping_add(access_tics(devices, address.wrapping_add(1)))
    } else {
        0
    }
}

/// Whether `after` holds the devices of `before`, one for one, with at most their
/// contents changed.
pub open spec fn same_layout(before: Seq<DeviceModel>, after: Seq<DeviceModel>) -> bool {
    &&& after.len() == before.len()
    &&& forall|i: int| 0 <= i < before.len() ==> (#[trigger] before[i]).same_window(after[i])
}

/// Advancing a 32-bit counter by `a` and then by `b` is advancing it once by the
/// wrapped sum of the two.
pub proof fn lemma_wrapping_add_twice(tics: u32, a: u32, b: u32)
    ensures
        tics.wrapping_add(a).wrapping_add(b) == tics.wrapping_add(a.wrapping_add(b)),
{
}

/// Among devices with disjoint windows, at most one covers a given address.
pub proof fn lemma_one_device_per_address(devices: Seq<DeviceModel>, address: u16, i: int, j: int)
    requires
        windows_disjoint(devices),
        0 <= i < devices.len(),
        0 <= j < devices.len(),
        devices[i].covers(address),
        devices[j].covers(address),
    ensures
        i == j,
{
    if i < j {
        assert(!devices[i].overlaps(devices[j]));
    } else if j < i {
        assert(!devices[j].overlaps(devices[i]));
    }
}

/// The first device that covers an address is the one that `device_at` names.
pub proof fn lemma_device_at(devices: Seq<DeviceModel>, address: u16, i: int)
    requires
        is_first_cover(devices, address, i),
    ensures
        is_mapped(devices, address),
        device_at(devices, address) == i,
{
    let k = device_at(devices, address);
    assert(is_first_cover(devices, address, k));
    if i < k {
        assert(!devices[i].covers(address));
    } else if k < i {
        assert(!devices[k].covers(address));
    }
}

/// Where the device at position `i` covers an address, the address is mapped, to a
/// device at `i` or before.
pub proof fn lemma_first_cover_before(devices: Seq<DeviceModel>, address: u16, i: int)
    requires
        0 <= i < devices.len(),
        devices[i].covers(address),
    ensures
        is_mapped(devices, address),
        device_at(devices, address) <= i,
    decreases i,
{
    if forall|j: int| 0 <= j < i ==> !(#[trigger] devices[j]).covers(address) {
        lemma_device_at(devices, address, i);
    } else {
        let j = choose|j: int| 0 <= j < i && (#[trigger] devices[j]).covers(address);
        lemma_first_cover_before(devices, address, j);
    }
}

/// An address is mapped exactly if some device covers it.
pub proof fn lemma_mapped_iff_covered(devices: Seq<DeviceModel>, address: u16)
    ensures
        is_mapped(devices, address) <==> exists|i: int|
            0 <= i < devices.len() && (#[trigger] devices[i]).covers(address),
{
    if exists|i: int| 0 <= i < devices.len() && (#[trigger] devices[i]).covers(address) {
        let i = choose|i: int| 0 <= i < devices.len() && (#[trigger] devices[i]).covers(address);
        lemma_first_cover_before(devices, address, i);
    }
    if is_mapped(devices, address) {
        let k = device_at(devices, address);
        assert(devices[k].covers(address));
    }
}

/// Among devices with disjoint windows, a device that covers an address is the one
/// that `device_at` names.
pub proof fn lemma_device_at_disjoint(devices: Seq<DeviceModel>, address: u16, i: int)
    requires
        windows_disjoint(devices),
        0 <= i < devices.len(),
        devices[i].covers(address),
    ensures
        is_mapped(devices, address),
        device_at(devices, address) == i,
{
    assert forall|j: int| 0 <= j < i implies !(#[trigger] devices[j]).covers(address) by {
        if devices[j].covers(address) {
            lemma_one_device_per_address(devices, address, i, j);
        }
    }
    lemma_device_at(devices, address, i);
}

/// A device that is accepted leaves the windows disjoint.
pub proof fn lemma_accepted_device_keeps_windows_disjoint(
    devices: Seq<DeviceModel>,
    device: DeviceModel,
)
    requires
        windows_disjoint(devices),
        accepts(devices, device),
    ensures
        windows_disjoint(devices.push(device)),
{
    let after = devices.push(device);
    assert forall|i: int| 0 <= i < after.len() implies (#[trigger] after[i]).fits() by {
        if i < devices.len() {
            assert(devices[i].fits());
        }
    }
    assert forall|i: int, j: int| 0 <= i < j < after.len() implies !(#[trigger] after[i]).overlaps(
        #[trigger] after[j],
    ) by {
        if j < devices.len() {
            assert(!devices[i].overlaps(devices[j]));
        } else {
            assert(!devices[i].overlaps_window(device.base_address, device.size));
        }
    }
}

/// Devices with the same layout map the same addresses, to devices at the same
/// positions and at the same cost, and keep disjoint windows disjoint.
pub proof fn lemma_same_layout(before: Seq<DeviceModel>, after: Seq<DeviceModel>)
    requires
        same_layout(before, after),
    ensures
        forall|a: u16| is_mapped(before, a) == is_mapped(after, a),
        forall|a: u16| is_mapped(before, a) ==> device_at(before, a) == device_at(after, a),
        forall|a: u16| access_tics(before, a) == access_tics(after, a),
        windows_disjoint(before) ==> windows_disjoint(after),
{
    assert forall|a: u16| is_mapped(before, a) implies is_mapped(after, a) && device_at(before, a)
        == device_at(after, a) by {
        let i = device_at(before, a);
        assert(before[i].same_window(after[i]));
        assert forall|j: int| 0 <= j < i implies !(#[trigger] after[j]).covers(a) by {
            assert(before[j].same_window(after[j]));
        }
        lemma_device_at(after, a, i);
    }
    assert forall|a: u16| is_mapped(after, a) implies is_mapped(before, a) by {
        let i = device_at(after, a);
        assert(before[i].same_window(after[i]));
        assert forall|j: int| 0 <= j < i implies !(#[trigger] before[j]).covers(a) by {
            assert(before[j].same_window(after[j]));
        }
        lemma_device_at(before, a, i);
    }
    assert forall|a: u16| access_tics(before, a) == access_tics(after, a) by {
        if is_mapped(before, a) {
            let i = device_at(before, a);
            assert(before[i].same_window(after[i]));
        }
    }
    if windows_disjoint(before) {
        assert forall|i: int| 0 <= i < after.len() implies (#[trigger] after[i]).fits() by {
            assert(before[i].same_window(after[i]));
            assert(before[i].fits());
        }
        assert forall|i: int, j: int| 0 <= i < j < after.len() implies !(#[trigger] after[i]).overlaps(
            #[trigger] after[j],
        ) by {
            assert(before[i].same_window(after[i]));
            assert(before[j].same_window(after[j]));
            assert(!before[i].overlaps(before[j]));
        }
    }
}

/// Storing a byte moves no window and changes no access cost.
pub proof fn lemma_store_keeps_layout(devices: Seq<DeviceModel>, address: u16, value: u8)
    ensures
        same_layout(devices, store(devices, address, value)),
{
    let after = store(devices, address, value);
    assert forall|i: int| 0 <= i < devices.len() implies (#[trigger] devices[i]).same_window(
        after[i],
    ) by {}
}

/// Storing a block moves no window and changes no access cost.
pub proof fn lemma_store_all_keeps_layout(devices: Seq<DeviceModel>, address: u16, data: Seq<u8>)
    ensures
        same_layout(devices, store_all(devices, address, data)),
{
    let after = store_all(devices, address, data);
    assert forall|i: int| 0 <= i < devices.len() implies (#[trigger] devices[i]).same_window(
        after[i],
    ) by {}
}

/// After a store, the bus shows the stored byte at the address if a writable device
/// covers it, and what it showed before everywhere else.
pub proof fn lemma_store_then_read(devices: Seq<DeviceModel>, address: u16, value: u8, probe: u16)
    ensures
        byte_at(store(devices, address, value), probe) == if probe == address && is_mapped(
            devices,
            address,
        ) && devices[device_at(devices, address)].writable {
            value
        } else {
            byte_at(devices, probe)
        },
{
    let after = store(devices, address, value);
    lemma_store_keeps_layout(devices, address, value);
    lemma_same_layout(devices, after);
    if is_mapped(devices, probe) {
        let p = device_at(devices, probe);
        assert(device_at(after, probe) == p);
        assert(is_first_cover(devices, probe, p));
        if is_mapped(devices, address) {
            let i = device_at(devices, address);
            assert(is_first_cover(devices, address, i));
        }
    }
}

/// After a block was stored at `address`, the bus shows byte `i` of the block at
/// `address + i`, provided that the windows are disjoint, that a writable device
/// covers `address` and that its window holds the whole block.
pub proof fn lemma_store_all_then_read(
    devices: Seq<DeviceModel>,
    address: u16,
    data: Seq<u8>,
    i: int,
)
    requires
        windows_disjoint(devices),
        block_fits(devices, address, data.len()),
        0 <= i < data.len(),
    ensures
        byte_at(store_all(devices, address, data), (address + i) as u16) == data[i],
{
    let after = store_all(devices, address, data);
    let k = device_at(devices, address);
    let target = (address + i) as u16;
    assert(is_first_cover(devices, address, k));
    lemma_store_all_keeps_layout(devices, address, data);
    lemma_same_layout(devices, after);
    assert(devices[k].fits());
    assert(devices[k].covers(target));
    lemma_device_at_disjoint(devices, target, k);
    assert(device_at(after, target) == k);
    assert(devices[k].takes(address, data.len(), target));
}

/// Whether a writable device covers `address` and its window holds a block of `len`
/// bytes that starts there.
pub open spec fn block_fits(devices: Seq<DeviceModel>, address: u16, len: nat) -> bool {
    &&& is_mapped(devices, address)
    &&& devices[device_at(devices, address)].writable
    &&& address + len <= devices[device_at(devices, address)].base_address
        + devices[device_at(devices, address)].size
}

} // verus!
