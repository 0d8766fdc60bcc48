use semr::bus::model::DeviceModel;
use semr::bus::{Bus, BusDevice};
use semr::clock::Clock;
use semr::device::ram::Ram;
use semr::error::Error;

/// A device that shows one fixed byte everywhere, ignores what is written to it and
/// costs nothing.
struct TestDevice {
    base_address: u16,
    size: u16,
    shown: u8,
}

impl TestDevice {
    fn new(base_address: u16, size: u16) -> Self {
        Self { base_address, size, shown: 0xFF }
    }

    fn showing(base_address: u16, size: u16, shown: u8) -> Self {
        Self { base_address, size, shown }
    }
}

impl BusDevice for TestDevice {
    fn model(&self) -> DeviceModel {
        unreachable!()
    }

    fn get_base_address(&self) -> u16 {
        self.base_address
    }

    fn get_size(&self) -> u16 {
        self.size
    }

    fn peek(&self, _address: u16) -> u8 {
        self.shown
    }

    fn poke(&mut self, _address: u16, _value: u8) {}

    fn read(&self, address: u16, _clock: &mut Clock) -> u8 {
        self.peek(address)
    }

    fn write(&mut self, _address: u16, _value: u8, _clock: &mut Clock) {}

    fn write_vec(&mut self, _address: u16, _data: Vec<u8>) {}
}

#[test]
fn bus_test_add_device() {
    let mut bus = Bus::new();
    assert!(bus.add_device(TestDevice::new(0x0000, 0x100)).is_ok());
    assert!(bus.add_device(TestDevice::new(0x0000, 0x100)).is_err());
    assert!(bus.add_device(TestDevice::new(0x0100, 0x100)).is_ok());
    assert!(bus.add_device(TestDevice::new(0x0150, 0x100)).is_err());
    assert!(bus.add_device(TestDevice::new(0x01FF, 0x100)).is_err());
    assert!(bus.add_device(TestDevice::new(0x0300, 0x100)).is_ok());
    assert!(bus.add_device(TestDevice::new(0x0200, 0x500)).is_err());
    // The window [0x0200, 0x0300) touches its neighbours on both sides and overlaps
    // neither: it fills the gap.
    assert!(bus.add_device(TestDevice::new(0x0200, 0x100)).is_ok());
    assert!(bus.add_device(TestDevice::new(0x0200, 0x110)).is_err());
}

#[test]
fn mod_test_add_device() {
    let mut bus = Bus::new();
    assert!(bus.add_device(TestDevice::showing(0x0000, 0x100, 0xFF)).is_ok());
    assert!(bus.add_device(TestDevice::showing(0x0000, 0x100, 0xFF)).is_err());
    assert!(bus.add_device(TestDevice::showing(0x0100, 0x100, 0xFF)).is_ok());
    assert!(bus.add_device(TestDevice::showing(0x0150, 0x100, 0xFF)).is_err());
    assert!(bus.add_device(TestDevice::showing(0x01FF, 0x100, 0xFF)).is_err());
    assert!(bus.add_device(TestDevice::showing(0x0300, 0x100, 0xFF)).is_ok());
    assert!(bus.add_device(TestDevice::showing(0x0200, 0x500, 0xFF)).is_err());
    // Adjacent on both sides, overlapping neither.
    assert!(bus.add_device(TestDevice::showing(0x0200, 0x100, 0xFF)).is_ok());
    assert!(bus.add_device(TestDevice::showing(0x0200, 0x110, 0xFF)).is_err());
}

#[test]
fn test_routing() {
    let mut clock = Clock::new();
    let mut bus = Bus::new();
    assert!(bus.add_device(Ram::new(0x0000, 0x100)).is_ok());
    assert!(bus.add_device(Ram::new(0x0100, 0x100)).is_ok());
    bus.write(0x0000, 0x11, &mut clock);
    bus.write(0x0100, 0x22, &mut clock);
    assert_eq!(bus.read(0x0000, &mut clock), 0x11);
    assert_eq!(bus.read(0x00FF, &mut clock), 0x00);
    assert_eq!(bus.read(0x0100, &mut clock), 0x22);
    assert_eq!(bus.read(0x0101, &mut clock), 0x00);
    assert_eq!(bus.read(0x1000, &mut clock), 0xFF);
}

#[test]
fn test_read() {
    let mut clock = Clock::new();
    let mut bus = Bus::new();
    assert!(bus.add_device(TestDevice::showing(0x0000, 0x100, 0x11)).is_ok());
    assert!(bus.add_device(TestDevice::showing(0x0100, 0x100, 0x22)).is_ok());
    assert_eq!(bus.read(0x0000, &mut clock), 0x11);
    assert_eq!(bus.read(0x00FF, &mut clock), 0x11);
    assert_eq!(bus.read(0x0100, &mut clock), 0x22);
    assert_eq!(bus.read(0x01FF, &mut clock), 0x22);
    assert_eq!(bus.read(0x0200, &mut clock), 0xFF);
}

#[test]
fn add_device_reports_address_conflict() {
    let mut bus = Bus::new();
    assert_eq!(bus.add_device(Ram::new(0x1000, 0x1000)), Ok(()));
    assert_eq!(bus.add_device(Ram::new(0x1FFF, 0x0001)), Err(Error::AddressConflict));
    assert_eq!(bus.add_device(Ram::new(0x0FFF, 0x0002)), Err(Error::AddressConflict));
    assert_eq!(bus.add_device(Ram::new(0x0000, 0xFFFF)), Err(Error::AddressConflict));
    assert_eq!(bus.add_device(Ram::new(0x0000, 0x1000)), Ok(()));
    assert_eq!(bus.add_device(Ram::new(0x2000, 0x0001)), Ok(()));
}

#[test]
fn add_device_refuses_a_window_past_the_address_space() {
    let mut bus = Bus::new();
    assert_eq!(bus.add_device(Ram::new(0xFF00, 0x0101)), Err(Error::AddressConflict));
    assert_eq!(bus.add_device(Ram::new(0xFFFF, 0x0002)), Err(Error::AddressConflict));
    assert_eq!(bus.add_device(Ram::new(0x8000, 0x8001)), Err(Error::AddressConflict));
    assert_eq!(bus.add_device(Ram::new(0xFF00, 0x0100)), Ok(()));
    assert!(bus.is_available(0x0000, 0xFF00));
    assert!(!bus.is_available(0x0000, 0xFF01));
    assert!(!bus.is_available(0xFFFF, 0x0002));
}

#[test]
fn a_refused_device_leaves_the_bus_as_it_was() {
    let mut clock = Clock::new();
    let mut bus = Bus::new();
    assert!(bus.add_device(Ram::new(0x0000, 0x100)).is_ok());
    bus.write(0x0010, 0x5A, &mut clock);
    let mut other = Ram::new(0x0080, 0x100);
    other.poke(0x0090, 0x77);
    assert!(bus.add_device(other).is_err());
    assert_eq!(bus.peek(0x0010), 0x5A);
    assert_eq!(bus.peek(0x0090), 0x00);
    assert_eq!(bus.peek(0x0100), 0xFF);
    assert_eq!(bus.find_device(0x0090), Some(0));
    assert_eq!(bus.find_device(0x0100), None);
}

#[test]
fn find_device_tells_the_position() {
    let mut bus = Bus::new();
    assert!(bus.add_device(Ram::new(0x4000, 0x100)).is_ok());
    assert!(bus.add_device(Ram::new(0x0000, 0x100)).is_ok());
    assert!(bus.add_device(Ram::new(0x4100, 0x100)).is_ok());
    assert_eq!(bus.find_device(0x0000), Some(1));
    assert_eq!(bus.find_device(0x00FF), Some(1));
    assert_eq!(bus.find_device(0x0100), None);
    assert_eq!(bus.find_device(0x3FFF), None);
    assert_eq!(bus.find_device(0x4000), Some(0));
    assert_eq!(bus.find_device(0x40FF), Some(0));
    assert_eq!(bus.find_device(0x4100), Some(2));
    assert_eq!(bus.find_device(0x41FF), Some(2));
    assert_eq!(bus.find_device(0x4200), None);
}

#[test]
fn every_address_has_at_most_one_device() {
    let mut bus = Bus::new();
    let windows = [(0x0000u16, 0x0100u16), (0x0100, 0x0100), (0x0300, 0x0080), (0xFF00, 0x0100)];
    for (base, size) in windows {
        assert!(bus.add_device(Ram::new(base, size)).is_ok());
    }
    for address in 0..=0xFFFFu16 {
        let covering: Vec<usize> = windows
            .iter()
            .enumerate()
            .filter(|(_, (base, size))| {
                (*base as u32) <= address as u32 && (address as u32) < *base as u32 + *size as u32
            })
            .map(|(i, _)| i)
            .collect();
        assert!(covering.len() <= 1);
        assert_eq!(bus.find_device(address), covering.first().copied());
    }
}

#[test]
fn unmapped_access_is_absorbed() {
    let mut clock = Clock::new();
    let mut bus: Bus<Ram> = Bus::new();
    assert_eq!(bus.read(0x1234, &mut clock), 0xFF);
    assert_eq!(bus.peek(0x1234), 0xFF);
    assert_eq!(bus.read_word(0x1234, &mut clock), 0xFFFF);
    bus.write(0x1234, 0x01, &mut clock);
    bus.write_vec(0x1234, vec![0x01, 0x02]);
    assert_eq!(bus.peek(0x1234), 0xFF);
    assert_eq!(clock.read(), 0);
}

#[test]
fn read_and_write_cost_what_the_device_costs() {
    let mut clock = Clock::new();
    let mut bus = Bus::new();
    assert!(bus.add_device(Ram::new(0x0000, 0x100)).is_ok());
    bus.write(0x0000, 0x11, &mut clock);
    assert_eq!(clock.read(), 3);
    assert_eq!(bus.read(0x0000, &mut clock), 0x11);
    assert_eq!(clock.read(), 6);
    assert_eq!(bus.peek(0x0000), 0x11);
    assert_eq!(clock.read(), 6);
    bus.write(0x0100, 0x22, &mut clock);
    assert_eq!(bus.read(0x0100, &mut clock), 0xFF);
    assert_eq!(clock.read(), 6);
}

#[test]
fn read_word_is_little_endian() {
    let mut clock = Clock::new();
    let mut bus = Bus::new();
    assert!(bus.add_device(Ram::new(0x0000, 0x100)).is_ok());
    bus.write_vec(0x0010, vec![0x34, 0x12]);
    assert_eq!(bus.read_word(0x0010, &mut clock), 0x1234);
    assert_eq!(clock.read(), 6);
}

#[test]
fn read_word_across_the_end_of_a_device() {
    let mut clock = Clock::new();
    let mut bus = Bus::new();
    assert!(bus.add_device(Ram::new(0x0000, 0x100)).is_ok());
    bus.write_vec(0x00FF, vec![0x34]);
    // The high byte lies at an address that no device covers.
    assert_eq!(bus.read_word(0x00FF, &mut clock), 0xFF34);
    assert_eq!(clock.read(), 3);
    // The low byte lies at an address that no device covers.
    assert_eq!(bus.read_word(0xFFFF, &mut clock), 0xFFFF);
    assert_eq!(clock.read(), 3);
}

#[test]
fn read_word_wraps_at_the_end_of_the_address_space() {
    let mut clock = Clock::new();
    let mut bus = Bus::new();
    assert!(bus.add_device(Ram::new(0x0000, 0x100)).is_ok());
    assert!(bus.add_device(Ram::new(0xFF00, 0x100)).is_ok());
    bus.write_vec(0xFFFF, vec![0xCD]);
    bus.write_vec(0x0000, vec![0xAB]);
    assert_eq!(bus.read_word(0xFFFF, &mut clock), 0xABCD);
    assert_eq!(clock.read(), 6);
}

#[test]
fn write_vec_then_peek_gives_the_block_back() {
    let mut bus = Bus::new();
    assert!(bus.add_device(Ram::new(0x0000, 0x100)).is_ok());
    assert!(bus.add_device(Ram::new(0x8000, 0x100)).is_ok());
    let block: Vec<u8> = (0..0x40u8).map(|i| i.wrapping_mul(7).wrapping_add(1)).collect();
    for address in [0x0000u16, 0x0001, 0x00C0, 0x8000, 0x80C0] {
        bus.write_vec(address, block.clone());
        for (i, byte) in block.iter().enumerate() {
            assert_eq!(bus.peek(address + i as u16), *byte);
        }
    }
}

#[test]
fn write_vec_goes_to_one_device_only() {
    let mut bus = Bus::new();
    assert!(bus.add_device(Ram::new(0x0000, 0x100)).is_ok());
    assert!(bus.add_device(Ram::new(0x0100, 0x100)).is_ok());
    bus.write_vec(0x00FE, vec![0x01, 0x02, 0x03, 0x04]);
    assert_eq!(bus.peek(0x00FE), 0x01);
    assert_eq!(bus.peek(0x00FF), 0x02);
    assert_eq!(bus.peek(0x0100), 0x00);
    assert_eq!(bus.peek(0x0101), 0x00);
}

#[test]
fn write_vec_costs_nothing() {
    let mut clock = Clock::new();
    let mut bus = Bus::new();
    assert!(bus.add_device(Ram::new(0x0000, 0x100)).is_ok());
    bus.write_vec(0x0000, vec![0x01, 0x02, 0x03]);
    assert_eq!(bus.peek(0x0002), 0x03);
    assert_eq!(clock.read(), 0);
    assert_eq!(bus.read(0x0002, &mut clock), 0x03);
    assert_eq!(clock.read(), 3);
}
