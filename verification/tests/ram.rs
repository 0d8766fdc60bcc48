use semr::bus::BusDevice;
use semr::clock::Clock;
use semr::device::ram::Ram;

fn init() -> (Ram, Clock) {
    (Ram::new(0x0000, 0x100), Clock::new())
}

#[test]
fn test_peek_poke() {
    let (mut ram, clock) = init();

    ram.poke(0x0000, 0x11);
    assert_eq!(clock.read(), 0);
    assert_eq!(ram.peek(0x0000), 0x11);
}

#[test]
fn test_read_write() {
    let (mut ram, mut clock) = init();

    ram.write(0x0001, 0xDD, &mut clock); // 3 tics
    assert_eq!(ram.read(0x0000, &mut clock), 0); // 3 + 3 tics
    assert_eq!(ram.read(0x0001, &mut clock), 0xDD); // 3 + 3 + 3 tics
    assert_eq!(clock.read(), 9);
}

#[test]
fn test_write_vec() {
    let (mut ram, clock) = init();

    ram.write_vec(0x0000, vec![0x01, 0x02, 0x03, 0xFF]);
    assert_eq!(clock.read(), 0);
    assert_eq!(ram.peek(0x0000), 0x01);
    assert_eq!(ram.peek(0x0001), 0x02);
    assert_eq!(ram.peek(0x0002), 0x03);
    assert_eq!(ram.peek(0x0003), 0xFF);
    assert_eq!(ram.peek(0x0004), 0);
}

#[test]
fn ram_starts_zeroed_over_its_window() {
    let ram = Ram::new(0x4000, 0x20);
    assert_eq!(ram.get_base_address(), 0x4000);
    assert_eq!(ram.get_size(), 0x20);
    for address in 0x4000u16..0x4020 {
        assert_eq!(ram.peek(address), 0x00);
    }
}

#[test]
fn ram_shows_ff_outside_its_window() {
    let mut ram = Ram::new(0x4000, 0x20);
    assert_eq!(ram.peek(0x3FFF), 0xFF);
    assert_eq!(ram.peek(0x4020), 0xFF);
    ram.poke(0x4020, 0x12);
    ram.poke(0x3FFF, 0x34);
    assert_eq!(ram.peek(0x4020), 0xFF);
    assert_eq!(ram.peek(0x3FFF), 0xFF);
    assert_eq!(ram.peek(0x401F), 0x00);
}

#[test]
fn ram_write_vec_drops_what_falls_outside() {
    let mut ram = Ram::new(0x0010, 0x04);
    ram.write_vec(0x0012, vec![0xA1, 0xA2, 0xA3, 0xA4]);
    assert_eq!(ram.peek(0x0010), 0x00);
    assert_eq!(ram.peek(0x0011), 0x00);
    assert_eq!(ram.peek(0x0012), 0xA1);
    assert_eq!(ram.peek(0x0013), 0xA2);
    assert_eq!(ram.peek(0x0014), 0xFF);
}

#[test]
fn ram_write_vec_stops_at_the_end_of_the_address_space() {
    let mut ram = Ram::new(0xFFF0, 0x10);
    ram.write_vec(0xFFFE, vec![0x01, 0x02, 0x03, 0x04]);
    assert_eq!(ram.peek(0xFFFD), 0x00);
    assert_eq!(ram.peek(0xFFFE), 0x01);
    assert_eq!(ram.peek(0xFFFF), 0x02);
    assert_eq!(ram.peek(0xFFF0), 0x00);
}

#[test]
fn ram_write_vec_before_its_window() {
    let mut ram = Ram::new(0x0010, 0x04);
    ram.write_vec(0x000E, vec![0xB1, 0xB2, 0xB3]);
    assert_eq!(ram.peek(0x0010), 0xB3);
    assert_eq!(ram.peek(0x0011), 0x00);
}

#[test]
fn ram_access_costs_three_tics_each() {
    let mut ram = Ram::new(0x0000, 0x10);
    let mut clock = Clock::new();
    ram.write(0x0002, 0x77, &mut clock);
    assert_eq!(clock.read(), 3);
    assert_eq!(ram.read(0x0002, &mut clock), 0x77);
    assert_eq!(clock.read(), 6);
    ram.poke(0x0003, 0x78);
    assert_eq!(ram.peek(0x0003), 0x78);
    assert_eq!(clock.read(), 6);
}
