use semr::clock::Clock;

#[test]
fn add_and_read_tics() {
    let mut clk = Clock::new();
    assert_eq!(clk.read(), 0);
    clk.add(10);
    assert_eq!(clk.read(), 10);
}

#[test]
fn reset() {
    let mut clk = Clock::new();
    clk.add(10);
    assert_eq!(clk.read(), 10);
    clk.reset();
    assert_eq!(clk.read(), 0);
}

#[test]
fn add_accumulates() {
    let mut clk = Clock::new();
    clk.add(3);
    clk.add(4);
    clk.add(0);
    assert_eq!(clk.read(), 7);
}

#[test]
fn add_wraps_at_32_bits() {
    let mut clk = Clock::new();
    clk.add(u32::MAX);
    clk.add(2);
    assert_eq!(clk.read(), 1);
}
