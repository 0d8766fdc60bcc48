pub mod bus;
pub mod clock;
pub mod cpu;
pub mod device;
pub mod error;
pub mod screen;

pub use crate::clock::Clock;
pub use crate::device::ram::Ram;
