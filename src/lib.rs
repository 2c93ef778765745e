//! Driver for the DAC8564, a quad-channel 16-bit digital-to-analog converter
//! driven over SPI with three control lines.

pub mod channel;
pub mod driver;
pub mod frame;

pub use channel::{Channel, DacError};
pub use driver::{delay, DAC8564};
pub use frame::get_payload;
