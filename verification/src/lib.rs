//! Driver logic for legacy Arducam SPI cameras (ArduCAM Mini 2MP Plus with an
//! OV2640 sensor, and the 5MP boards with an OV5642 sensor).
//!
//! The library decides which frames go over the I2C and SPI buses, in which
//! order, and what the camera's answers mean. Each camera operation is a
//! [`bus::Procedure`]: a small state machine that hands out one bus action at a
//! time and takes back the bus's reply. Whoever owns the buses performs the
//! actions; the library keeps every decision.

use vstd::prelude::*;

pub mod bus;
pub mod camera;
pub mod ov2640;
pub mod ov5642;
pub mod image_sensor;

pub use ov2640::{Arducam, Ov2640Tables};

verus! {

/// Declares the outside type `embedded_hal::i2c::ErrorKind` so that an error
/// can hold it. Its values are opaque here: the library moves them from a
/// bus reply into an [`ArducamError`] and claims nothing else about them.
#[verifier::external_type_specification]
#[verifier::external_body]
pub struct ExI2cErrorKind(embedded_hal::i2c::ErrorKind);

/// Declares the outside type `embedded_hal::spi::ErrorKind` so that an error
/// can hold it. Its values are opaque here: the library moves them from a
/// bus reply into an [`ArducamError`] and claims nothing else about them.
#[verifier::external_type_specification]
#[verifier::external_body]
pub struct ExSpiErrorKind(embedded_hal::spi::ErrorKind);

/// Arduchip test register.
pub const ARDUCHIP_TEST1: u8 = 0x00;
/// Arduchip FIFO control register.
pub const ARDUCHIP_FIFO: u8 = 0x04;
/// Arduchip trigger/status register.
pub const ARDUCHIP_TRIG: u8 = 0x41;
/// I2C address of the OV2640 sensor.
pub const OV2640_ADDR: u8 = 0x30;
/// OV2640 register holding the high byte of the chip id.
pub const OV2640_CHIPID_HIGH: u8 = 0x0A;
/// OV2640 register holding the low byte of the chip id.
pub const OV2640_CHIPID_LOW: u8 = 0x0B;
/// FIFO control bit that clears the FIFO write-done flag.
pub const FIFO_CLEAR_MASK: u8 = 0x01;
/// FIFO control bit that starts a capture.
pub const FIFO_START_MASK: u8 = 0x02;
/// Arduchip burst-read command of the FIFO.
pub const FIFO_BURST: u8 = 0x3C;
/// Arduchip register with bits 0..8 of the FIFO length.
pub const FIFO_SIZE1: u8 = 0x42;
/// Arduchip register with bits 8..16 of the FIFO length.
pub const FIFO_SIZE2: u8 = 0x43;
/// Arduchip register with bits 16..23 of the FIFO length.
pub const FIFO_SIZE3: u8 = 0x44;
/// Trigger-register bit set when a capture is complete.
pub const CAP_DONE_MASK: u8 = 0x08;

/// Image resolutions.
#[derive(Clone, Copy, Debug, PartialEq, Eq, Structural)]
pub enum Resolution {
    Res160x120,
    Res176x144,
    Res320x240,
    Res352x288,
    Res640x480,
    Res800x600,
    Res1024x768,
    Res1280x1024,
    Res1600x1200,
}

/// Image formats which Arducam can handle.
#[derive(Clone, Copy, Debug, PartialEq, Eq, Structural)]
pub enum ImageFormat {
    JPEG,
}

/// Marks a camera driven through blocking buses.
pub struct Blocking;

/// Marks a camera driven through asynchronous buses.
pub struct Async;

/// Why a camera operation failed: the bus that failed and the kind of failure
/// it reported.
#[derive(Clone, Copy, Debug)]
pub enum ArducamError {
    I2cError(embedded_hal::i2c::ErrorKind),
    SpiError(embedded_hal::spi::ErrorKind),
}

} // verus!
