//! Verified driver for TLI493D magnetic sensors.
//!
//! The driver keeps a mirror of the sensor's registers and decides what is written, read and
//! accepted. It does no I/O: every operation is a chain of steps that a host performs on its bus
//! (see [`protocol`]), so it can be driven from blocking and from async code.
//!
//! Sensor startup timing is handled externally; no internal startup delay is inserted by the
//! driver.
//!
//! # Variants
//!
//! There are compile-time variant markers and type aliases:
//! - [`Tli493dA2b6`] for TLI493D-A2B6
//! - [`Tli493dW2BW`] for TLI493D-W2BW

use vstd::prelude::*;

pub mod bits;
pub mod codec_laws;
pub mod driver;
pub mod laws;
pub mod protocol;
pub mod register;
pub mod step_laws;
pub mod types;
pub mod variant;

pub use driver::Tli493d;
pub use types::{
    A2B6Sensitivity, AddressSlot, Diagnostics, Error, MeasurementMode, PowerMode, RawReading,
    TriggerMode, UpdateRate, W2BWSensitivity,
};
pub use variant::{A2B6, W2BW};

verus! {

/// Type alias for a TLI493D-A2B6 device.
pub type Tli493dA2b6<I2c> = Tli493d<I2c, A2B6>;

/// Type alias for a TLI493D-W2BW device.
pub type Tli493dW2BW<I2c> = Tli493d<I2c, W2BW>;

} // verus!
