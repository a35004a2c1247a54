//! Settings, readings, flags and errors of the sensor.

use vstd::prelude::*;

use crate::bits::bit;

verus! {

/// Sensor address slot (7-bit I2C address).
#[derive(Copy, Clone, Debug, PartialEq, Eq, Structural)]
pub enum AddressSlot {
    /// Address slot A0 (`0x35` in 7-bit form).
    A0,
    /// Address slot A1 (`0x22` in 7-bit form).
    A1,
    /// Address slot A2 (`0x78` in 7-bit form).
    A2,
    /// Address slot A3 (`0x44` in 7-bit form).
    A3,
}

impl AddressSlot {
    /// The 7-bit I2C address of the slot.
    pub open spec fn address(self) -> u8 {
        match self {
            AddressSlot::A0 => 0x35,
            AddressSlot::A1 => 0x22,
            AddressSlot::A2 => 0x78,
            AddressSlot::A3 => 0x44,
        }
    }

    /// The number of the slot, as the `IICADR` field in register `0x11` holds it.
    pub open spec fn number(self) -> u8 {
        match self {
            AddressSlot::A0 => 0,
            AddressSlot::A1 => 1,
            AddressSlot::A2 => 2,
            AddressSlot::A3 => 3,
        }
    }

    /// Returns this slot as a 7-bit I2C address.
    pub fn as_7bit(self) -> (r: u8)
        ensures
            r == self.address(),
    {
        match self {
            AddressSlot::A0 => 0x35,
            AddressSlot::A1 => 0x22,
            AddressSlot::A2 => 0x78,
            AddressSlot::A3 => 0x44,
        }
    }

    /// Returns the `IICADR` field value of this slot.
    pub fn bits(self) -> (r: u8)
        ensures
            r == self.number(),
    {
        match self {
            AddressSlot::A0 => 0,
            AddressSlot::A1 => 1,
            AddressSlot::A2 => 2,
            AddressSlot::A3 => 3,
        }
    }
}

/// Power mode selection for the `MODE` field in register `0x11`.
#[derive(Copy, Clone, Debug, PartialEq, Eq, Structural)]
pub enum PowerMode {
    /// Low power mode.
    LowPower,
    /// Master controlled mode.
    MasterControlled,
    /// Fast conversion mode.
    Fast,
}

impl PowerMode {
    /// The `MODE` field value of the power mode.
    pub open spec fn field(self) -> u8 {
        match self {
            PowerMode::LowPower => 0,
            PowerMode::MasterControlled => 1,
            PowerMode::Fast => 3,
        }
    }

    /// Returns the `MODE` field value.
    pub fn bits(self) -> (r: u8)
        ensures
            r == self.field(),
    {
        match self {
            PowerMode::LowPower => 0b00,
            PowerMode::MasterControlled => 0b01,
            PowerMode::Fast => 0b11,
        }
    }
}

/// Measurement mode selection for `DT`/`AM` in register `0x10`.
#[derive(Copy, Clone, Debug, PartialEq, Eq, Structural)]
pub enum MeasurementMode {
    /// Magnetic field X/Y/Z and temperature.
    BxByBzTemp,
    /// Magnetic field X/Y/Z only.
    BxByBz,
    /// Magnetic field X/Y only.
    BxBy,
}

impl MeasurementMode {
    /// The `DT` bit: 1 where temperature is not measured.
    pub open spec fn dt(self) -> u8 {
        if self is BxByBzTemp {
            0
        } else {
            1
        }
    }

    /// The `AM` bit: 1 where the Z axis is not measured.
    pub open spec fn am(self) -> u8 {
        if self is BxBy {
            1
        } else {
            0
        }
    }

    /// Returns the `DT` and `AM` bits.
    pub fn dt_am_bits(self) -> (r: (u8, u8))
        ensures
            r == (self.dt(), self.am()),
    {
        match self {
            MeasurementMode::BxByBzTemp => (0, 0),
            MeasurementMode::BxByBz => (1, 0),
            MeasurementMode::BxBy => (1, 1),
        }
    }
}

/// Trigger mode selection for `TRIG` in register `0x10`.
#[derive(Copy, Clone, Debug, PartialEq, Eq, Structural)]
pub enum TriggerMode {
    /// No ADC trigger on read.
    NoTrigger,
    /// ADC trigger before the first MSB read.
    BeforeFirstMsb,
    /// ADC trigger after register `0x05`.
    AfterReg05,
}

impl TriggerMode {
    /// The `TRIG` field value of the trigger mode.
    pub open spec fn field(self) -> u8 {
        match self {
            TriggerMode::NoTrigger => 0,
            TriggerMode::BeforeFirstMsb => 1,
            TriggerMode::AfterReg05 => 2,
        }
    }

    /// Returns the `TRIG` field value.
    pub fn bits(self) -> (r: u8)
        ensures
            r == self.field(),
    {
        match self {
            TriggerMode::NoTrigger => 0,
            TriggerMode::BeforeFirstMsb => 1,
            TriggerMode::AfterReg05 => 2,
        }
    }
}

/// Fast/slow update rate setting (`PRD`, register `0x13`, bit 7).
#[derive(Copy, Clone, Debug, PartialEq, Eq, Structural)]
pub enum UpdateRate {
    /// Fast update rate.
    Fast,
    /// Slow update rate.
    Slow,
}

impl UpdateRate {
    /// Returns the state of the `PRD` bit: set for the slow rate.
    pub fn bit(self) -> (r: bool)
        ensures
            r == (self is Slow),
    {
        matches!(self, UpdateRate::Slow)
    }
}

/// Sensitivity options for TLI493D-A2B6.
#[derive(Copy, Clone, Debug, PartialEq, Eq, Structural)]
pub enum A2B6Sensitivity {
    /// Full magnetic range (base sensitivity).
    Full,
    /// Short range (2x sensitivity scale factor).
    Short,
}

/// Sensitivity options for TLI493D-W2BW.
#[derive(Copy, Clone, Debug, PartialEq, Eq, Structural)]
pub enum W2BWSensitivity {
    /// Full magnetic range (base sensitivity).
    Full,
    /// Short range (2x sensitivity scale factor).
    Short,
    /// Extra short range (4x sensitivity scale factor).
    ExtraShort,
}

/// Raw values read from one data frame.
#[derive(Copy, Clone, Debug, PartialEq, Eq, Structural)]
pub struct RawReading {
    /// Raw magnetic field sample for X axis.
    pub x: i16,
    /// Raw magnetic field sample for Y axis.
    pub y: i16,
    /// Raw magnetic field sample for Z axis.
    pub z: i16,
    /// Raw temperature sample.
    pub temp: i16,
}

/// Diagnostic flags parsed from the `DIAG` register (`0x06`).
///
/// The values reflect the most recent successful read operation.
#[derive(Copy, Clone, Debug, PartialEq, Eq, Structural)]
pub struct Diagnostics {
    /// Bus/data parity bit from DIAG register.
    pub p: bool,
    /// Fuse parity validity indicator.
    pub ff: bool,
    /// Configuration parity validity indicator.
    pub cf: bool,
    /// Temperature status bit.
    pub t: bool,
    /// Power-down status bit 3.
    pub pd3: bool,
    /// Power-down status bit 0.
    pub pd0: bool,
    /// Frame counter (`FRM`) value (`0..=3`).
    pub frame: u8,
}

impl Diagnostics {
    /// The flags that the byte `diag` of register `0x06` holds: bits 7 to 2 one flag each, in
    /// the order of the fields, and the frame counter in the two lowest bits.
    pub open spec fn of_byte(diag: u8) -> Diagnostics {
        Diagnostics {
            p: bit(diag, 7),
            ff: bit(diag, 6),
            cf: bit(diag, 5),
            t: bit(diag, 4),
            pd3: bit(diag, 3),
            pd0: bit(diag, 2),
            frame: (diag % 4) as u8,
        }
    }

    /// Parses the `DIAG` register.
    pub fn from_diag_byte(diag: u8) -> (r: Self)
        ensures
            r == Diagnostics::of_byte(diag),
            r.frame <= 3,
    {
        assert((diag & 0x80 != 0) == ((diag >> 7) & 1 == 1) && (diag & 0x40 != 0) == ((diag >> 6)
            & 1 == 1) && (diag & 0x20 != 0) == ((diag >> 5) & 1 == 1) && (diag & 0x10 != 0) == ((
        diag >> 4) & 1 == 1) && (diag & 0x08 != 0) == ((diag >> 3) & 1 == 1) && (diag & 0x04 != 0)
            == ((diag >> 2) & 1 == 1) && diag & 0x03 == diag % 4) by (bit_vector);
        Diagnostics {
            p: (diag & 0x80) != 0,
            ff: (diag & 0x40) != 0,
            cf: (diag & 0x20) != 0,
            t: (diag & 0x10) != 0,
            pd3: (diag & 0x08) != 0,
            pd0: (diag & 0x04) != 0,
            frame: diag & 0x03,
        }
    }
}

/// Driver error. `E` is the error type of the bus.
#[derive(Debug, PartialEq, Eq)]
pub enum Error<E> {
    /// I2C transaction error from the underlying bus implementation.
    I2c(E),
    /// Frame counter did not advance between consecutive samples.
    ///
    /// This indicates stalled conversion output.
    AdcLockup,
    /// Bus parity bit did not match the received frame payload.
    InvalidBusParity,
    /// Fuse parity status bit indicates an invalid configuration state.
    InvalidFuseParity,
    /// Configuration parity status bit indicates invalid configuration.
    InvalidConfigurationParity,
    /// Temperature validity bit indicates invalid temperature data.
    InvalidTemperature,
    /// Data-ready indicator bits show no fresh sample.
    DataNotReady,
    /// The sensor variant has no setting for the requested update rate.
    UnsupportedUpdateRate,
}

} // verus!
