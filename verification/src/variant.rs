//! Compile-time descriptions of sensor variants and measurement shapes.

use vstd::prelude::*;

use crate::types::{A2B6Sensitivity, UpdateRate, W2BWSensitivity};

verus! {

/// Measurement shape contract for compile-time configuration of sensor output.
///
/// The shape is a type parameter of the driver: it fixes which samples are measured.
pub trait MeasurementShape: Copy {
    /// The DT bit of CONFIG.
    spec fn dt_bit() -> u8;

    /// The AM bit of CONFIG.
    spec fn am_bit() -> u8;

    /// Value for CONFIG register bit 7 (DT: Disable Temperature).
    /// `0` = temperature measurement enabled, `1` = disabled.
    fn dt() -> (r: u8)
        ensures
            r == Self::dt_bit(),
    ;

    /// Value for CONFIG register bit 6 (AM: X/Y Angular Measurement).
    /// `0` = Z measurement enabled, `1` = Z measurement disabled (with DT=1).
    fn am() -> (r: u8)
        ensures
            r == Self::am_bit(),
    ;
}

/// Measurement shape: X, Y, Z, and temperature (default).
#[derive(Copy, Clone, Debug, PartialEq, Eq, Structural)]
pub struct BxByBzTemp;

impl MeasurementShape for BxByBzTemp {
    open spec fn dt_bit() -> u8 {
        0
    }

    open spec fn am_bit() -> u8 {
        0
    }

    fn dt() -> (r: u8) {
        0
    }

    fn am() -> (r: u8) {
        0
    }
}

/// Measurement shape: X, Y, Z only (temperature disabled).
#[derive(Copy, Clone, Debug, PartialEq, Eq, Structural)]
pub struct BxByBz;

impl MeasurementShape for BxByBz {
    open spec fn dt_bit() -> u8 {
        1
    }

    open spec fn am_bit() -> u8 {
        0
    }

    fn dt() -> (r: u8) {
        1
    }

    fn am() -> (r: u8) {
        0
    }
}

/// Measurement shape: X and Y only (temperature and Z disabled).
#[derive(Copy, Clone, Debug, PartialEq, Eq, Structural)]
pub struct BxBy;

impl MeasurementShape for BxBy {
    open spec fn dt_bit() -> u8 {
        1
    }

    open spec fn am_bit() -> u8 {
        1
    }

    fn dt() -> (r: u8) {
        1
    }

    fn am() -> (r: u8) {
        1
    }
}

/// Variant-specific sensitivity argument contract.
pub trait VariantSensitivity: Copy {
    /// The X2 bit of CONFIG.
    spec fn x2_flag(self) -> bool;

    /// The X4 bit of CONFIG2.
    spec fn x4_flag(self) -> bool;

    /// The scale multiplier.
    spec fn multiplier(self) -> u8;

    /// X2 bit state for CONFIG register.
    fn x2(self) -> (r: bool)
        ensures
            r == self.x2_flag(),
    ;

    /// X4 bit state for CONFIG2 register.
    fn x4(self) -> (r: bool)
        ensures
            r == self.x4_flag(),
    ;

    /// Scale multiplier relative to full-range sensitivity.
    fn scale(self) -> (r: u8)
        ensures
            r == self.multiplier(),
    ;
}

impl VariantSensitivity for A2B6Sensitivity {
    open spec fn x2_flag(self) -> bool {
        self is Short
    }

    open spec fn x4_flag(self) -> bool {
        false
    }

    open spec fn multiplier(self) -> u8 {
        match self {
            A2B6Sensitivity::Full => 1,
            A2B6Sensitivity::Short => 2,
        }
    }

    fn x2(self) -> (r: bool) {
        matches!(self, A2B6Sensitivity::Short)
    }

    fn x4(self) -> (r: bool) {
        false
    }

    fn scale(self) -> (r: u8) {
        match self {
            A2B6Sensitivity::Full => 1,
            A2B6Sensitivity::Short => 2,
        }
    }
}

impl VariantSensitivity for W2BWSensitivity {
    open spec fn x2_flag(self) -> bool {
        !(self is Full)
    }

    open spec fn x4_flag(self) -> bool {
        self is ExtraShort
    }

    open spec fn multiplier(self) -> u8 {
        match self {
            W2BWSensitivity::Full => 1,
            W2BWSensitivity::Short => 2,
            W2BWSensitivity::ExtraShort => 4,
        }
    }

    fn x2(self) -> (r: bool) {
        !matches!(self, W2BWSensitivity::Full)
    }

    fn x4(self) -> (r: bool) {
        matches!(self, W2BWSensitivity::ExtraShort)
    }

    fn scale(self) -> (r: u8) {
        match self {
            W2BWSensitivity::Full => 1,
            W2BWSensitivity::Short => 2,
            W2BWSensitivity::ExtraShort => 4,
        }
    }
}

/// The properties of a sensor variant.
#[derive(Copy, Clone, Debug, PartialEq, Eq, Structural)]
pub struct VariantDescription {
    /// Whether the variant supports the X4 range bit.
    pub has_x4: bool,
    /// Whether the I2C reset sequence (0x7F/0x00 toggling) is left out.
    /// Gen-2 sensors (A2B6) use power-on reset instead.
    pub skip_reset_sequence: bool,
    /// Whether the parity over the CONFIG register is odd instead of even.
    pub wakeup_config_parity: bool,
    /// The bits of MOD2 that hold the update rate.
    pub prd_mask: u8,
    /// The position of the lowest of these bits.
    pub prd_shift: u8,
    /// Default value for CONFIG register (`0x10`).
    pub reset_config: u8,
    /// Default value for MOD1 register (`0x11`).
    pub reset_mod1: u8,
    /// Default value for MOD2 register (`0x13`).
    pub reset_mod2: u8,
    /// Default value for CONFIG2 register (`0x14`).
    pub reset_config2: u8,
}

/// Compile-time description for a concrete sensor variant.
pub trait SensorVariant {
    /// Variant-specific sensitivity argument type used by
    /// [`crate::driver::Tli493d::set_sensitivity`].
    type Sensitivity: VariantSensitivity;

    /// The properties of the variant.
    spec fn description() -> VariantDescription;

    /// The `PRD` field value for an update rate, where the variant has one.
    spec fn rate_field(rate: UpdateRate) -> Option<u8>;

    /// Returns the properties of the variant.
    fn describe() -> (r: VariantDescription)
        ensures
            r == Self::description(),
    ;

    /// Returns the `PRD` field value for an update rate, or `None` where the variant does not
    /// support the rate.
    fn update_rate_bits(rate: UpdateRate) -> (r: Option<u8>)
        ensures
            r == Self::rate_field(rate),
    ;
}

/// Marker type for the TLI493D-A2B6 variant.
pub struct A2B6;

impl SensorVariant for A2B6 {
    type Sensitivity = A2B6Sensitivity;

    open spec fn description() -> VariantDescription {
        VariantDescription {
            has_x4: false,
            skip_reset_sequence: true,
            wakeup_config_parity: false,
            prd_mask: 0x80,
            prd_shift: 7,
            reset_config: 0x00,
            reset_mod1: 0x00,
            reset_mod2: 0x00,
            reset_config2: 0x00,
        }
    }

    open spec fn rate_field(rate: UpdateRate) -> Option<u8> {
        Some(
            if rate is Slow {
                1
            } else {
                0
            },
        )
    }

    fn describe() -> (r: VariantDescription) {
        VariantDescription {
            has_x4: false,
            skip_reset_sequence: true,
            wakeup_config_parity: false,
            prd_mask: 0x80,
            prd_shift: 7,
            reset_config: 0x00,
            reset_mod1: 0x00,
            reset_mod2: 0x00,
            reset_config2: 0x00,
        }
    }

    fn update_rate_bits(rate: UpdateRate) -> (r: Option<u8>) {
        if rate.bit() {
            Some(1)
        } else {
            Some(0)
        }
    }
}

/// Marker type for the TLI493D-W2BW variant.
pub struct W2BW;

impl SensorVariant for W2BW {
    type Sensitivity = W2BWSensitivity;

    open spec fn description() -> VariantDescription {
        VariantDescription {
            has_x4: true,
            skip_reset_sequence: false,
            wakeup_config_parity: true,
            prd_mask: 0x80,
            prd_shift: 7,
            reset_config: 0x01,
            reset_mod1: 0x80,
            reset_mod2: 0x00,
            reset_config2: 0x00,
        }
    }

    open spec fn rate_field(rate: UpdateRate) -> Option<u8> {
        Some(
            if rate is Slow {
                1
            } else {
                0
            },
        )
    }

    fn describe() -> (r: VariantDescription) {
        VariantDescription {
            has_x4: true,
            skip_reset_sequence: false,
            wakeup_config_parity: true,
            prd_mask: 0x80,
            prd_shift: 7,
            reset_config: 0x01,
            reset_mod1: 0x80,
            reset_mod2: 0x00,
            reset_config2: 0x00,
        }
    }

    fn update_rate_bits(rate: UpdateRate) -> (r: Option<u8>) {
        if rate.bit() {
            Some(1)
        } else {
            Some(0)
        }
    }
}

} // verus!
