//! The driver: a mirror of the sensor's configuration and the rules by which it changes.

use core::marker::PhantomData;

use vstd::prelude::*;

use crate::bits::{with_field, with_flag};
use crate::protocol::{Action, Event, FaultKind, Outcome, Pending, Step, TRANSFER_LEN};
use crate::register::{
    bus_parity_holds, decode_data_frame, frame_reading, has_valid_bus_parity, set_bit, set_bits,
    set_config_parity, set_fuse_parity, with_config_parity, with_fuse_parity, FRAME_LEN,
    REG_CACHE_LEN, REG_CONFIG, REG_CONFIG2, REG_MOD1, REG_MOD2,
};
use crate::types::{
    AddressSlot, Diagnostics, Error, PowerMode, RawReading, TriggerMode, UpdateRate,
};
use crate::variant::{BxByBzTemp, MeasurementShape, SensorVariant, VariantSensitivity};

verus! {

/// `CONFIG`: disable temperature measurement.
pub const DT_MASK: u8 = 0x80;

/// `CONFIG`: X/Y angular measurement.
pub const AM_MASK: u8 = 0x40;

/// `CONFIG`: ADC trigger option.
pub const TRIG_MASK: u8 = 0x30;

/// `CONFIG`: short range sensitivity.
pub const X2_MASK: u8 = 0x08;

/// `MOD1`: number of the address slot.
pub const IICADR_MASK: u8 = 0x60;

/// `MOD1`: 1-byte read protocol.
pub const PR_MASK: u8 = 0x10;

/// `MOD1`: the `CA` bit, for collision avoidance.
pub const CA_MASK: u8 = 0x08;

/// `MOD1`: the `INT` bit, for the interrupt.
pub const INT_MASK: u8 = 0x04;

/// `MOD1`: power mode.
pub const MODE_MASK: u8 = 0x03;

/// `CONFIG2`: extra short range sensitivity.
pub const X4_MASK: u8 = 0x01;

/// Address that the first half of the bus reset sequence is sent to.
pub const RECOVERY_ADDRESS: u8 = 0x7f;

/// Address that the second half of the bus reset sequence is sent to.
pub const GENERAL_CALL_ADDRESS: u8 = 0x00;

/// Time that the sensor needs after the bus reset sequence.
pub const RESET_DELAY_US: u32 = 30;

/// Trigger bits `001` above register address `0`: start a conversion after this write.
pub const TRIGGER_BYTE: u8 = 0x20;

/// What the driver knows of the sensor.
#[verifier::ext_equal]
pub struct State {
    /// 7-bit address that the sensor answers at.
    pub address: u8,
    /// Power mode last written with success; at first, the one that was asked for.
    pub power_mode: PowerMode,
    /// Sensitivity scale last written with success; at first, that of the full range.
    pub sensitivity_scale: u8,
    /// The mirrored registers.
    pub reg_cache: Seq<u8>,
    /// Frame counter of the last accepted frame.
    pub last_frame: Option<u8>,
    /// Flags of the last accepted frame.
    pub last_diag: Diagnostics,
}

impl State {
    /// A state mirrors all registers.
    pub open spec fn wf(self) -> bool {
        self.reg_cache.len() == REG_CACHE_LEN
    }

    /// A mirrored register.
    pub open spec fn reg(self, register: usize) -> u8 {
        self.reg_cache[register as int]
    }

    /// The state with one mirrored register replaced.
    pub open spec fn with_reg(self, register: usize, value: u8) -> State {
        State { reg_cache: self.reg_cache.update(register as int, value), ..self }
    }

    /// The state with the mirrored registers from `0x00` on replaced by `data`.
    pub open spec fn loaded(self, data: Seq<u8>) -> State {
        State { reg_cache: data + self.reg_cache.skip(data.len() as int), ..self }
    }

    /// The state with `MOD1` replaced by `value` under the right fuse parity.
    pub open spec fn with_mod1<V: SensorVariant>(self, value: u8) -> State {
        let prd_mask = V::description().prd_mask;
        self.with_reg(REG_MOD1, with_fuse_parity(value, self.reg(REG_MOD2), prd_mask))
    }

    /// The state with `CONFIG` replaced by `value` under the right configuration parity.
    pub open spec fn with_config<V: SensorVariant>(self, value: u8) -> State {
        self.with_reg(REG_CONFIG, with_config_parity(value, V::description().wakeup_config_parity))
    }

    /// The state that a new driver starts with.
    pub open spec fn initial(slot: AddressSlot, power_mode: PowerMode) -> State {
        State {
            address: slot.address(),
            power_mode,
            sensitivity_scale: 1,
            reg_cache: Seq::new(REG_CACHE_LEN as nat, |i: int| 0u8),
            last_frame: None,
            last_diag: Diagnostics::of_byte(0),
        }
    }

    /// The state with `MOD1` and `MOD2` made ready for the first write to a sensor that is not
    /// reset over the bus: the number of the slot, `PR` set, `CA` clear and `INT` set.
    pub open spec fn read_protocol_set<V: SensorVariant>(self, slot: AddressSlot) -> State {
        let own_slot = with_field(V::description().reset_mod1, IICADR_MASK, 5, slot.number());
        let pr = with_flag(own_slot, PR_MASK, true);
        let pr_ca = with_flag(pr, CA_MASK, false);
        self.with_reg(REG_MOD2, V::description().reset_mod2).with_mod1::<V>(
            with_flag(pr_ca, INT_MASK, true),
        )
    }

    /// The state with the reset values of the variant, but for 1-byte reads.
    pub open spec fn reset_defaults<V: SensorVariant>(self) -> State {
        let modes = self.with_reg(REG_CONFIG, V::description().reset_config).with_reg(
            REG_MOD2,
            V::description().reset_mod2,
        ).with_mod1::<V>(with_flag(V::description().reset_mod1, PR_MASK, true));
        if V::description().has_x4 {
            modes.with_reg(REG_CONFIG2, V::description().reset_config2)
        } else {
            modes
        }
    }

    /// The state with `mode` in the `MODE` field of `MOD1`.
    pub open spec fn power_mode_set<V: SensorVariant>(self, mode: PowerMode) -> State {
        self.with_mod1::<V>(with_field(self.reg(REG_MOD1), MODE_MASK, 0, mode.field()))
    }

    /// The state with `slot` in the `IICADR` field of `MOD1`.
    pub open spec fn slot_set<V: SensorVariant>(self, slot: AddressSlot) -> State {
        self.with_mod1::<V>(with_field(self.reg(REG_MOD1), IICADR_MASK, 5, slot.number()))
    }

    /// The state with `field` in the `PRD` field of `MOD2`.
    pub open spec fn rate_set<V: SensorVariant>(self, field: u8) -> State {
        let description = V::description();
        self.with_reg(
            REG_MOD2,
            with_field(
                self.reg(REG_MOD2),
                description.prd_mask,
                description.prd_shift,
                field,
            ),
        ).with_mod1::<V>(self.reg(REG_MOD1))
    }

    /// The state with `mode` in the `TRIG` field of `CONFIG`.
    pub open spec fn trigger_mode_set<V: SensorVariant>(self, mode: TriggerMode) -> State {
        self.with_config::<V>(with_field(self.reg(REG_CONFIG), TRIG_MASK, 4, mode.field()))
    }

    /// The state with the shape `M` in the `DT` and `AM` bits of `CONFIG`.
    pub open spec fn shape_set<V: SensorVariant, M: MeasurementShape>(self) -> State {
        let dt = with_field(self.reg(REG_CONFIG), DT_MASK, 7, M::dt_bit());
        self.with_config::<V>(with_field(dt, AM_MASK, 6, M::am_bit()))
    }

    /// The state with `sensitivity` in the `X2` bit of `CONFIG` and, where the variant has it,
    /// the `X4` bit of `CONFIG2`.
    pub open spec fn sensitivity_set<V: SensorVariant>(self, sensitivity: V::Sensitivity) -> State {
        let short = self.with_config::<V>(
            with_flag(self.reg(REG_CONFIG), X2_MASK, sensitivity.x2_flag()),
        );
        if V::description().has_x4 {
            short.with_reg(
                REG_CONFIG2,
                with_flag(self.reg(REG_CONFIG2), X4_MASK, sensitivity.x4_flag()),
            )
        } else {
            short
        }
    }

    /// The request to write a mirrored register to the sensor.
    pub open spec fn write_request<E>(self, register: usize, pending: Pending) -> Step<E> {
        Step::Perform(
            Action::WriteRegister {
                address: self.address,
                register: register as u8,
                value: self.reg(register),
            },
            pending,
        )
    }

    /// The request to read `len` bytes from the sensor.
    pub open spec fn read_request<E>(self, len: usize, pending: Pending) -> Step<E> {
        Step::Perform(Action::Read { address: self.address, len }, pending)
    }

    /// What becomes of a data frame. It is mirrored in any case. Where nothing is wrong with it
    /// and its counter differs from that of the last accepted frame, it is accepted: its counter
    /// and flags are recorded and its samples are the result.
    pub open spec fn frame_received<M: MeasurementShape, E>(self, frame: Seq<u8>) -> (
        State,
        Result<RawReading, Error<E>>,
    ) {
        let mirrored = self.loaded(frame);
        let diag = Diagnostics::of_byte(frame[6]);
        match frame_fault::<E>(self.power_mode, M::dt_bit() == 0, frame, diag) {
            Some(fault) => (mirrored, Err(fault)),
            None => if self.last_frame == Some(diag.frame) {
                (mirrored, Err(Error::AdcLockup))
            } else {
                (
                    State { last_frame: Some(diag.frame), last_diag: diag, ..mirrored },
                    Ok(frame_reading(frame)),
                )
            },
        }
    }

    /// The state after `pending` was answered by success, and the next step.
    pub open spec fn advanced<V: SensorVariant, M: MeasurementShape, E>(
        self,
        pending: Pending,
        data: Seq<u8>,
    ) -> (State, Step<E>) {
        match pending {
            Pending::BusReset { sent, power_mode } => (
                self,
                Step::Perform(
                    if sent < 4 {
                        reset_action(sent)
                    } else {
                        Action::DelayUs { us: RESET_DELAY_US }
                    },
                    if sent < 4 {
                        Pending::BusReset { sent: (sent + 1) as u8, power_mode }
                    } else {
                        Pending::Settling { power_mode }
                    },
                ),
            ),
            Pending::Settling { power_mode } => {
                let next = self.reset_defaults::<V>().power_mode_set::<V>(power_mode);
                (next, next.write_request(REG_MOD1, Pending::Mod1 { target: Some(power_mode) }))
            },
            Pending::ReadProtocol { power_mode } => (
                self,
                self.read_request(TRANSFER_LEN, Pending::ReadBack { power_mode }),
            ),
            Pending::ReadBack { power_mode } => {
                let next = self.loaded(data).with_config::<V>(V::description().reset_config);
                (next, next.write_request(REG_CONFIG, Pending::DefaultConfig { power_mode }))
            },
            Pending::DefaultConfig { power_mode } => {
                let next = self.power_mode_set::<V>(power_mode);
                (next, next.write_request(REG_MOD1, Pending::Mod1 { target: Some(power_mode) }))
            },
            Pending::Mod1 { target } => (
                self,
                self.write_request(REG_MOD2, Pending::Mod2 { target }),
            ),
            Pending::Mod2 { target } => (
                match target {
                    Some(mode) => State { power_mode: mode, ..self },
                    None => self,
                },
                Step::Finished(Ok(Outcome::Done)),
            ),
            Pending::Config { scale } => if V::description().has_x4 {
                (self, self.write_request(REG_CONFIG2, Pending::Config2 { scale }))
            } else {
                (self.scale_recorded(scale), Step::Finished(Ok(Outcome::Done)))
            },
            Pending::Config2 { scale } => (
                self.scale_recorded(scale),
                Step::Finished(Ok(Outcome::Done)),
            ),
            Pending::AddressChange { slot } => {
                let next = State { address: slot.address(), ..self };
                (next, next.read_request(1, Pending::AddressProbe))
            },
            Pending::AddressProbe => (self, Step::Finished(Ok(Outcome::Done))),
            Pending::Trigger => (self, Step::Finished(Ok(Outcome::Done))),
            Pending::Frame => {
                let (next, result) = self.frame_received::<M, E>(data.take(FRAME_LEN as int));
                (
                    next,
                    Step::Finished(
                        match result {
                            Ok(raw) => Ok(Outcome::Measured(raw)),
                            Err(error) => Err(error),
                        },
                    ),
                )
            },
        }
    }

    /// The state with a written sensitivity scale recorded.
    pub open spec fn scale_recorded(self, scale: Option<u8>) -> State {
        match scale {
            Some(scale) => State { sensitivity_scale: scale, ..self },
            None => self,
        }
    }

    /// The state after `pending` was answered by `event`, and the next step. An error of the bus
    /// ends the operation, unless it is tolerated: then it goes on as after success.
    pub open spec fn resumed<V: SensorVariant, M: MeasurementShape, E>(
        self,
        pending: Pending,
        event: Event<E>,
    ) -> (State, Step<E>) {
        match event {
            Event::Completed(data) => self.advanced::<V, M, E>(pending, data@),
            Event::Failed(error, kind) => if tolerates(pending, kind) {
                self.advanced::<V, M, E>(pending, Seq::empty())
            } else {
                (self, Step::Finished(Err(Error::I2c(error))))
            },
        }
    }
}

/// Whether an operation goes on after a fault. Nobody need acknowledge the bus reset sequence,
/// and a sensor that moves to another address stops acknowledging at the old one.
pub open spec fn tolerates(pending: Pending, kind: FaultKind) -> bool {
    match pending {
        Pending::BusReset { .. } => true,
        Pending::Settling { .. } => true,
        Pending::AddressChange { .. } => kind is NoAcknowledge,
        _ => false,
    }
}

/// The write number `sent` of the bus reset sequence, counted from 0: two to the recovery
/// address, then two to the general call address.
pub open spec fn reset_action(sent: u8) -> Action {
    Action::WriteByte {
        address: if sent < 2 {
            RECOVERY_ADDRESS
        } else {
            GENERAL_CALL_ADDRESS
        },
        byte: 0x00,
    }
}

/// What is wrong with a frame, the first in this order: a parity status flag is down, the
/// temperature status bit marks invalid data, the bus parity is wrong, or the data is not fresh.
/// The last is not asked in fast mode, and of temperature only where that is measured.
pub open spec fn frame_fault<E>(
    power_mode: PowerMode,
    temperature_enabled: bool,
    frame: Seq<u8>,
    diag: Diagnostics,
) -> Option<Error<E>> {
    if !diag.ff {
        Some(Error::InvalidFuseParity)
    } else if !diag.cf {
        Some(Error::InvalidConfigurationParity)
    } else if diag.t {
        Some(Error::InvalidTemperature)
    } else if !bus_parity_holds(frame, diag.p) {
        Some(Error::InvalidBusParity)
    } else if !(power_mode is Fast) && !(diag.pd0 && (temperature_enabled ==> diag.pd3)) {
        Some(Error::DataNotReady)
    } else {
        None
    }
}

/// TLI493D driver.
///
/// `I2c` is the bus that the driver carries for its host. `V` is the compile-time sensor variant
/// marker. `M` is the compile-time measurement shape.
pub struct Tli493d<I2c, V, M = BxByBzTemp> {
    i2c: I2c,
    address: u8,
    power_mode: PowerMode,
    sensitivity_scale: u8,
    reg_cache: [u8; REG_CACHE_LEN],
    last_frame: Option<u8>,
    last_diag: Diagnostics,
    _variant: PhantomData<V>,
    _mode: PhantomData<M>,
}

impl<I2c, V, M> View for Tli493d<I2c, V, M> {
    type V = State;

    closed spec fn view(&self) -> State {
        State {
            address: self.address,
            power_mode: self.power_mode,
            sensitivity_scale: self.sensitivity_scale,
            reg_cache: self.reg_cache@,
            last_frame: self.last_frame,
            last_diag: self.last_diag,
        }
    }
}

impl<I2c, V: SensorVariant> Tli493d<I2c, V, BxByBzTemp> {
    /// Creates a driver and starts the initialization of the sensor.
    ///
    /// The caller provides a valid sensor address slot and desired initial power mode. The
    /// operation performs a reset sequence where the variant has one, applies variant defaults,
    /// then writes initial mode settings. The driver is ready once the operation has succeeded.
    ///
    /// A variant that is not reset over the bus has reserved register bits that must keep their
    /// values. Register reads only return real data under the 1-byte read protocol, so that is
    /// selected first; then the registers are read back, and only then the configuration is
    /// written on top of what was read.
    pub fn new<E>(i2c: I2c, slot: AddressSlot, power_mode: PowerMode) -> (r: (Self, Step<E>))
        ensures
            r.0.bus() == i2c,
            r.0@.wf(),
            V::description().skip_reset_sequence ==> {
                &&& r.0@ == State::initial(slot, power_mode).read_protocol_set::<V>(slot)
                &&& r.1 == r.0@.write_request::<E>(
                    REG_MOD1,
                    Pending::ReadProtocol { power_mode },
                )
            },
            !V::description().skip_reset_sequence ==> {
                &&& r.0@ == State::initial(slot, power_mode)
                &&& r.1 == Step::<E>::Perform(
                    reset_action(0),
                    Pending::BusReset { sent: 1, power_mode },
                )
            },
    {
        let mut this = Tli493d {
            i2c,
            address: slot.as_7bit(),
            power_mode,
            sensitivity_scale: 1,
            reg_cache: [0u8; REG_CACHE_LEN],
            last_frame: None,
            last_diag: Diagnostics::from_diag_byte(0),
            _variant: PhantomData,
            _mode: PhantomData,
        };
        assert(this@ == State::initial(slot, power_mode));
        if V::describe().skip_reset_sequence {
            this.reg_cache[REG_MOD2] = V::describe().reset_mod2;
            let own_slot: u8 = set_bits(V::describe().reset_mod1, IICADR_MASK, 5, slot.bits());
            let pr: u8 = set_bit(own_slot, PR_MASK, true);
            let pr_ca: u8 = set_bit(pr, CA_MASK, false);
            this.store_mod1(set_bit(pr_ca, INT_MASK, true));
            let step = this.write_register(REG_MOD1, Pending::ReadProtocol { power_mode });
            (this, step)
        } else {
            let step = Step::Perform(
                Action::WriteByte { address: RECOVERY_ADDRESS, byte: 0x00 },
                Pending::BusReset { sent: 1, power_mode },
            );
            (this, step)
        }
    }
}

impl<I2c, V, M> Tli493d<I2c, V, M> {
    /// The bus that the driver carries.
    pub closed spec fn bus(self) -> I2c {
        self.i2c
    }

    /// Every driver mirrors all registers.
    pub proof fn lemma_view_wf(&self)
        ensures
            self@.wf(),
    {
    }

    /// Returns the underlying I2C object.
    ///
    /// The driver is consumed and the stored I2C object is returned.
    pub fn into_i2c(self) -> (r: I2c)
        ensures
            r == self.bus(),
    {
        self.i2c
    }

    /// Lends the I2C object, for the host to perform an action with.
    pub fn i2c_mut(&mut self) -> (r: &mut I2c)
        ensures
            *r == old(self).bus(),
            final(self).bus() == *final(r),
            final(self)@ == old(self)@,
    {
        &mut self.i2c
    }

    /// Most recently decoded diagnostic flags.
    ///
    /// They are those of the last frame that was accepted.
    pub fn diagnostics(&self) -> (r: Diagnostics)
        ensures
            r == self@.last_diag,
    {
        self.last_diag
    }

    /// The scale of the field samples relative to full-range sensitivity.
    pub fn sensitivity_scale(&self) -> (r: u8)
        ensures
            r == self@.sensitivity_scale,
    {
        self.sensitivity_scale
    }

    /// Asks for a mirrored register to be written to the sensor.
    fn write_register<E>(&self, register: usize, pending: Pending) -> (r: Step<E>)
        requires
            register < REG_CACHE_LEN,
        ensures
            r == self@.write_request::<E>(register, pending),
    {
        Step::Perform(
            Action::WriteRegister {
                address: self.address,
                register: register as u8,
                value: self.reg_cache[register],
            },
            pending,
        )
    }

    /// Starts to write `MOD1` and `MOD2`.
    ///
    /// They are written as separate single-register transactions: the sensor does not support
    /// repeated starts, and `MOD2` carries reserved factory bits that must be preserved.
    fn write_mode_registers<E>(&self, target: Option<PowerMode>) -> (r: Step<E>)
        ensures
            r == self@.write_request::<E>(REG_MOD1, Pending::Mod1 { target }),
    {
        self.write_register(REG_MOD1, Pending::Mod1 { target })
    }

    /// Starts to write `CONFIG` and, where the variant has it, `CONFIG2`.
    ///
    /// Registers are written one at a time: a multi-byte write would also touch `MOD1` and
    /// `MOD2`.
    fn write_config_registers<E>(&self, scale: Option<u8>) -> (r: Step<E>)
        ensures
            r == self@.write_request::<E>(REG_CONFIG, Pending::Config { scale }),
    {
        self.write_register(REG_CONFIG, Pending::Config { scale })
    }

    /// Mirrors received registers, from `0x00` on.
    fn load_registers(&mut self, data: &[u8])
        requires
            data@.len() <= REG_CACHE_LEN,
        ensures
            final(self)@ == old(self)@.loaded(data@),
            final(self).bus() == old(self).bus(),
    {
        let ghost before = self.reg_cache@;
        for i in 0..data.len()
            invariant
                data@.len() <= REG_CACHE_LEN,
                before == old(self).reg_cache@,
                self.reg_cache@ =~= data@.take(i as int) + before.skip(i as int),
                self@ == (State { reg_cache: self.reg_cache@, ..old(self)@ }),
                self.bus() == old(self).bus(),
        {
            self.reg_cache[i] = data[i];
        }
        assert(data@.take(data@.len() as int) =~= data@);
    }
}

impl<I2c, V: SensorVariant, M: MeasurementShape> Tli493d<I2c, V, M> {
    /// Mirrors a new value of `MOD1`, under the right fuse parity.
    fn store_mod1(&mut self, value: u8)
        ensures
            final(self)@ == old(self)@.with_mod1::<V>(value),
            final(self).bus() == old(self).bus(),
    {
        let prd_mask: u8 = V::describe().prd_mask;
        self.reg_cache[REG_MOD1] = set_fuse_parity(value, self.reg_cache[REG_MOD2], prd_mask);
    }

    /// Mirrors a new value of `CONFIG`, under the right configuration parity.
    fn store_config(&mut self, value: u8)
        ensures
            final(self)@ == old(self)@.with_config::<V>(value),
            final(self).bus() == old(self).bus(),
    {
        self.reg_cache[REG_CONFIG] = set_config_parity(value, V::describe().wakeup_config_parity);
    }

    /// Mirrors the reset values of the variant.
    ///
    /// The 1-byte read protocol (PR=1) is forced so data reads can be performed as a single plain
    /// I2C read transaction.
    fn apply_reset_defaults(&mut self)
        ensures
            final(self)@ == old(self)@.reset_defaults::<V>(),
            final(self).bus() == old(self).bus(),
    {
        self.reg_cache[REG_CONFIG] = V::describe().reset_config;
        self.reg_cache[REG_MOD2] = V::describe().reset_mod2;
        self.store_mod1(set_bit(V::describe().reset_mod1, PR_MASK, true));
        if V::describe().has_x4 {
            self.reg_cache[REG_CONFIG2] = V::describe().reset_config2;
        }
    }

    /// Starts to read one raw measurement frame.
    ///
    /// The frame is judged by [`Self::accept_frame`] when it has arrived.
    pub fn read_raw<E>(&self) -> (r: Step<E>)
        ensures
            r == self@.read_request::<E>(FRAME_LEN, Pending::Frame),
    {
        Step::Perform(Action::Read { address: self.address, len: FRAME_LEN }, Pending::Frame)
    }

    /// Takes in one raw measurement frame.
    ///
    /// Diagnostic and parity flags are validated, and the frame counter must have moved on since
    /// the last accepted frame.
    pub fn accept_frame<E>(&mut self, frame: &[u8; FRAME_LEN]) -> (r: Result<RawReading, Error<E>>)
        ensures
            (final(self)@, r) == old(self)@.frame_received::<M, E>(frame@),
            final(self).bus() == old(self).bus(),
    {
        self.load_registers(frame);
        let (raw, diag) = decode_data_frame(frame);
        if let Err(error) = self.validate_frame(frame, diag) {
            return Err(error);
        }
        if let Some(last) = self.last_frame {
            if last == diag.frame {
                return Err(Error::AdcLockup);
            }
        }
        self.last_frame = Some(diag.frame);
        self.last_diag = diag;
        Ok(raw)
    }

    /// Checks the flags of a frame.
    ///
    /// PD0 reports completion of the Bx conversion and applies to every measurement shape. PD3
    /// reports completion of the temperature conversion, so it only tells about data that is
    /// measured. In fast mode conversions run continuously, and neither is a meaningful readiness
    /// signal.
    pub fn validate_frame<E>(&self, frame: &[u8; FRAME_LEN], diag: Diagnostics) -> (r: Result<
        (),
        Error<E>,
    >)
        ensures
            r == match frame_fault::<E>(self@.power_mode, M::dt_bit() == 0, frame@, diag) {
                Some(fault) => Err(fault),
                None => Ok(()),
            },
    {
        if !diag.ff {
            return Err(Error::InvalidFuseParity);
        }
        if !diag.cf {
            return Err(Error::InvalidConfigurationParity);
        }
        if diag.t {
            return Err(Error::InvalidTemperature);
        }
        if !has_valid_bus_parity(frame, diag) {
            return Err(Error::InvalidBusParity);
        }
        if self.power_mode != PowerMode::Fast {
            let temperature_enabled: bool = M::dt() == 0;
            if !diag.pd0 || (temperature_enabled && !diag.pd3) {
                return Err(Error::DataNotReady);
            }
        }
        Ok(())
    }

    /// Starts to configure sensitivity.
    ///
    /// The argument type depends on the compile-time variant, so only valid sensitivity values
    /// are accepted at compile time. The new scale holds once the operation has succeeded.
    pub fn set_sensitivity<E>(&mut self, sensitivity: V::Sensitivity) -> (r: Step<E>)
        ensures
            final(self)@ == old(self)@.sensitivity_set::<V>(sensitivity),
            final(self).bus() == old(self).bus(),
            r == final(self)@.write_request::<E>(
                REG_CONFIG,
                Pending::Config { scale: Some(sensitivity.multiplier()) },
            ),
    {
        let x2: bool = sensitivity.x2();
        let x4: bool = sensitivity.x4();
        self.store_config(set_bit(self.reg_cache[REG_CONFIG], X2_MASK, x2));
        if V::describe().has_x4 {
            self.reg_cache[REG_CONFIG2] = set_bit(self.reg_cache[REG_CONFIG2], X4_MASK, x4);
        }
        self.write_config_registers(Some(sensitivity.scale()))
    }

    /// Starts to configure measurement mode and changes the measurement shape type.
    ///
    /// The driver is consumed and returned with its measurement shape type parameter changed to
    /// `NewM`. It is ready once the operation has succeeded.
    pub fn into_measurement_mode<NewM: MeasurementShape, E>(self) -> (r: (
        Tli493d<I2c, V, NewM>,
        Step<E>,
    ))
        ensures
            r.0@ == self@.shape_set::<V, NewM>(),
            r.0.bus() == self.bus(),
            r.1 == r.0@.write_request::<E>(REG_CONFIG, Pending::Config { scale: None }),
    {
        let mut this = self;
        let dt: u8 = set_bits(this.reg_cache[REG_CONFIG], DT_MASK, 7, NewM::dt());
        this.store_config(set_bits(dt, AM_MASK, 6, NewM::am()));
        let step = this.write_config_registers(None);
        (
            Tli493d {
                i2c: this.i2c,
                address: this.address,
                power_mode: this.power_mode,
                sensitivity_scale: this.sensitivity_scale,
                reg_cache: this.reg_cache,
                last_frame: this.last_frame,
                last_diag: this.last_diag,
                _variant: PhantomData,
                _mode: PhantomData,
            },
            step,
        )
    }

    /// Starts a single ADC conversion immediately.
    ///
    /// Only meaningful in [`PowerMode::MasterControlled`], where nothing converts until asked.
    /// Use it to prime the pipeline before the first read: with [`TriggerMode::AfterReg05`] every
    /// read starts the *next* conversion, so the first read of all has nothing in flight to
    /// collect.
    ///
    /// In a write frame the byte after the sensor address carries the trigger bits in 7:5 and a
    /// register address in 4:0. No data bytes follow, so nothing is written.
    pub fn trigger<E>(&self) -> (r: Step<E>)
        ensures
            r == Step::<E>::Perform(
                Action::WriteByte { address: self@.address, byte: TRIGGER_BYTE },
                Pending::Trigger,
            ),
    {
        Step::Perform(
            Action::WriteByte { address: self.address, byte: TRIGGER_BYTE },
            Pending::Trigger,
        )
    }

    /// Starts to configure trigger mode (`TRIG`) in register `0x10`.
    pub fn set_trigger_mode<E>(&mut self, mode: TriggerMode) -> (r: Step<E>)
        ensures
            final(self)@ == old(self)@.trigger_mode_set::<V>(mode),
            final(self).bus() == old(self).bus(),
            r == final(self)@.write_request::<E>(REG_CONFIG, Pending::Config { scale: None }),
    {
        self.store_config(set_bits(self.reg_cache[REG_CONFIG], TRIG_MASK, 4, mode.bits()));
        self.write_config_registers(None)
    }

    /// Starts to set the device I2C address slot by updating `IICADR` in `MOD1`.
    ///
    /// Only `MOD1` is written: after the change the sensor would not acknowledge a write of
    /// `MOD2` at the old address. It may stop acknowledging within the transaction already, so a
    /// missing acknowledgement is tolerated; a read at the new address confirms the change.
    pub fn set_address_slot<E>(&mut self, slot: AddressSlot) -> (r: Step<E>)
        ensures
            final(self)@ == old(self)@.slot_set::<V>(slot),
            final(self).bus() == old(self).bus(),
            r == final(self)@.write_request::<E>(REG_MOD1, Pending::AddressChange { slot }),
    {
        self.store_mod1(set_bits(self.reg_cache[REG_MOD1], IICADR_MASK, 5, slot.bits()));
        self.write_register(REG_MOD1, Pending::AddressChange { slot })
    }

    /// Starts to configure power mode via `MODE` bits in `MOD1`.
    ///
    /// `MOD1` and `MOD2` are written, reserved register defaults are left untouched. The new mode
    /// holds once the operation has succeeded.
    pub fn set_power_mode<E>(&mut self, mode: PowerMode) -> (r: Step<E>)
        ensures
            final(self)@ == old(self)@.power_mode_set::<V>(mode),
            final(self).bus() == old(self).bus(),
            r == final(self)@.write_request::<E>(REG_MOD1, Pending::Mod1 { target: Some(mode) }),
    {
        self.store_mod1(set_bits(self.reg_cache[REG_MOD1], MODE_MASK, 0, mode.bits()));
        self.write_mode_registers(Some(mode))
    }

    /// Starts to configure the fast/slow update bit (`PRD`) in `MOD2`.
    ///
    /// A rate that the variant does not support is refused, and nothing changes.
    pub fn set_update_rate<E>(&mut self, rate: UpdateRate) -> (r: Step<E>)
        requires
            V::rate_field(rate) is Some ==> V::description().prd_shift < 8,
        ensures
            final(self).bus() == old(self).bus(),
            match V::rate_field(rate) {
                Some(field) => {
                    &&& final(self)@ == old(self)@.rate_set::<V>(field)
                    &&& r == final(self)@.write_request::<E>(
                        REG_MOD1,
                        Pending::Mod1 { target: None },
                    )
                },
                None => {
                    &&& final(self)@ == old(self)@
                    &&& r == Step::<E>::Finished(Err(Error::UnsupportedUpdateRate))
                },
            },
    {
        match V::update_rate_bits(rate) {
            Some(field) => {
                self.reg_cache[REG_MOD2] = set_bits(
                    self.reg_cache[REG_MOD2],
                    V::describe().prd_mask,
                    V::describe().prd_shift,
                    field,
                );
                self.store_mod1(self.reg_cache[REG_MOD1]);
                self.write_mode_registers(None)
            },
            None => Step::Finished(Err(Error::UnsupportedUpdateRate)),
        }
    }

    /// Takes the outcome of an action and gives the next step of the operation.
    pub fn resume<E>(&mut self, pending: Pending, event: Event<E>) -> (r: Step<E>)
        ensures
            (final(self)@, r) == old(self)@.resumed::<V, M, E>(pending, event),
            final(self).bus() == old(self).bus(),
            r matches Step::Perform(_, next) ==> next.remaining() < pending.remaining(),
    {
        let mut data: [u8; TRANSFER_LEN] = [0u8; TRANSFER_LEN];
        match event {
            Event::Completed(received) => {
                data = received;
            },
            Event::Failed(error, kind) => {
                if !is_tolerated(pending, kind) {
                    return Step::Finished(Err(Error::I2c(error)));
                }
            },
        }
        self.advance(pending, &data)
    }

    /// Goes on after a successful or tolerated action.
    fn advance<E>(&mut self, pending: Pending, data: &[u8; TRANSFER_LEN]) -> (r: Step<E>)
        ensures
            (final(self)@, r) == old(self)@.advanced::<V, M, E>(pending, data@),
            final(self).bus() == old(self).bus(),
            r matches Step::Perform(_, next) ==> next.remaining() < pending.remaining(),
    {
        match pending {
            Pending::BusReset { sent, power_mode } => {
                if sent < 4 {
                    let address: u8 = if sent < 2 {
                        RECOVERY_ADDRESS
                    } else {
                        GENERAL_CALL_ADDRESS
                    };
                    Step::Perform(
                        Action::WriteByte { address, byte: 0x00 },
                        Pending::BusReset { sent: sent + 1, power_mode },
                    )
                } else {
                    Step::Perform(
                        Action::DelayUs { us: RESET_DELAY_US },
                        Pending::Settling { power_mode },
                    )
                }
            },
            Pending::Settling { power_mode } => {
                self.apply_reset_defaults();
                self.set_power_mode(power_mode)
            },
            Pending::ReadProtocol { power_mode } => Step::Perform(
                Action::Read { address: self.address, len: TRANSFER_LEN },
                Pending::ReadBack { power_mode },
            ),
            Pending::ReadBack { power_mode } => {
                self.load_registers(data);
                self.store_config(V::describe().reset_config);
                self.write_register(REG_CONFIG, Pending::DefaultConfig { power_mode })
            },
            Pending::DefaultConfig { power_mode } => self.set_power_mode(power_mode),
            Pending::Mod1 { target } => self.write_register(REG_MOD2, Pending::Mod2 { target }),
            Pending::Mod2 { target } => {
                if let Some(mode) = target {
                    self.power_mode = mode;
                }
                Step::Finished(Ok(Outcome::Done))
            },
            Pending::Config { scale } => {
                if V::describe().has_x4 {
                    self.write_register(REG_CONFIG2, Pending::Config2 { scale })
                } else {
                    self.record_scale(scale);
                    Step::Finished(Ok(Outcome::Done))
                }
            },
            Pending::Config2 { scale } => {
                self.record_scale(scale);
                Step::Finished(Ok(Outcome::Done))
            },
            Pending::AddressChange { slot } => {
                self.address = slot.as_7bit();
                Step::Perform(
                    Action::Read { address: self.address, len: 1 },
                    Pending::AddressProbe,
                )
            },
            Pending::AddressProbe => Step::Finished(Ok(Outcome::Done)),
            Pending::Trigger => Step::Finished(Ok(Outcome::Done)),
            Pending::Frame => {
                let frame: [u8; FRAME_LEN] = [
                    data[0],
                    data[1],
                    data[2],
                    data[3],
                    data[4],
                    data[5],
                    data[6],
                ];
                assert(frame@ =~= data@.take(FRAME_LEN as int));
                match self.accept_frame(&frame) {
                    Ok(raw) => Step::Finished(Ok(Outcome::Measured(raw))),
                    Err(error) => Step::Finished(Err(error)),
                }
            },
        }
    }

    /// Records a written sensitivity scale.
    fn record_scale(&mut self, scale: Option<u8>)
        ensures
            final(self)@ == old(self)@.scale_recorded(scale),
            final(self)@.sensitivity_scale == match scale {
                Some(scale) => scale,
                None => old(self)@.sensitivity_scale,
            },
            final(self).bus() == old(self).bus(),
    {
        if let Some(scale) = scale {
            self.sensitivity_scale = scale;
        }
    }
}

/// Whether an operation goes on after a fault.
fn is_tolerated(pending: Pending, kind: FaultKind) -> (r: bool)
    ensures
        r == tolerates(pending, kind),
{
    match pending {
        Pending::BusReset { .. } => true,
        Pending::Settling { .. } => true,
        Pending::AddressChange { .. } => matches!(kind, FaultKind::NoAcknowledge),
        _ => false,
    }
}

} // verus!
