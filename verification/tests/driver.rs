use tli493d::protocol::{Action, Event, FaultKind, Outcome, Pending, Step, TRANSFER_LEN};
use tli493d::register::set_config_parity;
use tli493d::variant::{
    BxBy, BxByBz, BxByBzTemp, MeasurementShape, SensorVariant, VariantDescription,
    VariantSensitivity,
};
use tli493d::{
    A2B6Sensitivity, AddressSlot, Diagnostics, Error, MeasurementMode, PowerMode, RawReading,
    Tli493d, Tli493dA2b6, Tli493dW2BW, TriggerMode, UpdateRate, W2BWSensitivity, A2B6, W2BW,
};

type Log = (Vec<Action>, Result<Outcome, Error<u8>>);

fn ok() -> Event<u8> {
    Event::Completed([0; TRANSFER_LEN])
}

fn fault(error: u8, kind: FaultKind) -> Event<u8> {
    Event::Failed(error, kind)
}

fn bytes(data: &[u8]) -> Event<u8> {
    let mut buffer = [0; TRANSFER_LEN];
    buffer[..data.len()].copy_from_slice(data);
    Event::Completed(buffer)
}

fn drive<I, V: SensorVariant, M: MeasurementShape>(
    driver: &mut Tli493d<I, V, M>,
    mut step: Step<u8>,
    replies: Vec<Event<u8>>,
) -> Log {
    let mut actions = Vec::new();
    let mut replies = replies.into_iter();
    loop {
        match step {
            Step::Finished(result) => {
                assert!(replies.next().is_none());
                return (actions, result);
            }
            Step::Perform(action, pending) => {
                actions.push(action);
                step = driver.resume(pending, replies.next().unwrap());
            }
        }
    }
}

fn write(address: u8, register: u8, value: u8) -> Action {
    Action::WriteRegister { address, register, value }
}

// Registers of an A2B6 at slot A2 with reserved bits set.
fn register_map() -> [u8; TRANSFER_LEN] {
    let mut map = [0x5a; TRANSFER_LEN];
    map[0x10] = 0xff;
    map[0x11] = 0x54;
    map[0x12] = 0xab;
    map[0x13] = 0x01;
    map
}

fn a2b6(mode: PowerMode) -> Tli493dA2b6<()> {
    let (mut driver, step) = Tli493d::new((), AddressSlot::A2, mode);
    let replies = vec![ok(), Event::Completed(register_map()), ok(), ok(), ok()];
    assert_eq!(drive(&mut driver, step, replies).1, Ok(Outcome::Done));
    driver
}

fn w2bw(mode: PowerMode) -> Tli493dW2BW<()> {
    let (mut driver, step) = Tli493d::new((), AddressSlot::A0, mode);
    let replies = vec![ok(), ok(), ok(), ok(), ok(), ok(), ok()];
    assert_eq!(drive(&mut driver, step, replies).1, Ok(Outcome::Done));
    driver
}

fn read<I, V: SensorVariant, M: MeasurementShape>(
    driver: &mut Tli493d<I, V, M>,
    frame: [u8; 7],
) -> Result<Outcome, Error<u8>> {
    let step = driver.read_raw();
    drive(driver, step, vec![bytes(&frame)]).1
}

// Flags: fuse and configuration parity fine, all conversions done.
fn good_frame(counter: u8) -> [u8; 7] {
    [0xf0, 0x10, 0x80, 0x50, 0xa5, 0x8c, 0x6c | counter]
}

#[test]
fn a2b6_is_initialized_on_top_of_its_registers() {
    let (mut driver, step) = Tli493dA2b6::new((), AddressSlot::A2, PowerMode::MasterControlled);
    let replies = vec![ok(), Event::Completed(register_map()), ok(), ok(), ok()];
    let (actions, result) = drive(&mut driver, step, replies);
    assert_eq!(result, Ok(Outcome::Done));
    assert_eq!(
        actions,
        vec![
            write(0x78, 0x11, 0x54),
            Action::Read { address: 0x78, len: 0x14 },
            write(0x78, 0x10, 0x00),
            write(0x78, 0x11, 0xd5),
            write(0x78, 0x13, 0x01),
        ]
    );
}

#[test]
fn w2bw_is_initialized_after_a_bus_reset() {
    let (mut driver, step) = Tli493dW2BW::new((), AddressSlot::A0, PowerMode::Fast);
    let no_ack = FaultKind::NoAcknowledge;
    let replies = vec![
        fault(1, no_ack),
        ok(),
        fault(2, FaultKind::Bus),
        fault(3, no_ack),
        ok(),
        ok(),
        ok(),
    ];
    let (actions, result) = drive(&mut driver, step, replies);
    assert_eq!(result, Ok(Outcome::Done));
    assert_eq!(
        actions,
        vec![
            Action::WriteByte { address: 0x7f, byte: 0x00 },
            Action::WriteByte { address: 0x7f, byte: 0x00 },
            Action::WriteByte { address: 0x00, byte: 0x00 },
            Action::WriteByte { address: 0x00, byte: 0x00 },
            Action::DelayUs { us: 30 },
            write(0x35, 0x11, 0x13),
            write(0x35, 0x13, 0x00),
        ]
    );
}

#[test]
fn initialization_reports_every_bus_error() {
    for failing in 0..5 {
        let (mut driver, step) = Tli493dA2b6::new((), AddressSlot::A0, PowerMode::Fast);
        let mut replies: Vec<Event<u8>> = (0..failing).map(|_| ok()).collect();
        replies.push(fault(7, FaultKind::NoAcknowledge));
        let (actions, result) = drive(&mut driver, step, replies);
        assert_eq!(actions.len(), failing + 1);
        assert_eq!(result, Err(Error::I2c(7)));
    }
    for failing in 5..7 {
        let (mut driver, step) = Tli493dW2BW::new((), AddressSlot::A0, PowerMode::Fast);
        let mut replies: Vec<Event<u8>> = (0..failing).map(|_| ok()).collect();
        replies.push(fault(8, FaultKind::Other));
        assert_eq!(drive(&mut driver, step, replies).1, Err(Error::I2c(8)));
    }
}

#[test]
fn power_mode_is_written_and_last_setting_wins() {
    let mut driver = a2b6(PowerMode::LowPower);
    let step = driver.set_power_mode(PowerMode::Fast);
    let (actions, _) = drive(&mut driver, step, vec![ok(), ok()]);
    assert_eq!(actions, vec![write(0x78, 0x11, 0x57), write(0x78, 0x13, 0x01)]);
    let step = driver.set_power_mode(PowerMode::LowPower);
    let (actions, result) = drive(&mut driver, step, vec![ok(), ok()]);
    assert_eq!(actions, vec![write(0x78, 0x11, 0x54), write(0x78, 0x13, 0x01)]);
    assert_eq!(result, Ok(Outcome::Done));
}

#[test]
fn failed_power_mode_is_not_recorded() {
    let mut driver = a2b6(PowerMode::Fast);
    // Not ready, which does not matter in fast mode.
    let not_ready = [0xf0, 0x10, 0x80, 0x50, 0xa5, 0x8c, 0x60];
    let step = driver.set_power_mode(PowerMode::LowPower);
    let (actions, result) = drive(&mut driver, step, vec![ok(), fault(4, FaultKind::Overrun)]);
    assert_eq!(actions.len(), 2);
    assert_eq!(result, Err(Error::I2c(4)));
    assert!(read(&mut driver, not_ready).is_ok());
    let step = driver.set_power_mode(PowerMode::LowPower);
    assert_eq!(drive(&mut driver, step, vec![ok(), ok()]).1, Ok(Outcome::Done));
    assert_eq!(read(&mut driver, not_ready), Err(Error::DataNotReady));
}

#[test]
fn update_rate_keeps_reserved_bits() {
    let mut driver = a2b6(PowerMode::LowPower);
    let step = driver.set_update_rate(UpdateRate::Slow);
    let (actions, result) = drive(&mut driver, step, vec![ok(), ok()]);
    assert_eq!(result, Ok(Outcome::Done));
    assert_eq!(actions, vec![write(0x78, 0x11, 0xd4), write(0x78, 0x13, 0x81)]);
    let step = driver.set_update_rate(UpdateRate::Fast);
    let (actions, _) = drive(&mut driver, step, vec![ok(), ok()]);
    assert_eq!(actions, vec![write(0x78, 0x11, 0x54), write(0x78, 0x13, 0x01)]);
}

#[derive(Clone, Copy)]
struct OneRate;

impl VariantSensitivity for OneRate {
    fn x2_flag(self) -> bool {
        self.x2()
    }

    fn x4_flag(self) -> bool {
        self.x4()
    }

    fn multiplier(self) -> u8 {
        self.scale()
    }

    fn x2(self) -> bool {
        false
    }

    fn x4(self) -> bool {
        false
    }

    fn scale(self) -> u8 {
        1
    }
}

impl SensorVariant for OneRate {
    type Sensitivity = OneRate;

    fn description() -> VariantDescription {
        Self::describe()
    }

    fn rate_field(rate: UpdateRate) -> Option<u8> {
        Self::update_rate_bits(rate)
    }

    fn describe() -> VariantDescription {
        A2B6::describe()
    }

    fn update_rate_bits(rate: UpdateRate) -> Option<u8> {
        match rate {
            UpdateRate::Fast => Some(0),
            UpdateRate::Slow => None,
        }
    }
}

#[test]
fn unsupported_update_rate_is_refused() {
    let (mut driver, _) = Tli493d::<(), OneRate>::new::<u8>((), AddressSlot::A0, PowerMode::Fast);
    let step = driver.set_update_rate(UpdateRate::Slow);
    assert_eq!(drive(&mut driver, step, vec![]), (vec![], Err(Error::UnsupportedUpdateRate)));
    let step = driver.set_update_rate(UpdateRate::Fast);
    assert_eq!(drive(&mut driver, step, vec![ok(), ok()]).1, Ok(Outcome::Done));
}

struct NoRate;

impl SensorVariant for NoRate {
    type Sensitivity = OneRate;

    fn description() -> VariantDescription {
        Self::describe()
    }

    fn rate_field(rate: UpdateRate) -> Option<u8> {
        Self::update_rate_bits(rate)
    }

    fn describe() -> VariantDescription {
        VariantDescription { prd_mask: 0, prd_shift: 8, ..A2B6::describe() }
    }

    fn update_rate_bits(_rate: UpdateRate) -> Option<u8> {
        None
    }
}

#[test]
fn variant_without_update_rate_refuses_every_rate() {
    let (mut driver, _) = Tli493d::<(), NoRate>::new::<u8>((), AddressSlot::A0, PowerMode::Fast);
    for rate in [UpdateRate::Fast, UpdateRate::Slow] {
        let step = driver.set_update_rate(rate);
        assert_eq!(drive(&mut driver, step, vec![]), (vec![], Err(Error::UnsupportedUpdateRate)));
    }
}

#[test]
fn only_readings_replace_the_flags() {
    let mut driver = a2b6(PowerMode::LowPower);
    assert_eq!(driver.diagnostics(), Diagnostics::from_diag_byte(0x00));
    assert!(read(&mut driver, good_frame(3)).is_ok());
    let flags = Diagnostics::from_diag_byte(0x6f);
    let step = driver.set_power_mode(PowerMode::Fast);
    drive(&mut driver, step, vec![ok(), ok()]).1.unwrap();
    assert_eq!(driver.diagnostics(), flags);
    let step = driver.set_address_slot(AddressSlot::A0);
    drive(&mut driver, step, vec![ok(), bytes(&[0xff])]).1.unwrap();
    assert_eq!(driver.diagnostics(), flags);
    let step = driver.read_raw();
    let (_, result) = drive(&mut driver, step, vec![fault(1, FaultKind::Bus)]);
    assert_eq!(result, Err(Error::I2c(1)));
    assert_eq!(driver.diagnostics(), flags);
    assert_eq!(read(&mut driver, good_frame(3)), Err(Error::AdcLockup));
}

#[test]
fn temperature_flag_comes_before_parity_and_readiness() {
    let mut driver = a2b6(PowerMode::LowPower);
    for diag in [0x70, 0x74, 0x78, 0x7c, 0xf0, 0xfc] {
        let mut frame = good_frame(0);
        frame[6] = diag;
        assert_eq!(read(&mut driver, frame), Err(Error::InvalidTemperature));
    }
}

#[test]
fn trigger_mode_and_trigger() {
    let mut driver = a2b6(PowerMode::MasterControlled);
    let step = driver.set_trigger_mode(TriggerMode::AfterReg05);
    let (actions, result) = drive(&mut driver, step, vec![ok()]);
    assert_eq!((actions, result), (vec![write(0x78, 0x10, 0x21)], Ok(Outcome::Done)));
    let step = driver.trigger();
    let (actions, result) = drive(&mut driver, step, vec![ok()]);
    assert_eq!(actions, vec![Action::WriteByte { address: 0x78, byte: 0x20 }]);
    assert_eq!(result, Ok(Outcome::Done));
    let step = driver.trigger();
    let (_, result) = drive(&mut driver, step, vec![fault(3, FaultKind::ArbitrationLoss)]);
    assert_eq!(result, Err(Error::I2c(3)));
}

#[test]
fn a2b6_sensitivity() {
    let mut driver = a2b6(PowerMode::LowPower);
    assert_eq!(driver.sensitivity_scale(), 1);
    let step = driver.set_sensitivity(A2B6Sensitivity::Short);
    let (actions, result) = drive(&mut driver, step, vec![ok()]);
    assert_eq!((actions, result), (vec![write(0x78, 0x10, 0x09)], Ok(Outcome::Done)));
    assert_eq!(driver.sensitivity_scale(), 2);
    let step = driver.set_sensitivity(A2B6Sensitivity::Full);
    let (actions, result) = drive(&mut driver, step, vec![fault(5, FaultKind::Bus)]);
    assert_eq!((actions, result), (vec![write(0x78, 0x10, 0x00)], Err(Error::I2c(5))));
    assert_eq!(driver.sensitivity_scale(), 2);
}

#[test]
fn w2bw_sensitivity() {
    let mut driver = w2bw(PowerMode::LowPower);
    let step = driver.set_sensitivity(W2BWSensitivity::ExtraShort);
    let (actions, _) = drive(&mut driver, step, vec![ok(), ok()]);
    assert_eq!(actions, vec![write(0x35, 0x10, 0x08), write(0x35, 0x14, 0x01)]);
    assert_eq!(driver.sensitivity_scale(), 4);
    let step = driver.set_sensitivity(W2BWSensitivity::Short);
    let (actions, result) = drive(&mut driver, step, vec![ok(), fault(6, FaultKind::Bus)]);
    assert_eq!(actions, vec![write(0x35, 0x10, 0x08), write(0x35, 0x14, 0x00)]);
    assert_eq!(result, Err(Error::I2c(6)));
    assert_eq!(driver.sensitivity_scale(), 4);
}

#[test]
fn sensitivities_have_their_bits_and_scales() {
    let a = |s: A2B6Sensitivity| (s.x2(), s.x4(), s.scale());
    assert_eq!(a(A2B6Sensitivity::Full), (false, false, 1));
    assert_eq!(a(A2B6Sensitivity::Short), (true, false, 2));
    let w = |s: W2BWSensitivity| (s.x2(), s.x4(), s.scale());
    assert_eq!(w(W2BWSensitivity::Full), (false, false, 1));
    assert_eq!(w(W2BWSensitivity::Short), (true, false, 2));
    assert_eq!(w(W2BWSensitivity::ExtraShort), (true, true, 4));
}

#[test]
fn measurement_shape_is_written() {
    let driver = a2b6(PowerMode::LowPower);
    let (mut driver, step) = driver.into_measurement_mode::<BxBy, u8>();
    let (actions, result) = drive(&mut driver, step, vec![ok()]);
    assert_eq!((actions, result), (vec![write(0x78, 0x10, 0xc0)], Ok(Outcome::Done)));
    let (mut driver, step) = driver.into_measurement_mode::<BxByBz, u8>();
    let (actions, _) = drive(&mut driver, step, vec![ok()]);
    assert_eq!(actions, vec![write(0x78, 0x10, 0x81)]);
}

#[test]
fn measurement_shape_survives_other_settings() {
    let driver = w2bw(PowerMode::LowPower);
    let (mut driver, step) = driver.into_measurement_mode::<BxByBz, u8>();
    let (actions, _) = drive(&mut driver, step, vec![ok(), ok()]);
    assert_eq!(actions, vec![write(0x35, 0x10, 0x80), write(0x35, 0x14, 0x00)]);
    let step = driver.set_trigger_mode(TriggerMode::BeforeFirstMsb);
    let (actions, _) = drive(&mut driver, step, vec![ok(), ok()]);
    assert_eq!(actions[0], write(0x35, 0x10, 0x91));
    let step = driver.set_power_mode(PowerMode::Fast);
    drive(&mut driver, step, vec![ok(), ok()]).1.unwrap();
    assert!(read(&mut driver, good_frame(0)).is_ok());
    let step = driver.set_sensitivity(W2BWSensitivity::Short);
    let (actions, _) = drive(&mut driver, step, vec![ok(), ok()]);
    assert_eq!(actions[0], write(0x35, 0x10, 0x98));
}

#[test]
fn shapes_have_the_bits_of_their_modes() {
    assert_eq!(
        (BxByBzTemp::dt(), BxByBzTemp::am()),
        MeasurementMode::BxByBzTemp.dt_am_bits()
    );
    assert_eq!((BxByBz::dt(), BxByBz::am()), MeasurementMode::BxByBz.dt_am_bits());
    assert_eq!((BxBy::dt(), BxBy::am()), MeasurementMode::BxBy.dt_am_bits());
}

#[test]
fn reset_values_have_the_right_parity() {
    for description in [A2B6::describe(), W2BW::describe()] {
        let config = description.reset_config;
        assert_eq!(set_config_parity(config, description.wakeup_config_parity), config);
        assert_eq!(config & 0xc0, 0);
    }
    assert_eq!(A2B6::update_rate_bits(UpdateRate::Slow), Some(1));
    assert_eq!(W2BW::update_rate_bits(UpdateRate::Fast), Some(0));
}

#[test]
fn address_change_tolerates_a_missing_acknowledgement() {
    for first in [ok(), fault(1, FaultKind::NoAcknowledge)] {
        let mut driver = a2b6(PowerMode::LowPower);
        let step = driver.set_address_slot(AddressSlot::A1);
        let (actions, result) = drive(&mut driver, step, vec![first, ok()]);
        assert_eq!(result, Ok(Outcome::Done));
        assert_eq!(
            actions,
            vec![write(0x78, 0x11, 0x34), Action::Read { address: 0x22, len: 1 }]
        );
        let step = driver.trigger();
        let (actions, _) = drive(&mut driver, step, vec![ok()]);
        assert_eq!(actions, vec![Action::WriteByte { address: 0x22, byte: 0x20 }]);
    }
}

#[test]
fn address_change_fails_on_other_errors() {
    let mut driver = a2b6(PowerMode::LowPower);
    let step = driver.set_address_slot(AddressSlot::A1);
    let (actions, result) = drive(&mut driver, step, vec![fault(2, FaultKind::Bus)]);
    assert_eq!((actions.len(), result), (1, Err(Error::I2c(2))));
    let step = driver.set_address_slot(AddressSlot::A3);
    let no_ack = FaultKind::NoAcknowledge;
    let (actions, result) = drive(&mut driver, step, vec![ok(), fault(3, no_ack)]);
    assert_eq!(
        actions,
        vec![write(0x78, 0x11, 0xf4), Action::Read { address: 0x44, len: 1 }]
    );
    assert_eq!(result, Err(Error::I2c(3)));
}

#[test]
fn frames_are_read_and_decoded() {
    let mut driver = a2b6(PowerMode::LowPower);
    let step = driver.read_raw();
    let (actions, result) = drive(&mut driver, step, vec![bytes(&good_frame(1))]);
    assert_eq!(actions, vec![Action::Read { address: 0x78, len: 7 }]);
    let raw = RawReading { x: -246, y: 261, z: -2036, temp: 322 };
    assert_eq!(result, Ok(Outcome::Measured(raw)));
    assert_eq!(driver.diagnostics(), Diagnostics::from_diag_byte(0x6d));
    let step = driver.read_raw();
    let (_, result) = drive(&mut driver, step, vec![fault(9, FaultKind::NoAcknowledge)]);
    assert_eq!(result, Err(Error::I2c(9)));
}

#[test]
fn stalled_counter_is_a_lockup() {
    let mut driver = a2b6(PowerMode::LowPower);
    assert!(read(&mut driver, good_frame(2)).is_ok());
    assert_eq!(read(&mut driver, good_frame(2)), Err(Error::AdcLockup));
    assert_eq!(read(&mut driver, good_frame(2)), Err(Error::AdcLockup));
    assert!(read(&mut driver, good_frame(3)).is_ok());
    assert!(read(&mut driver, good_frame(2)).is_ok());
}

#[test]
fn bad_frames_are_rejected_and_leave_the_flags() {
    let mut driver = a2b6(PowerMode::LowPower);
    assert!(read(&mut driver, good_frame(1)).is_ok());
    let flags = |diag: u8| {
        let mut frame = good_frame(0);
        frame[6] = diag;
        frame
    };
    assert_eq!(read(&mut driver, flags(0x2c)), Err(Error::InvalidFuseParity));
    assert_eq!(read(&mut driver, flags(0x4c)), Err(Error::InvalidConfigurationParity));
    assert_eq!(read(&mut driver, flags(0x7c)), Err(Error::InvalidTemperature));
    assert_eq!(read(&mut driver, flags(0xec)), Err(Error::InvalidBusParity));
    assert_eq!(read(&mut driver, flags(0x68)), Err(Error::DataNotReady));
    assert_eq!(read(&mut driver, flags(0x64)), Err(Error::DataNotReady));
    // The first fault is reported, and before a lockup.
    assert_eq!(read(&mut driver, flags(0x91)), Err(Error::InvalidFuseParity));
    assert_eq!(driver.diagnostics(), Diagnostics::from_diag_byte(0x6d));
    assert_eq!(read(&mut driver, good_frame(1)), Err(Error::AdcLockup));
}

#[test]
fn temperature_readiness_counts_only_where_measured() {
    let driver = a2b6(PowerMode::LowPower);
    let (mut driver, step) = driver.into_measurement_mode::<BxByBz, u8>();
    drive(&mut driver, step, vec![ok()]).1.unwrap();
    let mut frame = good_frame(0);
    frame[6] = 0x64;
    assert!(read(&mut driver, frame).is_ok());
    frame[6] = 0x69;
    assert_eq!(read(&mut driver, frame), Err(Error::DataNotReady));
}

#[test]
fn accepted_frames_are_judged_by_the_driver() {
    let mut driver = w2bw(PowerMode::Fast);
    let frame = [0xf0, 0x10, 0x80, 0x50, 0xa5, 0x8c, 0x60];
    let diag = Diagnostics::from_diag_byte(frame[6]);
    assert_eq!(driver.validate_frame::<u8>(&frame, diag), Ok(()));
    let raw: Result<RawReading, Error<u8>> = driver.accept_frame(&frame);
    assert_eq!(raw.unwrap().y, 261);
}

#[test]
fn bus_is_carried_and_returned() {
    let (mut driver, _) = Tli493d::<u32, A2B6>::new::<u8>(41, AddressSlot::A0, PowerMode::Fast);
    *driver.i2c_mut() += 1;
    let (driver, _) = driver.into_measurement_mode::<BxBy, u8>();
    assert_eq!(driver.into_i2c(), 42);
}

#[test]
fn operations_end_in_bounded_steps() {
    let mut driver = a2b6(PowerMode::LowPower);
    let mut pending = Pending::BusReset { sent: 0, power_mode: PowerMode::Fast };
    let mut steps = 0;
    while let Step::Perform(_, next) = driver.resume(pending, ok()) {
        pending = next;
        steps += 1;
    }
    assert_eq!(steps, 7);
}
