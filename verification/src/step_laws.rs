//! What single steps do to the driver and ask of the bus, register by register.

use vstd::prelude::*;

use crate::bits::{with_field, with_flag};
use crate::codec_laws::{
    folds_to_one, law_bus_parity_folds, law_diagnostics_make_up_the_byte,
    law_samples_are_the_bits_of_the_frame,
};
use crate::driver::{frame_fault, State, TRIGGER_BYTE};
use crate::laws::{
    differ_in, differ_in_two, law_config_registers_operation, law_power_mode_field,
    law_sensitivity_fields, law_shape_fields, law_trigger_field, lemma_run_last,
    lemma_stored_config, lemma_stored_mod1, run,
};
use crate::protocol::{Action, Event, Outcome, Pending, Step, TRANSFER_LEN};
use crate::register::{
    bus_parity_holds, config_parity_holds, fuse_parity_holds, REG_CONFIG, REG_MOD2,
};
use crate::types::{AddressSlot, Diagnostics, Error, PowerMode, RawReading, TriggerMode};
use crate::variant::{MeasurementShape, SensorVariant, VariantSensitivity};

verus! {

/// A new driver talks to the address of its slot, has the power mode that was asked for and the
/// scale of the full range, mirrors only zeros, and knows of no frame.
pub proof fn law_new_driver(slot: AddressSlot, power_mode: PowerMode)
    ensures
        ({
            let state = State::initial(slot, power_mode);
            &&& state.address == slot.address()
            &&& state.power_mode == power_mode
            &&& state.sensitivity_scale == 1
            &&& state.reg_cache.len() == 0x18
            &&& forall|i: int| 0 <= i < 0x18 ==> #[trigger] state.reg_cache[i] == 0
            &&& state.last_frame is None
            &&& !state.last_diag.p && !state.last_diag.ff && !state.last_diag.cf
            &&& !state.last_diag.t && !state.last_diag.pd3 && !state.last_diag.pd0
            &&& state.last_diag.frame == 0
        }),
{
    law_diagnostics_make_up_the_byte(0);
}

/// Before the first write to a sensor that is not reset over the bus, `MOD2` gets its reset value,
/// and `MOD1` the number of the slot, `PR` and `INT` set, `CA` clear, the reset value of `MODE`,
/// and the right fuse parity. Nothing else changes.
pub proof fn law_read_protocol_setting<V: SensorVariant>(state: State, slot: AddressSlot)
    requires
        state.wf(),
    ensures
        ({
            let next = state.read_protocol_set::<V>(slot);
            let description = V::description();
            &&& differ_in_two(next, state, 0x11, 0x13)
            &&& next.reg_cache[0x13] == description.reset_mod2
            &&& next.reg_cache[0x11] & 0x60 == slot.number() * 32
            &&& next.reg_cache[0x11] & 0x1c == 0x14
            &&& next.reg_cache[0x11] & 0x03 == description.reset_mod1 & 0x03
            &&& fuse_parity_holds(
                next.reg_cache[0x11],
                description.reset_mod2,
                description.prd_mask,
            )
        }),
{
    let description = V::description();
    let number = slot.number();
    let reset_mod1 = description.reset_mod1;
    let own_slot = with_field(reset_mod1, 0x60, 5, number);
    let flags = with_flag(with_flag(with_flag(own_slot, 0x10, true), 0x08, false), 0x04, true);
    lemma_stored_mod1::<V>(state.with_reg(REG_MOD2, description.reset_mod2), flags);
    let mod1 = state.read_protocol_set::<V>(slot).reg_cache[0x11];
    assert(mod1 & 0x60 == number * 32 && mod1 & 0x1c == 0x14 && mod1 & 0x03 == reset_mod1 & 0x03)
        by (bit_vector)
        requires
            number <= 3,
            own_slot == (reset_mod1 & !0x60u8) | ((number << 5u8) & 0x60),
            flags == ((own_slot | 0x10) & !0x08u8) | 0x04,
            mod1 & 0x7f == flags & 0x7f,
    ;
}

/// The bus reset sequence goes on whatever the bus answers: the first two bytes go to the recovery
/// address and the next two to the general call address, then comes the delay. The driver itself
/// does not change.
pub proof fn law_bus_reset_step<V: SensorVariant, M: MeasurementShape, E>(
    state: State,
    sent: u8,
    power_mode: PowerMode,
    event: Event<E>,
)
    ensures
        ({
            let (next, step) = state.resumed::<V, M, E>(
                Pending::BusReset { sent, power_mode },
                event,
            );
            let following = Pending::BusReset { sent: (sent + 1) as u8, power_mode };
            &&& next == state
            &&& sent < 2 ==> step == Step::<E>::Perform(
                Action::WriteByte { address: 0x7f, byte: 0 },
                following,
            )
            &&& 2 <= sent < 4 ==> step == Step::<E>::Perform(
                Action::WriteByte { address: 0, byte: 0 },
                following,
            )
            &&& 4 <= sent ==> step == Step::<E>::Perform(
                Action::DelayUs { us: 30 },
                Pending::Settling { power_mode },
            )
        }),
{
}

/// After the bus reset sequence the configuration registers get the reset values of the variant,
/// but that `PR` of `MOD1` is set, `MODE` holds the power mode, and the fuse parity is right; then
/// `MOD1` is written. `IICADR`, `CA` and `INT` of `MOD1` keep their reset values, and nothing else
/// changes.
pub proof fn law_settling_step<V: SensorVariant, M: MeasurementShape, E>(
    state: State,
    power_mode: PowerMode,
    event: Event<E>,
)
    requires
        state.wf(),
    ensures
        ({
            let (next, step) = state.resumed::<V, M, E>(Pending::Settling { power_mode }, event);
            let description = V::description();
            &&& next.address == state.address
            &&& next.power_mode == state.power_mode
            &&& next.sensitivity_scale == state.sensitivity_scale
            &&& next.last_frame == state.last_frame
            &&& next.last_diag == state.last_diag
            &&& next.reg_cache.len() == 0x18
            &&& forall|i: int|
                0 <= i < 0x18 && i != 0x10 && i != 0x11 && i != 0x13 && i != 0x14
                    ==> #[trigger] next.reg_cache[i] == state.reg_cache[i]
            &&& next.reg_cache[0x10] == description.reset_config
            &&& next.reg_cache[0x11] & 0x6c == description.reset_mod1 & 0x6c
            &&& next.reg_cache[0x11] & 0x10 == 0x10
            &&& next.reg_cache[0x11] & 0x03 == power_mode.field()
            &&& fuse_parity_holds(
                next.reg_cache[0x11],
                description.reset_mod2,
                description.prd_mask,
            )
            &&& next.reg_cache[0x13] == description.reset_mod2
            &&& next.reg_cache[0x14] == if description.has_x4 {
                description.reset_config2
            } else {
                state.reg_cache[0x14]
            }
            &&& step == Step::<E>::Perform(
                Action::WriteRegister {
                    address: state.address,
                    register: 0x11,
                    value: next.reg_cache[0x11],
                },
                Pending::Mod1 { target: Some(power_mode) },
            )
        }),
{
    let defaults = state.reset_defaults::<V>();
    let description = V::description();
    let reset_mod1 = description.reset_mod1;
    let forced = with_flag(reset_mod1, 0x10, true);
    lemma_stored_mod1::<V>(
        state.with_reg(REG_CONFIG, description.reset_config).with_reg(
            REG_MOD2,
            description.reset_mod2,
        ),
        forced,
    );
    law_power_mode_field::<V>(defaults, power_mode);
    let before = defaults.reg_cache[0x11];
    let after = defaults.power_mode_set::<V>(power_mode).reg_cache[0x11];
    assert(after & 0x10 == 0x10 && after & 0x6c == reset_mod1 & 0x6c) by (bit_vector)
        requires
            forced == reset_mod1 | 0x10,
            before & 0x7f == forced & 0x7f,
            after & 0x7c == before & 0x7c,
    ;
}

/// Once the 1-byte read protocol is selected, the registers `0x00` to `0x13` are read back.
pub proof fn law_read_protocol_step<V: SensorVariant, M: MeasurementShape, E>(
    state: State,
    power_mode: PowerMode,
    data: [u8; TRANSFER_LEN],
)
    ensures
        state.resumed::<V, M, E>(
            Pending::ReadProtocol { power_mode },
            Event::Completed(data),
        ) == (
            state,
            Step::<E>::Perform(
                Action::Read { address: state.address, len: 0x14 },
                Pending::ReadBack { power_mode },
            ),
        ),
{
}

/// The registers that were read back are mirrored as they are, except `CONFIG`: that gets its
/// reset value with the right parity, and is written. Registers beyond them do not change.
pub proof fn law_read_back_step<V: SensorVariant, M: MeasurementShape, E>(
    state: State,
    power_mode: PowerMode,
    data: [u8; TRANSFER_LEN],
)
    requires
        state.wf(),
    ensures
        ({
            let (next, step) = state.resumed::<V, M, E>(
                Pending::ReadBack { power_mode },
                Event::Completed(data),
            );
            let description = V::description();
            &&& next.address == state.address
            &&& next.power_mode == state.power_mode
            &&& next.sensitivity_scale == state.sensitivity_scale
            &&& next.last_frame == state.last_frame
            &&& next.last_diag == state.last_diag
            &&& next.reg_cache.len() == 0x18
            &&& forall|i: int|
                0 <= i < 0x14 && i != 0x10 ==> #[trigger] next.reg_cache[i] == data[i]
            &&& forall|i: int|
                0x14 <= i < 0x18 ==> #[trigger] next.reg_cache[i] == state.reg_cache[i]
            &&& next.reg_cache[0x10] & 0xfe == description.reset_config & 0xfe
            &&& config_parity_holds(next.reg_cache[0x10], description.wakeup_config_parity)
            &&& step == Step::<E>::Perform(
                Action::WriteRegister {
                    address: state.address,
                    register: 0x10,
                    value: next.reg_cache[0x10],
                },
                Pending::DefaultConfig { power_mode },
            )
        }),
{
    lemma_stored_config::<V>(state.loaded(data@), V::description().reset_config);
}

/// Once `CONFIG` has its default, `MOD1` gets the power mode and the right fuse parity, and is
/// written.
pub proof fn law_default_config_step<V: SensorVariant, M: MeasurementShape, E>(
    state: State,
    power_mode: PowerMode,
    data: [u8; TRANSFER_LEN],
)
    requires
        state.wf(),
    ensures
        ({
            let (next, step) = state.resumed::<V, M, E>(
                Pending::DefaultConfig { power_mode },
                Event::Completed(data),
            );
            &&& differ_in(next, state, 0x11)
            &&& next.reg_cache[0x11] & 0x03 == power_mode.field()
            &&& next.reg_cache[0x11] & 0x7c == state.reg_cache[0x11] & 0x7c
            &&& fuse_parity_holds(
                next.reg_cache[0x11],
                state.reg_cache[0x13],
                V::description().prd_mask,
            )
            &&& step == Step::<E>::Perform(
                Action::WriteRegister {
                    address: state.address,
                    register: 0x11,
                    value: next.reg_cache[0x11],
                },
                Pending::Mod1 { target: Some(power_mode) },
            )
        }),
{
    law_power_mode_field::<V>(state, power_mode);
}

/// The trigger: one byte goes to the sensor, with the trigger bits `001` above register address
/// zero. The driver does not change, and the answer of the bus is the result.
pub proof fn law_trigger_operation<V: SensorVariant, M: MeasurementShape, E>(
    state: State,
    event: Event<E>,
)
    ensures
        run::<V, M, E>(
            state,
            Step::Perform(
                Action::WriteByte { address: state.address, byte: TRIGGER_BYTE },
                Pending::Trigger,
            ),
            seq![event],
        ) == (
            state,
            seq![Action::WriteByte { address: state.address, byte: 0x20 }],
            Some(
                match event {
                    Event::Completed(_) => Ok(Outcome::Done),
                    Event::Failed(error, _) => Err(Error::I2c(error)),
                },
            ),
        ),
{
    let (next, step) = state.resumed::<V, M, E>(Pending::Trigger, event);
    lemma_run_last::<V, M, E>(
        state,
        Action::WriteByte { address: state.address, byte: 0x20 },
        Pending::Trigger,
        seq![event],
        next,
        step->Finished_0,
    );
}

/// After settings that succeed, the scale is that of the last sensitivity, whether larger or
/// smaller than one before it; a trigger mode or a measurement shape set in between leaves it.
pub proof fn law_scale_is_that_of_the_last_sensitivity<
    V: SensorVariant,
    M: MeasurementShape,
    N: MeasurementShape,
    E,
>(
    state: State,
    first: V::Sensitivity,
    trigger_mode: TriggerMode,
    second: V::Sensitivity,
    one: [u8; TRANSFER_LEN],
    other: [u8; TRANSFER_LEN],
)
    requires
        state.wf(),
    ensures
        ({
            let events = seq![Event::<E>::Completed(one), Event::<E>::Completed(other)];
            let a = state.sensitivity_set::<V>(first);
            let scale = Some(first.multiplier());
            let (ranged, _, _) = run::<V, M, E>(
                a,
                a.write_request(REG_CONFIG, Pending::Config { scale }),
                events,
            );
            let b = ranged.trigger_mode_set::<V>(trigger_mode);
            let (triggered, _, _) = run::<V, M, E>(
                b,
                b.write_request(REG_CONFIG, Pending::Config { scale: None }),
                events,
            );
            let c = triggered.shape_set::<V, N>();
            let (shaped, _, _) = run::<V, N, E>(
                c,
                c.write_request(REG_CONFIG, Pending::Config { scale: None }),
                events,
            );
            let d = shaped.sensitivity_set::<V>(second);
            let new_scale = Some(second.multiplier());
            let (last, _, _) = run::<V, N, E>(
                d,
                d.write_request(REG_CONFIG, Pending::Config { scale: new_scale }),
                events,
            );
            &&& ranged.sensitivity_scale == first.multiplier()
            &&& triggered.sensitivity_scale == first.multiplier()
            &&& shaped.sensitivity_scale == first.multiplier()
            &&& last.sensitivity_scale == second.multiplier()
        }),
{
    let (e1, e2) = (Event::<E>::Completed(one), Event::<E>::Completed(other));
    let scale = Some(first.multiplier());
    let a = state.sensitivity_set::<V>(first);
    law_sensitivity_fields::<V>(state, first);
    law_config_registers_operation::<V, M, E>(a, scale, e1, e2);
    let ranged = State { sensitivity_scale: first.multiplier(), ..a };
    let b = ranged.trigger_mode_set::<V>(trigger_mode);
    law_trigger_field::<V>(ranged, trigger_mode);
    law_config_registers_operation::<V, M, E>(b, None, e1, e2);
    let c = b.shape_set::<V, N>();
    law_shape_fields::<V, N>(b);
    law_config_registers_operation::<V, N, E>(c, None, e1, e2);
    let d = c.sensitivity_set::<V>(second);
    law_sensitivity_fields::<V>(c, second);
    law_config_registers_operation::<V, N, E>(d, Some(second.multiplier()), e1, e2);
}

/// The checks of a frame against its flags. Each error comes exactly where its own check is the
/// first to fail, in this order: fuse parity, configuration parity, temperature, bus parity,
/// readiness. Readiness is asked in every power mode but the fast one.
pub proof fn law_frame_checks<E>(
    power_mode: PowerMode,
    temperature_enabled: bool,
    frame: Seq<u8>,
    diag: Diagnostics,
)
    ensures
        ({
            let fault = frame_fault::<E>(power_mode, temperature_enabled, frame, diag);
            let flags_hold = diag.ff && diag.cf && !diag.t;
            let parity_holds = diag.p != folds_to_one(
                frame[0] ^ frame[1] ^ frame[2] ^ frame[3] ^ frame[4] ^ frame[5],
            );
            let asked = power_mode is LowPower || power_mode is MasterControlled;
            let stale = !diag.pd0 || temperature_enabled && !diag.pd3;
            &&& !diag.ff ==> fault == Some(Error::<E>::InvalidFuseParity)
            &&& diag.ff && !diag.cf ==> fault == Some(Error::<E>::InvalidConfigurationParity)
            &&& diag.ff && diag.cf && diag.t ==> fault == Some(Error::<E>::InvalidTemperature)
            &&& flags_hold && !parity_holds ==> fault == Some(Error::<E>::InvalidBusParity)
            &&& flags_hold && parity_holds && asked && stale ==> fault == Some(
                Error::<E>::DataNotReady,
            )
            &&& flags_hold && parity_holds && !(asked && stale) ==> fault is None
        }),
{
    law_bus_parity_folds(frame, diag.p);
}

/// What becomes of the seven bytes of a frame, told from the bits of its last byte, the power mode
/// and the counter of the last accepted frame. Each error comes exactly where its own check is the
/// first to fail, and the frame is accepted where none does. Its bytes are mirrored in any case;
/// its counter and flags are recorded where it is accepted; nothing else changes.
pub proof fn law_frame_judgement<M: MeasurementShape, E>(state: State, frame: Seq<u8>)
    requires
        state.wf(),
        frame.len() == 7,
    ensures
        ({
            let (next, result) = state.frame_received::<M, E>(frame);
            let last_byte = frame[6];
            let ff = last_byte & 0x40 != 0;
            let cf = last_byte & 0x20 != 0;
            let t = last_byte & 0x10 != 0;
            let pd3 = last_byte & 0x08 != 0;
            let pd0 = last_byte & 0x04 != 0;
            let counter = last_byte & 0x03;
            let parity_holds = (last_byte & 0x80 != 0) != folds_to_one(
                frame[0] ^ frame[1] ^ frame[2] ^ frame[3] ^ frame[4] ^ frame[5],
            );
            let sent_well = ff && cf && !t && parity_holds;
            let fresh = state.power_mode is Fast || pd0 && (M::dt_bit() == 0 ==> pd3);
            let moved_on = state.last_frame != Some(counter);
            &&& !ff ==> result == Err::<RawReading, Error<E>>(Error::InvalidFuseParity)
            &&& ff && !cf ==> result == Err::<RawReading, Error<E>>(
                Error::InvalidConfigurationParity,
            )
            &&& ff && cf && t ==> result == Err::<RawReading, Error<E>>(Error::InvalidTemperature)
            &&& ff && cf && !t && !parity_holds ==> result == Err::<RawReading, Error<E>>(
                Error::InvalidBusParity,
            )
            &&& sent_well && !fresh ==> result == Err::<RawReading, Error<E>>(Error::DataNotReady)
            &&& sent_well && fresh && !moved_on ==> result == Err::<RawReading, Error<E>>(
                Error::AdcLockup,
            )
            &&& sent_well && fresh && moved_on ==> {
                &&& result matches Ok(raw)
                &&& -2048 <= raw.x < 2048 && (raw.x - (frame[0] * 16 + frame[4] / 16)) % 4096 == 0
                &&& -2048 <= raw.y < 2048 && (raw.y - (frame[1] * 16 + frame[4] % 16)) % 4096 == 0
                &&& -2048 <= raw.z < 2048 && (raw.z - (frame[2] * 16 + frame[5] % 16)) % 4096 == 0
                &&& -512 <= raw.temp < 512
                &&& (raw.temp - (frame[3] * 4 + frame[5] / 64)) % 1024 == 0
                &&& next.last_frame == Some(counter)
                &&& next.last_diag == (Diagnostics {
                    p: last_byte & 0x80 != 0,
                    ff,
                    cf,
                    t,
                    pd3,
                    pd0,
                    frame: counter,
                })
            }
            &&& !(sent_well && fresh && moved_on) ==> {
                &&& next.last_frame == state.last_frame
                &&& next.last_diag == state.last_diag
            }
            &&& next.address == state.address
            &&& next.power_mode == state.power_mode
            &&& next.sensitivity_scale == state.sensitivity_scale
            &&& next.reg_cache.len() == 0x18
            &&& forall|i: int| 0 <= i < 7 ==> #[trigger] next.reg_cache[i] == frame[i]
            &&& forall|i: int|
                7 <= i < 0x18 ==> #[trigger] next.reg_cache[i] == state.reg_cache[i]
        }),
{
    let diag = Diagnostics::of_byte(frame[6]);
    lemma_flags_under_masks(frame[6]);
    law_frame_checks::<E>(state.power_mode, M::dt_bit() == 0, frame, diag);
    law_samples_are_the_bits_of_the_frame(frame);
}

/// The flags of a diagnostic byte, each under its mask.
proof fn lemma_flags_under_masks(diag: u8)
    ensures
        Diagnostics::of_byte(diag) == (Diagnostics {
            p: diag & 0x80 != 0,
            ff: diag & 0x40 != 0,
            cf: diag & 0x20 != 0,
            t: diag & 0x10 != 0,
            pd3: diag & 0x08 != 0,
            pd0: diag & 0x04 != 0,
            frame: diag & 0x03,
        }),
{
    assert((diag & 0x80 != 0) == ((diag >> 7) & 1 == 1) && (diag & 0x40 != 0) == ((diag >> 6) & 1
        == 1) && (diag & 0x20 != 0) == ((diag >> 5) & 1 == 1) && (diag & 0x10 != 0) == ((diag >> 4)
        & 1 == 1) && (diag & 0x08 != 0) == ((diag >> 3) & 1 == 1) && (diag & 0x04 != 0) == ((diag
        >> 2) & 1 == 1) && diag & 0x03 == diag % 4) by (bit_vector);
}

/// Outside fast mode a frame is never accepted while `PD0` is clear, nor while `PD3` is clear where
/// temperature is measured; with nothing else wrong, the data is reported as not ready.
pub proof fn law_stale_data_is_never_accepted<M: MeasurementShape, E>(state: State, frame: Seq<u8>)
    requires
        state.wf(),
        frame.len() == 7,
        state.power_mode != PowerMode::Fast,
        frame[6] & 0x04 == 0 || M::dt_bit() == 0 && frame[6] & 0x08 == 0,
    ensures
        state.frame_received::<M, E>(frame).1 is Err,
        frame[6] & 0x40 != 0 && frame[6] & 0x20 != 0 && frame[6] & 0x10 == 0 && bus_parity_holds(
            frame,
            frame[6] & 0x80 != 0,
        ) ==> state.frame_received::<M, E>(frame).1 == Err::<RawReading, Error<E>>(
            Error::DataNotReady,
        ),
{
    law_frame_judgement::<M, E>(state, frame);
    law_bus_parity_folds(frame, frame[6] & 0x80 != 0);
}

} // verus!
