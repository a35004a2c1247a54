//! What holds of the driver as a whole.
//!
//! The laws speak of [`State`], the view of a driver, and of the functions on it that the
//! contracts of the driver's methods are written in.

use vstd::prelude::*;

use crate::bits::{lemma_flip_bit_ones, with_field, with_flag};
use crate::driver::{frame_fault, reset_action, tolerates, State, TRIGGER_BYTE};
use crate::protocol::{Action, Event, FaultKind, Outcome, Pending, Step, TRANSFER_LEN};
use crate::register::{
    bus_parity_holds, config_parity_holds, fuse_parity_holds, lemma_with_config_parity,
    lemma_with_fuse_parity, with_config_parity, with_fuse_parity, FRAME_LEN, REG_CONFIG,
    REG_MOD1, REG_MOD2,
};
use crate::step_laws::{law_new_driver, law_read_protocol_setting, law_settling_step};
use crate::types::{AddressSlot, Diagnostics, Error, PowerMode, RawReading, TriggerMode};
use crate::variant::{BxByBzTemp, MeasurementShape, SensorVariant, VariantSensitivity};

verus! {

/// Whether both parities that the sensor checks hold in the mirrored registers.
pub open spec fn parities_hold<V: SensorVariant>(state: State) -> bool {
    &&& fuse_parity_holds(state.reg_cache[0x11], state.reg_cache[0x13], V::description().prd_mask)
    &&& config_parity_holds(state.reg_cache[0x10], V::description().wakeup_config_parity)
}

/// Whether a step asks for nothing that could upset the sensor. Register writes go to the
/// sensor's own address, carry the mirrored value, name a configuration register that the variant
/// has, and keep the parities; reads go to the sensor's own address and fit the buffer; single
/// bytes are the trigger, or belong to the bus reset sequence, whose delay is the only one.
pub open spec fn is_sound<V: SensorVariant, E>(state: State, step: Step<E>) -> bool {
    match step {
        Step::Perform(Action::WriteRegister { address, register, value }, _) => {
            &&& address == state.address
            &&& value == state.reg_cache[register as int]
            &&& {
                ||| register == 0x10 && config_parity_holds(
                    value,
                    V::description().wakeup_config_parity,
                )
                ||| register == 0x11 && fuse_parity_holds(
                    value,
                    state.reg_cache[0x13],
                    V::description().prd_mask,
                )
                ||| register == 0x13
                ||| register == 0x14 && V::description().has_x4
            }
        },
        Step::Perform(Action::Read { address, len }, _) => address == state.address && 0 < len
            <= 0x14,
        Step::Perform(Action::WriteByte { address, byte }, pending) => {
            ||| pending is Trigger && address == state.address && byte == 0x20
            ||| pending is BusReset && (address == 0x7f || address
                == 0x00) && byte == 0
        },
        Step::Perform(Action::DelayUs { us }, pending) => pending is Settling && us
            == 30,
        Step::Finished(_) => true,
    }
}

/// Every operation starts with a sound request.
pub proof fn law_operations_start_soundly<V: SensorVariant, M: MeasurementShape, E>(
    state: State,
    slot: AddressSlot,
    power_mode: PowerMode,
    trigger_mode: TriggerMode,
    sensitivity: V::Sensitivity,
    field: u8,
    pending: Pending,
)
    requires
        state.wf(),
    ensures
        ({
            let next = State::initial(slot, power_mode).read_protocol_set::<V>(slot);
            is_sound::<V, E>(next, next.write_request::<E>(REG_MOD1, pending))
        }),
        ({
            let next = state.power_mode_set::<V>(power_mode);
            is_sound::<V, E>(next, next.write_request::<E>(REG_MOD1, pending))
        }),
        ({
            let next = state.slot_set::<V>(slot);
            is_sound::<V, E>(next, next.write_request::<E>(REG_MOD1, pending))
        }),
        ({
            let next = state.rate_set::<V>(field);
            is_sound::<V, E>(next, next.write_request::<E>(REG_MOD1, pending))
        }),
        ({
            let next = state.trigger_mode_set::<V>(trigger_mode);
            is_sound::<V, E>(next, next.write_request::<E>(REG_CONFIG, pending))
        }),
        ({
            let next = state.shape_set::<V, M>();
            is_sound::<V, E>(next, next.write_request::<E>(REG_CONFIG, pending))
        }),
        ({
            let next = state.sensitivity_set::<V>(sensitivity);
            is_sound::<V, E>(next, next.write_request::<E>(REG_CONFIG, pending))
        }),
        is_sound::<V, E>(state, state.read_request::<E>(FRAME_LEN, pending)),
        is_sound::<V, E>(
            state,
            Step::Perform(
                Action::WriteByte { address: state.address, byte: TRIGGER_BYTE },
                Pending::Trigger,
            ),
        ),
        is_sound::<V, E>(
            State::initial(slot, power_mode),
            Step::Perform(reset_action(0), Pending::BusReset { sent: 1, power_mode }),
        ),
{
    broadcast use {lemma_stored_mod1, lemma_stored_config};

    let before_rate = state.with_reg(
        REG_MOD2,
        with_field(
            state.reg_cache[0x13],
            V::description().prd_mask,
            V::description().prd_shift,
            field,
        ),
    );
    assert(state.rate_set::<V>(field) == before_rate.with_mod1::<V>(state.reg_cache[0x11]));
}

/// However an operation got to where it is, and whatever the bus answers, it goes on with a sound
/// request.
pub proof fn law_operations_go_on_soundly<V: SensorVariant, M: MeasurementShape, E>(
    state: State,
    pending: Pending,
    event: Event<E>,
)
    requires
        state.wf(),
    ensures
        state.resumed::<V, M, E>(pending, event).0.wf(),
        is_sound::<V, E>(
            state.resumed::<V, M, E>(pending, event).0,
            state.resumed::<V, M, E>(pending, event).1,
        ),
{
    broadcast use {lemma_stored_mod1, lemma_stored_config};

}

/// Storing a value in `MOD1` makes the fuse parity hold.
pub broadcast proof fn lemma_stored_mod1<V: SensorVariant>(state: State, value: u8)
    requires
        state.wf(),
    ensures
        fuse_parity_holds(
            (#[trigger] state.with_mod1::<V>(value)).reg_cache[0x11],
            state.reg_cache[0x13],
            V::description().prd_mask,
        ),
        state.with_mod1::<V>(value).reg_cache[0x11] & 0x7f == value & 0x7f,
{
    lemma_with_fuse_parity(value, state.reg_cache[0x13], V::description().prd_mask);
}

/// Storing a value in `CONFIG` makes the configuration parity hold.
pub broadcast proof fn lemma_stored_config<V: SensorVariant>(state: State, value: u8)
    requires
        state.wf(),
    ensures
        config_parity_holds(
            (#[trigger] state.with_config::<V>(value)).reg_cache[0x10],
            V::description().wakeup_config_parity,
        ),
        state.with_config::<V>(value).reg_cache[0x10] & 0xfe == value & 0xfe,
{
    lemma_with_config_parity(value, V::description().wakeup_config_parity);
}

/// Whether two states differ in no more than two mirrored registers.
pub open spec fn differ_in_two(a: State, b: State, first: int, second: int) -> bool {
    &&& a.address == b.address
    &&& a.power_mode == b.power_mode
    &&& a.sensitivity_scale == b.sensitivity_scale
    &&& a.last_frame == b.last_frame
    &&& a.last_diag == b.last_diag
    &&& a.reg_cache.len() == 0x18
    &&& b.reg_cache.len() == 0x18
    &&& forall|i: int|
        0 <= i < 0x18 && i != first && i != second ==> #[trigger] a.reg_cache[i] == b.reg_cache[i]
}

/// Whether two states differ in no more than one mirrored register.
pub open spec fn differ_in(a: State, b: State, register: int) -> bool {
    differ_in_two(a, b, register, register)
}

/// Setting the power mode puts it into the `MODE` field of `MOD1`, adjusts the fuse parity bit,
/// and touches nothing else.
pub proof fn law_power_mode_field<V: SensorVariant>(state: State, mode: PowerMode)
    requires
        state.wf(),
    ensures
        differ_in(state.power_mode_set::<V>(mode), state, 0x11),
        state.power_mode_set::<V>(mode).reg_cache[0x11] & 0x03 == mode.field(),
        state.power_mode_set::<V>(mode).reg_cache[0x11] & 0x7c == state.reg_cache[0x11] & 0x7c,
        fuse_parity_holds(
            state.power_mode_set::<V>(mode).reg_cache[0x11],
            state.reg_cache[0x13],
            V::description().prd_mask,
        ),
{
    broadcast use lemma_stored_mod1;

    let old_mod1 = state.reg_cache[0x11];
    let value = mode.field();
    let field = with_field(old_mod1, 0x03, 0, value);
    let new_mod1 = state.with_mod1::<V>(field).reg_cache[0x11];
    assert(new_mod1 & 0x03 == value && new_mod1 & 0x7c == old_mod1 & 0x7c) by (bit_vector)
        requires
            value <= 3,
            field == (old_mod1 & !0x03u8) | ((value << 0u8) & 0x03),
            new_mod1 & 0x7f == field & 0x7f,
    ;
}

/// Setting the address slot puts its number into the `IICADR` field of `MOD1`, adjusts the fuse
/// parity bit, and touches nothing else.
pub proof fn law_slot_field<V: SensorVariant>(state: State, slot: AddressSlot)
    requires
        state.wf(),
    ensures
        differ_in(state.slot_set::<V>(slot), state, 0x11),
        state.slot_set::<V>(slot).reg_cache[0x11] & 0x60 == slot.number() * 32,
        state.slot_set::<V>(slot).reg_cache[0x11] & 0x1f == state.reg_cache[0x11] & 0x1f,
        fuse_parity_holds(
            state.slot_set::<V>(slot).reg_cache[0x11],
            state.reg_cache[0x13],
            V::description().prd_mask,
        ),
{
    broadcast use lemma_stored_mod1;

    let old_mod1 = state.reg_cache[0x11];
    let value = slot.number();
    let field = with_field(old_mod1, 0x60, 5, value);
    let new_mod1 = state.with_mod1::<V>(field).reg_cache[0x11];
    assert(new_mod1 & 0x60 == value * 32 && new_mod1 & 0x1f == old_mod1 & 0x1f) by (bit_vector)
        requires
            value <= 3,
            field == (old_mod1 & !0x60u8) | ((value << 5u8) & 0x60),
            new_mod1 & 0x7f == field & 0x7f,
    ;
}

/// Setting the update rate puts it into the `PRD` bits of `MOD2`, adjusts the fuse parity bit of
/// `MOD1`, and touches nothing else: the reserved bits of `MOD2` keep their values.
pub proof fn law_rate_field<V: SensorVariant>(state: State, field: u8)
    requires
        state.wf(),
    ensures
        differ_in_two(state.rate_set::<V>(field), state, 0x11, 0x13),
        state.rate_set::<V>(field).reg_cache[0x13] & V::description().prd_mask == (field
            << V::description().prd_shift) & V::description().prd_mask,
        state.rate_set::<V>(field).reg_cache[0x13] & !V::description().prd_mask
            == state.reg_cache[0x13] & !V::description().prd_mask,
        state.rate_set::<V>(field).reg_cache[0x11] & 0x7f == state.reg_cache[0x11] & 0x7f,
        fuse_parity_holds(
            state.rate_set::<V>(field).reg_cache[0x11],
            state.rate_set::<V>(field).reg_cache[0x13],
            V::description().prd_mask,
        ),
{
    broadcast use lemma_stored_mod1;

    let old_mod2 = state.reg_cache[0x13];
    let mask = V::description().prd_mask;
    let moved = field << V::description().prd_shift;
    let new_mod2 = with_field(old_mod2, mask, V::description().prd_shift, field);
    let before = state.with_reg(REG_MOD2, new_mod2);
    assert(state.rate_set::<V>(field) == before.with_mod1::<V>(state.reg_cache[0x11]));
    assert(new_mod2 & mask == moved & mask && new_mod2 & !mask == old_mod2 & !mask)
        by (bit_vector)
        requires
            new_mod2 == (old_mod2 & !mask) | (moved & mask),
    ;
}

/// Setting the trigger mode puts it into the `TRIG` field of `CONFIG`, adjusts the parity bit,
/// and touches nothing else.
pub proof fn law_trigger_field<V: SensorVariant>(state: State, mode: TriggerMode)
    requires
        state.wf(),
    ensures
        differ_in(state.trigger_mode_set::<V>(mode), state, 0x10),
        state.trigger_mode_set::<V>(mode).reg_cache[0x10] & 0x30 == mode.field() * 16,
        state.trigger_mode_set::<V>(mode).reg_cache[0x10] & 0xce == state.reg_cache[0x10] & 0xce,
        config_parity_holds(
            state.trigger_mode_set::<V>(mode).reg_cache[0x10],
            V::description().wakeup_config_parity,
        ),
{
    broadcast use lemma_stored_config;

    let old_config = state.reg_cache[0x10];
    let value = mode.field();
    let field = with_field(old_config, 0x30, 4, value);
    let new_config = state.with_config::<V>(field).reg_cache[0x10];
    assert(new_config & 0x30 == value * 16 && new_config & 0xce == old_config & 0xce)
        by (bit_vector)
        requires
            value <= 2,
            field == (old_config & !0x30u8) | ((value << 4u8) & 0x30),
            new_config & 0xfe == field & 0xfe,
    ;
}

/// Changing the measurement shape puts the lowest bits of its two values into `DT` and `AM` of
/// `CONFIG`, adjusts the parity bit, and touches nothing else.
pub proof fn law_shape_fields<V: SensorVariant, M: MeasurementShape>(state: State)
    requires
        state.wf(),
    ensures
        differ_in(state.shape_set::<V, M>(), state, 0x10),
        state.shape_set::<V, M>().reg_cache[0x10] & 0x80 == (M::dt_bit() % 2) * 128,
        state.shape_set::<V, M>().reg_cache[0x10] & 0x40 == (M::am_bit() % 2) * 64,
        state.shape_set::<V, M>().reg_cache[0x10] & 0x3e == state.reg_cache[0x10] & 0x3e,
        config_parity_holds(
            state.shape_set::<V, M>().reg_cache[0x10],
            V::description().wakeup_config_parity,
        ),
{
    broadcast use lemma_stored_config;

    let old_config = state.reg_cache[0x10];
    let dt = M::dt_bit();
    let am = M::am_bit();
    let first = with_field(old_config, 0x80, 7, dt);
    let field = with_field(first, 0x40, 6, am);
    let new_config = state.with_config::<V>(field).reg_cache[0x10];
    assert(new_config & 0x80 == (dt % 2) * 128 && new_config & 0x40 == (am % 2) * 64 && new_config
        & 0x3e == old_config & 0x3e) by (bit_vector)
        requires
            first == (old_config & !0x80u8) | ((dt << 7u8) & 0x80),
            field == (first & !0x40u8) | ((am << 6u8) & 0x40),
            new_config & 0xfe == field & 0xfe,
    ;
}

/// Setting the sensitivity puts it into `X2` of `CONFIG` and, where the variant has it, `X4` of
/// `CONFIG2`, adjusts the parity bit of `CONFIG`, and touches nothing else.
pub proof fn law_sensitivity_fields<V: SensorVariant>(state: State, sensitivity: V::Sensitivity)
    requires
        state.wf(),
    ensures
        differ_in_two(state.sensitivity_set::<V>(sensitivity), state, 0x10, 0x14),
        (state.sensitivity_set::<V>(sensitivity).reg_cache[0x10] & 0x08 != 0)
            == sensitivity.x2_flag(),
        state.sensitivity_set::<V>(sensitivity).reg_cache[0x10] & 0xf6 == state.reg_cache[0x10]
            & 0xf6,
        V::description().has_x4 ==> (state.sensitivity_set::<V>(sensitivity).reg_cache[0x14]
            & 0x01 != 0) == sensitivity.x4_flag(),
        V::description().has_x4 ==> state.sensitivity_set::<V>(sensitivity).reg_cache[0x14]
            & 0xfe == state.reg_cache[0x14] & 0xfe,
        !V::description().has_x4 ==> state.sensitivity_set::<V>(sensitivity).reg_cache[0x14]
            == state.reg_cache[0x14],
        config_parity_holds(
            state.sensitivity_set::<V>(sensitivity).reg_cache[0x10],
            V::description().wakeup_config_parity,
        ),
{
    broadcast use lemma_stored_config;

    let old_config = state.reg_cache[0x10];
    let old_config2 = state.reg_cache[0x14];
    let x2 = sensitivity.x2_flag();
    let flag = with_flag(old_config, 0x08, x2);
    let new_config = state.with_config::<V>(flag).reg_cache[0x10];
    assert((new_config & 0x08 != 0) == x2 && new_config & 0xf6 == old_config & 0xf6)
        by (bit_vector)
        requires
            flag == if x2 {
                old_config | 0x08
            } else {
                old_config & !0x08u8
            },
            new_config & 0xfe == flag & 0xfe,
    ;
    assert((old_config2 | 0x01) & 0x01 != 0 && (old_config2 & !0x01u8) & 0x01 == 0 && (old_config2
        | 0x01) & 0xfe == old_config2 & 0xfe && (old_config2 & !0x01u8) & 0xfe == old_config2
        & 0xfe) by (bit_vector);
}

/// Of two settings of one kind the second decides alone: the first leaves no trace.
pub proof fn law_last_setting_wins<V: SensorVariant, L: MeasurementShape, M: MeasurementShape>(
    state: State,
    modes: (PowerMode, PowerMode),
    slots: (AddressSlot, AddressSlot),
    rates: (u8, u8),
    triggers: (TriggerMode, TriggerMode),
    sensitivities: (V::Sensitivity, V::Sensitivity),
)
    requires
        state.wf(),
    ensures
        state.power_mode_set::<V>(modes.0).power_mode_set::<V>(modes.1)
            == state.power_mode_set::<V>(modes.1),
        state.slot_set::<V>(slots.0).slot_set::<V>(slots.1) == state.slot_set::<V>(slots.1),
        state.rate_set::<V>(rates.0).rate_set::<V>(rates.1) == state.rate_set::<V>(rates.1),
        state.trigger_mode_set::<V>(triggers.0).trigger_mode_set::<V>(triggers.1)
            == state.trigger_mode_set::<V>(triggers.1),
        state.shape_set::<V, L>().shape_set::<V, M>() == state.shape_set::<V, M>(),
        state.sensitivity_set::<V>(sensitivities.0).sensitivity_set::<V>(sensitivities.1)
            == state.sensitivity_set::<V>(sensitivities.1),
{
    let mod1 = state.reg_cache[0x11];
    let mod2 = state.reg_cache[0x13];
    let config = state.reg_cache[0x10];
    let config2 = state.reg_cache[0x14];
    let prd = V::description().prd_mask;
    let odd = V::description().wakeup_config_parity;

    lemma_mod1_overwrite(mod1, 0x03, 0, modes.0.field(), modes.1.field(), mod2, prd);
    assert(state.power_mode_set::<V>(modes.0).power_mode_set::<V>(modes.1)
        =~= state.power_mode_set::<V>(modes.1));

    lemma_mod1_overwrite(mod1, 0x60, 5, slots.0.number(), slots.1.number(), mod2, prd);
    assert(state.slot_set::<V>(slots.0).slot_set::<V>(slots.1) =~= state.slot_set::<V>(slots.1));

    let shift = V::description().prd_shift;
    let first_mod2 = with_field(mod2, prd, shift, rates.0);
    lemma_field_overwrite(mod2, prd, shift, rates.0, rates.1);
    lemma_fuse_parity_refresh(mod1, first_mod2, with_field(mod2, prd, shift, rates.1), prd);
    assert(state.rate_set::<V>(rates.0).rate_set::<V>(rates.1) =~= state.rate_set::<V>(rates.1));

    lemma_config_overwrite(config, 0x30, 4, triggers.0.field(), triggers.1.field(), odd);
    assert(state.trigger_mode_set::<V>(triggers.0).trigger_mode_set::<V>(triggers.1)
        =~= state.trigger_mode_set::<V>(triggers.1));

    lemma_shape_overwrite(config, (L::dt_bit(), M::dt_bit()), (L::am_bit(), M::am_bit()), odd);
    assert(state.shape_set::<V, L>().shape_set::<V, M>() =~= state.shape_set::<V, M>());

    let (x2, x4) = (
        (sensitivities.0.x2_flag(), sensitivities.1.x2_flag()),
        (sensitivities.0.x4_flag(), sensitivities.1.x4_flag()),
    );
    lemma_x2_overwrite(config, x2.0, x2.1, odd);
    assert((config2 | 0x01) | 0x01 == config2 | 0x01 && (config2 & !0x01u8) | 0x01 == config2
        | 0x01 && (config2 | 0x01) & !0x01u8 == config2 & !0x01u8 && (config2 & !0x01u8) & !0x01u8
        == config2 & !0x01u8) by (bit_vector);
    assert(with_flag(with_flag(config2, 0x01, x4.0), 0x01, x4.1) == with_flag(
        config2,
        0x01,
        x4.1,
    ));
    assert(state.sensitivity_set::<V>(sensitivities.0).sensitivity_set::<V>(sensitivities.1)
        =~= state.sensitivity_set::<V>(sensitivities.1));
}

/// A field that is replaced twice holds the second value.
proof fn lemma_field_overwrite(orig: u8, mask: u8, shift: u8, a: u8, b: u8)
    ensures
        with_field(with_field(orig, mask, shift, a), mask, shift, b) == with_field(
            orig,
            mask,
            shift,
            b,
        ),
{
    let (x, y) = (a << shift, b << shift);
    assert((((orig & !mask) | (x & mask)) & !mask) | (y & mask) == (orig & !mask) | (y & mask))
        by (bit_vector);
}

/// The fuse parity bit depends on no earlier fuse parity bit.
proof fn lemma_fuse_parity_refresh(mod1: u8, earlier: u8, mod2: u8, mask: u8)
    ensures
        with_fuse_parity(with_fuse_parity(mod1, earlier, mask), mod2, mask) == with_fuse_parity(
            mod1,
            mod2,
            mask,
        ),
{
    lemma_with_fuse_parity(mod1, earlier, mask);
    lemma_fuse_parity_of_low_bits(with_fuse_parity(mod1, earlier, mask), mod1, mod2, mask);
}

/// The fuse parity bit is a function of the other bits of `MOD1`.
proof fn lemma_fuse_parity_of_low_bits(a: u8, b: u8, mod2: u8, mask: u8)
    requires
        a & 0x7f == b & 0x7f,
    ensures
        with_fuse_parity(a, mod2, mask) == with_fuse_parity(b, mod2, mask),
{
    assert(a | 0x80 == b | 0x80 && a & !0x80u8 == b & !0x80u8) by (bit_vector)
        requires
            a & 0x7f == b & 0x7f,
    ;
}

/// The configuration parity bit is a function of the other bits of `CONFIG`.
proof fn lemma_config_parity_of_high_bits(a: u8, b: u8, odd: bool)
    requires
        a & 0xfe == b & 0xfe,
    ensures
        with_config_parity(a, odd) == with_config_parity(b, odd),
{
    assert(a | 0x01 == b | 0x01 && a & !0x01u8 == b & !0x01u8) by (bit_vector)
        requires
            a & 0xfe == b & 0xfe,
    ;
}

/// A field of `MOD1` that is replaced twice, each time with the parity refreshed, holds the second
/// value.
proof fn lemma_mod1_overwrite(mod1: u8, mask: u8, shift: u8, a: u8, b: u8, mod2: u8, prd: u8)
    ensures
        with_fuse_parity(
            with_field(
                with_fuse_parity(with_field(mod1, mask, shift, a), mod2, prd),
                mask,
                shift,
                b,
            ),
            mod2,
            prd,
        ) == with_fuse_parity(with_field(mod1, mask, shift, b), mod2, prd),
{
    let first = with_field(mod1, mask, shift, a);
    let stored = with_fuse_parity(first, mod2, prd);
    lemma_with_fuse_parity(first, mod2, prd);
    let (x, y) = (a << shift, b << shift);
    assert(((stored & !mask) | (y & mask)) & 0x7f == ((mod1 & !mask) | (y & mask)) & 0x7f)
        by (bit_vector)
        requires
            stored & 0x7f == first & 0x7f,
            first == (mod1 & !mask) | (x & mask),
    ;
    lemma_fuse_parity_of_low_bits(
        with_field(stored, mask, shift, b),
        with_field(mod1, mask, shift, b),
        mod2,
        prd,
    );
}

/// A field of `CONFIG` that is replaced twice, each time with the parity refreshed, holds the
/// second value.
proof fn lemma_config_overwrite(config: u8, mask: u8, shift: u8, a: u8, b: u8, odd: bool)
    ensures
        with_config_parity(
            with_field(
                with_config_parity(with_field(config, mask, shift, a), odd),
                mask,
                shift,
                b,
            ),
            odd,
        ) == with_config_parity(with_field(config, mask, shift, b), odd),
{
    let first = with_field(config, mask, shift, a);
    let stored = with_config_parity(first, odd);
    lemma_with_config_parity(first, odd);
    let (x, y) = (a << shift, b << shift);
    assert(((stored & !mask) | (y & mask)) & 0xfe == ((config & !mask) | (y & mask)) & 0xfe)
        by (bit_vector)
        requires
            stored & 0xfe == first & 0xfe,
            first == (config & !mask) | (x & mask),
    ;
    lemma_config_parity_of_high_bits(
        with_field(stored, mask, shift, b),
        with_field(config, mask, shift, b),
        odd,
    );
}

/// The bits of a shape that are replaced twice hold the second values.
proof fn lemma_shape_overwrite(config: u8, dt: (u8, u8), am: (u8, u8), odd: bool)
    ensures
        ({
            let first = with_config_parity(
                with_field(with_field(config, 0x80, 7, dt.0), 0x40, 6, am.0),
                odd,
            );
            with_config_parity(
                with_field(with_field(first, 0x80, 7, dt.1), 0x40, 6, am.1),
                odd,
            ) == with_config_parity(
                with_field(with_field(config, 0x80, 7, dt.1), 0x40, 6, am.1),
                odd,
            )
        }),
{
    let first = with_field(with_field(config, 0x80, 7, dt.0), 0x40, 6, am.0);
    let stored = with_config_parity(first, odd);
    lemma_with_config_parity(first, odd);
    let (x0, x1, y0, y1) = (dt.0 << 7u8, dt.1 << 7u8, am.0 << 6u8, am.1 << 6u8);
    assert(((((stored & !0x80u8) | (x1 & 0x80)) & !0x40u8) | (y1 & 0x40)) & 0xfe == ((((config
        & !0x80u8) | (x1 & 0x80)) & !0x40u8) | (y1 & 0x40)) & 0xfe) by (bit_vector)
        requires
            stored & 0xfe == first & 0xfe,
            first == (((config & !0x80u8) | (x0 & 0x80)) & !0x40u8) | (y0 & 0x40),
    ;
    lemma_config_parity_of_high_bits(
        with_field(with_field(stored, 0x80, 7, dt.1), 0x40, 6, am.1),
        with_field(with_field(config, 0x80, 7, dt.1), 0x40, 6, am.1),
        odd,
    );
}

/// The `X2` bit that is replaced twice holds the second state.
proof fn lemma_x2_overwrite(config: u8, a: bool, b: bool, odd: bool)
    ensures
        with_config_parity(
            with_flag(with_config_parity(with_flag(config, 0x08, a), odd), 0x08, b),
            odd,
        ) == with_config_parity(with_flag(config, 0x08, b), odd),
{
    let first = with_flag(config, 0x08, a);
    let stored = with_config_parity(first, odd);
    lemma_with_config_parity(first, odd);
    assert((stored | 0x08) & 0xfe == (config | 0x08) & 0xfe && (stored & !0x08u8) & 0xfe == (config
        & !0x08u8) & 0xfe) by (bit_vector)
        requires
            stored & 0xfe == first & 0xfe,
            first == config | 0x08 || first == config & !0x08u8,
    ;
    lemma_config_parity_of_high_bits(
        with_flag(stored, 0x08, b),
        with_flag(config, 0x08, b),
        odd,
    );
}

/// What comes of a whole operation: the state at the end, the actions that the host was asked for,
/// and the result, once there is one. The host answers the actions by `events`, in their order.
pub open spec fn run<V: SensorVariant, M: MeasurementShape, E>(
    state: State,
    step: Step<E>,
    events: Seq<Event<E>>,
) -> (State, Seq<Action>, Option<Result<Outcome, Error<E>>>)
    decreases events.len(),
{
    match step {
        Step::Finished(result) => (state, seq![], Some(result)),
        Step::Perform(action, pending) => if events.len() == 0 {
            (state, seq![action], None)
        } else {
            let (next, next_step) = state.resumed::<V, M, E>(pending, events[0]);
            let (last, actions, result) = run::<V, M, E>(next, next_step, events.drop_first());
            (last, seq![action] + actions, result)
        },
    }
}

/// The action that writes the mirrored value of a register.
pub open spec fn write_of(state: State, register: int) -> Action {
    Action::WriteRegister {
        address: state.address,
        register: register as u8,
        value: state.reg_cache[register],
    }
}

/// The first outcome of a run decides where the rest of it starts.
proof fn lemma_run_step<V: SensorVariant, M: MeasurementShape, E>(
    state: State,
    action: Action,
    pending: Pending,
    events: Seq<Event<E>>,
    next: State,
    next_step: Step<E>,
)
    requires
        events.len() > 0,
        state.resumed::<V, M, E>(pending, events[0]) == (next, next_step),
    ensures
        ({
            let rest = run::<V, M, E>(next, next_step, events.drop_first());
            run::<V, M, E>(state, Step::Perform(action, pending), events) == (
                rest.0,
                seq![action] + rest.1,
                rest.2,
            )
        }),
{
}

/// A run that ends with the first outcome.
pub proof fn lemma_run_last<V: SensorVariant, M: MeasurementShape, E>(
    state: State,
    action: Action,
    pending: Pending,
    events: Seq<Event<E>>,
    next: State,
    result: Result<Outcome, Error<E>>,
)
    requires
        events.len() > 0,
        state.resumed::<V, M, E>(pending, events[0]) == (next, Step::Finished(result)),
    ensures
        run::<V, M, E>(state, Step::Perform(action, pending), events) == (
            next,
            seq![action],
            Some(result),
        ),
{
    reveal_with_fuel(run, 2);
    assert(seq![action] + seq![] =~= seq![action]);
}

/// Writing `MOD1` and then `MOD2` with success.
proof fn lemma_run_mode_registers<V: SensorVariant, M: MeasurementShape, E>(
    state: State,
    target: Option<PowerMode>,
    events: Seq<Event<E>>,
)
    requires
        events.len() == 2,
        events[0] is Completed,
        events[1] is Completed,
    ensures
        run::<V, M, E>(
            state,
            state.write_request(REG_MOD1, Pending::Mod1 { target }),
            events,
        ) == (
            match target {
                Some(mode) => State { power_mode: mode, ..state },
                None => state,
            },
            seq![write_of(state, 0x11), write_of(state, 0x13)],
            Some(Ok::<Outcome, Error<E>>(Outcome::Done)),
        ),
{
    let last = match target {
        Some(mode) => State { power_mode: mode, ..state },
        None => state,
    };
    lemma_run_last::<V, M, E>(
        state,
        write_of(state, 0x13),
        Pending::Mod2 { target },
        events.drop_first(),
        last,
        Ok(Outcome::Done),
    );
    lemma_run_step::<V, M, E>(
        state,
        write_of(state, 0x11),
        Pending::Mod1 { target },
        events,
        state,
        state.write_request(REG_MOD2, Pending::Mod2 { target }),
    );
    assert(seq![write_of(state, 0x11)] + seq![write_of(state, 0x13)] =~= seq![
        write_of(state, 0x11),
        write_of(state, 0x13),
    ]);
}

/// Every operation ends: it waits for no more outcomes than [`Pending::remaining`] tells.
pub proof fn law_operations_end<V: SensorVariant, M: MeasurementShape, E>(
    state: State,
    action: Action,
    pending: Pending,
    events: Seq<Event<E>>,
)
    requires
        events.len() >= pending.remaining(),
    ensures
        run::<V, M, E>(state, Step::Perform(action, pending), events).2 is Some,
    decreases pending.remaining(),
{
    let (next, next_step) = state.resumed::<V, M, E>(pending, events[0]);
    match next_step {
        Step::Finished(_) => {
            reveal_with_fuel(run, 2);
        },
        Step::Perform(next_action, next_pending) => {
            law_operations_end::<V, M, E>(next, next_action, next_pending, events.drop_first());
        },
    }
}

/// A bus error that is not tolerated ends the operation with this very error and changes nothing.
/// Tolerated are only errors during the bus reset sequence, and a missing acknowledgement of an
/// address change.
pub proof fn law_bus_errors_are_reported<V: SensorVariant, M: MeasurementShape, E>(
    state: State,
    pending: Pending,
    error: E,
    kind: FaultKind,
)
    requires
        !(pending is BusReset),
        !(pending is Settling),
        pending is AddressChange ==> !(kind is NoAcknowledge),
    ensures
        state.resumed::<V, M, E>(pending, Event::Failed(error, kind)) == (
            state,
            Step::<E>::Finished(Err(Error::I2c(error))),
        ),
{
}

/// The initialization of a sensor that is reset over the bus: two bytes to the recovery address,
/// two to the general call address, the delay, then `MOD1` and `MOD2` with the reset values, the
/// 1-byte read protocol and the power mode. What the bus answers to the reset sequence does not
/// matter. At the end the configuration registers hold their reset values, but for `PR`, `MODE`
/// and the fuse parity bit of `MOD1`, and all other registers zero.
pub proof fn law_initialization_with_bus_reset<V: SensorVariant, M: MeasurementShape, E>(
    slot: AddressSlot,
    power_mode: PowerMode,
    events: Seq<Event<E>>,
)
    requires
        events.len() == 7,
        events[5] is Completed,
        events[6] is Completed,
    ensures
        ({
            let start = State::initial(slot, power_mode);
            let ready = start.reset_defaults::<V>().power_mode_set::<V>(power_mode);
            &&& run::<V, M, E>(
                start,
                Step::Perform(reset_action(0), Pending::BusReset { sent: 1, power_mode }),
                events,
            ) == (
                ready,
                seq![
                    Action::WriteByte { address: 0x7f, byte: 0 },
                    Action::WriteByte { address: 0x7f, byte: 0 },
                    Action::WriteByte { address: 0, byte: 0 },
                    Action::WriteByte { address: 0, byte: 0 },
                    Action::DelayUs { us: 30 },
                    write_of(ready, 0x11),
                    write_of(ready, 0x13),
                ],
                Some(Ok::<Outcome, Error<E>>(Outcome::Done)),
            )
            &&& ready.address == slot.address()
            &&& ready.power_mode == power_mode
            &&& ready.sensitivity_scale == 1
            &&& ready.last_frame is None
            &&& ready.reg_cache.len() == 0x18
            &&& ready.reg_cache[0x10] == V::description().reset_config
            &&& ready.reg_cache[0x11] & 0x6c == V::description().reset_mod1 & 0x6c
            &&& ready.reg_cache[0x11] & 0x10 != 0
            &&& ready.reg_cache[0x11] & 0x03 == power_mode.field()
            &&& fuse_parity_holds(
                ready.reg_cache[0x11],
                ready.reg_cache[0x13],
                V::description().prd_mask,
            )
            &&& ready.reg_cache[0x13] == V::description().reset_mod2
            &&& ready.reg_cache[0x14] == if V::description().has_x4 {
                V::description().reset_config2
            } else {
                0
            }
            &&& forall|i: int|
                0 <= i < 0x18 && i != 0x10 && i != 0x11 && i != 0x13 && i != 0x14
                    ==> #[trigger] ready.reg_cache[i] == 0
            &&& config_parity_holds(
                V::description().reset_config,
                V::description().wakeup_config_parity,
            ) ==> parities_hold::<V>(ready)
        }),
{
    let start = State::initial(slot, power_mode);
    let defaults = start.reset_defaults::<V>();
    let ready = defaults.power_mode_set::<V>(power_mode);
    let e1 = events.drop_first();
    let e2 = e1.drop_first();
    let e3 = e2.drop_first();
    let e4 = e3.drop_first();
    let e5 = e4.drop_first();
    let p1 = Pending::BusReset { sent: 1, power_mode };
    let p2 = Pending::BusReset { sent: 2, power_mode };
    let p3 = Pending::BusReset { sent: 3, power_mode };
    let p4 = Pending::BusReset { sent: 4, power_mode };
    let p5 = Pending::Settling { power_mode };
    let recovery = Action::WriteByte { address: 0x7f, byte: 0 };
    let general = Action::WriteByte { address: 0, byte: 0 };
    let delay = Action::DelayUs { us: 30 };
    let modes = ready.write_request::<E>(REG_MOD1, Pending::Mod1 { target: Some(power_mode) });
    lemma_run_mode_registers::<V, M, E>(ready, Some(power_mode), e5);
    lemma_run_step::<V, M, E>(start, delay, p5, e4, ready, modes);
    lemma_run_step::<V, M, E>(start, general, p4, e3, start, Step::Perform(delay, p5));
    lemma_run_step::<V, M, E>(start, general, p3, e2, start, Step::Perform(general, p4));
    lemma_run_step::<V, M, E>(start, recovery, p2, e1, start, Step::Perform(general, p3));
    lemma_run_step::<V, M, E>(start, recovery, p1, events, start, Step::Perform(recovery, p2));
    assert(State { power_mode, ..ready } == ready);
    assert(seq![recovery] + (seq![recovery] + (seq![general] + (seq![general] + (seq![delay] + seq![
        write_of(ready, 0x11),
        write_of(ready, 0x13),
    ])))) =~= seq![
        recovery,
        recovery,
        general,
        general,
        delay,
        write_of(ready, 0x11),
        write_of(ready, 0x13),
    ]);
    law_settling_step::<V, M, E>(start, power_mode, e4[0]);
}

/// The initialization of a sensor that is not reset over the bus: `MOD1` with the 1-byte read
/// protocol, the registers read back, `CONFIG` with its reset value, then `MOD1` and `MOD2` as
/// they were read back, but for the power mode and the fuse parity. At the end all other registers
/// that were read back are mirrored as they are, and the rest hold zero.
pub proof fn law_initialization_with_read_back<V: SensorVariant, M: MeasurementShape, E>(
    slot: AddressSlot,
    power_mode: PowerMode,
    data: [u8; TRANSFER_LEN],
    events: Seq<Event<E>>,
)
    requires
        events.len() == 5,
        events[0] is Completed,
        events[1] == Event::<E>::Completed(data),
        events[2] is Completed,
        events[3] is Completed,
        events[4] is Completed,
    ensures
        ({
            let start = State::initial(slot, power_mode).read_protocol_set::<V>(slot);
            let read = start.loaded(data@);
            let config = read.with_config::<V>(V::description().reset_config);
            let ready = config.power_mode_set::<V>(power_mode);
            &&& run::<V, M, E>(
                start,
                start.write_request(REG_MOD1, Pending::ReadProtocol { power_mode }),
                events,
            ) == (
                ready,
                seq![
                    write_of(start, 0x11),
                    Action::Read { address: slot.address(), len: 0x14 },
                    write_of(config, 0x10),
                    write_of(ready, 0x11),
                    write_of(ready, 0x13),
                ],
                Some(Ok::<Outcome, Error<E>>(Outcome::Done)),
            )
            &&& start.reg_cache[0x11] & 0x60 == slot.number() * 32
            &&& start.reg_cache[0x11] & 0x1c == 0x14
            &&& start.reg_cache[0x11] & 0x03 == V::description().reset_mod1 & 0x03
            &&& fuse_parity_holds(
                start.reg_cache[0x11],
                V::description().reset_mod2,
                V::description().prd_mask,
            )
            &&& ready.address == slot.address()
            &&& ready.power_mode == power_mode
            &&& ready.sensitivity_scale == 1
            &&& ready.last_frame is None
            &&& ready.reg_cache.len() == 0x18
            &&& ready.reg_cache[0x10] == config.reg_cache[0x10]
            &&& ready.reg_cache[0x10] & 0xfe == V::description().reset_config & 0xfe
            &&& ready.reg_cache[0x13] == data[0x13]
            &&& ready.reg_cache[0x12] == data[0x12]
            &&& forall|i: int|
                0 <= i < 0x14 && i != 0x10 && i != 0x11 ==> #[trigger] ready.reg_cache[i] == data[i]
            &&& forall|i: int| 0x14 <= i < 0x18 ==> #[trigger] ready.reg_cache[i] == 0
            &&& ready.reg_cache[0x11] & 0x7c == data[0x11] & 0x7c
            &&& ready.reg_cache[0x11] & 0x03 == power_mode.field()
            &&& parities_hold::<V>(ready)
        }),
{
    let start = State::initial(slot, power_mode).read_protocol_set::<V>(slot);
    let read = start.loaded(data@);
    let reset_config = V::description().reset_config;
    let config = read.with_config::<V>(reset_config);
    let ready = config.power_mode_set::<V>(power_mode);
    let e1 = events.drop_first();
    let e2 = e1.drop_first();
    let e3 = e2.drop_first();
    let p0 = Pending::ReadProtocol { power_mode };
    let p1 = Pending::ReadBack { power_mode };
    let p2 = Pending::DefaultConfig { power_mode };
    let first = write_of(start, 0x11);
    let read_back = Action::Read { address: slot.address(), len: 0x14 };
    let write_config = write_of(config, 0x10);
    let modes = ready.write_request::<E>(REG_MOD1, Pending::Mod1 { target: Some(power_mode) });
    lemma_run_mode_registers::<V, M, E>(ready, Some(power_mode), e3);
    lemma_run_step::<V, M, E>(config, write_config, p2, e2, ready, modes);
    lemma_run_step::<V, M, E>(start, read_back, p1, e1, config, Step::Perform(write_config, p2));
    lemma_run_step::<V, M, E>(start, first, p0, events, start, Step::Perform(read_back, p1));
    assert(State { power_mode, ..ready } == ready);
    assert(seq![first] + (seq![read_back] + (seq![write_config] + seq![
        write_of(ready, 0x11),
        write_of(ready, 0x13),
    ])) =~= seq![
        first,
        read_back,
        write_config,
        write_of(ready, 0x11),
        write_of(ready, 0x13),
    ]);
    lemma_stored_config::<V>(read, reset_config);
    law_power_mode_field::<V>(config, power_mode);
    law_read_protocol_setting::<V>(State::initial(slot, power_mode), slot);
    law_new_driver(slot, power_mode);
}

/// The read of a data frame: seven bytes are read from the sensor and judged; an error of the bus
/// is the result, and changes nothing.
pub proof fn law_read_operation<V: SensorVariant, M: MeasurementShape, E>(
    state: State,
    event: Event<E>,
)
    ensures
        ({
            let (last, actions, result) = run::<V, M, E>(
                state,
                state.read_request(FRAME_LEN, Pending::Frame),
                seq![event],
            );
            &&& actions == seq![Action::Read { address: state.address, len: 7 }]
            &&& match event {
                Event::Completed(data) => {
                    let (next, judged) = state.frame_received::<M, E>(data@.take(7));
                    &&& last == next
                    &&& result == Some(
                        match judged {
                            Ok(raw) => Ok(Outcome::Measured(raw)),
                            Err(error) => Err(error),
                        },
                    )
                },
                Event::Failed(error, _) => {
                    &&& last == state
                    &&& result == Some(Err::<Outcome, Error<E>>(Error::I2c(error)))
                },
            }
        }),
{
    let (next, step) = state.resumed::<V, M, E>(Pending::Frame, event);
    lemma_run_last::<V, M, E>(
        state,
        Action::Read { address: state.address, len: 7 },
        Pending::Frame,
        seq![event],
        next,
        step->Finished_0,
    );
}

/// The write of `MOD1` and `MOD2`, with a power mode to record or without one. Both registers are
/// written in this order. The mode is recorded if and only if both writes succeed; otherwise the
/// first error is the result and nothing is recorded.
pub proof fn law_mode_registers_operation<V: SensorVariant, M: MeasurementShape, E>(
    state: State,
    target: Option<PowerMode>,
    first: Event<E>,
    second: Event<E>,
)
    ensures
        ({
            let (last, actions, result) = run::<V, M, E>(
                state,
                state.write_request(REG_MOD1, Pending::Mod1 { target }),
                seq![first, second],
            );
            match (first, second) {
                (Event::Failed(error, _), _) => {
                    &&& last == state
                    &&& actions == seq![write_of(state, 0x11)]
                    &&& result == Some(Err::<Outcome, Error<E>>(Error::I2c(error)))
                },
                (_, Event::Failed(error, _)) => {
                    &&& last == state
                    &&& actions == seq![write_of(state, 0x11), write_of(state, 0x13)]
                    &&& result == Some(Err::<Outcome, Error<E>>(Error::I2c(error)))
                },
                _ => {
                    &&& last == match target {
                        Some(mode) => State { power_mode: mode, ..state },
                        None => state,
                    }
                    &&& actions == seq![write_of(state, 0x11), write_of(state, 0x13)]
                    &&& result == Some(Ok::<Outcome, Error<E>>(Outcome::Done))
                },
            }
        }),
{
    let events = seq![first, second];
    let mod1 = write_of(state, 0x11);
    let mod2 = write_of(state, 0x13);
    match (first, second) {
        (Event::Failed(error, _), _) => {
            lemma_run_last::<V, M, E>(
                state,
                mod1,
                Pending::Mod1 { target },
                events,
                state,
                Err(Error::I2c(error)),
            );
        },
        (_, Event::Failed(error, _)) => {
            lemma_run_last::<V, M, E>(
                state,
                mod2,
                Pending::Mod2 { target },
                events.drop_first(),
                state,
                Err(Error::I2c(error)),
            );
            lemma_run_step::<V, M, E>(
                state,
                mod1,
                Pending::Mod1 { target },
                events,
                state,
                Step::Perform(mod2, Pending::Mod2 { target }),
            );
            assert(seq![mod1] + seq![mod2] =~= seq![mod1, mod2]);
        },
        _ => {
            lemma_run_mode_registers::<V, M, E>(state, target, events);
        },
    }
}

/// The write of `CONFIG`, followed by `CONFIG2` where the variant has it, with a sensitivity scale
/// to record or without one. The scale is recorded if and only if every write succeeds; otherwise
/// the first error is the result and nothing is recorded.
pub proof fn law_config_registers_operation<V: SensorVariant, M: MeasurementShape, E>(
    state: State,
    scale: Option<u8>,
    first: Event<E>,
    second: Event<E>,
)
    ensures
        ({
            let (last, actions, result) = run::<V, M, E>(
                state,
                state.write_request(REG_CONFIG, Pending::Config { scale }),
                seq![first, second],
            );
            let has_x4 = V::description().has_x4;
            &&& actions == if first is Completed && has_x4 {
                seq![write_of(state, 0x10), write_of(state, 0x14)]
            } else {
                seq![write_of(state, 0x10)]
            }
            &&& match (first, second) {
                (Event::Failed(error, _), _) => {
                    &&& last == state
                    &&& result == Some(Err::<Outcome, Error<E>>(Error::I2c(error)))
                },
                (Event::Completed(_), Event::Failed(error, _)) if has_x4 => {
                    &&& last == state
                    &&& result == Some(Err::<Outcome, Error<E>>(Error::I2c(error)))
                },
                _ => {
                    &&& last == match scale {
                        Some(scale) => State { sensitivity_scale: scale, ..state },
                        None => state,
                    }
                    &&& result == Some(Ok::<Outcome, Error<E>>(Outcome::Done))
                },
            }
        }),
{
    let events = seq![first, second];
    let has_x4 = V::description().has_x4;
    let config = write_of(state, 0x10);
    let config2 = write_of(state, 0x14);
    let pending = Pending::Config { scale };
    let pending2 = Pending::Config2 { scale };
    match first {
        Event::Failed(error, _) => {
            lemma_run_last::<V, M, E>(
                state,
                config,
                pending,
                events,
                state,
                Err(Error::I2c(error)),
            );
        },
        Event::Completed(_) => {
            if has_x4 {
                let (last, result) = match second {
                    Event::Completed(_) => (state.scale_recorded(scale), Ok(Outcome::Done)),
                    Event::Failed(error, _) => (state, Err(Error::I2c(error))),
                };
                lemma_run_last::<V, M, E>(
                    state,
                    config2,
                    pending2,
                    events.drop_first(),
                    last,
                    result,
                );
                lemma_run_step::<V, M, E>(
                    state,
                    config,
                    pending,
                    events,
                    state,
                    Step::Perform(config2, pending2),
                );
                assert(seq![config] + seq![config2] =~= seq![config, config2]);
            } else {
                lemma_run_last::<V, M, E>(
                    state,
                    config,
                    pending,
                    events,
                    state.scale_recorded(scale),
                    Ok(Outcome::Done),
                );
            }
        },
    }
}

/// The change of the address slot. Only `MOD1` is written, at the old address. Where that
/// succeeds, or is not acknowledged, the driver moves to the new address and reads a byte there,
/// and the outcome of this read is the result. Any other error leaves the driver at the old
/// address and is the result.
pub proof fn law_address_change_operation<V: SensorVariant, M: MeasurementShape, E>(
    state: State,
    slot: AddressSlot,
    first: Event<E>,
    second: Event<E>,
)
    ensures
        ({
            let moved = State { address: slot.address(), ..state };
            let (last, actions, result) = run::<V, M, E>(
                state,
                state.write_request(REG_MOD1, Pending::AddressChange { slot }),
                seq![first, second],
            );
            match first {
                Event::Failed(error, kind) if !(kind is NoAcknowledge) => {
                    &&& last == state
                    &&& actions == seq![write_of(state, 0x11)]
                    &&& result == Some(Err::<Outcome, Error<E>>(Error::I2c(error)))
                },
                _ => {
                    &&& last == moved
                    &&& actions == seq![
                        write_of(state, 0x11),
                        Action::Read { address: slot.address(), len: 1 },
                    ]
                    &&& result == Some(
                        match second {
                            Event::Completed(_) => Ok(Outcome::Done),
                            Event::Failed(error, _) => Err(Error::I2c(error)),
                        },
                    )
                },
            }
        }),
{
    let events = seq![first, second];
    let moved = State { address: slot.address(), ..state };
    let mod1 = write_of(state, 0x11);
    let probe = Action::Read { address: slot.address(), len: 1 };
    let pending = Pending::AddressChange { slot };
    if first is Failed && !tolerates(pending, first->Failed_1) {
        let error = first->Failed_0;
        lemma_run_last::<V, M, E>(state, mod1, pending, events, state, Err(Error::I2c(error)));
    } else {
        let result = match second {
            Event::Completed(_) => Ok(Outcome::Done),
            Event::Failed(error, _) => Err(Error::I2c(error)),
        };
        lemma_run_last::<V, M, E>(
            moved,
            probe,
            Pending::AddressProbe,
            events.drop_first(),
            moved,
            result,
        );
        lemma_run_step::<V, M, E>(
            state,
            mod1,
            pending,
            events,
            moved,
            Step::Perform(probe, Pending::AddressProbe),
        );
        assert(seq![mod1] + seq![probe] =~= seq![mod1, probe]);
    }
}

/// The slots have different addresses and different numbers, and the numbers fit the field.
pub proof fn law_slots_differ(a: AddressSlot, b: AddressSlot)
    ensures
        a.address() == b.address() ==> a == b,
        a.number() == b.number() ==> a == b,
        a.number() <= 3,
        a.address() < 0x80,
{
}

/// Where the parities hold, no operation breaks them, at its start or later. Left out are the
/// read back during initialization, which mirrors whatever the sensor holds, and a variant whose
/// reset value of `CONFIG` has the wrong parity itself.
pub proof fn law_parities_are_kept<V: SensorVariant, M: MeasurementShape, E>(
    state: State,
    mode: PowerMode,
    slot: AddressSlot,
    field: u8,
    trigger_mode: TriggerMode,
    sensitivity: V::Sensitivity,
    pending: Pending,
    event: Event<E>,
)
    requires
        state.wf(),
        parities_hold::<V>(state),
        !(pending is ReadBack),
        config_parity_holds(
            V::description().reset_config,
            V::description().wakeup_config_parity,
        ),
    ensures
        parities_hold::<V>(state.power_mode_set::<V>(mode)),
        parities_hold::<V>(state.slot_set::<V>(slot)),
        parities_hold::<V>(state.rate_set::<V>(field)),
        parities_hold::<V>(state.trigger_mode_set::<V>(trigger_mode)),
        parities_hold::<V>(state.shape_set::<V, M>()),
        parities_hold::<V>(state.sensitivity_set::<V>(sensitivity)),
        parities_hold::<V>(state.resumed::<V, M, E>(pending, event).0),
{
    broadcast use {lemma_stored_mod1, lemma_stored_config};

    law_rate_field::<V>(state, field);
    law_sensitivity_fields::<V>(state, sensitivity);
    if let Pending::Settling { power_mode } = pending {
        law_power_mode_field::<V>(state.reset_defaults::<V>(), power_mode);
    }
}

/// Reserved bits stay as they are. Once the registers have been read back, or set to the reset
/// values of a sensor that was reset over the bus, no operation changes a mirrored register other
/// than the data frame and the four configuration registers, nor a bit of `MOD2` other than those
/// of the update rate.
pub proof fn law_reserved_bits_are_kept<V: SensorVariant, M: MeasurementShape, E>(
    state: State,
    mode: PowerMode,
    slot: AddressSlot,
    field: u8,
    trigger_mode: TriggerMode,
    sensitivity: V::Sensitivity,
    pending: Pending,
    event: Event<E>,
)
    requires
        state.wf(),
        !(pending is ReadBack),
        !(pending is Settling),
    ensures
        keeps_reserved::<V>(state, state.power_mode_set::<V>(mode)),
        keeps_reserved::<V>(state, state.slot_set::<V>(slot)),
        keeps_reserved::<V>(state, state.rate_set::<V>(field)),
        keeps_reserved::<V>(state, state.trigger_mode_set::<V>(trigger_mode)),
        keeps_reserved::<V>(state, state.shape_set::<V, M>()),
        keeps_reserved::<V>(state, state.sensitivity_set::<V>(sensitivity)),
        keeps_reserved::<V>(state, state.resumed::<V, M, E>(pending, event).0),
{
    law_rate_field::<V>(state, field);
    lemma_resuming_keeps_reserved::<V, M, E>(state, pending, event);
}

/// The part of [`law_reserved_bits_are_kept`] on operations under way.
proof fn lemma_resuming_keeps_reserved<V: SensorVariant, M: MeasurementShape, E>(
    state: State,
    pending: Pending,
    event: Event<E>,
)
    requires
        state.wf(),
        !(pending is ReadBack),
        !(pending is Settling),
    ensures
        keeps_reserved::<V>(state, state.resumed::<V, M, E>(pending, event).0),
{
}

/// Whether the registers and bits that are not the driver's to change are the same in two states.
pub open spec fn keeps_reserved<V: SensorVariant>(before: State, after: State) -> bool {
    let mask = V::description().prd_mask;
    &&& after.reg_cache[0x13] & !mask == before.reg_cache[0x13] & !mask
    &&& forall|register: int|
        7 <= register < 0x18 && register != 0x10 && register != 0x11 && register != 0x13 && register
            != 0x14 ==> #[trigger] after.reg_cache[register] == before.reg_cache[register]
}

/// Whether the driver talks to one of the address slots, and its frame counter is one that the
/// sensor can send.
pub open spec fn is_consistent(state: State) -> bool {
    &&& exists|slot: AddressSlot| state.address == #[trigger] slot.address()
    &&& state.last_frame matches Some(frame) ==> frame <= 3
    &&& state.last_diag.frame <= 3
}

/// A new driver is consistent, of a variant that is reset over the bus or of one that is not, and
/// stays so: the start of no operation changes it, nor anything that the bus answers.
pub proof fn law_consistency_is_kept<V: SensorVariant, M: MeasurementShape, E>(
    state: State,
    mode: PowerMode,
    slot: AddressSlot,
    field: u8,
    trigger_mode: TriggerMode,
    sensitivity: V::Sensitivity,
    pending: Pending,
    event: Event<E>,
)
    requires
        is_consistent(state),
    ensures
        is_consistent(State::initial(slot, mode)),
        is_consistent(State::initial(slot, mode).read_protocol_set::<V>(slot)),
        is_consistent(state.power_mode_set::<V>(mode)),
        is_consistent(state.slot_set::<V>(slot)),
        is_consistent(state.rate_set::<V>(field)),
        is_consistent(state.trigger_mode_set::<V>(trigger_mode)),
        is_consistent(state.shape_set::<V, M>()),
        is_consistent(state.sensitivity_set::<V>(sensitivity)),
        is_consistent(state.resumed::<V, M, E>(pending, event).0),
{
    assert(State::initial(slot, mode).address == slot.address());
    if let Pending::AddressChange { slot: new_slot } = pending {
        assert(new_slot.address() == new_slot.address());
    }
}

/// Whether the mirrored `CONFIG` has the sensor measure what the shape `M` tells: temperature
/// where `DT` is clear, the Z axis where `AM` is clear.
pub open spec fn shape_agrees<M: MeasurementShape>(state: State) -> bool {
    &&& state.reg_cache[0x10] & 0x80 == M::dt_bit() * 128
    &&& state.reg_cache[0x10] & 0x40 == M::am_bit() * 64
}

/// Changing the measurement shape makes the new one agree with what is measured.
pub proof fn law_shape_change_agrees<V: SensorVariant, NewM: MeasurementShape>(state: State)
    requires
        state.wf(),
        NewM::dt_bit() <= 1,
        NewM::am_bit() <= 1,
    ensures
        shape_agrees::<NewM>(state.shape_set::<V, NewM>()),
{
    law_shape_fields::<V, NewM>(state);
}

/// A shape that agrees with what is measured goes on to agree: no other setting touches its bits,
/// nor does anything that the bus answers. Left out are the two places of the initialization that
/// put a default into `CONFIG`; see [`law_initialization_agrees_with_shape`].
pub proof fn law_shape_agreement_is_kept<V: SensorVariant, M: MeasurementShape, E>(
    state: State,
    mode: PowerMode,
    slot: AddressSlot,
    field: u8,
    trigger_mode: TriggerMode,
    sensitivity: V::Sensitivity,
    pending: Pending,
    event: Event<E>,
)
    requires
        state.wf(),
        shape_agrees::<M>(state),
        !(pending is ReadBack),
        !(pending is Settling),
    ensures
        shape_agrees::<M>(state.power_mode_set::<V>(mode)),
        shape_agrees::<M>(state.slot_set::<V>(slot)),
        shape_agrees::<M>(state.rate_set::<V>(field)),
        shape_agrees::<M>(state.trigger_mode_set::<V>(trigger_mode)),
        shape_agrees::<M>(state.sensitivity_set::<V>(sensitivity)),
        shape_agrees::<M>(state.resumed::<V, M, E>(pending, event).0),
{
    let config = state.reg_cache[0x10];
    let triggered = state.trigger_mode_set::<V>(trigger_mode).reg_cache[0x10];
    let ranged = state.sensitivity_set::<V>(sensitivity).reg_cache[0x10];
    law_trigger_field::<V>(state, trigger_mode);
    law_sensitivity_fields::<V>(state, sensitivity);
    assert(triggered & 0x80 == config & 0x80 && triggered & 0x40 == config & 0x40 && ranged & 0x80
        == config & 0x80 && ranged & 0x40 == config & 0x40) by (bit_vector)
        requires
            triggered & 0xce == config & 0xce,
            ranged & 0xf6 == config & 0xf6,
    ;
    lemma_resuming_keeps_config::<V, M, E>(state, pending, event);
}

/// Past the defaults of the initialization no answer of the bus changes the mirrored `CONFIG`.
proof fn lemma_resuming_keeps_config<V: SensorVariant, M: MeasurementShape, E>(
    state: State,
    pending: Pending,
    event: Event<E>,
)
    requires
        state.wf(),
        !(pending is ReadBack),
        !(pending is Settling),
    ensures
        state.resumed::<V, M, E>(pending, event).0.reg_cache[0x10] == state.reg_cache[0x10],
{
}

/// However far an operation gets, it leaves a shape that agrees with what is measured in
/// agreement, once the initialization has put its default into `CONFIG`.
pub proof fn law_operations_keep_shape<V: SensorVariant, M: MeasurementShape, E>(
    state: State,
    action: Action,
    pending: Pending,
    events: Seq<Event<E>>,
)
    requires
        state.wf(),
        shape_agrees::<M>(state),
        !(pending is BusReset),
        !(pending is Settling),
        !(pending is ReadProtocol),
        !(pending is ReadBack),
    ensures
        shape_agrees::<M>(run::<V, M, E>(state, Step::Perform(action, pending), events).0),
    decreases events.len(),
{
    if events.len() > 0 {
        let (next, next_step) = state.resumed::<V, M, E>(pending, events[0]);
        lemma_resuming_keeps_config::<V, M, E>(state, pending, events[0]);
        match next_step {
            Step::Finished(result) => {
                lemma_run_last::<V, M, E>(state, action, pending, events, next, result);
            },
            Step::Perform(next_action, next_pending) => {
                law_operations_go_on_soundly::<V, M, E>(state, pending, events[0]);
                law_operations_keep_shape::<V, M, E>(
                    next,
                    next_action,
                    next_pending,
                    events.drop_first(),
                );
            },
        }
    }
}

/// A driver is created with the shape of all four samples, and both ways to initialize the sensor
/// make this shape agree with what is measured, where the reset value of `CONFIG` does.
pub proof fn law_initialization_agrees_with_shape<V: SensorVariant, E>(
    slot: AddressSlot,
    power_mode: PowerMode,
    data: [u8; TRANSFER_LEN],
    reset_events: Seq<Event<E>>,
    read_back_events: Seq<Event<E>>,
)
    requires
        V::description().reset_config & 0xc0 == 0,
        reset_events.len() == 7,
        reset_events[5] is Completed,
        reset_events[6] is Completed,
        read_back_events.len() == 5,
        read_back_events[0] is Completed,
        read_back_events[1] == Event::<E>::Completed(data),
        read_back_events[2] is Completed,
        read_back_events[3] is Completed,
        read_back_events[4] is Completed,
    ensures
        shape_agrees::<BxByBzTemp>(
            run::<V, BxByBzTemp, E>(
                State::initial(slot, power_mode),
                Step::Perform(reset_action(0), Pending::BusReset { sent: 1, power_mode }),
                reset_events,
            ).0,
        ),
        shape_agrees::<BxByBzTemp>(
            run::<V, BxByBzTemp, E>(
                State::initial(slot, power_mode).read_protocol_set::<V>(slot),
                State::initial(slot, power_mode).read_protocol_set::<V>(slot).write_request(
                    REG_MOD1,
                    Pending::ReadProtocol { power_mode },
                ),
                read_back_events,
            ).0,
        ),
{
    law_initialization_with_bus_reset::<V, BxByBzTemp, E>(slot, power_mode, reset_events);
    law_initialization_with_read_back::<V, BxByBzTemp, E>(
        slot,
        power_mode,
        data,
        read_back_events,
    );
    let reset_config = V::description().reset_config;
    let read = State::initial(slot, power_mode).read_protocol_set::<V>(slot).loaded(data@);
    lemma_stored_config::<V>(read, reset_config);
    let stored = read.with_config::<V>(reset_config).reg_cache[0x10];
    assert(reset_config & 0x80 == 0 && reset_config & 0x40 == 0 && stored & 0x80 == 0 && stored
        & 0x40 == 0) by (bit_vector)
        requires
            reset_config & 0xc0 == 0,
            stored & 0xfe == reset_config & 0xfe,
    ;
}

/// A frame is accepted if and only if nothing is wrong with it and its counter differs from that
/// of the last accepted frame. A rejected frame leaves the counter and the flags of the last
/// accepted one in place; those of an accepted frame replace them.
pub proof fn law_frame_acceptance<M: MeasurementShape, E>(state: State, frame: Seq<u8>)
    ensures
        ({
            let (next, result) = state.frame_received::<M, E>(frame);
            let diag = Diagnostics::of_byte(frame[6]);
            let fault = frame_fault::<E>(state.power_mode, M::dt_bit() == 0, frame, diag);
            &&& result is Ok <==> fault is None && state.last_frame != Some(diag.frame)
            &&& result is Ok ==> next.last_frame == Some(diag.frame) && next.last_diag == diag
            &&& result is Err ==> next.last_frame == state.last_frame && next.last_diag
                == state.last_diag
        }),
{
}

/// The flags and the counter of the last accepted frame change only where a frame is accepted:
/// then the step ends the operation with its samples, and they are those of this frame. Nothing
/// else that the bus answers changes them, and the start of an operation never does.
pub proof fn law_flags_change_only_by_reading<V: SensorVariant, M: MeasurementShape, E>(
    state: State,
    mode: PowerMode,
    slot: AddressSlot,
    field: u8,
    trigger_mode: TriggerMode,
    sensitivity: V::Sensitivity,
    pending: Pending,
    event: Event<E>,
)
    ensures
        keeps_flags(state, state.power_mode_set::<V>(mode)),
        keeps_flags(state, state.slot_set::<V>(slot)),
        keeps_flags(state, state.rate_set::<V>(field)),
        keeps_flags(state, state.trigger_mode_set::<V>(trigger_mode)),
        keeps_flags(state, state.shape_set::<V, M>()),
        keeps_flags(state, state.sensitivity_set::<V>(sensitivity)),
        ({
            let (next, step) = state.resumed::<V, M, E>(pending, event);
            if step matches Step::Finished(Ok(Outcome::Measured(_))) {
                &&& pending is Frame
                &&& event matches Event::Completed(data)
                &&& next.last_diag == Diagnostics::of_byte(data[6])
                &&& next.last_frame == Some(next.last_diag.frame)
            } else {
                keeps_flags(state, next)
            }
        }),
{
}

/// Whether the flags and the counter of the last accepted frame are the same in two states.
pub open spec fn keeps_flags(before: State, after: State) -> bool {
    &&& after.last_diag == before.last_diag
    &&& after.last_frame == before.last_frame
}

/// An operation that does not end with a reading leaves the flags and the counter of the last
/// accepted frame as they were, however far it gets.
pub proof fn law_only_readings_replace_flags<V: SensorVariant, M: MeasurementShape, E>(
    state: State,
    step: Step<E>,
    events: Seq<Event<E>>,
)
    requires
        !(run::<V, M, E>(state, step, events).2 matches Some(Ok(Outcome::Measured(_)))),
    ensures
        keeps_flags(state, run::<V, M, E>(state, step, events).0),
    decreases events.len(),
{
    if let Step::Perform(_, pending) = step {
        if events.len() > 0 {
            let (next, next_step) = state.resumed::<V, M, E>(pending, events[0]);
            law_only_readings_replace_flags::<V, M, E>(next, next_step, events.drop_first());
        }
    }
}

/// A frame whose counter has not moved on since an accepted frame is never accepted; where nothing
/// else is wrong with it, it is reported as a lockup.
pub proof fn law_stalled_counter_is_reported<M: MeasurementShape, E>(
    state: State,
    first: Seq<u8>,
    second: Seq<u8>,
)
    requires
        state.frame_received::<M, E>(first).1 is Ok,
        Diagnostics::of_byte(second[6]).frame == Diagnostics::of_byte(first[6]).frame,
    ensures
        ({
            let (after, _) = state.frame_received::<M, E>(first);
            let diag = Diagnostics::of_byte(second[6]);
            let fault = frame_fault::<E>(state.power_mode, M::dt_bit() == 0, second, diag);
            after.frame_received::<M, E>(second).1 == Err::<RawReading, Error<E>>(
                match fault {
                    Some(fault) => fault,
                    None => Error::AdcLockup,
                },
            )
        }),
{
}

/// A single wrong bit in the payload of a frame is noticed: where the parity held, it does not
/// hold with the bit inverted.
pub proof fn law_single_bit_errors_are_noticed(frame: Seq<u8>, p: bool, index: int, i: u8)
    requires
        frame.len() == FRAME_LEN,
        0 <= index < 6,
        i < 8,
    ensures
        bus_parity_holds(frame.update(index, frame[index] ^ (1u8 << i)), p) != bus_parity_holds(
            frame,
            p,
        ),
        bus_parity_holds(frame, !p) != bus_parity_holds(frame, p),
{
    lemma_flip_bit_ones(frame[index], i);
}

} // verus!
