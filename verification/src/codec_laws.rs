//! What holds of the bits on the wire.
//!
//! The laws relate the encodings of the register map to plain numbers: values and bytes, by
//! arithmetic alone.

use vstd::arithmetic::div_mod::{lemma_fundamental_div_mod, lemma_mod_multiples_vanish};
use vstd::arithmetic::power2::{lemma2_to64, lemma_pow2_pos, lemma_pow2_unfold, pow2};
use vstd::prelude::*;

use crate::bits::{
    bit, lemma_folded_ones, lemma_halved_ones, lemma_xor_ones, ones, twos_complement, with_field,
    with_flag,
};
use crate::register::{
    bus_parity_holds, config_parity_holds, frame_reading, fuse_parity_holds,
    lemma_with_config_parity, lemma_with_fuse_parity, with_config_parity, with_fuse_parity,
};
use crate::types::{
    A2B6Sensitivity, AddressSlot, Diagnostics, MeasurementMode, PowerMode, RawReading, TriggerMode,
    UpdateRate, W2BWSensitivity,
};
use crate::variant::{
    BxBy, BxByBz, BxByBzTemp, MeasurementShape, SensorVariant, VariantSensitivity, A2B6, W2BW,
};

verus! {

/// Whether the exclusive or of all bits of a byte is 1.
pub open spec fn folds_to_one(byte: u8) -> bool {
    (byte ^ (byte >> 1) ^ (byte >> 2) ^ (byte >> 3) ^ (byte >> 4) ^ (byte >> 5) ^ (byte >> 6) ^ (
    byte >> 7)) & 1 == 1
}

/// The number of set bits of a byte is that of its half and its lowest bit together; no bit of
/// zero is set.
pub proof fn law_ones_by_halving(byte: u8)
    ensures
        ones(byte) == ones((byte / 2) as u8) + byte % 2,
        ones(0) == 0,
{
    lemma_halved_ones(byte);
}

/// The lowest bit of a byte tells whether it is odd, and every other bit is the one below it in
/// the half of the byte.
pub proof fn law_bits_by_halving(byte: u8, i: u8)
    requires
        i < 7,
    ensures
        bit(byte, 0) == (byte % 2 == 1),
        bit(byte, (i + 1) as u8) == bit((byte / 2) as u8, i),
{
    let half = (byte / 2) as u8;
    let next = (i + 1) as u8;
    assert(((byte >> 0) & 1 == 1) == (byte % 2 == 1) && (byte >> next) & 1 == (half >> i) & 1)
        by (bit_vector)
        requires
            half == byte / 2,
            next == i + 1,
            i < 7,
    ;
}

/// A replaced field holds the new value, and a replaced flag its new state; the other bits are
/// those from before.
pub proof fn law_replacement(orig: u8, mask: u8, shift: u8, value: u8, enabled: bool)
    ensures
        with_field(orig, mask, shift, value) & mask == (value << shift) & mask,
        with_field(orig, mask, shift, value) & !mask == orig & !mask,
        with_flag(orig, mask, enabled) & mask == if enabled {
            mask
        } else {
            0
        },
        with_flag(orig, mask, enabled) & !mask == orig & !mask,
{
    let moved = value << shift;
    assert(((orig & !mask) | (moved & mask)) & mask == moved & mask && ((orig & !mask) | (moved
        & mask)) & !mask == orig & !mask && (orig | mask) & mask == mask && (orig & !mask) & mask
        == 0 && (orig | mask) & !mask == orig & !mask && (orig & !mask) & !mask == orig & !mask)
        by (bit_vector);
}

/// A number read in two's complement has the width that was asked for, and differs from the bits
/// it was read from by a multiple of the power of two beyond that width.
pub proof fn law_twos_complement(bits: nat, value: int)
    requires
        bits >= 1,
    ensures
        -pow2((bits - 1) as nat) <= twos_complement(bits, value) < pow2((bits - 1) as nat),
        (twos_complement(bits, value) - value) % (pow2(bits) as int) == 0,
{
    let whole = pow2(bits) as int;
    lemma_pow2_pos(bits);
    lemma_pow2_unfold(bits);
    lemma_fundamental_div_mod(value, whole);
    let low = value % whole;
    let quotient = value / whole;
    let factor = if twos_complement(bits, value) == low {
        -quotient
    } else {
        -quotient - 1
    };
    assert(twos_complement(bits, value) - value == whole * factor) by (nonlinear_arith)
        requires
            value == whole * quotient + low,
            twos_complement(bits, value) == low && factor == -quotient || twos_complement(
                bits,
                value,
            ) == low - whole && factor == -quotient - 1,
    ;
    lemma_mod_multiples_vanish(factor, 0, whole);
}

/// The diagnostic flags are the bits of their byte: put back in their places they give it again.
pub proof fn law_diagnostics_make_up_the_byte(diag: u8)
    ensures
        ({
            let flags = Diagnostics::of_byte(diag);
            &&& flags.frame <= 3
            &&& diag == (if flags.p {
                128int
            } else {
                0
            }) + (if flags.ff {
                64int
            } else {
                0
            }) + (if flags.cf {
                32int
            } else {
                0
            }) + (if flags.t {
                16int
            } else {
                0
            }) + (if flags.pd3 {
                8int
            } else {
                0
            }) + (if flags.pd0 {
                4int
            } else {
                0
            }) + flags.frame
        }),
{
    assert(diag == ((diag >> 7) & 1) * 128 + ((diag >> 6) & 1) * 64 + ((diag >> 5) & 1) * 32 + ((
    diag >> 4) & 1) * 16 + ((diag >> 3) & 1) * 8 + ((diag >> 2) & 1) * 4 + diag % 4)
        by (bit_vector);
    assert(forall|i: u8| #[trigger] ((diag >> i) & 1) <= 1) by (bit_vector);
}

/// Every sample of a frame is a number of 12 bits, or 10 for the temperature, and congruent to the
/// bits that the frame holds of it.
pub proof fn law_samples_are_the_bits_of_the_frame(frame: Seq<u8>)
    ensures
        ({
            let raw = frame_reading(frame);
            &&& -2048 <= raw.x < 2048
            &&& -2048 <= raw.y < 2048
            &&& -2048 <= raw.z < 2048
            &&& -512 <= raw.temp < 512
            &&& (raw.x - (frame[0] * 16 + frame[4] / 16)) % 4096 == 0
            &&& (raw.y - (frame[1] * 16 + frame[4] % 16)) % 4096 == 0
            &&& (raw.z - (frame[2] * 16 + frame[5] % 16)) % 4096 == 0
            &&& (raw.temp - (frame[3] * 4 + frame[5] / 64)) % 1024 == 0
        }),
{
    lemma2_to64();
    law_twos_complement(12, frame[0] * 16 + frame[4] / 16);
    law_twos_complement(12, frame[1] * 16 + frame[4] % 16);
    law_twos_complement(12, frame[2] * 16 + frame[5] % 16);
    law_twos_complement(10, frame[3] * 4 + frame[5] / 64);
}

/// The sign of a sample is the highest bit of its first byte.
pub proof fn law_signs_are_the_highest_bits(frame: Seq<u8>)
    ensures
        frame_reading(frame).x < 0 <==> frame[0] >= 128,
        frame_reading(frame).y < 0 <==> frame[1] >= 128,
        frame_reading(frame).z < 0 <==> frame[2] >= 128,
        frame_reading(frame).temp < 0 <==> frame[3] >= 128,
{
    law_samples_are_the_bits_of_the_frame(frame);
}

/// Decoding undoes packing: samples that are put into a frame, their high bits into the first four
/// bytes and their low bits into the next two, come out of it again. The two bits of byte 5 that
/// belong to no sample do not matter.
pub proof fn law_decoding_undoes_packing(
    x: int,
    y: int,
    z: int,
    temp: int,
    spare: int,
    frame: Seq<u8>,
)
    requires
        -2048 <= x < 2048,
        -2048 <= y < 2048,
        -2048 <= z < 2048,
        -512 <= temp < 512,
        0 <= spare < 4,
        frame[0] == (x % 4096) / 16,
        frame[1] == (y % 4096) / 16,
        frame[2] == (z % 4096) / 16,
        frame[3] == (temp % 1024) / 4,
        frame[4] == (x % 16) * 16 + y % 16,
        frame[5] == (temp % 4) * 64 + spare * 16 + z % 16,
    ensures
        frame_reading(frame) == (RawReading {
            x: x as i16,
            y: y as i16,
            z: z as i16,
            temp: temp as i16,
        }),
{
    law_samples_are_the_bits_of_the_frame(frame);
    lemma_packed_parts(x % 16, y % 16);
    lemma_packed_parts((temp % 4) * 4 + spare, z % 16);
    lemma_packed_field_sample(x, frame_reading(frame).x as int);
    lemma_packed_field_sample(y, frame_reading(frame).y as int);
    lemma_packed_field_sample(z, frame_reading(frame).z as int);
    let raw_temp = frame_reading(frame).temp as int;
    assert(frame[5] / 64 == temp % 4);
    assert(((temp % 1024) / 4) * 4 + temp % 4 == temp % 1024);
    assert((raw_temp - temp % 1024) % 1024 == 0);
    assert(raw_temp == temp);
}

/// Two numbers of four bits in one byte.
proof fn lemma_packed_parts(high: int, low: int)
    requires
        0 <= high < 16,
        0 <= low < 16,
    ensures
        (high * 16 + low) / 16 == high,
        (high * 16 + low) % 16 == low,
{
}

/// A field sample is the only number of 12 bits that is congruent to its two parts.
proof fn lemma_packed_field_sample(value: int, sample: int)
    requires
        -2048 <= value < 2048,
        -2048 <= sample < 2048,
        (sample - (((value % 4096) / 16) * 16 + value % 16)) % 4096 == 0,
    ensures
        sample == value,
{
    assert(((value % 4096) / 16) * 16 + value % 16 == value % 4096);
}

/// The fuse parity: the parity bit is chosen so that the exclusive or over all bits of `MOD1` and
/// the masked bits of `MOD2` is 1, and it alone is chosen.
pub proof fn law_fuse_parity_folds_to_one(mod1: u8, mod2: u8, mask: u8)
    ensures
        folds_to_one(with_fuse_parity(mod1, mod2, mask) ^ (mod2 & mask)),
        with_fuse_parity(mod1, mod2, mask) & 0x7f == mod1 & 0x7f,
        fuse_parity_holds(mod1, mod2, mask) <==> folds_to_one(mod1 ^ (mod2 & mask)),
{
    let stored = with_fuse_parity(mod1, mod2, mask);
    lemma_with_fuse_parity(mod1, mod2, mask);
    lemma_xor_ones(stored, mod2 & mask);
    lemma_folded_ones(stored ^ (mod2 & mask));
    lemma_xor_ones(mod1, mod2 & mask);
    lemma_folded_ones(mod1 ^ (mod2 & mask));
}

/// The configuration parity: the parity bit is chosen so that the exclusive or over all bits of
/// `CONFIG` is 1 where the parity is odd and 0 where it is even, and it alone is chosen.
pub proof fn law_config_parity_folds(config: u8, odd: bool)
    ensures
        folds_to_one(with_config_parity(config, odd)) == odd,
        with_config_parity(config, odd) & 0xfe == config & 0xfe,
        config_parity_holds(config, odd) <==> folds_to_one(config) == odd,
{
    lemma_with_config_parity(config, odd);
    lemma_folded_ones(with_config_parity(config, odd));
    lemma_folded_ones(config);
}

/// The bus parity: the parity flag is set if and only if the exclusive or over all bits of the six
/// payload bytes is 0.
pub proof fn law_bus_parity_folds(frame: Seq<u8>, p: bool)
    ensures
        bus_parity_holds(frame, p) <==> p != folds_to_one(
            frame[0] ^ frame[1] ^ frame[2] ^ frame[3] ^ frame[4] ^ frame[5],
        ),
{
    let (f0, f1, f2, f3, f4, f5) = (frame[0], frame[1], frame[2], frame[3], frame[4], frame[5]);
    lemma_payload_ones(f0, f1, f2, f3, f4, f5);
    let payload = f0 ^ f1 ^ f2 ^ f3 ^ f4 ^ f5;
    lemma_folded_ones(payload);
}

/// The exclusive or of the payload has an odd number of set bits where the payload has.
proof fn lemma_payload_ones(f0: u8, f1: u8, f2: u8, f3: u8, f4: u8, f5: u8)
    ensures
        ones(f0 ^ f1 ^ f2 ^ f3 ^ f4 ^ f5) % 2 == (ones(f0) + ones(f1) + ones(f2) + ones(f3) + ones(
            f4,
        ) + ones(f5)) % 2,
{
    lemma_xor_ones(f0, f1);
    lemma_xor_ones(f0 ^ f1, f2);
    lemma_xor_ones(f0 ^ f1 ^ f2, f3);
    lemma_xor_ones(f0 ^ f1 ^ f2 ^ f3, f4);
    lemma_xor_ones(f0 ^ f1 ^ f2 ^ f3 ^ f4, f5);
}

/// The codes of the settings, as the sensor's register map gives them.
pub proof fn law_setting_codes(
    slot: AddressSlot,
    power: PowerMode,
    measurement: MeasurementMode,
    trigger: TriggerMode,
)
    ensures
        slot is A0 ==> slot.number() == 0 && slot.address() == 0x35,
        slot is A1 ==> slot.number() == 1 && slot.address() == 0x22,
        slot is A2 ==> slot.number() == 2 && slot.address() == 0x78,
        slot is A3 ==> slot.number() == 3 && slot.address() == 0x44,
        power is LowPower ==> power.field() == 0,
        power is MasterControlled ==> power.field() == 1,
        power is Fast ==> power.field() == 3,
        measurement is BxByBzTemp ==> measurement.dt() == 0 && measurement.am() == 0,
        measurement is BxByBz ==> measurement.dt() == 1 && measurement.am() == 0,
        measurement is BxBy ==> measurement.dt() == 1 && measurement.am() == 1,
        trigger is NoTrigger ==> trigger.field() == 0,
        trigger is BeforeFirstMsb ==> trigger.field() == 1,
        trigger is AfterReg05 ==> trigger.field() == 2,
        BxByBzTemp::dt_bit() == 0 && BxByBzTemp::am_bit() == 0,
        BxByBz::dt_bit() == 1 && BxByBz::am_bit() == 0,
        BxBy::dt_bit() == 1 && BxBy::am_bit() == 1,
{
}

/// The range bits of a sensitivity and the scale it stands for: each bit that is set doubles the
/// scale, and only the W2BW has the second one.
pub proof fn law_range_bits_double_the_scale(a: A2B6Sensitivity, w: W2BWSensitivity)
    ensures
        a is Full ==> !a.x2_flag() && a.multiplier() == 1,
        a is Short ==> a.x2_flag() && a.multiplier() == 2,
        !a.x4_flag(),
        w is Full ==> !w.x2_flag() && !w.x4_flag() && w.multiplier() == 1,
        w is Short ==> w.x2_flag() && !w.x4_flag() && w.multiplier() == 2,
        w is ExtraShort ==> w.x2_flag() && w.x4_flag() && w.multiplier() == 4,
{
}

/// The properties of the two variants. In both the slow update rate sets bit 7 of `MOD2` and the
/// fast one clears it.
pub proof fn law_variant_properties(rate: UpdateRate)
    ensures
        !A2B6::description().has_x4,
        A2B6::description().skip_reset_sequence,
        !A2B6::description().wakeup_config_parity,
        A2B6::description().prd_mask == 0x80 && A2B6::description().prd_shift == 7,
        A2B6::description().reset_config == 0x00 && A2B6::description().reset_config2 == 0x00,
        A2B6::description().reset_mod1 == 0x00 && A2B6::description().reset_mod2 == 0x00,
        W2BW::description().has_x4,
        !W2BW::description().skip_reset_sequence,
        W2BW::description().wakeup_config_parity,
        W2BW::description().prd_mask == 0x80 && W2BW::description().prd_shift == 7,
        W2BW::description().reset_config == 0x01 && W2BW::description().reset_config2 == 0x00,
        W2BW::description().reset_mod1 == 0x80 && W2BW::description().reset_mod2 == 0x00,
        rate is Slow ==> A2B6::rate_field(rate) == Some(1u8) && W2BW::rate_field(rate) == Some(1u8),
        rate is Fast ==> A2B6::rate_field(rate) == Some(0u8) && W2BW::rate_field(rate) == Some(0u8),
{
}

} // verus!
