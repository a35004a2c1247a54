//! The register map: addresses, fields, parity bits and the data frame.

use vstd::arithmetic::power2::{lemma2_to64, lemma_pow2_unfold, pow2};
use vstd::bits::lemma_u32_shl_is_mul;
use vstd::prelude::*;

use crate::bits::{
    bit, count_ones, lemma_set_bit_ones, lemma_with_field_bits, lemma_with_flag_bits,
    lemma_xor_ones, ones, twos_complement, with_field, with_flag,
};
use crate::codec_laws::law_samples_are_the_bits_of_the_frame;
use crate::types::{Diagnostics, RawReading};

verus! {

/// Register `CONFIG`.
pub const REG_CONFIG: usize = 0x10;

/// Register `MOD1`.
pub const REG_MOD1: usize = 0x11;

/// Register `MOD2`.
pub const REG_MOD2: usize = 0x13;

/// Register `CONFIG2`.
pub const REG_CONFIG2: usize = 0x14;

/// Number of registers that the driver mirrors.
pub const REG_CACHE_LEN: usize = 0x18;

/// Number of bytes in a data frame: registers `0x00` to `0x06`.
pub const FRAME_LEN: usize = 7;

/// `MOD1` with its fuse parity bit (bit 7) chosen so that the number of set bits in `MOD1` and
/// in the bits of `MOD2` under `mod2_prd_mask` is odd.
pub open spec fn with_fuse_parity(mod1: u8, mod2: u8, mod2_prd_mask: u8) -> u8 {
    with_flag(mod1, 0x80, (ones(mod1 & 0x7f) + ones(mod2 & mod2_prd_mask)) % 2 == 0)
}

/// Whether the fuse parity over `MOD1` and the `PRD` bits of `MOD2` is odd, as the sensor wants.
pub open spec fn fuse_parity_holds(mod1: u8, mod2: u8, mod2_prd_mask: u8) -> bool {
    (ones(mod1) + ones(mod2 & mod2_prd_mask)) % 2 == 1
}

/// `CONFIG` with its parity bit (bit 0) chosen so that the number of set bits is odd where
/// `wakeup_odd_parity` holds and even where it does not.
pub open spec fn with_config_parity(config: u8, wakeup_odd_parity: bool) -> u8 {
    with_flag(config, 0x01, (ones(config & 0xfe) % 2 == 1) != wakeup_odd_parity)
}

/// Whether the parity over `CONFIG` is the one that the sensor wants.
pub open spec fn config_parity_holds(config: u8, wakeup_odd_parity: bool) -> bool {
    (ones(config) % 2 == 1) == wakeup_odd_parity
}

/// The raw values that the registers of a data frame hold: three 12-bit field samples and a
/// 10-bit temperature sample, each in two's complement, their low bits packed into registers
/// `0x04` and `0x05`.
pub open spec fn frame_reading(frame: Seq<u8>) -> RawReading {
    RawReading {
        x: twos_complement(12, frame[0] * 16 + frame[4] / 16) as i16,
        y: twos_complement(12, frame[1] * 16 + frame[4] % 16) as i16,
        z: twos_complement(12, frame[2] * 16 + frame[5] % 16) as i16,
        temp: twos_complement(10, frame[3] * 4 + frame[5] / 64) as i16,
    }
}

/// Whether the parity flag fits the payload of a frame: together they have an odd number of set
/// bits.
pub open spec fn bus_parity_holds(frame: Seq<u8>, p: bool) -> bool {
    (ones(frame[0]) + ones(frame[1]) + ones(frame[2]) + ones(frame[3]) + ones(frame[4]) + ones(
        frame[5],
    ) + if p {
        1int
    } else {
        0int
    }) % 2 == 1
}

/// Replaces the bits of `mask` in `orig` by `value`, moved left by `shift`.
pub fn set_bits(orig: u8, mask: u8, shift: u8, value: u8) -> (r: u8)
    requires
        shift < 8,
    ensures
        r == with_field(orig, mask, shift, value),
        forall|i: u8|
            i < 8 ==> #[trigger] bit(r, i) == (if bit(mask, i) {
                i >= shift && bit(value, (i - shift) as u8)
            } else {
                bit(orig, i)
            }),
{
    broadcast use lemma_with_field_bits;

    let r: u8 = (orig & !mask) | ((value << shift) & mask);
    assert(r == with_field(orig, mask, shift, value));
    r
}

/// Sets or clears the bits of `mask` in `orig`.
pub fn set_bit(orig: u8, mask: u8, enabled: bool) -> (r: u8)
    ensures
        r == with_flag(orig, mask, enabled),
        forall|i: u8|
            i < 8 ==> #[trigger] bit(r, i) == (if bit(mask, i) {
                enabled
            } else {
                bit(orig, i)
            }),
{
    broadcast use lemma_with_flag_bits;

    let r: u8 = if enabled {
        orig | mask
    } else {
        orig & !mask
    };
    assert(r == with_flag(orig, mask, enabled));
    r
}

/// Splits a data frame into the raw samples and the diagnostic flags.
pub fn decode_data_frame(frame: &[u8; 7]) -> (r: (RawReading, Diagnostics))
    ensures
        r.0 == frame_reading(frame@),
        -2048 <= r.0.x < 2048,
        -2048 <= r.0.y < 2048,
        -2048 <= r.0.z < 2048,
        -512 <= r.0.temp < 512,
        (r.0.x - (frame@[0] * 16 + frame@[4] / 16)) % 4096 == 0,
        (r.0.y - (frame@[1] * 16 + frame@[4] % 16)) % 4096 == 0,
        (r.0.z - (frame@[2] * 16 + frame@[5] % 16)) % 4096 == 0,
        (r.0.temp - (frame@[3] * 4 + frame@[5] / 64)) % 1024 == 0,
        r.1 == Diagnostics::of_byte(frame@[6]),
{
    let (f0, f1, f2, f3, f4, f5): (u8, u8, u8, u8, u8, u8) = (
        frame[0],
        frame[1],
        frame[2],
        frame[3],
        frame[4],
        frame[5],
    );
    assert(((f0 as u16) << 4) | ((f4 as u16) >> 4) == f0 * 16 + f4 / 16 && ((f1 as u16) << 4) | ((
    f4 as u16) & 0x0f) == f1 * 16 + f4 % 16 && ((f2 as u16) << 4) | ((f5 as u16) & 0x0f) == f2 * 16
        + f5 % 16 && ((f3 as u16) << 2) | (((f5 as u16) >> 6) & 0x03) == f3 * 4 + f5 / 64)
        by (bit_vector);
    proof {
        lemma2_to64();
        law_samples_are_the_bits_of_the_frame(frame@);
    }
    let x: i16 = sign_extend(12, ((f0 as u16) << 4) | ((f4 as u16) >> 4));
    let y: i16 = sign_extend(12, ((f1 as u16) << 4) | ((f4 as u16) & 0x0f));
    let z: i16 = sign_extend(12, ((f2 as u16) << 4) | ((f5 as u16) & 0x0f));
    let temp: i16 = sign_extend(10, ((f3 as u16) << 2) | (((f5 as u16) >> 6) & 0x03));
    (RawReading { x, y, z, temp }, Diagnostics::from_diag_byte(frame[6]))
}

/// Computes the fuse parity bit of `MOD1`.
pub fn calculate_fuse_parity(mod1: u8, mod2: u8, mod2_prd_mask: u8) -> (r: bool)
    ensures
        r == ((ones(mod1 & 0x7f) + ones(mod2 & mod2_prd_mask)) % 2 == 0),
{
    let parity: u8 = (mod1 & !0x80) ^ (mod2 & mod2_prd_mask);
    assert(!0x80u8 == 0x7fu8) by (bit_vector);
    proof {
        lemma_xor_ones(mod1 & 0x7f, mod2 & mod2_prd_mask);
    }
    count_ones(parity) % 2 == 0
}

/// Sets the fuse parity bit of `MOD1`. Its other bits are kept, and the parity then holds.
pub fn set_fuse_parity(mod1: u8, mod2: u8, mod2_prd_mask: u8) -> (r: u8)
    ensures
        r == with_fuse_parity(mod1, mod2, mod2_prd_mask),
        r & 0x7f == mod1 & 0x7f,
        fuse_parity_holds(r, mod2, mod2_prd_mask),
{
    proof {
        lemma_with_fuse_parity(mod1, mod2, mod2_prd_mask);
    }
    set_bit(mod1, 0x80, calculate_fuse_parity(mod1, mod2, mod2_prd_mask))
}

/// Sets the parity bit of `CONFIG`. Its other bits are kept, and the parity then holds.
pub fn set_config_parity(config: u8, wakeup_odd_parity: bool) -> (r: u8)
    ensures
        r == with_config_parity(config, wakeup_odd_parity),
        r & 0xfe == config & 0xfe,
        config_parity_holds(r, wakeup_odd_parity),
{
    assert(!0x01u8 == 0xfeu8) by (bit_vector);
    proof {
        lemma_with_config_parity(config, wakeup_odd_parity);
    }
    let data_has_odd_ones: bool = count_ones(config & !0x01) % 2 == 1;
    let parity: bool = if wakeup_odd_parity {
        !data_has_odd_ones
    } else {
        data_has_odd_ones
    };
    set_bit(config, 0x01, parity)
}

/// Checks the parity flag of a frame against its payload.
pub fn has_valid_bus_parity(frame: &[u8; 7], diag: Diagnostics) -> (r: bool)
    ensures
        r == bus_parity_holds(frame@, diag.p),
{
    let payload_xor: u8 = frame[0] ^ frame[1] ^ frame[2] ^ frame[3] ^ frame[4] ^ frame[5];
    proof {
        let (f0, f1, f2, f3, f4) = (frame@[0], frame@[1], frame@[2], frame@[3], frame@[4]);
        lemma_xor_ones(f0, f1);
        lemma_xor_ones(f0 ^ f1, f2);
        lemma_xor_ones(f0 ^ f1 ^ f2, f3);
        lemma_xor_ones(f0 ^ f1 ^ f2 ^ f3, f4);
        lemma_xor_ones(f0 ^ f1 ^ f2 ^ f3 ^ f4, frame@[5]);
    }
    let expected_p: bool = count_ones(payload_xor) % 2 == 0;
    expected_p == diag.p
}

/// Reads the low `bits` bits of `value` as a number in two's complement.
pub fn sign_extend(bits: u8, value: u16) -> (r: i16)
    requires
        1 <= bits <= 16,
    ensures
        r == twos_complement(bits as nat, value as int),
        -pow2((bits - 1) as nat) <= r < pow2((bits - 1) as nat),
{
    let shift: u8 = 16 - bits;
    let r: i16 = ((value << shift) as i16) >> shift;
    proof {
        let whole: u32 = 1u32 << bits;
        let half: u32 = 1u32 << ((bits - 1) as u8);
        let less: u8 = (bits - 1) as u8;
        let low: u32 = value as u32 % whole;
        assert(whole > 0 && (if low >= half {
            r == low - whole
        } else {
            r == low
        }) && low < whole && whole == 2 * half) by (bit_vector)
            requires
                1 <= bits <= 16,
                shift == 16 - bits,
                less == bits - 1,
                r == ((value << shift) as i16) >> shift,
                whole == 1u32 << bits,
                half == 1u32 << less,
                low == value as u32 % whole,
        ;
        lemma2_to64();
        lemma_pow2_small(bits as nat);
        lemma_pow2_small(less as nat);
        lemma_u32_shl_is_mul(1, bits as u32);
        lemma_u32_shl_is_mul(1, less as u32);
    }
    r
}

/// The powers of two that a 16-bit value can be reduced by fit in 32 bits.
proof fn lemma_pow2_small(n: nat)
    requires
        n <= 16,
    ensures
        0 < pow2(n) <= 0x10000,
    decreases n,
{
    lemma2_to64();
    if n > 0 {
        lemma_pow2_unfold(n);
        lemma_pow2_small((n - 1) as nat);
    }
}

/// A refreshed fuse parity bit makes the parity hold and keeps the other bits.
pub proof fn lemma_with_fuse_parity(mod1: u8, mod2: u8, mod2_prd_mask: u8)
    ensures
        fuse_parity_holds(with_fuse_parity(mod1, mod2, mod2_prd_mask), mod2, mod2_prd_mask),
        with_fuse_parity(mod1, mod2, mod2_prd_mask) & 0x7f == mod1 & 0x7f,
{
    let data = mod1 & 0x7f;
    assert(data | (1u8 << 7) == mod1 | 0x80 && (data >> 7) & 1 != 1 && (mod1 | 0x80) & 0x7f == data
        && mod1 & !0x80u8 == data && data & 0x7f == data) by (bit_vector)
        requires
            data == mod1 & 0x7f,
    ;
    lemma_set_bit_ones(data, 7);
}

/// A refreshed configuration parity bit makes the parity hold and keeps the other bits.
pub proof fn lemma_with_config_parity(config: u8, wakeup_odd_parity: bool)
    ensures
        config_parity_holds(with_config_parity(config, wakeup_odd_parity), wakeup_odd_parity),
        with_config_parity(config, wakeup_odd_parity) & 0xfe == config & 0xfe,
{
    let data = config & 0xfe;
    assert(data | (1u8 << 0) == config | 0x01 && (data >> 0) & 1 != 1 && (config | 0x01) & 0xfe
        == data && config & !0x01u8 == data && data & 0xfe == data) by (bit_vector)
        requires
            data == config & 0xfe,
    ;
    lemma_set_bit_ones(data, 0);
}

} // verus!
