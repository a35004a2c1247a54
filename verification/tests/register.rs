use tli493d::bits::count_ones;
use tli493d::register::{
    calculate_fuse_parity, decode_data_frame, has_valid_bus_parity, set_bit, set_bits,
    set_config_parity, set_fuse_parity, sign_extend,
};
use tli493d::types::{
    AddressSlot, Diagnostics, MeasurementMode, PowerMode, TriggerMode, UpdateRate,
};

#[test]
fn decode_frame_sign_extension() {
    let frame = [0xf0, 0x10, 0x80, 0x50, 0xa5, 0x8c, 0x13];
    let (raw, diag) = decode_data_frame(&frame);

    assert_eq!(raw.x, -246);
    assert_eq!(raw.y, 261);
    assert_eq!(raw.z, -2036);
    assert_eq!(raw.temp, 322);
    assert_eq!(diag.frame, 0x03);
}

#[test]
fn fuse_parity_bit_updates_mod1() {
    let mod1 = 0x12;
    let mod2 = 0x80;
    let out = set_fuse_parity(mod1, mod2, 0x80);

    let parity = out ^ (mod2 & 0x80);
    assert_eq!(parity.count_ones() % 2, 1);
}

// Fuse parity is ODD over MOD1 (all bits incl. FP) and MOD2 bit 7 (PRD).
// Exhaustively check the invariant.
#[test]
fn fuse_parity_is_odd_over_mod1_and_mod2_prd() {
    for mod1 in 0u8..=0xFF {
        for &mod2 in &[0x00u8, 0x01, 0x80, 0x81] {
            let out = set_fuse_parity(mod1, mod2, 0x80);
            let total_ones = out.count_ones() + (mod2 & 0x80).count_ones();
            assert_eq!(total_ones % 2, 1, "mod1={mod1:#04x} mod2={mod2:#04x}");
        }
    }
}

// The A2B6 address-change to slot A2 sets IICADR=0b10 on a base MOD1 of
// 0x94 (PR|INT). With factory MOD2=0x01 (PRD=0) the written byte is 0x54,
// FP=0 — the exact value observed on hardware.
#[test]
fn address_change_mod1_matches_hardware() {
    let base_mod1 = 0x94; // PR=1, INT=1, IICADR=0, MODE=0, FP=1
    let mod1_a2 = set_bits(base_mod1, 0x60, 5, 0b10); // IICADR = A2
    assert_eq!(set_fuse_parity(mod1_a2, 0x01, 0x80), 0x54);
}

// Config parity is EVEN over register 0x10 (incl. CP).
#[test]
fn config_parity_is_even() {
    for config in 0u8..=0xFF {
        let out = set_config_parity(config, false);
        assert_eq!(out.count_ones() % 2, 0, "config={config:#04x}");
    }
    // Concrete cases: all-zero CONFIG -> CP=0; X2 set (0x08) -> CP=1.
    assert_eq!(set_config_parity(0x00, false), 0x00);
    assert_eq!(set_config_parity(0x08, false), 0x09);
}

#[test]
fn config_parity_is_odd_on_wakeup_variants() {
    for config in 0u8..=0xFF {
        let out = set_config_parity(config, true);
        assert_eq!(out.count_ones() % 2, 1);
        assert_eq!(out & 0xfe, config & 0xfe);
    }
    assert_eq!(set_config_parity(0x00, true), 0x01);
    assert_eq!(set_config_parity(0x08, true), 0x08);
}

#[test]
fn ones_are_counted() {
    for byte in 0u8..=0xFF {
        assert_eq!(count_ones(byte), byte.count_ones());
    }
}

#[test]
fn fields_and_flags_are_replaced() {
    assert_eq!(set_bits(0xff, 0x60, 5, 0b01), 0xbf);
    assert_eq!(set_bits(0x00, 0x30, 4, 0xff), 0x30);
    assert_eq!(set_bits(0xa5, 0x00, 3, 0xff), 0xa5);
    assert_eq!(set_bit(0x00, 0x10, true), 0x10);
    assert_eq!(set_bit(0xff, 0x08, false), 0xf7);
    assert!(calculate_fuse_parity(0x80, 0x00, 0x80));
    assert!(!calculate_fuse_parity(0x01, 0x00, 0x80));
    assert!(calculate_fuse_parity(0x01, 0x80, 0x80));
    assert!(!calculate_fuse_parity(0x01, 0x80, 0x00));
}

#[test]
fn numbers_are_sign_extended() {
    assert_eq!(sign_extend(12, 0x7ff), 2047);
    assert_eq!(sign_extend(12, 0x800), -2048);
    assert_eq!(sign_extend(12, 0xf7ff), 2047);
    assert_eq!(sign_extend(10, 0x3ff), -1);
    assert_eq!(sign_extend(16, 0x8000), i16::MIN);
    assert_eq!(sign_extend(1, 1), -1);
    assert_eq!(sign_extend(1, 2), 0);
}

#[test]
fn bus_parity_makes_the_frame_odd() {
    let frame = [0xf0, 0x10, 0x80, 0x50, 0xa5, 0x8c, 0x00];
    let clear = Diagnostics::from_diag_byte(0x00);
    let set = Diagnostics::from_diag_byte(0x80);
    assert!(has_valid_bus_parity(&frame, clear));
    assert!(!has_valid_bus_parity(&frame, set));
    assert!(has_valid_bus_parity(&[0; 7], set));
    assert!(!has_valid_bus_parity(&[0; 7], clear));
}

#[test]
fn single_bit_errors_break_the_bus_parity() {
    let frame = [0xf0, 0x10, 0x80, 0x50, 0xa5, 0x8c, 0x00];
    let diag = Diagnostics::from_diag_byte(0x00);
    for index in 0..6 {
        for bit in 0..8 {
            let mut wrong = frame;
            wrong[index] ^= 1 << bit;
            assert!(!has_valid_bus_parity(&wrong, diag));
        }
    }
}

#[test]
fn diagnostic_flags_have_their_bits() {
    let diag = Diagnostics::from_diag_byte(0xaa);
    assert_eq!(
        diag,
        Diagnostics { p: true, ff: false, cf: true, t: false, pd3: true, pd0: false, frame: 2 }
    );
    let diag = Diagnostics::from_diag_byte(0x55);
    assert_eq!(
        diag,
        Diagnostics { p: false, ff: true, cf: false, t: true, pd3: false, pd0: true, frame: 1 }
    );
}

#[test]
fn settings_have_their_field_values() {
    assert_eq!(AddressSlot::A0.as_7bit(), 0x35);
    assert_eq!(AddressSlot::A1.as_7bit(), 0x22);
    assert_eq!(AddressSlot::A2.as_7bit(), 0x78);
    assert_eq!(AddressSlot::A3.as_7bit(), 0x44);
    assert_eq!(AddressSlot::A0.bits(), 0);
    assert_eq!(AddressSlot::A3.bits(), 3);
    assert_eq!(PowerMode::LowPower.bits(), 0);
    assert_eq!(PowerMode::MasterControlled.bits(), 1);
    assert_eq!(PowerMode::Fast.bits(), 3);
    assert_eq!(MeasurementMode::BxByBzTemp.dt_am_bits(), (0, 0));
    assert_eq!(MeasurementMode::BxByBz.dt_am_bits(), (1, 0));
    assert_eq!(MeasurementMode::BxBy.dt_am_bits(), (1, 1));
    assert_eq!(TriggerMode::NoTrigger.bits(), 0);
    assert_eq!(TriggerMode::BeforeFirstMsb.bits(), 1);
    assert_eq!(TriggerMode::AfterReg05.bits(), 2);
    assert!(UpdateRate::Slow.bit());
    assert!(!UpdateRate::Fast.bit());
}
