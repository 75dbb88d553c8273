//! Decoding of temperature and field readings.

use iis2mdc::output::{
    decode_field, decode_temperature, join, OUTX_ADDR, STEPS_PER_DEGREE, TEMP_OUT_ADDR, ZERO_POINT,
};
use iis2mdc::register::{read_byte, settle, write_frame};
use iis2mdc::I2C_ADDRESS;

fn degrees(steps: i32) -> f32 {
    steps as f32 / STEPS_PER_DEGREE as f32
}

#[test]
fn protocol_addresses() {
    assert_eq!(I2C_ADDRESS, 0x1e);
    assert_eq!(TEMP_OUT_ADDR, 0x6e);
    assert_eq!(OUTX_ADDR, 0x68);
    assert_eq!(STEPS_PER_DEGREE, 256);
    assert_eq!(ZERO_POINT, 25);
}

#[test]
fn join_is_little_endian_and_signed() {
    assert_eq!(join(0x00, 0x00), 0);
    assert_eq!(join(0x01, 0x00), 1);
    assert_eq!(join(0x00, 0x01), 256);
    assert_eq!(join(0x34, 0x12), 0x1234);
    assert_eq!(join(0xff, 0x7f), i16::MAX);
    assert_eq!(join(0x00, 0x80), i16::MIN);
    assert_eq!(join(0xff, 0xff), -1);
    assert_eq!(join(0x00, 0xf6), -2560);
}

#[test]
fn join_agrees_with_shift_and_or_on_every_pair() {
    for hi in 0..=255u8 {
        for lo in 0..=255u8 {
            let expected = ((hi as i16) << 8) | (lo as i16);
            assert_eq!(join(lo, hi), expected);
            assert_eq!(join(lo, hi), i16::from_le_bytes([lo, hi]));
        }
    }
}

#[test]
fn temperature_of_a_warm_reading() {
    let steps = decode_temperature([0x00, 0x19]);
    assert_eq!(steps, 12800);
    assert_eq!(degrees(steps), 50.0);
}

#[test]
fn temperature_of_a_cool_reading() {
    let steps = decode_temperature([0x00, 0xf6]);
    assert_eq!(steps, 3840);
    assert_eq!(degrees(steps), 15.0);
}

#[test]
fn temperature_at_the_zero_point_and_at_the_ends() {
    assert_eq!(decode_temperature([0x00, 0x00]), 6400);
    assert_eq!(degrees(decode_temperature([0x00, 0x00])), 25.0);
    assert_eq!(decode_temperature([0x80, 0x00]), 6528);
    assert_eq!(degrees(decode_temperature([0x80, 0x00])), 25.5);
    assert_eq!(decode_temperature([0xff, 0x7f]), 32767 + 6400);
    assert_eq!(decode_temperature([0x00, 0x80]), -32768 + 6400);
    assert_eq!(degrees(decode_temperature([0x00, 0x80])), -103.0);
    assert_eq!(decode_temperature([0x00, 0xe7]), 0);
}

#[test]
fn temperature_matches_the_formula_in_floating_point() {
    for hi in 0..=255u8 {
        for lo in 0..=255u8 {
            let raw = i16::from_le_bytes([lo, hi]);
            let expected: f32 = (raw as f32 / 256.0) + 25.0;
            assert_eq!(degrees(decode_temperature([lo, hi])), expected);
        }
    }
}

#[test]
fn field_axes_come_in_order_and_unscaled() {
    let counts = decode_field([0x01, 0x00, 0x00, 0x01, 0xff, 0xff]);
    assert_eq!(counts, [1, 256, -1]);
    let scalars = [counts[0] as f64, counts[1] as f64, counts[2] as f64];
    assert_eq!(scalars, [1.0, 256.0, -1.0]);
}

#[test]
fn field_axes_at_the_ends() {
    assert_eq!(decode_field([0xff, 0x7f, 0x00, 0x80, 0x00, 0x00]), [i16::MAX, i16::MIN, 0]);
    assert_eq!(decode_field([0x34, 0x12, 0x78, 0x56, 0xbc, 0x9a]), [0x1234, 0x5678, -25924]);
}

#[test]
fn write_frame_is_sub_address_then_value() {
    assert_eq!(write_frame(0x60, 0x8c), [0x60, 0x8c]);
    assert_eq!(write_frame(0x62, 0x00), [0x62, 0x00]);
    assert_eq!(write_frame(0x00, 0xff), [0x00, 0xff]);
}

#[test]
fn read_byte_hands_on_the_byte_or_the_error() {
    assert_eq!(read_byte::<u8>(Ok([0x5a])), Ok(0x5a));
    assert_eq!(read_byte(Err(9u8)), Err(9u8));
}

#[test]
fn settle_takes_the_new_byte_only_after_success() {
    assert_eq!(settle::<u8>(0x11, 0x22, &Ok(())), 0x22);
    assert_eq!(settle(0x11, 0x22, &Err(4u8)), 0x11);
}
