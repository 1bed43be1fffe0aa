//! The sample decoder: little-endian signed 16-bit fields, axis order
//! X, Y, Z, and the fixed sensitivity scaling applied on top of it.

use lsm6dsrx::sample::decode_raw_sample;

/// Milli-g represented by one least-significant bit at the narrowest
/// accelerometer range.
const SENSITIVITY_MG_PER_LSB: f64 = 0.061;

#[test]
fn three_axis_block() {
    let block = vec![0x64u8, 0x00, 0x9C, 0xFF, 0x0A, 0x00];
    let s = decode_raw_sample(&block);
    assert_eq!(s.x, 100);
    assert_eq!(s.y, -100);
    assert_eq!(s.z, 10);

    let x = (s.x as f64) * SENSITIVITY_MG_PER_LSB;
    let y = (s.y as f64) * SENSITIVITY_MG_PER_LSB;
    let z = (s.z as f64) * SENSITIVITY_MG_PER_LSB;
    assert!((x - 6.1).abs() < 1e-9);
    assert!((y + 6.1).abs() < 1e-9);
    assert!((z - 0.61).abs() < 1e-9);
}

#[test]
fn all_zero_block() {
    let block = vec![0u8; 6];
    let s = decode_raw_sample(&block);
    assert_eq!((s.x, s.y, s.z), (0, 0, 0));
}

#[test]
fn extreme_values() {
    let block = vec![0xFFu8, 0x7F, 0x00, 0x80, 0xFF, 0xFF];
    let s = decode_raw_sample(&block);
    assert_eq!(s.x, i16::MAX);
    assert_eq!(s.y, i16::MIN);
    assert_eq!(s.z, -1);
}

#[test]
fn axis_order_is_x_y_z() {
    let block = vec![1u8, 0, 2, 0, 3, 0];
    let s = decode_raw_sample(&block);
    assert_eq!((s.x, s.y, s.z), (1, 2, 3));
}
