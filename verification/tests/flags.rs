//! The bit-flag views of the control registers: round trip, set, clear,
//! test.

use lsm6dsrx::ctrl::{
    Ctrl1Xl, Ctrl2G, Ctrl3C, Ctrl4C, Ctrl5C, Ctrl6C, Ctrl7G, Ctrl8Xl, Ctrl9Xl, BDU, FTYPE_1,
    I3C_DISABLE, LPF2_XL_EN, ODR_XL3, SW_RESET, USR_OFF_W,
};

#[test]
fn round_trip_keeps_every_bit() {
    // Every byte survives the view, including bits no name covers.
    for b in 0..=255u8 {
        assert_eq!(Ctrl1Xl::from_bits_retain(b).bits(), b);
        assert_eq!(Ctrl2G::from_bits_retain(b).bits(), b);
        assert_eq!(Ctrl3C::from_bits_retain(b).bits(), b);
        assert_eq!(Ctrl4C::from_bits_retain(b).bits(), b);
        assert_eq!(Ctrl5C::from_bits_retain(b).bits(), b);
        assert_eq!(Ctrl6C::from_bits_retain(b).bits(), b);
        assert_eq!(Ctrl7G::from_bits_retain(b).bits(), b);
        assert_eq!(Ctrl8Xl::from_bits_retain(b).bits(), b);
        assert_eq!(Ctrl9Xl::from_bits_retain(b).bits(), b);
    }
}

#[test]
fn round_trip_is_identity_on_views() {
    for b in [0x00u8, 0x01, 0x41, 0xA5, 0xFF] {
        let v = Ctrl3C::from_bits_retain(b);
        assert_eq!(Ctrl3C::from_bits_retain(v.bits()), v);
    }
}

#[test]
fn insert_sets_only_the_mask() {
    let mut v = Ctrl3C::from_bits_retain(0x44);
    v.insert(SW_RESET);
    assert_eq!(v.bits(), 0x45);
    v.insert(BDU);
    assert_eq!(v.bits(), 0x45 | 0x40);
}

#[test]
fn remove_clears_only_the_mask() {
    let mut v = Ctrl6C::from_bits_retain(0xFF);
    v.remove(USR_OFF_W);
    assert_eq!(v.bits(), 0xF7);
    v.remove(FTYPE_1);
    assert_eq!(v.bits(), 0xF5);
}

#[test]
fn contains_tests_the_mask() {
    let v = Ctrl1Xl::from_bits_retain(ODR_XL3 | LPF2_XL_EN);
    assert!(v.contains(ODR_XL3));
    assert!(v.contains(LPF2_XL_EN));
    assert!(v.contains(ODR_XL3 | LPF2_XL_EN));
    assert!(!v.contains(0x01));
}

#[test]
fn unknown_bits_survive_modification() {
    // 0x81 has no meaning to CTRL9_XL's named bits we touch, yet it must
    // come back out when only I3C_DISABLE is set.
    let mut v = Ctrl9Xl::from_bits_retain(0x81);
    v.insert(I3C_DISABLE);
    assert_eq!(v.bits(), 0x83);
}
