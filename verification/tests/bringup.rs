//! The bring-up sequence, run against the register-file simulation.

use lsm6dsrx::driver::{DeviceState, Error, Lsm6sdrx};
use lsm6dsrx::regmap::RegisterAddress;
use lsm6dsrx::sim::SimTransport;

#[test]
fn successful_bring_up_reaches_ready() {
    let d = Lsm6sdrx::new(SimTransport::new()).expect("bring-up should succeed");
    assert_eq!(d.state(), DeviceState::Ready);
}

#[test]
fn bring_up_configures_the_registers() {
    let d = Lsm6sdrx::new(SimTransport::new()).expect("bring-up should succeed");
    let sim = d.bus();
    // From an all-zero power-on state: reset bit, then block data update.
    assert_eq!(sim.peek_reg(RegisterAddress::CTRL3_C), 0x41);
    // I3C disabled.
    assert_eq!(sim.peek_reg(RegisterAddress::CTRL9_XL), 0x02);
    // Accelerometer: 1.66 kHz, narrowest range, second filter stage on.
    assert_eq!(sim.peek_reg(RegisterAddress::CTRL1_XL), 0x82);
    // Accelerometer filter: low pass at a tenth of the output rate.
    assert_eq!(sim.peek_reg(RegisterAddress::CTRL8_XL), 0x20);
    // Gyroscope: 1.66 kHz, widest standard range.
    assert_eq!(sim.peek_reg(RegisterAddress::CTRL2_G), 0x8C);
    // Gyroscope first low-pass filter selected.
    assert_eq!(sim.peek_reg(RegisterAddress::CTRL4_C), 0x02);
    // Offset weight cleared, then the filter type's middle bit set.
    assert_eq!(sim.peek_reg(RegisterAddress::CTRL6_C), 0x02);
    // Offsets applied on output.
    assert_eq!(sim.peek_reg(RegisterAddress::CTRL7_G), 0x02);
}

#[test]
fn bring_up_writes_the_offset_calibration() {
    let d = Lsm6sdrx::new(SimTransport::new()).expect("bring-up should succeed");
    let sim = d.bus();
    assert_eq!(sim.peek_reg(RegisterAddress::X_OFS_USR), (-1i8) as u8);
    assert_eq!(sim.peek_reg(RegisterAddress::Y_OFS_USR), (-46i8) as u8);
    assert_eq!(sim.peek_reg(RegisterAddress::Z_OFS_USR), 5);
}

#[test]
fn wrong_identity_fails_without_writes() {
    let mut t = SimTransport::new();
    t.set_reg(RegisterAddress::WHO_AM_I, 0x42);
    let mut d = Lsm6sdrx::attach(t);
    assert_eq!(d.state(), DeviceState::Uninitialized);
    let r = d.bring_up();
    assert_eq!(r, Err(Error::IdentityMismatch { found: 0x42 }));
    assert_eq!(d.state(), DeviceState::Faulted);
    // No register was touched after the failed identification.
    let sim = d.bus();
    assert_eq!(sim.peek_reg(RegisterAddress::CTRL3_C), 0x00);
    assert_eq!(sim.peek_reg(RegisterAddress::CTRL9_XL), 0x00);
    assert_eq!(sim.peek_reg(RegisterAddress::CTRL1_XL), 0x00);
    assert_eq!(sim.peek_reg(RegisterAddress::X_OFS_USR), 0x00);
}

#[test]
fn bus_fault_on_the_identity_read() {
    let mut t = SimTransport::new();
    t.fail_from(0);
    let mut d = Lsm6sdrx::attach(t);
    let r = d.bring_up();
    match r {
        Err(Error::Bus { reg, .. }) => assert_eq!(reg, RegisterAddress::WHO_AM_I),
        other => panic!("expected a bus error, got {other:?}"),
    }
    assert_eq!(d.state(), DeviceState::Faulted);
}

#[test]
fn bus_fault_mid_sequence_names_the_register() {
    // Operations: 0 identity read, 1 CTRL3_C read, 2 CTRL3_C write, ...
    let mut t = SimTransport::new();
    t.fail_from(2);
    let mut d = Lsm6sdrx::attach(t);
    let r = d.bring_up();
    match r {
        Err(Error::Bus { reg, .. }) => assert_eq!(reg, RegisterAddress::CTRL3_C),
        other => panic!("expected a bus error, got {other:?}"),
    }
    assert_eq!(d.state(), DeviceState::Faulted);

    // One operation later the reset write has landed but CTRL9_XL fails.
    let mut t2 = SimTransport::new();
    t2.fail_from(3);
    let mut d2 = Lsm6sdrx::attach(t2);
    match d2.bring_up() {
        Err(Error::Bus { reg, .. }) => assert_eq!(reg, RegisterAddress::CTRL9_XL),
        other => panic!("expected a bus error, got {other:?}"),
    }
    // The reset write before the failure landed; the failed write and
    // everything after it never did.
    assert_eq!(d2.bus().peek_reg(RegisterAddress::CTRL3_C), 0x01);
    assert_eq!(d2.bus().peek_reg(RegisterAddress::CTRL9_XL), 0x00);
    assert_eq!(d2.bus().peek_reg(RegisterAddress::CTRL1_XL), 0x00);
    assert_eq!(d2.bus().peek_reg(RegisterAddress::X_OFS_USR), 0x00);
}

#[test]
fn unknown_bits_survive_bring_up() {
    let mut t = SimTransport::new();
    // Bits no bring-up step touches: interrupt polarity in CTRL3_C, the
    // DEN trigger bits in CTRL6_C, and the unnamed low bit of CTRL1_XL.
    t.set_reg(RegisterAddress::CTRL3_C, 0x20);
    t.set_reg(RegisterAddress::CTRL6_C, 0xF0);
    t.set_reg(RegisterAddress::CTRL1_XL, 0x01);
    let mut d = Lsm6sdrx::attach(t);
    d.bring_up().expect("bring-up should succeed");
    let sim = d.bus();
    assert_eq!(sim.peek_reg(RegisterAddress::CTRL3_C), 0x20 | 0x40 | 0x01);
    assert_eq!(sim.peek_reg(RegisterAddress::CTRL6_C), 0xF0 | 0x02);
    assert_eq!(sim.peek_reg(RegisterAddress::CTRL1_XL), 0x01 | 0x80 | 0x02);
}
