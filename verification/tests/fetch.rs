//! Fetching samples: only a ready device touches the bus, burst sizes are
//! checked, and fetch failures never fault the device.

use lsm6dsrx::driver::{DeviceState, Error, Lsm6sdrx};
use lsm6dsrx::regmap::RegisterAddress;
use lsm6dsrx::sample::RawSample;
use lsm6dsrx::sim::SimTransport;

#[test]
fn fetch_before_bring_up_is_refused() {
    let t = SimTransport::new();
    let mut d = Lsm6sdrx::attach(t);
    assert_eq!(d.fetch_raw(), Err(Error::NotReady));
    assert_eq!(d.state(), DeviceState::Uninitialized);
}

#[test]
fn fetch_on_a_faulted_device_is_refused() {
    let mut t = SimTransport::new();
    t.set_reg(RegisterAddress::WHO_AM_I, 0x00);
    let mut d = Lsm6sdrx::attach(t);
    assert!(d.bring_up().is_err());
    assert_eq!(d.fetch_raw(), Err(Error::NotReady));
}

#[test]
fn fetch_decodes_the_staged_block() {
    let mut t = SimTransport::new();
    t.set_burst_response(vec![0x64, 0x00, 0x9C, 0xFF, 0x0A, 0x00]);
    let mut d = Lsm6sdrx::attach(t);
    d.bring_up().expect("bring-up should succeed");
    let s = d.fetch_raw().expect("fetch should succeed");
    assert_eq!(s, RawSample { x: 100, y: -100, z: 10 });
}

#[test]
fn short_burst_is_an_error_not_a_sample() {
    let mut t = SimTransport::new();
    t.set_burst_response(vec![0x64, 0x00, 0x9C, 0xFF, 0x0A]);
    let mut d = Lsm6sdrx::attach(t);
    d.bring_up().expect("bring-up should succeed");
    assert_eq!(d.fetch_raw(), Err(Error::TransferSize { got: 5 }));
    assert_eq!(d.state(), DeviceState::Ready);
}

#[test]
fn long_burst_is_an_error_not_a_sample() {
    let mut t = SimTransport::new();
    t.set_burst_response(vec![0u8; 7]);
    let mut d = Lsm6sdrx::attach(t);
    d.bring_up().expect("bring-up should succeed");
    assert_eq!(d.fetch_raw(), Err(Error::TransferSize { got: 7 }));
}

#[test]
fn fetch_failure_does_not_fault_the_device() {
    let mut t = SimTransport::new();
    // Bring-up performs 24 operations; the fetch is operation 24.
    t.fail_from(24);
    let mut d = Lsm6sdrx::attach(t);
    d.bring_up().expect("bring-up should succeed");
    match d.fetch_raw() {
        Err(Error::Bus { reg, .. }) => assert_eq!(reg, RegisterAddress::OUTX_L_G),
        other => panic!("expected a bus error, got {other:?}"),
    }
    // The device stays ready: each fetch is independent and retryable.
    assert_eq!(d.state(), DeviceState::Ready);
    assert!(matches!(d.fetch_raw(), Err(Error::Bus { .. })));
}

#[test]
fn gyroscope_fetch_fails_loudly() {
    let t = SimTransport::new();
    let mut d = Lsm6sdrx::attach(t);
    d.bring_up().expect("bring-up should succeed");
    assert_eq!(d.fetch_angular_raw(), Err(Error::Unimplemented));
    assert_eq!(d.state(), DeviceState::Ready);
}
