//! Driver core for the LSM6DSRX six-axis inertial sensor.
//!
//! The sensor is reached over a register-addressed serial bus.  This crate
//! holds the parts of the driver with exact semantics: the register map and
//! its read/write addressing convention, the bit-flag views of the control
//! registers, the bring-up sequence that configures a freshly powered device,
//! and the decoder that turns a six-byte burst into a raw axis triple.

pub mod bus;
pub mod collector;
pub mod ctrl;
pub mod driver;
pub mod regmap;
pub mod sample;
pub mod sim;
