//! The device facade and the bring-up sequencer.
//!
//! [`Lsm6sdrx`] owns its bus transport exclusively.  A freshly attached
//! device is `Uninitialized`; [`Lsm6sdrx::bring_up`] drives it through
//! `Identifying`, `Resetting` and `Configuring` to `Ready` with a fixed
//! sequence of read-modify-write register transactions, or to `Faulted` if
//! the device answers with the wrong identity or the bus fails.  Only a
//! `Ready` device will touch the bus on a fetch.
//!
//! The contracts pin the whole bus trace down: on success the transport's
//! trace has grown by exactly [`bringup_trace`], and on any outcome every
//! write but the three offset writes sits right after a read of the same
//! register.

use vstd::prelude::*;

use crate::bus::{
    lemma_add_push, lemma_add_split, lemma_take_succ, lemma_wp_take, op_addr, BusFault, BusOp,
    Transport, writes_preceded,
};
use crate::ctrl::{
    Ctrl1Xl, Ctrl2G, Ctrl3C, Ctrl4C, Ctrl6C, Ctrl7G, Ctrl8Xl, Ctrl9Xl, BDU, FS0_G, FS0_XL,
    FS1_G, FS1_XL, FS_125, FS_4000, FTYPE_0, FTYPE_1, FTYPE_2, HPCF_XL_0, HPCF_XL_1, HPCF_XL_2,
    I3C_DISABLE, LPF1_SEL_G, LPF2_XL_EN, ODR_G0, ODR_G1, ODR_G2, ODR_G3, ODR_XL0, ODR_XL1,
    ODR_XL2, ODR_XL3, SW_RESET, USR_OFF_ON_OUT, USR_OFF_W,
};
use crate::regmap::RegisterAddress;
use crate::sample::{decode_raw_sample, decodes_to, RawSample};

verus! {

/// The identity byte every LSM6DSRX answers from its identity register.
pub const WHO_AM_I_VALUE: u8 = 0x6B;

/// X-axis offset calibration constant, applied during bring-up.
pub const DAT_X_OFS_USR: i8 = -1;

/// Y-axis offset calibration constant, applied during bring-up.
pub const DAT_Y_OFS_USR: i8 = -46;

/// Z-axis offset calibration constant, applied during bring-up.
pub const DAT_Z_OFS_USR: i8 = 5;

/// Number of bytes one sample burst delivers: three 16-bit axes.
pub const SAMPLE_BLOCK_LEN: usize = 6;

/// Lifecycle of a device.  States move one way; `Faulted` is terminal and
/// is reached only from a bring-up failure, never from a failed fetch.
#[derive(Clone, Copy, Debug, PartialEq, Eq, Structural)]
pub enum DeviceState {
    Uninitialized,
    Identifying,
    Resetting,
    Configuring,
    Ready,
    Faulted,
}

/// What can go wrong in the driver.
#[derive(Clone, Copy, Debug, PartialEq, Eq, Structural)]
pub enum Error {
    /// The transport failed while the named register was in flight.
    Bus { reg: RegisterAddress, fault: BusFault },
    /// The identity register answered something other than the expected
    /// identity byte; the device is not an LSM6DSRX.
    IdentityMismatch { found: u8 },
    /// A fetch was asked of a device that has not completed bring-up.
    NotReady,
    /// A sample burst came back with the wrong number of bytes: a
    /// transport-contract violation, reported instead of a decoded sample.
    TransferSize { got: usize },
    /// The capability is intentionally not provided yet.
    Unimplemented,
}

/// CTRL3_C with the software-reset bit set.
pub open spec fn reset_byte(v: u8) -> u8 {
    v | SW_RESET
}

/// CTRL9_XL with the I3C protocol disabled.
pub open spec fn i3c_disable_byte(v: u8) -> u8 {
    v | I3C_DISABLE
}

/// CTRL3_C with block data update enabled.
pub open spec fn bdu_byte(v: u8) -> u8 {
    v | BDU
}

/// CTRL1_XL configured: output data rate 1.66 kHz (high-order rate bit set,
/// the rest cleared), full scale at the narrowest range, second low-pass
/// filter stage enabled.
pub open spec fn accel_config_byte(v: u8) -> u8 {
    (v | (ODR_XL3 | LPF2_XL_EN)) & !(ODR_XL2 | ODR_XL1 | ODR_XL0 | FS1_XL | FS0_XL)
}

/// CTRL8_XL configured: low-pass filter at one tenth of the output rate.
pub open spec fn accel_filter_byte(v: u8) -> u8 {
    (v | HPCF_XL_0) & !(HPCF_XL_2 | HPCF_XL_1)
}

/// CTRL6_C with the offset weight bit cleared: offsets use the fine
/// weighting.
pub open spec fn offset_weight_byte(v: u8) -> u8 {
    v & !USR_OFF_W
}

/// CTRL7_G with the user offsets applied to the output.
pub open spec fn offset_enable_byte(v: u8) -> u8 {
    v | USR_OFF_ON_OUT
}

/// CTRL2_G configured: output data rate 1.66 kHz, full scale at the widest
/// standard range, the narrow and extended range overrides cleared.
pub open spec fn gyro_config_byte(v: u8) -> u8 {
    (v | (ODR_G3 | FS1_G | FS0_G)) & !(ODR_G2 | ODR_G1 | ODR_G0 | FS_125 | FS_4000)
}

/// CTRL4_C with the gyroscope's first low-pass filter selected.
pub open spec fn gyro_filter_byte(v: u8) -> u8 {
    v | LPF1_SEL_G
}

/// CTRL6_C with the middle filter-type bit set and the other two cleared.
pub open spec fn filter_type_byte(v: u8) -> u8 {
    (v | FTYPE_1) & !(FTYPE_2 | FTYPE_0)
}

/// The whole bus trace of a successful bring-up, as a function of the ten
/// bytes `vs` the read-modify-write reads returned: the identity read, ten
/// read-modify-write pairs, and the three unconditional offset writes.
pub open spec fn bringup_trace(vs: Seq<u8>) -> Seq<BusOp>
    recommends
        vs.len() == 10,
{
    seq![
        BusOp::Read { addr: RegisterAddress::WHO_AM_I.spec_addr(), value: WHO_AM_I_VALUE },
        BusOp::Read { addr: RegisterAddress::CTRL3_C.spec_addr(), value: vs[0] },
        BusOp::Write { addr: RegisterAddress::CTRL3_C.spec_addr(), value: reset_byte(vs[0]) },
        BusOp::Read { addr: RegisterAddress::CTRL9_XL.spec_addr(), value: vs[1] },
        BusOp::Write {
            addr: RegisterAddress::CTRL9_XL.spec_addr(),
            value: i3c_disable_byte(vs[1]),
        },
        BusOp::Read { addr: RegisterAddress::CTRL3_C.spec_addr(), value: vs[2] },
        BusOp::Write { addr: RegisterAddress::CTRL3_C.spec_addr(), value: bdu_byte(vs[2]) },
        BusOp::Read { addr: RegisterAddress::CTRL1_XL.spec_addr(), value: vs[3] },
        BusOp::Write {
            addr: RegisterAddress::CTRL1_XL.spec_addr(),
            value: accel_config_byte(vs[3]),
        },
        BusOp::Read { addr: RegisterAddress::CTRL8_XL.spec_addr(), value: vs[4] },
        BusOp::Write {
            addr: RegisterAddress::CTRL8_XL.spec_addr(),
            value: accel_filter_byte(vs[4]),
        },
        BusOp::Read { addr: RegisterAddress::CTRL6_C.spec_addr(), value: vs[5] },
        BusOp::Write {
            addr: RegisterAddress::CTRL6_C.spec_addr(),
            value: offset_weight_byte(vs[5]),
        },
        BusOp::Read { addr: RegisterAddress::CTRL7_G.spec_addr(), value: vs[6] },
        BusOp::Write {
            addr: RegisterAddress::CTRL7_G.spec_addr(),
            value: offset_enable_byte(vs[6]),
        },
        BusOp::Write {
            addr: RegisterAddress::X_OFS_USR.spec_addr(),
            value: DAT_X_OFS_USR as u8,
        },
        BusOp::Write {
            addr: RegisterAddress::Y_OFS_USR.spec_addr(),
            value: DAT_Y_OFS_USR as u8,
        },
        BusOp::Write {
            addr: RegisterAddress::Z_OFS_USR.spec_addr(),
            value: DAT_Z_OFS_USR as u8,
        },
        BusOp::Read { addr: RegisterAddress::CTRL2_G.spec_addr(), value: vs[7] },
        BusOp::Write {
            addr: RegisterAddress::CTRL2_G.spec_addr(),
            value: gyro_config_byte(vs[7]),
        },
        BusOp::Read { addr: RegisterAddress::CTRL4_C.spec_addr(), value: vs[8] },
        BusOp::Write {
            addr: RegisterAddress::CTRL4_C.spec_addr(),
            value: gyro_filter_byte(vs[8]),
        },
        BusOp::Read { addr: RegisterAddress::CTRL6_C.spec_addr(), value: vs[9] },
        BusOp::Write {
            addr: RegisterAddress::CTRL6_C.spec_addr(),
            value: filter_type_byte(vs[9]),
        },
    ]
}

/// The transport's trace grew by exactly one full bring-up: there are ten
/// bytes `vs`, the values its reads returned, such that the new operations
/// are [`bringup_trace`] of them.
pub open spec fn bringup_complete(pre: Seq<BusOp>, post: Seq<BusOp>) -> bool {
    exists|vs: Seq<u8>| vs.len() == 10 && post == pre + #[trigger] bringup_trace(vs)
}

/// The transport's trace grew by a proper prefix of a bring-up: the
/// operations before the failed one, in order, with the failed operation —
/// the one the error names — never recorded and nothing after it.  `reg`
/// is the register that was in flight when the bus failed.
pub open spec fn bringup_stopped(pre: Seq<BusOp>, post: Seq<BusOp>, reg: RegisterAddress) -> bool {
    exists|vs: Seq<u8>, k: int|
        vs.len() == 10 && 0 <= k < 24 && post == pre + #[trigger] bringup_trace(vs).take(k)
            && op_addr(bringup_trace(vs)[k]) == reg.spec_addr()
}

/// Whatever the device answered during bring-up, every write in the trace
/// except the three offset writes comes right after a read of the same
/// register.
pub proof fn lemma_bringup_trace_writes_preceded(vs: Seq<u8>)
    requires
        vs.len() == 10,
    ensures
        writes_preceded(bringup_trace(vs)),
{
    let t = bringup_trace(vs);
    assert forall|i: int|
        0 <= i < t.len() && crate::bus::op_is_write(#[trigger] t[i])
            && !crate::bus::is_offset_register(crate::bus::op_addr(t[i])) implies 0 < i
        && crate::bus::op_is_read(t[i - 1]) && crate::bus::op_addr(t[i - 1])
        == crate::bus::op_addr(t[i]) by {
        assert(t.len() == 24);
    }
}

/// Every bring-up write touches only the bits of its own step: each byte
/// written back agrees with the byte read on every bit outside the step's
/// mask, so configuration the driver does not mean to change — reserved
/// bits included — is never clobbered.
pub proof fn lemma_bringup_writes_preserve_unknown_bits(v: u8)
    by (bit_vector)
    ensures
        reset_byte(v) & !SW_RESET == v & !SW_RESET,
        i3c_disable_byte(v) & !I3C_DISABLE == v & !I3C_DISABLE,
        bdu_byte(v) & !BDU == v & !BDU,
        accel_config_byte(v) & !(ODR_XL3 | ODR_XL2 | ODR_XL1 | ODR_XL0 | FS1_XL | FS0_XL
            | LPF2_XL_EN) == v & !(ODR_XL3 | ODR_XL2 | ODR_XL1 | ODR_XL0 | FS1_XL | FS0_XL
            | LPF2_XL_EN),
        accel_filter_byte(v) & !(HPCF_XL_2 | HPCF_XL_1 | HPCF_XL_0) == v & !(HPCF_XL_2
            | HPCF_XL_1 | HPCF_XL_0),
        offset_weight_byte(v) & !USR_OFF_W == v & !USR_OFF_W,
        offset_enable_byte(v) & !USR_OFF_ON_OUT == v & !USR_OFF_ON_OUT,
        gyro_config_byte(v) & !(ODR_G3 | ODR_G2 | ODR_G1 | ODR_G0 | FS1_G | FS0_G | FS_125
            | FS_4000) == v & !(ODR_G3 | ODR_G2 | ODR_G1 | ODR_G0 | FS1_G | FS0_G | FS_125
            | FS_4000),
        gyro_filter_byte(v) & !LPF1_SEL_G == v & !LPF1_SEL_G,
        filter_type_byte(v) & !(FTYPE_2 | FTYPE_1 | FTYPE_0) == v & !(FTYPE_2 | FTYPE_1
            | FTYPE_0),
{
}

/// How many of the ten read-modify-write read values the first `k`
/// operations of [`bringup_trace`] depend on.
spec fn reads_before(k: int) -> int {
    if k <= 1 {
        0
    } else if k <= 3 {
        1
    } else if k <= 5 {
        2
    } else if k <= 7 {
        3
    } else if k <= 9 {
        4
    } else if k <= 11 {
        5
    } else if k <= 13 {
        6
    } else if k <= 18 {
        7
    } else if k <= 20 {
        8
    } else if k <= 22 {
        9
    } else {
        10
    }
}

/// The first `k` operations of the bring-up trace are the same for any two
/// read-value sequences that agree on the values those operations use.
proof fn lemma_bringup_trace_take_agree(vs1: Seq<u8>, vs2: Seq<u8>, k: int)
    requires
        vs1.len() == 10,
        vs2.len() == 10,
        0 <= k <= 24,
        forall|j: int| 0 <= j < reads_before(k) ==> vs1[j] == vs2[j],
    ensures
        bringup_trace(vs1).take(k) == bringup_trace(vs2).take(k),
{
    assert forall|i: int| 0 <= i < k implies bringup_trace(vs1)[i] == bringup_trace(vs2)[i] by {
    }
    assert(bringup_trace(vs1).take(k) =~= bringup_trace(vs2).take(k));
}

/// Driver for the LSM6DSRX.  It owns the bus transport for its whole
/// lifetime; the transport is reachable only through [`Lsm6sdrx::bus`].
pub struct Lsm6sdrx<T: Transport> {
    device: T,
    state: DeviceState,
}

impl<T: Transport> Lsm6sdrx<T> {
    /// The trace of the owned transport.
    pub closed spec fn log(self) -> Seq<BusOp> {
        self.device.log()
    }

    /// The lifecycle state of the device.
    pub closed spec fn spec_state(self) -> DeviceState {
        self.state
    }

    /// The owned bus transport.
    pub closed spec fn spec_bus(self) -> T {
        self.device
    }

    /// Returns the lifecycle state.
    pub fn state(&self) -> (s: DeviceState)
        ensures
            s == self.spec_state(),
    {
        self.state
    }

    /// Explicit accessor to the owned bus transport.
    pub fn bus(&self) -> (d: &T)
        ensures
            *d == self.spec_bus(),
            d.log() == self.log(),
    {
        &self.device
    }

    /// Takes exclusive ownership of a transport; the device starts
    /// `Uninitialized` and no bus operation is performed.
    pub fn attach(device: T) -> (d: Self)
        ensures
            d.spec_state() == DeviceState::Uninitialized,
            d.spec_bus() == device,
            d.log() == device.log(),
    {
        Lsm6sdrx { device, state: DeviceState::Uninitialized }
    }

    /// Identifies, resets and configures a freshly attached device.
    ///
    /// On success the device is `Ready` and the transport's trace has grown
    /// by exactly [`bringup_trace`].  If the identity register answers
    /// anything but the expected byte, bring-up stops with
    /// [`Error::IdentityMismatch`] after that one read: no register is
    /// written.  On a bus failure the error names the register in flight,
    /// the new trace is exactly the bring-up operations before that one
    /// ([`bringup_stopped`]): nothing follows a failure, and the device is
    /// `Faulted`.  On every outcome the new trace keeps the
    /// read-modify-write discipline of [`writes_preceded`].
    pub fn bring_up(&mut self) -> (r: Result<(), Error>)
        requires
            old(self).spec_state() == DeviceState::Uninitialized,
        ensures
            final(self).log().len() >= old(self).log().len(),
            final(self).log().take(old(self).log().len() as int) == old(self).log(),
            writes_preceded(final(self).log().skip(old(self).log().len() as int)),
            match r {
                Ok(_) => final(self).spec_state() == DeviceState::Ready && bringup_complete(
                    old(self).log(),
                    final(self).log(),
                ),
                Err(e) => final(self).spec_state() == DeviceState::Faulted && match e {
                    Error::Bus { reg, .. } => bringup_stopped(
                        old(self).log(),
                        final(self).log(),
                        reg,
                    ),
                    Error::IdentityMismatch { found } => found != WHO_AM_I_VALUE
                        && final(self).log() == old(self).log().push(
                        BusOp::Read {
                            addr: RegisterAddress::WHO_AM_I.spec_addr(),
                            value: found,
                        },
                    ),
                    _ => false,
                },
            },
    {
        let ghost pre = self.device.log();
        let ghost mut tr: Seq<BusOp> = Seq::empty();
        let ghost mut vsg: Seq<u8> = seq![0u8, 0u8, 0u8, 0u8, 0u8, 0u8, 0u8, 0u8, 0u8, 0u8];
        proof {
            assert(pre + tr =~= pre);
            assert(tr =~= bringup_trace(vsg).take(0));
        }

        // Identify: the device must answer the expected identity byte.
        self.state = DeviceState::Identifying;
        let who = match self.device.read_reg(RegisterAddress::WHO_AM_I.bits()) {
            Ok(v) => v,
            Err(f) => {
                self.state = DeviceState::Faulted;
                proof {
                    lemma_bringup_trace_writes_preceded(vsg);
                    lemma_wp_take(bringup_trace(vsg), 0);
                    assert(op_addr(bringup_trace(vsg)[0]) == RegisterAddress::WHO_AM_I.spec_addr());
                    assert(bringup_stopped(pre, self.device.log(), RegisterAddress::WHO_AM_I));
                    lemma_add_split(pre, tr);
                }
                return Err(Error::Bus { reg: RegisterAddress::WHO_AM_I, fault: f });
            },
        };
        proof {
            lemma_add_push(pre, tr, BusOp::Read {
                addr: RegisterAddress::WHO_AM_I.spec_addr(),
                value: who,
            });
            tr = tr.push(BusOp::Read {
                addr: RegisterAddress::WHO_AM_I.spec_addr(),
                value: who,
            });
            lemma_add_split(pre, tr);
        }
        if who != WHO_AM_I_VALUE {
            self.state = DeviceState::Faulted;
            proof {
                assert(writes_preceded(tr));
            }
            return Err(Error::IdentityMismatch { found: who });
        }
        proof {
            assert(bringup_trace(vsg)[0] == BusOp::Read {
                addr: RegisterAddress::WHO_AM_I.spec_addr(),
                value: who,
            });
            lemma_take_succ(bringup_trace(vsg), 0);
            assert(tr == bringup_trace(vsg).take(1));
        }

        // Reset: set the self-clearing software-reset bit.
        self.state = DeviceState::Resetting;
        let v0 = match self.device.read_reg(RegisterAddress::CTRL3_C.bits()) {
            Ok(v) => v,
            Err(f) => {
                self.state = DeviceState::Faulted;
                proof {
                    lemma_bringup_trace_writes_preceded(vsg);
                    lemma_wp_take(bringup_trace(vsg), 1);
                    assert(op_addr(bringup_trace(vsg)[1]) == RegisterAddress::CTRL3_C.spec_addr());
                    assert(bringup_stopped(pre, self.device.log(), RegisterAddress::CTRL3_C));
                    lemma_add_split(pre, tr);
                }
                return Err(Error::Bus { reg: RegisterAddress::CTRL3_C, fault: f });
            },
        };
        proof {
            let vs2 = vsg.update(0, v0);
            lemma_bringup_trace_take_agree(vsg, vs2, 1);
            vsg = vs2;
            lemma_add_push(pre, tr, BusOp::Read {
                addr: RegisterAddress::CTRL3_C.spec_addr(),
                value: v0,
            });
            assert(bringup_trace(vsg)[1] == BusOp::Read {
                addr: RegisterAddress::CTRL3_C.spec_addr(),
                value: v0,
            });
            lemma_take_succ(bringup_trace(vsg), 1);
            tr = tr.push(BusOp::Read {
                addr: RegisterAddress::CTRL3_C.spec_addr(),
                value: v0,
            });
            assert(tr == bringup_trace(vsg).take(2));
        }
        let mut reg3 = Ctrl3C::from_bits_retain(v0);
        reg3.insert(SW_RESET);
        match self.device.write_reg(RegisterAddress::CTRL3_C.bits(), reg3.bits()) {
            Ok(_) => {},
            Err(f) => {
                self.state = DeviceState::Faulted;
                proof {
                    lemma_bringup_trace_writes_preceded(vsg);
                    lemma_wp_take(bringup_trace(vsg), 2);
                    assert(op_addr(bringup_trace(vsg)[2]) == RegisterAddress::CTRL3_C.spec_addr());
                    assert(bringup_stopped(pre, self.device.log(), RegisterAddress::CTRL3_C));
                    lemma_add_split(pre, tr);
                }
                return Err(Error::Bus { reg: RegisterAddress::CTRL3_C, fault: f });
            },
        }
        proof {
            lemma_add_push(pre, tr, BusOp::Write {
                addr: RegisterAddress::CTRL3_C.spec_addr(),
                value: reset_byte(v0),
            });
            assert(vsg[0] == v0);
            assert(bringup_trace(vsg)[2] == BusOp::Write {
                addr: RegisterAddress::CTRL3_C.spec_addr(),
                value: reset_byte(vsg[0]),
            });
            lemma_take_succ(bringup_trace(vsg), 2);
            tr = tr.push(BusOp::Write {
                addr: RegisterAddress::CTRL3_C.spec_addr(),
                value: reset_byte(v0),
            });
            assert(tr == bringup_trace(vsg).take(3));
        }

        // Disable the I3C protocol.
        self.state = DeviceState::Configuring;
        let v1 = match self.device.read_reg(RegisterAddress::CTRL9_XL.bits()) {
            Ok(v) => v,
            Err(f) => {
                self.state = DeviceState::Faulted;
                proof {
                    lemma_bringup_trace_writes_preceded(vsg);
                    lemma_wp_take(bringup_trace(vsg), 3);
                    assert(op_addr(bringup_trace(vsg)[3]) == RegisterAddress::CTRL9_XL.spec_addr());
                    assert(bringup_stopped(pre, self.device.log(), RegisterAddress::CTRL9_XL));
                    lemma_add_split(pre, tr);
                }
                return Err(Error::Bus { reg: RegisterAddress::CTRL9_XL, fault: f });
            },
        };
        proof {
            let vs2 = vsg.update(1, v1);
            lemma_bringup_trace_take_agree(vsg, vs2, 3);
            vsg = vs2;
            lemma_add_push(pre, tr, BusOp::Read {
                addr: RegisterAddress::CTRL9_XL.spec_addr(),
                value: v1,
            });
            assert(bringup_trace(vsg)[3] == BusOp::Read {
                addr: RegisterAddress::CTRL9_XL.spec_addr(),
                value: v1,
            });
            lemma_take_succ(bringup_trace(vsg), 3);
            tr = tr.push(BusOp::Read {
                addr: RegisterAddress::CTRL9_XL.spec_addr(),
                value: v1,
            });
            assert(tr == bringup_trace(vsg).take(4));
        }
        let mut reg9 = Ctrl9Xl::from_bits_retain(v1);
        reg9.insert(I3C_DISABLE);
        match self.device.write_reg(RegisterAddress::CTRL9_XL.bits(), reg9.bits()) {
            Ok(_) => {},
            Err(f) => {
                self.state = DeviceState::Faulted;
                proof {
                    lemma_bringup_trace_writes_preceded(vsg);
                    lemma_wp_take(bringup_trace(vsg), 4);
                    assert(op_addr(bringup_trace(vsg)[4]) == RegisterAddress::CTRL9_XL.spec_addr());
                    assert(bringup_stopped(pre, self.device.log(), RegisterAddress::CTRL9_XL));
                    lemma_add_split(pre, tr);
                }
                return Err(Error::Bus { reg: RegisterAddress::CTRL9_XL, fault: f });
            },
        }
        proof {
            lemma_add_push(pre, tr, BusOp::Write {
                addr: RegisterAddress::CTRL9_XL.spec_addr(),
                value: i3c_disable_byte(v1),
            });
            assert(vsg[1] == v1);
            assert(bringup_trace(vsg)[4] == BusOp::Write {
                addr: RegisterAddress::CTRL9_XL.spec_addr(),
                value: i3c_disable_byte(vsg[1]),
            });
            lemma_take_succ(bringup_trace(vsg), 4);
            tr = tr.push(BusOp::Write {
                addr: RegisterAddress::CTRL9_XL.spec_addr(),
                value: i3c_disable_byte(v1),
            });
            assert(tr == bringup_trace(vsg).take(5));
        }

        // Enable block data update, so multi-byte samples cannot tear.
        let v2 = match self.device.read_reg(RegisterAddress::CTRL3_C.bits()) {
            Ok(v) => v,
            Err(f) => {
                self.state = DeviceState::Faulted;
                proof {
                    lemma_bringup_trace_writes_preceded(vsg);
                    lemma_wp_take(bringup_trace(vsg), 5);
                    assert(op_addr(bringup_trace(vsg)[5]) == RegisterAddress::CTRL3_C.spec_addr());
                    assert(bringup_stopped(pre, self.device.log(), RegisterAddress::CTRL3_C));
                    lemma_add_split(pre, tr);
                }
                return Err(Error::Bus { reg: RegisterAddress::CTRL3_C, fault: f });
            },
        };
        proof {
            let vs2 = vsg.update(2, v2);
            lemma_bringup_trace_take_agree(vsg, vs2, 5);
            vsg = vs2;
            lemma_add_push(pre, tr, BusOp::Read {
                addr: RegisterAddress::CTRL3_C.spec_addr(),
                value: v2,
            });
            assert(bringup_trace(vsg)[5] == BusOp::Read {
                addr: RegisterAddress::CTRL3_C.spec_addr(),
                value: v2,
            });
            lemma_take_succ(bringup_trace(vsg), 5);
            tr = tr.push(BusOp::Read {
                addr: RegisterAddress::CTRL3_C.spec_addr(),
                value: v2,
            });
            assert(tr == bringup_trace(vsg).take(6));
        }
        let mut reg3b = Ctrl3C::from_bits_retain(v2);
        reg3b.insert(BDU);
        match self.device.write_reg(RegisterAddress::CTRL3_C.bits(), reg3b.bits()) {
            Ok(_) => {},
            Err(f) => {
                self.state = DeviceState::Faulted;
                proof {
                    lemma_bringup_trace_writes_preceded(vsg);
                    lemma_wp_take(bringup_trace(vsg), 6);
                    assert(op_addr(bringup_trace(vsg)[6]) == RegisterAddress::CTRL3_C.spec_addr());
                    assert(bringup_stopped(pre, self.device.log(), RegisterAddress::CTRL3_C));
                    lemma_add_split(pre, tr);
                }
                return Err(Error::Bus { reg: RegisterAddress::CTRL3_C, fault: f });
            },
        }
        proof {
            lemma_add_push(pre, tr, BusOp::Write {
                addr: RegisterAddress::CTRL3_C.spec_addr(),
                value: bdu_byte(v2),
            });
            assert(vsg[2] == v2);
            assert(bringup_trace(vsg)[6] == BusOp::Write {
                addr: RegisterAddress::CTRL3_C.spec_addr(),
                value: bdu_byte(vsg[2]),
            });
            lemma_take_succ(bringup_trace(vsg), 6);
            tr = tr.push(BusOp::Write {
                addr: RegisterAddress::CTRL3_C.spec_addr(),
                value: bdu_byte(v2),
            });
            assert(tr == bringup_trace(vsg).take(7));
        }

        // Configure the accelerometer path: 1.66 kHz, narrowest range,
        // second low-pass stage on.
        let v3 = match self.device.read_reg(RegisterAddress::CTRL1_XL.bits()) {
            Ok(v) => v,
            Err(f) => {
                self.state = DeviceState::Faulted;
                proof {
                    lemma_bringup_trace_writes_preceded(vsg);
                    lemma_wp_take(bringup_trace(vsg), 7);
                    assert(op_addr(bringup_trace(vsg)[7]) == RegisterAddress::CTRL1_XL.spec_addr());
                    assert(bringup_stopped(pre, self.device.log(), RegisterAddress::CTRL1_XL));
                    lemma_add_split(pre, tr);
                }
                return Err(Error::Bus { reg: RegisterAddress::CTRL1_XL, fault: f });
            },
        };
        proof {
            let vs2 = vsg.update(3, v3);
            lemma_bringup_trace_take_agree(vsg, vs2, 7);
            vsg = vs2;
            lemma_add_push(pre, tr, BusOp::Read {
                addr: RegisterAddress::CTRL1_XL.spec_addr(),
                value: v3,
            });
            assert(bringup_trace(vsg)[7] == BusOp::Read {
                addr: RegisterAddress::CTRL1_XL.spec_addr(),
                value: v3,
            });
            lemma_take_succ(bringup_trace(vsg), 7);
            tr = tr.push(BusOp::Read {
                addr: RegisterAddress::CTRL1_XL.spec_addr(),
                value: v3,
            });
            assert(tr == bringup_trace(vsg).take(8));
        }
        let mut reg1 = Ctrl1Xl::from_bits_retain(v3);
        reg1.insert(ODR_XL3 | LPF2_XL_EN);
        reg1.remove(ODR_XL2 | ODR_XL1 | ODR_XL0 | FS1_XL | FS0_XL);
        match self.device.write_reg(RegisterAddress::CTRL1_XL.bits(), reg1.bits()) {
            Ok(_) => {},
            Err(f) => {
                self.state = DeviceState::Faulted;
                proof {
                    lemma_bringup_trace_writes_preceded(vsg);
                    lemma_wp_take(bringup_trace(vsg), 8);
                    assert(op_addr(bringup_trace(vsg)[8]) == RegisterAddress::CTRL1_XL.spec_addr());
                    assert(bringup_stopped(pre, self.device.log(), RegisterAddress::CTRL1_XL));
                    lemma_add_split(pre, tr);
                }
                return Err(Error::Bus { reg: RegisterAddress::CTRL1_XL, fault: f });
            },
        }
        proof {
            lemma_add_push(pre, tr, BusOp::Write {
                addr: RegisterAddress::CTRL1_XL.spec_addr(),
                value: accel_config_byte(v3),
            });
            assert(vsg[3] == v3);
            assert(bringup_trace(vsg)[8] == BusOp::Write {
                addr: RegisterAddress::CTRL1_XL.spec_addr(),
                value: accel_config_byte(vsg[3]),
            });
            lemma_take_succ(bringup_trace(vsg), 8);
            tr = tr.push(BusOp::Write {
                addr: RegisterAddress::CTRL1_XL.spec_addr(),
                value: accel_config_byte(v3),
            });
            assert(tr == bringup_trace(vsg).take(9));
        }

        // Configure the accelerometer filter: low pass at one tenth of the
        // output rate.
        let v4 = match self.device.read_reg(RegisterAddress::CTRL8_XL.bits()) {
            Ok(v) => v,
            Err(f) => {
                self.state = DeviceState::Faulted;
                proof {
                    lemma_bringup_trace_writes_preceded(vsg);
                    lemma_wp_take(bringup_trace(vsg), 9);
                    assert(op_addr(bringup_trace(vsg)[9]) == RegisterAddress::CTRL8_XL.spec_addr());
                    assert(bringup_stopped(pre, self.device.log(), RegisterAddress::CTRL8_XL));
                    lemma_add_split(pre, tr);
                }
                return Err(Error::Bus { reg: RegisterAddress::CTRL8_XL, fault: f });
            },
        };
        proof {
            let vs2 = vsg.update(4, v4);
            lemma_bringup_trace_take_agree(vsg, vs2, 9);
            vsg = vs2;
            lemma_add_push(pre, tr, BusOp::Read {
                addr: RegisterAddress::CTRL8_XL.spec_addr(),
                value: v4,
            });
            assert(bringup_trace(vsg)[9] == BusOp::Read {
                addr: RegisterAddress::CTRL8_XL.spec_addr(),
                value: v4,
            });
            lemma_take_succ(bringup_trace(vsg), 9);
            tr = tr.push(BusOp::Read {
                addr: RegisterAddress::CTRL8_XL.spec_addr(),
                value: v4,
            });
            assert(tr == bringup_trace(vsg).take(10));
        }
        let mut reg8 = Ctrl8Xl::from_bits_retain(v4);
        reg8.insert(HPCF_XL_0);
        reg8.remove(HPCF_XL_2 | HPCF_XL_1);
        match self.device.write_reg(RegisterAddress::CTRL8_XL.bits(), reg8.bits()) {
            Ok(_) => {},
            Err(f) => {
                self.state = DeviceState::Faulted;
                proof {
                    lemma_bringup_trace_writes_preceded(vsg);
                    lemma_wp_take(bringup_trace(vsg), 10);
                    assert(op_addr(bringup_trace(vsg)[10]) == RegisterAddress::CTRL8_XL.spec_addr());
                    assert(bringup_stopped(pre, self.device.log(), RegisterAddress::CTRL8_XL));
                    lemma_add_split(pre, tr);
                }
                return Err(Error::Bus { reg: RegisterAddress::CTRL8_XL, fault: f });
            },
        }
        proof {
            lemma_add_push(pre, tr, BusOp::Write {
                addr: RegisterAddress::CTRL8_XL.spec_addr(),
                value: accel_filter_byte(v4),
            });
            assert(vsg[4] == v4);
            assert(bringup_trace(vsg)[10] == BusOp::Write {
                addr: RegisterAddress::CTRL8_XL.spec_addr(),
                value: accel_filter_byte(vsg[4]),
            });
            lemma_take_succ(bringup_trace(vsg), 10);
            tr = tr.push(BusOp::Write {
                addr: RegisterAddress::CTRL8_XL.spec_addr(),
                value: accel_filter_byte(v4),
            });
            assert(tr == bringup_trace(vsg).take(11));
        }

        // Prepare the offsets: the fine offset weighting.
        let v5 = match self.device.read_reg(RegisterAddress::CTRL6_C.bits()) {
            Ok(v) => v,
            Err(f) => {
                self.state = DeviceState::Faulted;
                proof {
                    lemma_bringup_trace_writes_preceded(vsg);
                    lemma_wp_take(bringup_trace(vsg), 11);
                    assert(op_addr(bringup_trace(vsg)[11]) == RegisterAddress::CTRL6_C.spec_addr());
                    assert(bringup_stopped(pre, self.device.log(), RegisterAddress::CTRL6_C));
                    lemma_add_split(pre, tr);
                }
                return Err(Error::Bus { reg: RegisterAddress::CTRL6_C, fault: f });
            },
        };
        proof {
            let vs2 = vsg.update(5, v5);
            lemma_bringup_trace_take_agree(vsg, vs2, 11);
            vsg = vs2;
            lemma_add_push(pre, tr, BusOp::Read {
                addr: RegisterAddress::CTRL6_C.spec_addr(),
                value: v5,
            });
            assert(bringup_trace(vsg)[11] == BusOp::Read {
                addr: RegisterAddress::CTRL6_C.spec_addr(),
                value: v5,
            });
            lemma_take_succ(bringup_trace(vsg), 11);
            tr = tr.push(BusOp::Read {
                addr: RegisterAddress::CTRL6_C.spec_addr(),
                value: v5,
            });
            assert(tr == bringup_trace(vsg).take(12));
        }
        let mut reg6 = Ctrl6C::from_bits_retain(v5);
        reg6.remove(USR_OFF_W);
        match self.device.write_reg(RegisterAddress::CTRL6_C.bits(), reg6.bits()) {
            Ok(_) => {},
            Err(f) => {
                self.state = DeviceState::Faulted;
                proof {
                    lemma_bringup_trace_writes_preceded(vsg);
                    lemma_wp_take(bringup_trace(vsg), 12);
                    assert(op_addr(bringup_trace(vsg)[12]) == RegisterAddress::CTRL6_C.spec_addr());
                    assert(bringup_stopped(pre, self.device.log(), RegisterAddress::CTRL6_C));
                    lemma_add_split(pre, tr);
                }
                return Err(Error::Bus { reg: RegisterAddress::CTRL6_C, fault: f });
            },
        }
        proof {
            lemma_add_push(pre, tr, BusOp::Write {
                addr: RegisterAddress::CTRL6_C.spec_addr(),
                value: offset_weight_byte(v5),
            });
            assert(vsg[5] == v5);
            assert(bringup_trace(vsg)[12] == BusOp::Write {
                addr: RegisterAddress::CTRL6_C.spec_addr(),
                value: offset_weight_byte(vsg[5]),
            });
            lemma_take_succ(bringup_trace(vsg), 12);
            tr = tr.push(BusOp::Write {
                addr: RegisterAddress::CTRL6_C.spec_addr(),
                value: offset_weight_byte(v5),
            });
            assert(tr == bringup_trace(vsg).take(13));
        }

        // Apply the offsets: enable them on the output, then write the
        // three calibration constants; the offset registers hold nothing
        // else, so these writes need no preceding read.
        let v6 = match self.device.read_reg(RegisterAddress::CTRL7_G.bits()) {
            Ok(v) => v,
            Err(f) => {
                self.state = DeviceState::Faulted;
                proof {
                    lemma_bringup_trace_writes_preceded(vsg);
                    lemma_wp_take(bringup_trace(vsg), 13);
                    assert(op_addr(bringup_trace(vsg)[13]) == RegisterAddress::CTRL7_G.spec_addr());
                    assert(bringup_stopped(pre, self.device.log(), RegisterAddress::CTRL7_G));
                    lemma_add_split(pre, tr);
                }
                return Err(Error::Bus { reg: RegisterAddress::CTRL7_G, fault: f });
            },
        };
        proof {
            let vs2 = vsg.update(6, v6);
            lemma_bringup_trace_take_agree(vsg, vs2, 13);
            vsg = vs2;
            lemma_add_push(pre, tr, BusOp::Read {
                addr: RegisterAddress::CTRL7_G.spec_addr(),
                value: v6,
            });
            assert(bringup_trace(vsg)[13] == BusOp::Read {
                addr: RegisterAddress::CTRL7_G.spec_addr(),
                value: v6,
            });
            lemma_take_succ(bringup_trace(vsg), 13);
            tr = tr.push(BusOp::Read {
                addr: RegisterAddress::CTRL7_G.spec_addr(),
                value: v6,
            });
            assert(tr == bringup_trace(vsg).take(14));
        }
        let mut reg7 = Ctrl7G::from_bits_retain(v6);
        reg7.insert(USR_OFF_ON_OUT);
        match self.device.write_reg(RegisterAddress::CTRL7_G.bits(), reg7.bits()) {
            Ok(_) => {},
            Err(f) => {
                self.state = DeviceState::Faulted;
                proof {
                    lemma_bringup_trace_writes_preceded(vsg);
                    lemma_wp_take(bringup_trace(vsg), 14);
                    assert(op_addr(bringup_trace(vsg)[14]) == RegisterAddress::CTRL7_G.spec_addr());
                    assert(bringup_stopped(pre, self.device.log(), RegisterAddress::CTRL7_G));
                    lemma_add_split(pre, tr);
                }
                return Err(Error::Bus { reg: RegisterAddress::CTRL7_G, fault: f });
            },
        }
        proof {
            lemma_add_push(pre, tr, BusOp::Write {
                addr: RegisterAddress::CTRL7_G.spec_addr(),
                value: offset_enable_byte(v6),
            });
            assert(vsg[6] == v6);
            assert(bringup_trace(vsg)[14] == BusOp::Write {
                addr: RegisterAddress::CTRL7_G.spec_addr(),
                value: offset_enable_byte(vsg[6]),
            });
            lemma_take_succ(bringup_trace(vsg), 14);
            tr = tr.push(BusOp::Write {
                addr: RegisterAddress::CTRL7_G.spec_addr(),
                value: offset_enable_byte(v6),
            });
            assert(tr == bringup_trace(vsg).take(15));
        }
        match self.device.write_reg(RegisterAddress::X_OFS_USR.bits(), DAT_X_OFS_USR as u8) {
            Ok(_) => {},
            Err(f) => {
                self.state = DeviceState::Faulted;
                proof {
                    lemma_bringup_trace_writes_preceded(vsg);
                    lemma_wp_take(bringup_trace(vsg), 15);
                    assert(op_addr(bringup_trace(vsg)[15]) == RegisterAddress::X_OFS_USR.spec_addr());
                    assert(bringup_stopped(pre, self.device.log(), RegisterAddress::X_OFS_USR));
                    lemma_add_split(pre, tr);
                }
                return Err(Error::Bus { reg: RegisterAddress::X_OFS_USR, fault: f });
            },
        }
        proof {
            lemma_add_push(pre, tr, BusOp::Write {
                addr: RegisterAddress::X_OFS_USR.spec_addr(),
                value: DAT_X_OFS_USR as u8,
            });
            assert(bringup_trace(vsg)[15] == BusOp::Write {
                addr: RegisterAddress::X_OFS_USR.spec_addr(),
                value: DAT_X_OFS_USR as u8,
            });
            lemma_take_succ(bringup_trace(vsg), 15);
            tr = tr.push(BusOp::Write {
                addr: RegisterAddress::X_OFS_USR.spec_addr(),
                value: DAT_X_OFS_USR as u8,
            });
            assert(tr == bringup_trace(vsg).take(16));
        }
        match self.device.write_reg(RegisterAddress::Y_OFS_USR.bits(), DAT_Y_OFS_USR as u8) {
            Ok(_) => {},
            Err(f) => {
                self.state = DeviceState::Faulted;
                proof {
                    lemma_bringup_trace_writes_preceded(vsg);
                    lemma_wp_take(bringup_trace(vsg), 16);
                    assert(op_addr(bringup_trace(vsg)[16]) == RegisterAddress::Y_OFS_USR.spec_addr());
                    assert(bringup_stopped(pre, self.device.log(), RegisterAddress::Y_OFS_USR));
                    lemma_add_split(pre, tr);
                }
                return Err(Error::Bus { reg: RegisterAddress::Y_OFS_USR, fault: f });
            },
        }
        proof {
            lemma_add_push(pre, tr, BusOp::Write {
                addr: RegisterAddress::Y_OFS_USR.spec_addr(),
                value: DAT_Y_OFS_USR as u8,
            });
            assert(bringup_trace(vsg)[16] == BusOp::Write {
                addr: RegisterAddress::Y_OFS_USR.spec_addr(),
                value: DAT_Y_OFS_USR as u8,
            });
            lemma_take_succ(bringup_trace(vsg), 16);
            tr = tr.push(BusOp::Write {
                addr: RegisterAddress::Y_OFS_USR.spec_addr(),
                value: DAT_Y_OFS_USR as u8,
            });
            assert(tr == bringup_trace(vsg).take(17));
        }
        match self.device.write_reg(RegisterAddress::Z_OFS_USR.bits(), DAT_Z_OFS_USR as u8) {
            Ok(_) => {},
            Err(f) => {
                self.state = DeviceState::Faulted;
                proof {
                    lemma_bringup_trace_writes_preceded(vsg);
                    lemma_wp_take(bringup_trace(vsg), 17);
                    assert(op_addr(bringup_trace(vsg)[17]) == RegisterAddress::Z_OFS_USR.spec_addr());
                    assert(bringup_stopped(pre, self.device.log(), RegisterAddress::Z_OFS_USR));
                    lemma_add_split(pre, tr);
                }
                return Err(Error::Bus { reg: RegisterAddress::Z_OFS_USR, fault: f });
            },
        }
        proof {
            lemma_add_push(pre, tr, BusOp::Write {
                addr: RegisterAddress::Z_OFS_USR.spec_addr(),
                value: DAT_Z_OFS_USR as u8,
            });
            assert(bringup_trace(vsg)[17] == BusOp::Write {
                addr: RegisterAddress::Z_OFS_USR.spec_addr(),
                value: DAT_Z_OFS_USR as u8,
            });
            lemma_take_succ(bringup_trace(vsg), 17);
            tr = tr.push(BusOp::Write {
                addr: RegisterAddress::Z_OFS_USR.spec_addr(),
                value: DAT_Z_OFS_USR as u8,
            });
            assert(tr == bringup_trace(vsg).take(18));
        }

        // Configure the gyroscope path: 1.66 kHz, widest standard range.
        let v7 = match self.device.read_reg(RegisterAddress::CTRL2_G.bits()) {
            Ok(v) => v,
            Err(f) => {
                self.state = DeviceState::Faulted;
                proof {
                    lemma_bringup_trace_writes_preceded(vsg);
                    lemma_wp_take(bringup_trace(vsg), 18);
                    assert(op_addr(bringup_trace(vsg)[18]) == RegisterAddress::CTRL2_G.spec_addr());
                    assert(bringup_stopped(pre, self.device.log(), RegisterAddress::CTRL2_G));
                    lemma_add_split(pre, tr);
                }
                return Err(Error::Bus { reg: RegisterAddress::CTRL2_G, fault: f });
            },
        };
        proof {
            let vs2 = vsg.update(7, v7);
            lemma_bringup_trace_take_agree(vsg, vs2, 18);
            vsg = vs2;
            lemma_add_push(pre, tr, BusOp::Read {
                addr: RegisterAddress::CTRL2_G.spec_addr(),
                value: v7,
            });
            assert(bringup_trace(vsg)[18] == BusOp::Read {
                addr: RegisterAddress::CTRL2_G.spec_addr(),
                value: v7,
            });
            lemma_take_succ(bringup_trace(vsg), 18);
            tr = tr.push(BusOp::Read {
                addr: RegisterAddress::CTRL2_G.spec_addr(),
                value: v7,
            });
            assert(tr == bringup_trace(vsg).take(19));
        }
        let mut reg2 = Ctrl2G::from_bits_retain(v7);
        reg2.insert(ODR_G3 | FS1_G | FS0_G);
        reg2.remove(ODR_G2 | ODR_G1 | ODR_G0 | FS_125 | FS_4000);
        match self.device.write_reg(RegisterAddress::CTRL2_G.bits(), reg2.bits()) {
            Ok(_) => {},
            Err(f) => {
                self.state = DeviceState::Faulted;
                proof {
                    lemma_bringup_trace_writes_preceded(vsg);
                    lemma_wp_take(bringup_trace(vsg), 19);
                    assert(op_addr(bringup_trace(vsg)[19]) == RegisterAddress::CTRL2_G.spec_addr());
                    assert(bringup_stopped(pre, self.device.log(), RegisterAddress::CTRL2_G));
                    lemma_add_split(pre, tr);
                }
                return Err(Error::Bus { reg: RegisterAddress::CTRL2_G, fault: f });
            },
        }
        proof {
            lemma_add_push(pre, tr, BusOp::Write {
                addr: RegisterAddress::CTRL2_G.spec_addr(),
                value: gyro_config_byte(v7),
            });
            assert(vsg[7] == v7);
            assert(bringup_trace(vsg)[19] == BusOp::Write {
                addr: RegisterAddress::CTRL2_G.spec_addr(),
                value: gyro_config_byte(vsg[7]),
            });
            lemma_take_succ(bringup_trace(vsg), 19);
            tr = tr.push(BusOp::Write {
                addr: RegisterAddress::CTRL2_G.spec_addr(),
                value: gyro_config_byte(v7),
            });
            assert(tr == bringup_trace(vsg).take(20));
        }

        // Enable the gyroscope's first low-pass filter.
        let v8 = match self.device.read_reg(RegisterAddress::CTRL4_C.bits()) {
            Ok(v) => v,
            Err(f) => {
                self.state = DeviceState::Faulted;
                proof {
                    lemma_bringup_trace_writes_preceded(vsg);
                    lemma_wp_take(bringup_trace(vsg), 20);
                    assert(op_addr(bringup_trace(vsg)[20]) == RegisterAddress::CTRL4_C.spec_addr());
                    assert(bringup_stopped(pre, self.device.log(), RegisterAddress::CTRL4_C));
                    lemma_add_split(pre, tr);
                }
                return Err(Error::Bus { reg: RegisterAddress::CTRL4_C, fault: f });
            },
        };
        proof {
            let vs2 = vsg.update(8, v8);
            lemma_bringup_trace_take_agree(vsg, vs2, 20);
            vsg = vs2;
            lemma_add_push(pre, tr, BusOp::Read {
                addr: RegisterAddress::CTRL4_C.spec_addr(),
                value: v8,
            });
            assert(bringup_trace(vsg)[20] == BusOp::Read {
                addr: RegisterAddress::CTRL4_C.spec_addr(),
                value: v8,
            });
            lemma_take_succ(bringup_trace(vsg), 20);
            tr = tr.push(BusOp::Read {
                addr: RegisterAddress::CTRL4_C.spec_addr(),
                value: v8,
            });
            assert(tr == bringup_trace(vsg).take(21));
        }
        let mut reg4 = Ctrl4C::from_bits_retain(v8);
        reg4.insert(LPF1_SEL_G);
        match self.device.write_reg(RegisterAddress::CTRL4_C.bits(), reg4.bits()) {
            Ok(_) => {},
            Err(f) => {
                self.state = DeviceState::Faulted;
                proof {
                    lemma_bringup_trace_writes_preceded(vsg);
                    lemma_wp_take(bringup_trace(vsg), 21);
                    assert(op_addr(bringup_trace(vsg)[21]) == RegisterAddress::CTRL4_C.spec_addr());
                    assert(bringup_stopped(pre, self.device.log(), RegisterAddress::CTRL4_C));
                    lemma_add_split(pre, tr);
                }
                return Err(Error::Bus { reg: RegisterAddress::CTRL4_C, fault: f });
            },
        }
        proof {
            lemma_add_push(pre, tr, BusOp::Write {
                addr: RegisterAddress::CTRL4_C.spec_addr(),
                value: gyro_filter_byte(v8),
            });
            assert(vsg[8] == v8);
            assert(bringup_trace(vsg)[21] == BusOp::Write {
                addr: RegisterAddress::CTRL4_C.spec_addr(),
                value: gyro_filter_byte(vsg[8]),
            });
            lemma_take_succ(bringup_trace(vsg), 21);
            tr = tr.push(BusOp::Write {
                addr: RegisterAddress::CTRL4_C.spec_addr(),
                value: gyro_filter_byte(v8),
            });
            assert(tr == bringup_trace(vsg).take(22));
        }

        // Select the gyroscope filter type: middle bit set, the others
        // cleared.
        let v9 = match self.device.read_reg(RegisterAddress::CTRL6_C.bits()) {
            Ok(v) => v,
            Err(f) => {
                self.state = DeviceState::Faulted;
                proof {
                    lemma_bringup_trace_writes_preceded(vsg);
                    lemma_wp_take(bringup_trace(vsg), 22);
                    assert(op_addr(bringup_trace(vsg)[22]) == RegisterAddress::CTRL6_C.spec_addr());
                    assert(bringup_stopped(pre, self.device.log(), RegisterAddress::CTRL6_C));
                    lemma_add_split(pre, tr);
                }
                return Err(Error::Bus { reg: RegisterAddress::CTRL6_C, fault: f });
            },
        };
        proof {
            let vs2 = vsg.update(9, v9);
            lemma_bringup_trace_take_agree(vsg, vs2, 22);
            vsg = vs2;
            lemma_add_push(pre, tr, BusOp::Read {
                addr: RegisterAddress::CTRL6_C.spec_addr(),
                value: v9,
            });
            assert(bringup_trace(vsg)[22] == BusOp::Read {
                addr: RegisterAddress::CTRL6_C.spec_addr(),
                value: v9,
            });
            lemma_take_succ(bringup_trace(vsg), 22);
            tr = tr.push(BusOp::Read {
                addr: RegisterAddress::CTRL6_C.spec_addr(),
                value: v9,
            });
            assert(tr == bringup_trace(vsg).take(23));
        }
        let mut reg6b = Ctrl6C::from_bits_retain(v9);
        reg6b.insert(FTYPE_1);
        reg6b.remove(FTYPE_2 | FTYPE_0);
        match self.device.write_reg(RegisterAddress::CTRL6_C.bits(), reg6b.bits()) {
            Ok(_) => {},
            Err(f) => {
                self.state = DeviceState::Faulted;
                proof {
                    lemma_bringup_trace_writes_preceded(vsg);
                    lemma_wp_take(bringup_trace(vsg), 23);
                    assert(op_addr(bringup_trace(vsg)[23]) == RegisterAddress::CTRL6_C.spec_addr());
                    assert(bringup_stopped(pre, self.device.log(), RegisterAddress::CTRL6_C));
                    lemma_add_split(pre, tr);
                }
                return Err(Error::Bus { reg: RegisterAddress::CTRL6_C, fault: f });
            },
        }
        proof {
            lemma_add_push(pre, tr, BusOp::Write {
                addr: RegisterAddress::CTRL6_C.spec_addr(),
                value: filter_type_byte(v9),
            });
            assert(vsg[9] == v9);
            assert(bringup_trace(vsg)[23] == BusOp::Write {
                addr: RegisterAddress::CTRL6_C.spec_addr(),
                value: filter_type_byte(vsg[9]),
            });
            lemma_take_succ(bringup_trace(vsg), 23);
            tr = tr.push(BusOp::Write {
                addr: RegisterAddress::CTRL6_C.spec_addr(),
                value: filter_type_byte(v9),
            });
            assert(tr == bringup_trace(vsg).take(24));
        }

        self.state = DeviceState::Ready;
        proof {
            assert(bringup_trace(vsg).take(24) =~= bringup_trace(vsg));
            lemma_bringup_trace_writes_preceded(vsg);
            lemma_add_split(pre, tr);
        }
        Ok(())
    }

    /// Attaches to the transport and runs the whole bring-up.
    ///
    /// On failure the transport is consumed along with the device, so
    /// nothing can be said here about its final trace; a caller that needs
    /// the failure trace pinned down uses [`Lsm6sdrx::attach`] and
    /// [`Lsm6sdrx::bring_up`], whose contract covers every outcome.
    pub fn new(device: T) -> (r: Result<Lsm6sdrx<T>, Error>)
        ensures
            match r {
                Ok(d) => d.spec_state() == DeviceState::Ready && bringup_complete(
                    device.log(),
                    d.log(),
                ),
                Err(e) => match e {
                    Error::Bus { .. } => true,
                    Error::IdentityMismatch { found } => found != WHO_AM_I_VALUE,
                    _ => false,
                },
            },
    {
        let mut d = Lsm6sdrx::attach(device);
        match d.bring_up() {
            Ok(_) => Ok(d),
            Err(e) => Err(e),
        }
    }

    /// Fetches one raw accelerometer sample.
    ///
    /// Only a `Ready` device touches the bus: anything else returns
    /// [`Error::NotReady`] without a transaction.  A `Ready` fetch is one
    /// atomic burst read of six bytes starting at the first output
    /// register; the decoded axes are exactly the little-endian pairs the
    /// burst returned.  A burst of any other size is rejected as
    /// [`Error::TransferSize`].  A fetch never changes the device state:
    /// failures are reported to the caller, who may simply fetch again.
    pub fn fetch_raw(&mut self) -> (r: Result<RawSample, Error>)
        ensures
            final(self).spec_state() == old(self).spec_state(),
            old(self).spec_state() != DeviceState::Ready ==> final(self).log()
                == old(self).log() && r == Err::<RawSample, Error>(Error::NotReady),
            old(self).spec_state() == DeviceState::Ready ==> match r {
                Ok(s) => {
                    &&& final(self).log().len() == old(self).log().len() + 1
                    &&& final(self).log().drop_last() == old(self).log()
                    &&& match final(self).log().last() {
                        BusOp::ReadBurst { addr, data } => addr
                            == RegisterAddress::OUTX_L_G.spec_addr() && decodes_to(data, s),
                        _ => false,
                    }
                },
                Err(e) => match e {
                    Error::Bus { reg, .. } => reg == RegisterAddress::OUTX_L_G
                        && final(self).log() == old(self).log(),
                    Error::TransferSize { got } => {
                        &&& got != SAMPLE_BLOCK_LEN
                        &&& final(self).log().len() == old(self).log().len() + 1
                        &&& final(self).log().drop_last() == old(self).log()
                        &&& match final(self).log().last() {
                            BusOp::ReadBurst { addr, data } => addr
                                == RegisterAddress::OUTX_L_G.spec_addr() && data.len() == got,
                            _ => false,
                        }
                    },
                    _ => false,
                },
            },
    {
        match self.state {
            DeviceState::Ready => {},
            _ => {
                return Err(Error::NotReady);
            },
        }
        let data = match self.device.read_burst(
            RegisterAddress::OUTX_L_G.bits(),
            SAMPLE_BLOCK_LEN,
        ) {
            Ok(d) => d,
            Err(f) => {
                return Err(Error::Bus { reg: RegisterAddress::OUTX_L_G, fault: f });
            },
        };
        proof {
            assert(self.device.log().drop_last() =~= old(self).device.log());
        }
        if data.len() != SAMPLE_BLOCK_LEN {
            return Err(Error::TransferSize { got: data.len() });
        }
        let s = decode_raw_sample(data.as_slice());
        Ok(s)
    }

    /// Fetches one raw gyroscope sample.  The gyroscope decode is
    /// intentionally not provided yet: the call fails loudly with
    /// [`Error::Unimplemented`] and performs no bus transaction, rather
    /// than returning zeros that look like a measurement.
    pub fn fetch_angular_raw(&mut self) -> (r: Result<RawSample, Error>)
        ensures
            final(self).spec_state() == old(self).spec_state(),
            final(self).log() == old(self).log(),
            r == Err::<RawSample, Error>(Error::Unimplemented),
    {
        Err(Error::Unimplemented)
    }
}

} // verus!
