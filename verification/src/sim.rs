//! A register-file simulation of the sensor, for exercising the driver
//! without hardware.
//!
//! [`SimTransport`] keeps 128 register bytes, answers single-register reads
//! and writes from them, and answers burst reads with a configurable byte
//! block, so misbehaving transports (short or long bursts) can be staged.
//! Bus faults can be injected from any chosen operation onward.  It
//! implements [`Transport`], so everything proved of the driver holds over
//! it, and its trace is the real trace of what the driver did.

use vstd::prelude::*;

use crate::bus::{BusFault, BusOp, Transport};
use crate::driver::WHO_AM_I_VALUE;
use crate::regmap::RegisterAddress;

verus! {

/// Number of register bytes the simulated device holds.
pub const SIM_REG_COUNT: usize = 128;

/// A copy of `src` with the byte at `i` replaced by `value`.
fn copy_update(src: &Vec<u8>, i: usize, value: u8) -> (r: Vec<u8>)
    requires
        i < src@.len(),
    ensures
        r@ == src@.update(i as int, value),
{
    let mut out: Vec<u8> = Vec::new();
    let mut j: usize = 0;
    while j < src.len()
        invariant
            j <= src@.len(),
            i < src@.len(),
            out@.len() == j as int,
            forall|k: int|
                0 <= k < j as int ==> out@[k] == (if k == i as int {
                    value
                } else {
                    src@[k]
                }),
        decreases src@.len() - j,
    {
        if j == i {
            out.push(value);
        } else {
            out.push(src[j]);
        }
        j = j + 1;
    }
    proof {
        assert(out@ =~= src@.update(i as int, value));
    }
    out
}

/// A simulated bus transport backed by a register file.
///
/// A fresh simulation answers the identity register with the expected
/// identity byte and every other register with zero; burst reads answer six
/// zero bytes.  `set_reg`, `set_burst_response` and `fail_from` stage other
/// behaviours.
pub struct SimTransport {
    regs: Vec<u8>,
    burst: Vec<u8>,
    fail_at: Option<usize>,
    ops: usize,
    log: Ghost<Seq<BusOp>>,
}

impl SimTransport {
    #[verifier::type_invariant]
    spec fn wf(self) -> bool {
        self.regs@.len() == SIM_REG_COUNT
    }

    /// The byte the simulated device holds at the register `addr`.
    pub closed spec fn spec_reg(self, addr: u8) -> u8
        recommends
            addr < 0x80,
    {
        self.regs@[addr as int]
    }

    /// The block a burst read answers with.
    pub closed spec fn spec_burst(self) -> Seq<u8> {
        self.burst@
    }

    /// The operation index from which every operation faults, if staged.
    pub closed spec fn spec_fail_at(self) -> Option<usize> {
        self.fail_at
    }

    /// How many operations have succeeded so far.
    pub closed spec fn spec_ops(self) -> usize {
        self.ops
    }

    /// Whether the next operation faults.
    pub open spec fn spec_failing(self) -> bool {
        match self.spec_fail_at() {
            Some(n) => self.spec_ops() >= n,
            None => false,
        }
    }

    /// A fresh simulated device: correct identity byte, all other
    /// registers zero, six-byte zero bursts, no fault staged.
    pub fn new() -> (r: SimTransport)
        ensures
            r.log() == Seq::<BusOp>::empty(),
            r.spec_fail_at() == Option::<usize>::None,
            r.spec_ops() == 0,
            r.spec_burst().len() == 6,
            forall|i: int| 0 <= i < 6 ==> r.spec_burst()[i] == 0,
            r.spec_reg(RegisterAddress::WHO_AM_I.spec_addr()) == WHO_AM_I_VALUE,
            forall|a: u8|
                a < 0x80 && a != RegisterAddress::WHO_AM_I.spec_addr() ==> r.spec_reg(a) == 0,
    {
        let mut regs: Vec<u8> = Vec::new();
        let mut i: usize = 0;
        while i < SIM_REG_COUNT
            invariant
                i <= SIM_REG_COUNT,
                regs@.len() == i as int,
                forall|j: int| 0 <= j < i as int ==> regs@[j] == 0,
            decreases SIM_REG_COUNT - i,
        {
            regs.push(0);
            i = i + 1;
        }
        regs.set(RegisterAddress::WHO_AM_I.bits() as usize, WHO_AM_I_VALUE);
        let mut burst: Vec<u8> = Vec::new();
        let mut k: usize = 0;
        while k < 6
            invariant
                k <= 6,
                burst@.len() == k as int,
                forall|j: int| 0 <= j < k as int ==> burst@[j] == 0,
            decreases 6 - k,
        {
            burst.push(0);
            k = k + 1;
        }
        SimTransport { regs, burst, fail_at: None, ops: 0, log: Ghost(Seq::empty()) }
    }

    /// Stores `value` at the register `reg`, without touching the trace:
    /// this stages device state, it is not a bus operation.
    pub fn set_reg(&mut self, reg: RegisterAddress, value: u8)
        ensures
            final(self).spec_reg(reg.spec_addr()) == value,
            forall|a: u8|
                a < 0x80 && a != reg.spec_addr() ==> final(self).spec_reg(a) == old(
                    self,
                ).spec_reg(a),
            final(self).log() == old(self).log(),
            final(self).spec_burst() == old(self).spec_burst(),
            final(self).spec_fail_at() == old(self).spec_fail_at(),
            final(self).spec_ops() == old(self).spec_ops(),
    {
        proof {
            use_type_invariant(&*self);
        }
        let a = reg.bits();
        self.regs = copy_update(&self.regs, a as usize, value);
    }

    /// Reads back the register `reg`, without touching the trace.
    pub fn peek_reg(&self, reg: RegisterAddress) -> (r: u8)
        ensures
            r == self.spec_reg(reg.spec_addr()),
    {
        proof {
            use_type_invariant(&*self);
        }
        let a = reg.bits();
        self.regs[a as usize]
    }

    /// Stages the block every later burst read answers with.
    pub fn set_burst_response(&mut self, data: Vec<u8>)
        ensures
            final(self).spec_burst() == data@,
            final(self).log() == old(self).log(),
            forall|a: u8| a < 0x80 ==> final(self).spec_reg(a) == old(self).spec_reg(a),
            final(self).spec_fail_at() == old(self).spec_fail_at(),
            final(self).spec_ops() == old(self).spec_ops(),
    {
        proof {
            use_type_invariant(&*self);
        }
        self.burst = data;
    }

    /// Stages a permanent bus fault from the `n`-th operation onward,
    /// counting the operations performed so far from zero.
    pub fn fail_from(&mut self, n: usize)
        ensures
            final(self).spec_fail_at() == Option::Some(n),
            final(self).log() == old(self).log(),
            final(self).spec_burst() == old(self).spec_burst(),
            forall|a: u8| a < 0x80 ==> final(self).spec_reg(a) == old(self).spec_reg(a),
            final(self).spec_ops() == old(self).spec_ops(),
    {
        proof {
            use_type_invariant(&*self);
        }
        self.fail_at = Some(n);
    }

    /// Whether the next operation would fault.
    fn failing(&self) -> (r: bool)
        ensures
            r == self.spec_failing(),
    {
        match self.fail_at {
            Some(n) => self.ops >= n,
            None => false,
        }
    }

    /// Counts one more successful operation.
    fn count_op(&mut self)
        ensures
            final(self).regs == old(self).regs,
            final(self).burst == old(self).burst,
            final(self).fail_at == old(self).fail_at,
            final(self).log == old(self).log,
    {
        proof {
            use_type_invariant(&*self);
        }
        if self.ops < usize::MAX {
            self.ops = self.ops + 1;
        }
    }
}

impl Transport for SimTransport {
    closed spec fn log(self) -> Seq<BusOp> {
        self.log@
    }

    fn read_reg(&mut self, addr: u8) -> (r: Result<u8, BusFault>)
        ensures
            old(self).spec_failing() ==> r is Err && *final(self) == *old(self),
            !old(self).spec_failing() ==> r == Ok::<u8, BusFault>(old(self).spec_reg(addr)),
            final(self).spec_burst() == old(self).spec_burst(),
            final(self).spec_fail_at() == old(self).spec_fail_at(),
            forall|a: u8| a < 0x80 ==> final(self).spec_reg(a) == old(self).spec_reg(a),
    {
        proof {
            use_type_invariant(&*self);
        }
        if self.failing() {
            return Err(BusFault { code: 0 });
        }
        let v = self.regs[addr as usize];
        self.count_op();
        proof {
            use_type_invariant(&*self);
        }
        self.log = Ghost(self.log@.push(BusOp::Read { addr, value: v }));
        Ok(v)
    }

    fn write_reg(&mut self, addr: u8, value: u8) -> (r: Result<(), BusFault>)
        ensures
            old(self).spec_failing() ==> r is Err && *final(self) == *old(self),
            !old(self).spec_failing() ==> {
                &&& r is Ok
                &&& final(self).spec_reg(addr) == value
                &&& forall|a: u8|
                    a < 0x80 && a != addr ==> final(self).spec_reg(a) == old(self).spec_reg(a)
            },
            final(self).spec_burst() == old(self).spec_burst(),
            final(self).spec_fail_at() == old(self).spec_fail_at(),
    {
        proof {
            use_type_invariant(&*self);
        }
        if self.failing() {
            return Err(BusFault { code: 0 });
        }
        self.regs = copy_update(&self.regs, addr as usize, value);
        self.count_op();
        proof {
            use_type_invariant(&*self);
        }
        self.log = Ghost(self.log@.push(BusOp::Write { addr, value }));
        Ok(())
    }

    fn read_burst(&mut self, addr: u8, len: usize) -> (r: Result<Vec<u8>, BusFault>)
        ensures
            old(self).spec_failing() ==> r is Err && *final(self) == *old(self),
            !old(self).spec_failing() ==> (r matches Ok(d) && d@ == old(self).spec_burst()),
            final(self).spec_burst() == old(self).spec_burst(),
            final(self).spec_fail_at() == old(self).spec_fail_at(),
            forall|a: u8| a < 0x80 ==> final(self).spec_reg(a) == old(self).spec_reg(a),
    {
        proof {
            use_type_invariant(&*self);
        }
        if self.failing() {
            return Err(BusFault { code: 0 });
        }
        let mut out: Vec<u8> = Vec::new();
        let mut i: usize = 0;
        while i < self.burst.len()
            invariant
                i <= self.burst@.len(),
                out@ == self.burst@.take(i as int),
            decreases self.burst@.len() - i,
        {
            out.push(self.burst[i]);
            proof {
                assert(out@ =~= self.burst@.take(i + 1));
            }
            i = i + 1;
        }
        proof {
            assert(out@ =~= self.burst@);
        }
        self.count_op();
        proof {
            use_type_invariant(&*self);
        }
        self.log = Ghost(self.log@.push(BusOp::ReadBurst { addr, data: out@ }));
        Ok(out)
    }
}

} // verus!
