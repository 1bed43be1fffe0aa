//! The bus transport capability and the trace of bus operations.
//!
//! The driver never touches the wire itself: it goes through [`Transport`],
//! an atomic register-transaction primitive.  Each method performs one
//! indivisible write-then-read or write-then-write pair on the device.  A
//! transport carries a ghost trace of the operations it has performed, so
//! the driver's contracts can say exactly which registers were read and
//! written, and in what order.

use vstd::prelude::*;

use crate::regmap::RegisterAddress;

verus! {

/// One operation performed on the bus, as recorded in a transport's trace.
pub enum BusOp {
    /// A single-register read that returned `value`.
    Read { addr: u8, value: u8 },
    /// A single-register write of `value`.
    Write { addr: u8, value: u8 },
    /// A burst read starting at `addr` that returned `data`.
    ReadBurst { addr: u8, data: Seq<u8> },
}

/// An opaque bus-level failure: a timeout, a NACK, or whatever else the
/// transport distinguishes only by its code.
#[derive(Clone, Copy, Debug, PartialEq, Eq, Structural)]
pub struct BusFault {
    pub code: u32,
}

/// The register the operation touched.
pub open spec fn op_addr(op: BusOp) -> u8 {
    match op {
        BusOp::Read { addr, .. } => addr,
        BusOp::Write { addr, .. } => addr,
        BusOp::ReadBurst { addr, .. } => addr,
    }
}

/// Whether the operation is a single-register write.
pub open spec fn op_is_write(op: BusOp) -> bool {
    match op {
        BusOp::Write { .. } => true,
        _ => false,
    }
}

/// Whether the operation is a single-register read.
pub open spec fn op_is_read(op: BusOp) -> bool {
    match op {
        BusOp::Read { .. } => true,
        _ => false,
    }
}

/// The three user offset registers, the only registers the bring-up sequence
/// overwrites without reading first: they hold no bits besides the offset.
pub open spec fn is_offset_register(addr: u8) -> bool {
    ||| addr == RegisterAddress::X_OFS_USR.spec_addr()
    ||| addr == RegisterAddress::Y_OFS_USR.spec_addr()
    ||| addr == RegisterAddress::Z_OFS_USR.spec_addr()
}

/// Every write in the trace, except writes to the offset registers, comes
/// immediately after a read of the same register: the trace is made of
/// read-modify-write pairs.
pub open spec fn writes_preceded(t: Seq<BusOp>) -> bool {
    forall|i: int|
        0 <= i < t.len() && op_is_write(#[trigger] t[i]) && !is_offset_register(op_addr(t[i]))
            ==> 0 < i && op_is_read(t[i - 1]) && op_addr(t[i - 1]) == op_addr(t[i])
}

/// An atomic register-transaction capability over the device.
///
/// Implementations frame each call as one indivisible bus transaction: a
/// read sends the register's read address and takes one byte (or, for a
/// burst, several) back; a write sends the bare address followed by the
/// payload byte.  The ghost trace `log` grows by exactly the operation
/// performed; a failed call leaves it unchanged.  Nothing is promised about
/// the values a read returns: the device decides those.
pub trait Transport: Sized {
    /// The operations performed so far, oldest first.  The default leaves
    /// the trace unspecified, so a transport that keeps it promises
    /// nothing checkable about its history: every transport that is to be
    /// verified against the contracts below states its own trace, as
    /// [`crate::sim::SimTransport`] does.  Only an implementation beyond
    /// verification's reach, such as one over real hardware, keeps the
    /// default.
    open spec fn log(self) -> Seq<BusOp> {
        arbitrary()
    }

    /// Reads one register, given its bare 7-bit address.
    fn read_reg(&mut self, addr: u8) -> (r: Result<u8, BusFault>)
        requires
            addr < 0x80,
        ensures
            match r {
                Ok(v) => final(self).log() == old(self).log().push(
                    BusOp::Read { addr, value: v },
                ),
                Err(_) => final(self).log() == old(self).log(),
            },
    ;

    /// Writes one register, given its bare 7-bit address.
    fn write_reg(&mut self, addr: u8, value: u8) -> (r: Result<(), BusFault>)
        requires
            addr < 0x80,
        ensures
            match r {
                Ok(_) => final(self).log() == old(self).log().push(
                    BusOp::Write { addr, value },
                ),
                Err(_) => final(self).log() == old(self).log(),
            },
    ;

    /// Reads `len` consecutive registers in one burst starting at the bare
    /// address `addr`.  A well-behaved transport returns exactly `len`
    /// bytes, but nothing here promises that: the caller must check.
    fn read_burst(&mut self, addr: u8, len: usize) -> (r: Result<Vec<u8>, BusFault>)
        requires
            addr < 0x80,
        ensures
            match r {
                Ok(d) => final(self).log() == old(self).log().push(
                    BusOp::ReadBurst { addr, data: d@ },
                ),
                Err(_) => final(self).log() == old(self).log(),
            },
    ;
}

/// Pushing onto the right half of a concatenation.
pub proof fn lemma_add_push(a: Seq<BusOp>, b: Seq<BusOp>, x: BusOp)
    ensures
        (a + b).push(x) == a + b.push(x),
{
    assert((a + b).push(x) =~= a + b.push(x));
}

/// A concatenation splits back into its halves.
pub proof fn lemma_add_split(a: Seq<BusOp>, b: Seq<BusOp>)
    ensures
        (a + b).skip(a.len() as int) == b,
        (a + b).take(a.len() as int) == a,
{
    assert((a + b).skip(a.len() as int) =~= b);
    assert((a + b).take(a.len() as int) =~= a);
}

/// Taking one more element appends exactly that element.
pub proof fn lemma_take_succ(t: Seq<BusOp>, k: int)
    requires
        0 <= k < t.len(),
    ensures
        t.take(k + 1) == t.take(k).push(t[k]),
{
    assert(t.take(k + 1) =~= t.take(k).push(t[k]));
}

/// A prefix of a read-modify-write trace keeps the discipline: cutting
/// the trace can only drop writes, never the read just before one.
pub proof fn lemma_wp_take(t: Seq<BusOp>, k: int)
    requires
        writes_preceded(t),
        0 <= k <= t.len(),
    ensures
        writes_preceded(t.take(k)),
{
    let t2 = t.take(k);
    assert forall|i: int|
        0 <= i < t2.len() && op_is_write(#[trigger] t2[i]) && !is_offset_register(
            op_addr(t2[i]),
        ) implies 0 < i && op_is_read(t2[i - 1]) && op_addr(t2[i - 1]) == op_addr(t2[i]) by {
        assert(t2[i] == t[i]);
        assert(0 < i);
        assert(t2[i - 1] == t[i - 1]);
    }
}

} // verus!
