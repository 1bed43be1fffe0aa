//! Bit-flag views of the control registers.
//!
//! Each control register is a single byte whose bits are named by the
//! datasheet.  A view is built from the byte read off the bus with
//! `from_bits_retain`, which keeps every bit, named or not: later writes put
//! the whole byte back, so reserved bits must never be dropped.  `insert`,
//! `remove` and `contains` set, clear and test bits by mask; `bits` returns
//! the raw byte.

use vstd::prelude::*;

verus! {

// CTRL1_XL (0x10): accelerometer control register 1.
/// Output data rate bit 3 of CTRL1_XL.
pub const ODR_XL3: u8 = 0b1000_0000;
/// Output data rate bit 2 of CTRL1_XL.
pub const ODR_XL2: u8 = 0b0100_0000;
/// Output data rate bit 1 of CTRL1_XL.
pub const ODR_XL1: u8 = 0b0010_0000;
/// Output data rate bit 0 of CTRL1_XL.
pub const ODR_XL0: u8 = 0b0001_0000;
/// Accelerometer full-scale bit 1 of CTRL1_XL.
pub const FS1_XL: u8 = 0b0000_1000;
/// Accelerometer full-scale bit 0 of CTRL1_XL.
pub const FS0_XL: u8 = 0b0000_0100;
/// Enables the accelerometer's second low-pass filter stage.
pub const LPF2_XL_EN: u8 = 0b0000_0010;

/// View of CTRL1_XL, accelerometer control register 1.
#[derive(Clone, Copy, Debug, PartialEq, Eq, Structural)]
pub struct Ctrl1Xl {
    bits: u8,
}

// CTRL2_G (0x11): gyroscope control register 2.
/// Output data rate bit 3 of CTRL2_G.
pub const ODR_G3: u8 = 0b1000_0000;
/// Output data rate bit 2 of CTRL2_G.
pub const ODR_G2: u8 = 0b0100_0000;
/// Output data rate bit 1 of CTRL2_G.
pub const ODR_G1: u8 = 0b0010_0000;
/// Output data rate bit 0 of CTRL2_G.
pub const ODR_G0: u8 = 0b0001_0000;
/// Gyroscope full-scale bit 1 of CTRL2_G.
pub const FS1_G: u8 = 0b0000_1000;
/// Gyroscope full-scale bit 0 of CTRL2_G.
pub const FS0_G: u8 = 0b0000_0100;
/// Selects the narrow 125 dps gyroscope range.
pub const FS_125: u8 = 0b0000_0010;
/// Selects the extended 4000 dps gyroscope range.
pub const FS_4000: u8 = 0b0000_0001;

/// View of CTRL2_G, gyroscope control register 2.
#[derive(Clone, Copy, Debug, PartialEq, Eq, Structural)]
pub struct Ctrl2G {
    bits: u8,
}

// CTRL3_C (0x12): control register 3.
/// Reboots memory content; automatically cleared by the device.
pub const BOOT: u8 = 0b1000_0000;
/// Block Data Update: output registers are held until MSB and LSB are read.
pub const BDU: u8 = 0b0100_0000;
/// Interrupt pins active low when set.
pub const H_LACTIVE: u8 = 0b0010_0000;
/// Open-drain mode on the interrupt pins when set.
pub const PP_OD: u8 = 0b0001_0000;
/// 3-wire SPI interface mode when set.
pub const SIM: u8 = 0b0000_1000;
/// Auto-increments the register address during multi-byte access.
pub const IF_INC: u8 = 0b0000_0100;
/// Software reset; automatically cleared by the device.
pub const SW_RESET: u8 = 0b0000_0001;

/// View of CTRL3_C, control register 3.
#[derive(Clone, Copy, Debug, PartialEq, Eq, Structural)]
pub struct Ctrl3C {
    bits: u8,
}

// CTRL4_C (0x13): control register 4.
/// Puts the gyroscope in sleep mode.
pub const SLEEP_G: u8 = 0b0100_0000;
/// Routes the INT2 signals onto the INT1 pin.
pub const INT2_ON_INT1: u8 = 0b0010_0000;
/// Masks data-ready signals until the filters settle.
pub const DRDY_MASK: u8 = 0b0000_1000;
/// Disables the I2C interface.
pub const I2C_DISABLE: u8 = 0b0000_0100;
/// Selects the gyroscope's first low-pass filter.
pub const LPF1_SEL_G: u8 = 0b0000_0010;

/// View of CTRL4_C, control register 4.
#[derive(Clone, Copy, Debug, PartialEq, Eq, Structural)]
pub struct Ctrl4C {
    bits: u8,
}

// CTRL5_C (0x14): control register 5.
/// Rounding bit 1.
pub const ROUNDING1: u8 = 0b0100_0000;
/// Rounding bit 0.
pub const ROUNDING0: u8 = 0b0010_0000;
/// Gyroscope self-test bit 1.
pub const ST1_G: u8 = 0b0000_1000;
/// Gyroscope self-test bit 0.
pub const ST0_G: u8 = 0b0000_0100;
/// Accelerometer self-test bit 1.
pub const ST1_XL: u8 = 0b0000_0010;
/// Accelerometer self-test bit 0.
pub const ST0_XL: u8 = 0b0000_0001;

/// View of CTRL5_C, control register 5.
#[derive(Clone, Copy, Debug, PartialEq, Eq, Structural)]
pub struct Ctrl5C {
    bits: u8,
}

// CTRL6_C (0x15): control register 6.
/// DEN trigger enable.
pub const TRIG_EN: u8 = 0b1000_0000;
/// DEN level-sensitive trigger enable.
pub const LVL1_EN: u8 = 0b0100_0000;
/// DEN level-sensitive latched enable.
pub const LVL2_EN: u8 = 0b0010_0000;
/// Disables the accelerometer's high-performance mode.
pub const XL_HM_MODE: u8 = 0b0001_0000;
/// Weight of the user offset registers: coarse when set, fine when clear.
pub const USR_OFF_W: u8 = 0b0000_1000;
/// Gyroscope low-pass filter bandwidth bit 2.
pub const FTYPE_2: u8 = 0b0000_0100;
/// Gyroscope low-pass filter bandwidth bit 1.
pub const FTYPE_1: u8 = 0b0000_0010;
/// Gyroscope low-pass filter bandwidth bit 0.
pub const FTYPE_0: u8 = 0b0000_0001;

/// View of CTRL6_C, control register 6.
#[derive(Clone, Copy, Debug, PartialEq, Eq, Structural)]
pub struct Ctrl6C {
    bits: u8,
}

// CTRL7_G (0x16): control register 7.
/// Disables the gyroscope's high-performance mode.
pub const G_HM_MODE: u8 = 0b1000_0000;
/// Enables the gyroscope's high-pass filter.
pub const HP_EN_G: u8 = 0b0100_0000;
/// Gyroscope high-pass filter cutoff bit 1.
pub const HPM1_G: u8 = 0b0010_0000;
/// Gyroscope high-pass filter cutoff bit 0.
pub const HPM0_G: u8 = 0b0001_0000;
/// Enables the OIS chain when driven from the primary interface.
pub const OIS_ON_EN: u8 = 0b0000_0100;
/// Applies the user offset registers to the accelerometer output.
pub const USR_OFF_ON_OUT: u8 = 0b0000_0010;
/// Enables the OIS chain.
pub const OIS_ON: u8 = 0b0000_0001;

/// View of CTRL7_G, control register 7.
#[derive(Clone, Copy, Debug, PartialEq, Eq, Structural)]
pub struct Ctrl7G {
    bits: u8,
}

// CTRL8_XL (0x17): control register 8.
/// Accelerometer filter cutoff bit 2.
pub const HPCF_XL_2: u8 = 0b1000_0000;
/// Accelerometer filter cutoff bit 1.
pub const HPCF_XL_1: u8 = 0b0100_0000;
/// Accelerometer filter cutoff bit 0.
pub const HPCF_XL_0: u8 = 0b0010_0000;
/// Enables the high-pass reference mode.
pub const HP_REF_MODE_XL: u8 = 0b0001_0000;
/// Enables fast settling of the accelerometer filters.
pub const FASTSETTL_MODE_XL: u8 = 0b0000_1000;
/// Selects the slope or high-pass path instead of the low-pass path.
pub const HP_SLOPE_XL_EN: u8 = 0b0000_0100;
/// Feeds the low-pass output to the 6D detection block.
pub const LOW_PASS_ON_6D: u8 = 0b0000_0001;

/// View of CTRL8_XL, control register 8.
#[derive(Clone, Copy, Debug, PartialEq, Eq, Structural)]
pub struct Ctrl8Xl {
    bits: u8,
}

// CTRL9_XL (0x18): control register 9.
/// DEN value stored in the LSB of the X axis.
pub const DEN_X: u8 = 0b1000_0000;
/// DEN value stored in the LSB of the Y axis.
pub const DEN_Y: u8 = 0b0100_0000;
/// DEN value stored in the LSB of the Z axis.
pub const DEN_Z: u8 = 0b0010_0000;
/// Stamps DEN information in the accelerometer axes instead of the gyroscope's.
pub const DEN_XL_G: u8 = 0b0001_0000;
/// Extends DEN functionality to the accelerometer.
pub const DEN_XL_EN: u8 = 0b0000_1000;
/// DEN active level: high when set.
pub const DEN_LH: u8 = 0b0000_0100;
/// Disables the MIPI I3C communication protocol.
pub const I3C_DISABLE: u8 = 0b0000_0010;

/// View of CTRL9_XL, control register 9.
#[derive(Clone, Copy, Debug, PartialEq, Eq, Structural)]
pub struct Ctrl9Xl {
    bits: u8,
}

impl Ctrl1Xl {
    /// The raw byte behind the view.
    pub closed spec fn spec_bits(self) -> u8 {
        self.bits
    }

    /// The view holding exactly the byte `b`.
    pub closed spec fn spec_from_bits_retain(b: u8) -> Self {
        Ctrl1Xl { bits: b }
    }

    /// Builds the view from a raw byte, keeping every bit, named or not.
    pub fn from_bits_retain(b: u8) -> (r: Self)
        ensures
            r == Self::spec_from_bits_retain(b),
            r.spec_bits() == b,
    {
        Ctrl1Xl { bits: b }
    }

    /// Returns the raw byte.
    pub fn bits(&self) -> (r: u8)
        ensures
            r == self.spec_bits(),
    {
        self.bits
    }

    /// Sets every bit of `mask`.
    pub fn insert(&mut self, mask: u8)
        ensures
            final(self).spec_bits() == old(self).spec_bits() | mask,
    {
        self.bits = self.bits | mask;
    }

    /// Clears every bit of `mask`.
    pub fn remove(&mut self, mask: u8)
        ensures
            final(self).spec_bits() == old(self).spec_bits() & !mask,
    {
        self.bits = self.bits & !mask;
    }

    /// Tests whether every bit of `mask` is set.
    pub fn contains(&self, mask: u8) -> (r: bool)
        ensures
            r == (self.spec_bits() & mask == mask),
    {
        self.bits & mask == mask
    }
}

/// Round trip for CTRL1_XL: a view survives being lowered to its byte and
/// rebuilt, and a byte survives being lifted to a view and lowered, with no
/// bit dropped.
pub proof fn lemma_ctrl1_xl_round_trip(f: Ctrl1Xl, b: u8)
    ensures
        Ctrl1Xl::spec_from_bits_retain(f.spec_bits()) == f,
        Ctrl1Xl::spec_from_bits_retain(b).spec_bits() == b,
{
}

impl Ctrl2G {
    /// The raw byte behind the view.
    pub closed spec fn spec_bits(self) -> u8 {
        self.bits
    }

    /// The view holding exactly the byte `b`.
    pub closed spec fn spec_from_bits_retain(b: u8) -> Self {
        Ctrl2G { bits: b }
    }

    /// Builds the view from a raw byte, keeping every bit, named or not.
    pub fn from_bits_retain(b: u8) -> (r: Self)
        ensures
            r == Self::spec_from_bits_retain(b),
            r.spec_bits() == b,
    {
        Ctrl2G { bits: b }
    }

    /// Returns the raw byte.
    pub fn bits(&self) -> (r: u8)
        ensures
            r == self.spec_bits(),
    {
        self.bits
    }

    /// Sets every bit of `mask`.
    pub fn insert(&mut self, mask: u8)
        ensures
            final(self).spec_bits() == old(self).spec_bits() | mask,
    {
        self.bits = self.bits | mask;
    }

    /// Clears every bit of `mask`.
    pub fn remove(&mut self, mask: u8)
        ensures
            final(self).spec_bits() == old(self).spec_bits() & !mask,
    {
        self.bits = self.bits & !mask;
    }

    /// Tests whether every bit of `mask` is set.
    pub fn contains(&self, mask: u8) -> (r: bool)
        ensures
            r == (self.spec_bits() & mask == mask),
    {
        self.bits & mask == mask
    }
}

/// Round trip for CTRL2_G, as for CTRL1_XL.
pub proof fn lemma_ctrl2_g_round_trip(f: Ctrl2G, b: u8)
    ensures
        Ctrl2G::spec_from_bits_retain(f.spec_bits()) == f,
        Ctrl2G::spec_from_bits_retain(b).spec_bits() == b,
{
}

impl Ctrl3C {
    /// The raw byte behind the view.
    pub closed spec fn spec_bits(self) -> u8 {
        self.bits
    }

    /// The view holding exactly the byte `b`.
    pub closed spec fn spec_from_bits_retain(b: u8) -> Self {
        Ctrl3C { bits: b }
    }

    /// Builds the view from a raw byte, keeping every bit, named or not.
    pub fn from_bits_retain(b: u8) -> (r: Self)
        ensures
            r == Self::spec_from_bits_retain(b),
            r.spec_bits() == b,
    {
        Ctrl3C { bits: b }
    }

    /// Returns the raw byte.
    pub fn bits(&self) -> (r: u8)
        ensures
            r == self.spec_bits(),
    {
        self.bits
    }

    /// Sets every bit of `mask`.
    pub fn insert(&mut self, mask: u8)
        ensures
            final(self).spec_bits() == old(self).spec_bits() | mask,
    {
        self.bits = self.bits | mask;
    }

    /// Clears every bit of `mask`.
    pub fn remove(&mut self, mask: u8)
        ensures
            final(self).spec_bits() == old(self).spec_bits() & !mask,
    {
        self.bits = self.bits & !mask;
    }

    /// Tests whether every bit of `mask` is set.
    pub fn contains(&self, mask: u8) -> (r: bool)
        ensures
            r == (self.spec_bits() & mask == mask),
    {
        self.bits & mask == mask
    }
}

/// Round trip for CTRL3_C, as for CTRL1_XL.
pub proof fn lemma_ctrl3_c_round_trip(f: Ctrl3C, b: u8)
    ensures
        Ctrl3C::spec_from_bits_retain(f.spec_bits()) == f,
        Ctrl3C::spec_from_bits_retain(b).spec_bits() == b,
{
}

impl Ctrl4C {
    /// The raw byte behind the view.
    pub closed spec fn spec_bits(self) -> u8 {
        self.bits
    }

    /// The view holding exactly the byte `b`.
    pub closed spec fn spec_from_bits_retain(b: u8) -> Self {
        Ctrl4C { bits: b }
    }

    /// Builds the view from a raw byte, keeping every bit, named or not.
    pub fn from_bits_retain(b: u8) -> (r: Self)
        ensures
            r == Self::spec_from_bits_retain(b),
            r.spec_bits() == b,
    {
        Ctrl4C { bits: b }
    }

    /// Returns the raw byte.
    pub fn bits(&self) -> (r: u8)
        ensures
            r == self.spec_bits(),
    {
        self.bits
    }

    /// Sets every bit of `mask`.
    pub fn insert(&mut self, mask: u8)
        ensures
            final(self).spec_bits() == old(self).spec_bits() | mask,
    {
        self.bits = self.bits | mask;
    }

    /// Clears every bit of `mask`.
    pub fn remove(&mut self, mask: u8)
        ensures
            final(self).spec_bits() == old(self).spec_bits() & !mask,
    {
        self.bits = self.bits & !mask;
    }

    /// Tests whether every bit of `mask` is set.
    pub fn contains(&self, mask: u8) -> (r: bool)
        ensures
            r == (self.spec_bits() & mask == mask),
    {
        self.bits & mask == mask
    }
}

/// Round trip for CTRL4_C, as for CTRL1_XL.
pub proof fn lemma_ctrl4_c_round_trip(f: Ctrl4C, b: u8)
    ensures
        Ctrl4C::spec_from_bits_retain(f.spec_bits()) == f,
        Ctrl4C::spec_from_bits_retain(b).spec_bits() == b,
{
}

impl Ctrl5C {
    /// The raw byte behind the view.
    pub closed spec fn spec_bits(self) -> u8 {
        self.bits
    }

    /// The view holding exactly the byte `b`.
    pub closed spec fn spec_from_bits_retain(b: u8) -> Self {
        Ctrl5C { bits: b }
    }

    /// Builds the view from a raw byte, keeping every bit, named or not.
    pub fn from_bits_retain(b: u8) -> (r: Self)
        ensures
            r == Self::spec_from_bits_retain(b),
            r.spec_bits() == b,
    {
        Ctrl5C { bits: b }
    }

    /// Returns the raw byte.
    pub fn bits(&self) -> (r: u8)
        ensures
            r == self.spec_bits(),
    {
        self.bits
    }

    /// Sets every bit of `mask`.
    pub fn insert(&mut self, mask: u8)
        ensures
            final(self).spec_bits() == old(self).spec_bits() | mask,
    {
        self.bits = self.bits | mask;
    }

    /// Clears every bit of `mask`.
    pub fn remove(&mut self, mask: u8)
        ensures
            final(self).spec_bits() == old(self).spec_bits() & !mask,
    {
        self.bits = self.bits & !mask;
    }

    /// Tests whether every bit of `mask` is set.
    pub fn contains(&self, mask: u8) -> (r: bool)
        ensures
            r == (self.spec_bits() & mask == mask),
    {
        self.bits & mask == mask
    }
}

/// Round trip for CTRL5_C, as for CTRL1_XL.
pub proof fn lemma_ctrl5_c_round_trip(f: Ctrl5C, b: u8)
    ensures
        Ctrl5C::spec_from_bits_retain(f.spec_bits()) == f,
        Ctrl5C::spec_from_bits_retain(b).spec_bits() == b,
{
}

impl Ctrl6C {
    /// The raw byte behind the view.
    pub closed spec fn spec_bits(self) -> u8 {
        self.bits
    }

    /// The view holding exactly the byte `b`.
    pub closed spec fn spec_from_bits_retain(b: u8) -> Self {
        Ctrl6C { bits: b }
    }

    /// Builds the view from a raw byte, keeping every bit, named or not.
    pub fn from_bits_retain(b: u8) -> (r: Self)
        ensures
            r == Self::spec_from_bits_retain(b),
            r.spec_bits() == b,
    {
        Ctrl6C { bits: b }
    }

    /// Returns the raw byte.
    pub fn bits(&self) -> (r: u8)
        ensures
            r == self.spec_bits(),
    {
        self.bits
    }

    /// Sets every bit of `mask`.
    pub fn insert(&mut self, mask: u8)
        ensures
            final(self).spec_bits() == old(self).spec_bits() | mask,
    {
        self.bits = self.bits | mask;
    }

    /// Clears every bit of `mask`.
    pub fn remove(&mut self, mask: u8)
        ensures
            final(self).spec_bits() == old(self).spec_bits() & !mask,
    {
        self.bits = self.bits & !mask;
    }

    /// Tests whether every bit of `mask` is set.
    pub fn contains(&self, mask: u8) -> (r: bool)
        ensures
            r == (self.spec_bits() & mask == mask),
    {
        self.bits & mask == mask
    }
}

/// Round trip for CTRL6_C, as for CTRL1_XL.
pub proof fn lemma_ctrl6_c_round_trip(f: Ctrl6C, b: u8)
    ensures
        Ctrl6C::spec_from_bits_retain(f.spec_bits()) == f,
        Ctrl6C::spec_from_bits_retain(b).spec_bits() == b,
{
}

impl Ctrl7G {
    /// The raw byte behind the view.
    pub closed spec fn spec_bits(self) -> u8 {
        self.bits
    }

    /// The view holding exactly the byte `b`.
    pub closed spec fn spec_from_bits_retain(b: u8) -> Self {
        Ctrl7G { bits: b }
    }

    /// Builds the view from a raw byte, keeping every bit, named or not.
    pub fn from_bits_retain(b: u8) -> (r: Self)
        ensures
            r == Self::spec_from_bits_retain(b),
            r.spec_bits() == b,
    {
        Ctrl7G { bits: b }
    }

    /// Returns the raw byte.
    pub fn bits(&self) -> (r: u8)
        ensures
            r == self.spec_bits(),
    {
        self.bits
    }

    /// Sets every bit of `mask`.
    pub fn insert(&mut self, mask: u8)
        ensures
            final(self).spec_bits() == old(self).spec_bits() | mask,
    {
        self.bits = self.bits | mask;
    }

    /// Clears every bit of `mask`.
    pub fn remove(&mut self, mask: u8)
        ensures
            final(self).spec_bits() == old(self).spec_bits() & !mask,
    {
        self.bits = self.bits & !mask;
    }

    /// Tests whether every bit of `mask` is set.
    pub fn contains(&self, mask: u8) -> (r: bool)
        ensures
            r == (self.spec_bits() & mask == mask),
    {
        self.bits & mask == mask
    }
}

/// Round trip for CTRL7_G, as for CTRL1_XL.
pub proof fn lemma_ctrl7_g_round_trip(f: Ctrl7G, b: u8)
    ensures
        Ctrl7G::spec_from_bits_retain(f.spec_bits()) == f,
        Ctrl7G::spec_from_bits_retain(b).spec_bits() == b,
{
}

impl Ctrl8Xl {
    /// The raw byte behind the view.
    pub closed spec fn spec_bits(self) -> u8 {
        self.bits
    }

    /// The view holding exactly the byte `b`.
    pub closed spec fn spec_from_bits_retain(b: u8) -> Self {
        Ctrl8Xl { bits: b }
    }

    /// Builds the view from a raw byte, keeping every bit, named or not.
    pub fn from_bits_retain(b: u8) -> (r: Self)
        ensures
            r == Self::spec_from_bits_retain(b),
            r.spec_bits() == b,
    {
        Ctrl8Xl { bits: b }
    }

    /// Returns the raw byte.
    pub fn bits(&self) -> (r: u8)
        ensures
            r == self.spec_bits(),
    {
        self.bits
    }

    /// Sets every bit of `mask`.
    pub fn insert(&mut self, mask: u8)
        ensures
            final(self).spec_bits() == old(self).spec_bits() | mask,
    {
        self.bits = self.bits | mask;
    }

    /// Clears every bit of `mask`.
    pub fn remove(&mut self, mask: u8)
        ensures
            final(self).spec_bits() == old(self).spec_bits() & !mask,
    {
        self.bits = self.bits & !mask;
    }

    /// Tests whether every bit of `mask` is set.
    pub fn contains(&self, mask: u8) -> (r: bool)
        ensures
            r == (self.spec_bits() & mask == mask),
    {
        self.bits & mask == mask
    }
}

/// Round trip for CTRL8_XL, as for CTRL1_XL.
pub proof fn lemma_ctrl8_xl_round_trip(f: Ctrl8Xl, b: u8)
    ensures
        Ctrl8Xl::spec_from_bits_retain(f.spec_bits()) == f,
        Ctrl8Xl::spec_from_bits_retain(b).spec_bits() == b,
{
}

impl Ctrl9Xl {
    /// The raw byte behind the view.
    pub closed spec fn spec_bits(self) -> u8 {
        self.bits
    }

    /// The view holding exactly the byte `b`.
    pub closed spec fn spec_from_bits_retain(b: u8) -> Self {
        Ctrl9Xl { bits: b }
    }

    /// Builds the view from a raw byte, keeping every bit, named or not.
    pub fn from_bits_retain(b: u8) -> (r: Self)
        ensures
            r == Self::spec_from_bits_retain(b),
            r.spec_bits() == b,
    {
        Ctrl9Xl { bits: b }
    }

    /// Returns the raw byte.
    pub fn bits(&self) -> (r: u8)
        ensures
            r == self.spec_bits(),
    {
        self.bits
    }

    /// Sets every bit of `mask`.
    pub fn insert(&mut self, mask: u8)
        ensures
            final(self).spec_bits() == old(self).spec_bits() | mask,
    {
        self.bits = self.bits | mask;
    }

    /// Clears every bit of `mask`.
    pub fn remove(&mut self, mask: u8)
        ensures
            final(self).spec_bits() == old(self).spec_bits() & !mask,
    {
        self.bits = self.bits & !mask;
    }

    /// Tests whether every bit of `mask` is set.
    pub fn contains(&self, mask: u8) -> (r: bool)
        ensures
            r == (self.spec_bits() & mask == mask),
    {
        self.bits & mask == mask
    }
}

/// Round trip for CTRL9_XL, as for CTRL1_XL.
pub proof fn lemma_ctrl9_xl_round_trip(f: Ctrl9Xl, b: u8)
    ensures
        Ctrl9Xl::spec_from_bits_retain(f.spec_bits()) == f,
        Ctrl9Xl::spec_from_bits_retain(b).spec_bits() == b,
{
}

} // verus!
