//! Register map of the LSM6DSRX and its addressing convention.
//!
//! Every register has a 7-bit address.  A write transaction sends the bare
//! address; a read transaction sends the address with bit `0x80` set.  The
//! read/write bit is never part of the logical address.

use vstd::prelude::*;

verus! {

/// Value that the bare address is ORed with to form a read address.
pub const READ_BIT: u8 = 0x80;

/// The registers of the LSM6DSRX, per the datasheet's register address map.
#[allow(non_camel_case_types)]
#[derive(Clone, Copy, Debug, PartialEq, Eq, Structural)]
pub enum RegisterAddress {
    FUNC_CFG_ACCESS,
    PIN_CTRL,
    S4S_TPH_L,
    S4S_TPH_H,
    S4S_RR,
    FIFO_CTRL1,
    FIFO_CTRL2,
    FIFO_CTRL3,
    FIFO_CTRL4,
    COUNTER_BDR_REG1,
    COUNTER_BDR_REG2,
    INT1_CTRL,
    INT2_CTRL,
    WHO_AM_I,
    CTRL1_XL,
    CTRL2_G,
    CTRL3_C,
    CTRL4_C,
    CTRL5_C,
    CTRL6_C,
    CTRL7_G,
    CTRL8_XL,
    CTRL9_XL,
    CTRL10_C,
    ALL_INT_SRC,
    WAKE_UP_SRC,
    TAP_SRC,
    D6D_SRC,
    STATUS_REG,
    OUT_TEMP_L,
    OUT_TEMP_H,
    OUTX_L_G,
    OUTX_H_G,
    OUTY_L_G,
    OUTY_H_G,
    OUTZ_L_G,
    OUTZ_H_G,
    OUTX_L_A,
    OUTX_H_A,
    OUTY_L_A,
    OUTY_H_A,
    OUTZ_L_A,
    OUTZ_H_A,
    EMB_FUNC_STATUS_MAINPAGE,
    FSM_STATUS_A_MAINPAGE,
    FSM_STATUS_B_MAINPAGE,
    MLC_STATUS_MAINPAGE,
    STATUS_MASTER_MAINPAGE,
    FIFO_STATUS1,
    FIFO_STATUS2,
    TIMESTAMP0,
    TIMESTAMP1,
    TIMESTAMP2,
    TIMESTAMP3,
    TAP_CFG0,
    TAP_CFG1,
    TAP_CFG2,
    TAP_THS_6D,
    INT_DUR2,
    WAKE_UP_THS,
    WAKE_UP_DUR,
    FREE_FALL,
    MD1_CFG,
    MD2_CFG,
    S4S_ST_CMD_CODE,
    S4S_DT_REG,
    I3C_BUS_AVB,
    INTERNAL_FREQ_FINE,
    INT_OIS,
    CTRL1_OIS,
    CTRL2_OIS,
    CTRL3_OIS,
    X_OFS_USR,
    Y_OFS_USR,
    Z_OFS_USR,
    FIFO_DATA_OUT_TAG,
    FIFO_DATA_OUT_X_L,
    FIFO_DATA_OUT_X_H,
    FIFO_DATA_OUT_Y_L,
    FIFO_DATA_OUT_Y_H,
    FIFO_DATA_OUT_Z_L,
    FIFO_DATA_OUT_Z_H,
}

impl RegisterAddress {
    /// The 7-bit address of the register: the value used for writes.
    pub open spec fn spec_addr(self) -> u8 {
        match self {
            RegisterAddress::FUNC_CFG_ACCESS => 0x00,
            RegisterAddress::PIN_CTRL => 0x02,
            RegisterAddress::S4S_TPH_L => 0x04,
            RegisterAddress::S4S_TPH_H => 0x05,
            RegisterAddress::S4S_RR => 0x06,
            RegisterAddress::FIFO_CTRL1 => 0x07,
            RegisterAddress::FIFO_CTRL2 => 0x08,
            RegisterAddress::FIFO_CTRL3 => 0x09,
            RegisterAddress::FIFO_CTRL4 => 0x0A,
            RegisterAddress::COUNTER_BDR_REG1 => 0x0B,
            RegisterAddress::COUNTER_BDR_REG2 => 0x0C,
            RegisterAddress::INT1_CTRL => 0x0D,
            RegisterAddress::INT2_CTRL => 0x0E,
            RegisterAddress::WHO_AM_I => 0x0F,
            RegisterAddress::CTRL1_XL => 0x10,
            RegisterAddress::CTRL2_G => 0x11,
            RegisterAddress::CTRL3_C => 0x12,
            RegisterAddress::CTRL4_C => 0x13,
            RegisterAddress::CTRL5_C => 0x14,
            RegisterAddress::CTRL6_C => 0x15,
            RegisterAddress::CTRL7_G => 0x16,
            RegisterAddress::CTRL8_XL => 0x17,
            RegisterAddress::CTRL9_XL => 0x18,
            RegisterAddress::CTRL10_C => 0x19,
            RegisterAddress::ALL_INT_SRC => 0x1A,
            RegisterAddress::WAKE_UP_SRC => 0x1B,
            RegisterAddress::TAP_SRC => 0x1C,
            RegisterAddress::D6D_SRC => 0x1D,
            RegisterAddress::STATUS_REG => 0x1E,
            RegisterAddress::OUT_TEMP_L => 0x20,
            RegisterAddress::OUT_TEMP_H => 0x21,
            RegisterAddress::OUTX_L_G => 0x22,
            RegisterAddress::OUTX_H_G => 0x23,
            RegisterAddress::OUTY_L_G => 0x24,
            RegisterAddress::OUTY_H_G => 0x25,
            RegisterAddress::OUTZ_L_G => 0x26,
            RegisterAddress::OUTZ_H_G => 0x27,
            RegisterAddress::OUTX_L_A => 0x28,
            RegisterAddress::OUTX_H_A => 0x29,
            RegisterAddress::OUTY_L_A => 0x2A,
            RegisterAddress::OUTY_H_A => 0x2B,
            RegisterAddress::OUTZ_L_A => 0x2C,
            RegisterAddress::OUTZ_H_A => 0x2D,
            RegisterAddress::EMB_FUNC_STATUS_MAINPAGE => 0x35,
            RegisterAddress::FSM_STATUS_A_MAINPAGE => 0x36,
            RegisterAddress::FSM_STATUS_B_MAINPAGE => 0x37,
            RegisterAddress::MLC_STATUS_MAINPAGE => 0x38,
            RegisterAddress::STATUS_MASTER_MAINPAGE => 0x39,
            RegisterAddress::FIFO_STATUS1 => 0x3A,
            RegisterAddress::FIFO_STATUS2 => 0x3B,
            RegisterAddress::TIMESTAMP0 => 0x40,
            RegisterAddress::TIMESTAMP1 => 0x41,
            RegisterAddress::TIMESTAMP2 => 0x42,
            RegisterAddress::TIMESTAMP3 => 0x43,
            RegisterAddress::TAP_CFG0 => 0x56,
            RegisterAddress::TAP_CFG1 => 0x57,
            RegisterAddress::TAP_CFG2 => 0x58,
            RegisterAddress::TAP_THS_6D => 0x59,
            RegisterAddress::INT_DUR2 => 0x5A,
            RegisterAddress::WAKE_UP_THS => 0x5B,
            RegisterAddress::WAKE_UP_DUR => 0x5C,
            RegisterAddress::FREE_FALL => 0x5D,
            RegisterAddress::MD1_CFG => 0x5E,
            RegisterAddress::MD2_CFG => 0x5F,
            RegisterAddress::S4S_ST_CMD_CODE => 0x60,
            RegisterAddress::S4S_DT_REG => 0x61,
            RegisterAddress::I3C_BUS_AVB => 0x62,
            RegisterAddress::INTERNAL_FREQ_FINE => 0x63,
            RegisterAddress::INT_OIS => 0x6F,
            RegisterAddress::CTRL1_OIS => 0x70,
            RegisterAddress::CTRL2_OIS => 0x71,
            RegisterAddress::CTRL3_OIS => 0x72,
            RegisterAddress::X_OFS_USR => 0x73,
            RegisterAddress::Y_OFS_USR => 0x74,
            RegisterAddress::Z_OFS_USR => 0x75,
            RegisterAddress::FIFO_DATA_OUT_TAG => 0x78,
            RegisterAddress::FIFO_DATA_OUT_X_L => 0x79,
            RegisterAddress::FIFO_DATA_OUT_X_H => 0x7A,
            RegisterAddress::FIFO_DATA_OUT_Y_L => 0x7B,
            RegisterAddress::FIFO_DATA_OUT_Y_H => 0x7C,
            RegisterAddress::FIFO_DATA_OUT_Z_L => 0x7D,
            RegisterAddress::FIFO_DATA_OUT_Z_H => 0x7E,
        }
    }

    /// The address a read transaction of the register is opened with:
    /// the bare address with the read bit set.
    pub open spec fn spec_read_addr(self) -> u8 {
        self.spec_addr() | READ_BIT
    }

    /// Returns the write address: the bare 7-bit register address.
    pub fn bits(&self) -> (r: u8)
        ensures
            r == self.spec_addr(),
            r < 0x80,
    {
        match self {
            RegisterAddress::FUNC_CFG_ACCESS => 0x00,
            RegisterAddress::PIN_CTRL => 0x02,
            RegisterAddress::S4S_TPH_L => 0x04,
            RegisterAddress::S4S_TPH_H => 0x05,
            RegisterAddress::S4S_RR => 0x06,
            RegisterAddress::FIFO_CTRL1 => 0x07,
            RegisterAddress::FIFO_CTRL2 => 0x08,
            RegisterAddress::FIFO_CTRL3 => 0x09,
            RegisterAddress::FIFO_CTRL4 => 0x0A,
            RegisterAddress::COUNTER_BDR_REG1 => 0x0B,
            RegisterAddress::COUNTER_BDR_REG2 => 0x0C,
            RegisterAddress::INT1_CTRL => 0x0D,
            RegisterAddress::INT2_CTRL => 0x0E,
            RegisterAddress::WHO_AM_I => 0x0F,
            RegisterAddress::CTRL1_XL => 0x10,
            RegisterAddress::CTRL2_G => 0x11,
            RegisterAddress::CTRL3_C => 0x12,
            RegisterAddress::CTRL4_C => 0x13,
            RegisterAddress::CTRL5_C => 0x14,
            RegisterAddress::CTRL6_C => 0x15,
            RegisterAddress::CTRL7_G => 0x16,
            RegisterAddress::CTRL8_XL => 0x17,
            RegisterAddress::CTRL9_XL => 0x18,
            RegisterAddress::CTRL10_C => 0x19,
            RegisterAddress::ALL_INT_SRC => 0x1A,
            RegisterAddress::WAKE_UP_SRC => 0x1B,
            RegisterAddress::TAP_SRC => 0x1C,
            RegisterAddress::D6D_SRC => 0x1D,
            RegisterAddress::STATUS_REG => 0x1E,
            RegisterAddress::OUT_TEMP_L => 0x20,
            RegisterAddress::OUT_TEMP_H => 0x21,
            RegisterAddress::OUTX_L_G => 0x22,
            RegisterAddress::OUTX_H_G => 0x23,
            RegisterAddress::OUTY_L_G => 0x24,
            RegisterAddress::OUTY_H_G => 0x25,
            RegisterAddress::OUTZ_L_G => 0x26,
            RegisterAddress::OUTZ_H_G => 0x27,
            RegisterAddress::OUTX_L_A => 0x28,
            RegisterAddress::OUTX_H_A => 0x29,
            RegisterAddress::OUTY_L_A => 0x2A,
            RegisterAddress::OUTY_H_A => 0x2B,
            RegisterAddress::OUTZ_L_A => 0x2C,
            RegisterAddress::OUTZ_H_A => 0x2D,
            RegisterAddress::EMB_FUNC_STATUS_MAINPAGE => 0x35,
            RegisterAddress::FSM_STATUS_A_MAINPAGE => 0x36,
            RegisterAddress::FSM_STATUS_B_MAINPAGE => 0x37,
            RegisterAddress::MLC_STATUS_MAINPAGE => 0x38,
            RegisterAddress::STATUS_MASTER_MAINPAGE => 0x39,
            RegisterAddress::FIFO_STATUS1 => 0x3A,
            RegisterAddress::FIFO_STATUS2 => 0x3B,
            RegisterAddress::TIMESTAMP0 => 0x40,
            RegisterAddress::TIMESTAMP1 => 0x41,
            RegisterAddress::TIMESTAMP2 => 0x42,
            RegisterAddress::TIMESTAMP3 => 0x43,
            RegisterAddress::TAP_CFG0 => 0x56,
            RegisterAddress::TAP_CFG1 => 0x57,
            RegisterAddress::TAP_CFG2 => 0x58,
            RegisterAddress::TAP_THS_6D => 0x59,
            RegisterAddress::INT_DUR2 => 0x5A,
            RegisterAddress::WAKE_UP_THS => 0x5B,
            RegisterAddress::WAKE_UP_DUR => 0x5C,
            RegisterAddress::FREE_FALL => 0x5D,
            RegisterAddress::MD1_CFG => 0x5E,
            RegisterAddress::MD2_CFG => 0x5F,
            RegisterAddress::S4S_ST_CMD_CODE => 0x60,
            RegisterAddress::S4S_DT_REG => 0x61,
            RegisterAddress::I3C_BUS_AVB => 0x62,
            RegisterAddress::INTERNAL_FREQ_FINE => 0x63,
            RegisterAddress::INT_OIS => 0x6F,
            RegisterAddress::CTRL1_OIS => 0x70,
            RegisterAddress::CTRL2_OIS => 0x71,
            RegisterAddress::CTRL3_OIS => 0x72,
            RegisterAddress::X_OFS_USR => 0x73,
            RegisterAddress::Y_OFS_USR => 0x74,
            RegisterAddress::Z_OFS_USR => 0x75,
            RegisterAddress::FIFO_DATA_OUT_TAG => 0x78,
            RegisterAddress::FIFO_DATA_OUT_X_L => 0x79,
            RegisterAddress::FIFO_DATA_OUT_X_H => 0x7A,
            RegisterAddress::FIFO_DATA_OUT_Y_L => 0x7B,
            RegisterAddress::FIFO_DATA_OUT_Y_H => 0x7C,
            RegisterAddress::FIFO_DATA_OUT_Z_L => 0x7D,
            RegisterAddress::FIFO_DATA_OUT_Z_H => 0x7E,
        }
    }

    /// Returns the read address: the bare address with the read bit set.
    pub fn read(&self) -> (r: u8)
        ensures
            r == self.spec_read_addr(),
    {
        self.bits() | READ_BIT
    }
}

/// Addressing convention: for every register, the read address is the write
/// address with bit `0x80` set, and the write address never carries that bit.
pub proof fn lemma_read_write_address(r: RegisterAddress)
    ensures
        r.spec_read_addr() == (r.spec_addr() | 0x80),
        r.spec_addr() & 0x80 == 0,
        r.spec_addr() < 0x80,
{
    assert(r.spec_addr() < 0x80);
    let a = r.spec_addr();
    assert(a < 0x80 ==> a & 0x80 == 0) by (bit_vector);
}


/// No two registers share an address.
pub proof fn lemma_addresses_injective(a: RegisterAddress, b: RegisterAddress)
    ensures
        a.spec_addr() == b.spec_addr() ==> a == b,
{
}

} // verus!
