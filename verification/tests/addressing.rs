//! The register map and its read/write addressing convention.

use lsm6dsrx::regmap::RegisterAddress;

const ALL: [RegisterAddress; 82] = [
    RegisterAddress::FUNC_CFG_ACCESS,
    RegisterAddress::PIN_CTRL,
    RegisterAddress::S4S_TPH_L,
    RegisterAddress::S4S_TPH_H,
    RegisterAddress::S4S_RR,
    RegisterAddress::FIFO_CTRL1,
    RegisterAddress::FIFO_CTRL2,
    RegisterAddress::FIFO_CTRL3,
    RegisterAddress::FIFO_CTRL4,
    RegisterAddress::COUNTER_BDR_REG1,
    RegisterAddress::COUNTER_BDR_REG2,
    RegisterAddress::INT1_CTRL,
    RegisterAddress::INT2_CTRL,
    RegisterAddress::WHO_AM_I,
    RegisterAddress::CTRL1_XL,
    RegisterAddress::CTRL2_G,
    RegisterAddress::CTRL3_C,
    RegisterAddress::CTRL4_C,
    RegisterAddress::CTRL5_C,
    RegisterAddress::CTRL6_C,
    RegisterAddress::CTRL7_G,
    RegisterAddress::CTRL8_XL,
    RegisterAddress::CTRL9_XL,
    RegisterAddress::CTRL10_C,
    RegisterAddress::ALL_INT_SRC,
    RegisterAddress::WAKE_UP_SRC,
    RegisterAddress::TAP_SRC,
    RegisterAddress::D6D_SRC,
    RegisterAddress::STATUS_REG,
    RegisterAddress::OUT_TEMP_L,
    RegisterAddress::OUT_TEMP_H,
    RegisterAddress::OUTX_L_G,
    RegisterAddress::OUTX_H_G,
    RegisterAddress::OUTY_L_G,
    RegisterAddress::OUTY_H_G,
    RegisterAddress::OUTZ_L_G,
    RegisterAddress::OUTZ_H_G,
    RegisterAddress::OUTX_L_A,
    RegisterAddress::OUTX_H_A,
    RegisterAddress::OUTY_L_A,
    RegisterAddress::OUTY_H_A,
    RegisterAddress::OUTZ_L_A,
    RegisterAddress::OUTZ_H_A,
    RegisterAddress::EMB_FUNC_STATUS_MAINPAGE,
    RegisterAddress::FSM_STATUS_A_MAINPAGE,
    RegisterAddress::FSM_STATUS_B_MAINPAGE,
    RegisterAddress::MLC_STATUS_MAINPAGE,
    RegisterAddress::STATUS_MASTER_MAINPAGE,
    RegisterAddress::FIFO_STATUS1,
    RegisterAddress::FIFO_STATUS2,
    RegisterAddress::TIMESTAMP0,
    RegisterAddress::TIMESTAMP1,
    RegisterAddress::TIMESTAMP2,
    RegisterAddress::TIMESTAMP3,
    RegisterAddress::TAP_CFG0,
    RegisterAddress::TAP_CFG1,
    RegisterAddress::TAP_CFG2,
    RegisterAddress::TAP_THS_6D,
    RegisterAddress::INT_DUR2,
    RegisterAddress::WAKE_UP_THS,
    RegisterAddress::WAKE_UP_DUR,
    RegisterAddress::FREE_FALL,
    RegisterAddress::MD1_CFG,
    RegisterAddress::MD2_CFG,
    RegisterAddress::S4S_ST_CMD_CODE,
    RegisterAddress::S4S_DT_REG,
    RegisterAddress::I3C_BUS_AVB,
    RegisterAddress::INTERNAL_FREQ_FINE,
    RegisterAddress::INT_OIS,
    RegisterAddress::CTRL1_OIS,
    RegisterAddress::CTRL2_OIS,
    RegisterAddress::CTRL3_OIS,
    RegisterAddress::X_OFS_USR,
    RegisterAddress::Y_OFS_USR,
    RegisterAddress::Z_OFS_USR,
    RegisterAddress::FIFO_DATA_OUT_TAG,
    RegisterAddress::FIFO_DATA_OUT_X_L,
    RegisterAddress::FIFO_DATA_OUT_X_H,
    RegisterAddress::FIFO_DATA_OUT_Y_L,
    RegisterAddress::FIFO_DATA_OUT_Y_H,
    RegisterAddress::FIFO_DATA_OUT_Z_L,
    RegisterAddress::FIFO_DATA_OUT_Z_H,
];

#[test]
fn read_address_is_write_address_with_read_bit() {
    for r in ALL {
        assert_eq!(r.read(), r.bits() | 0x80);
        assert_eq!(r.bits() & 0x80, 0);
    }
}

#[test]
fn no_two_registers_share_an_address() {
    for (i, a) in ALL.iter().enumerate() {
        for b in ALL.iter().skip(i + 1) {
            assert_ne!(a.bits(), b.bits());
        }
    }
}

#[test]
fn known_addresses() {
    assert_eq!(RegisterAddress::WHO_AM_I.bits(), 0x0F);
    assert_eq!(RegisterAddress::WHO_AM_I.read(), 0x8F);
    assert_eq!(RegisterAddress::CTRL1_XL.bits(), 0x10);
    assert_eq!(RegisterAddress::CTRL3_C.bits(), 0x12);
    assert_eq!(RegisterAddress::OUTX_L_G.bits(), 0x22);
    assert_eq!(RegisterAddress::OUTX_L_G.read(), 0xA2);
    assert_eq!(RegisterAddress::X_OFS_USR.bits(), 0x73);
    assert_eq!(RegisterAddress::Y_OFS_USR.bits(), 0x74);
    assert_eq!(RegisterAddress::Z_OFS_USR.bits(), 0x75);
    assert_eq!(RegisterAddress::FIFO_DATA_OUT_Z_H.bits(), 0x7E);
}
