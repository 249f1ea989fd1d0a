use emc2301::registers::{
    DRV_CONFIG_PORT, FAN_CONFIG_1_1, FAN_CONFIG_1_2, FAN_CONFIG_1_3, FAN_CONFIG_1_4,
    FAN_CONFIG_1_5, FAN_CONFIG_2_1, FAN_CONFIG_2_2, FAN_CONFIG_2_3, FAN_CONFIG_2_4,
    FAN_CONFIG_2_5, FAN_DRIVE_FAIL_PORT, FAN_INTERRUPT_PORT, FAN_MAX_STEP_CONF_1,
    FAN_MAX_STEP_CONF_2, FAN_MAX_STEP_CONF_3, FAN_MAX_STEP_CONF_4, FAN_MAX_STEP_CONF_5,
    FAN_MIN_DRV_CONF_1, FAN_MIN_DRV_CONF_2, FAN_MIN_DRV_CONF_3, FAN_MIN_DRV_CONF_4,
    FAN_MIN_DRV_CONF_5, FAN_PID_GAIN_1, FAN_PID_GAIN_2, FAN_PID_GAIN_3, FAN_PID_GAIN_4,
    FAN_PID_GAIN_5, FAN_PWM_DUTY_PORT, FAN_PWM_FREQ123_PORT, FAN_PWM_FREQ45_PORT,
    FAN_PWM_FREQ_DIV1_1, FAN_PWM_FREQ_DIV1_2, FAN_PWM_FREQ_DIV1_3, FAN_PWM_FREQ_DIV1_4,
    FAN_PWM_FREQ_DIV1_5, FAN_PWM_OUT_PORT, FAN_SPEED_CTRL_PORT, FAN_SPIN_CONF_1,
    FAN_SPIN_CONF_2, FAN_SPIN_CONF_3, FAN_SPIN_CONF_4, FAN_SPIN_CONF_5, FAN_SPIN_ST_PORT,
    FAN_STALL_PORT, FAN_STAT_PORT, FAN_TAC_FAIL_HIGH, FAN_TAC_FAIL_LOW, FAN_TAC_HIGH_PORT,
    FAN_TAC_HIGH_VAL, FAN_TAC_LOW_PORT, FAN_TAC_LOW_VAL, FAN_TAC_TGT_HIGH, FAN_TAC_TGT_LOW,
    FAN_TAC_VALID_HIGH,
};

/// Every register of the map, in the order of the map.
fn register_map() -> Vec<u8> {
    vec![
        DRV_CONFIG_PORT, FAN_STAT_PORT, FAN_STALL_PORT, FAN_SPIN_ST_PORT, FAN_DRIVE_FAIL_PORT,
        FAN_INTERRUPT_PORT, FAN_PWM_DUTY_PORT, FAN_PWM_OUT_PORT, FAN_PWM_FREQ45_PORT,
        FAN_PWM_FREQ123_PORT, FAN_SPEED_CTRL_PORT, FAN_PWM_FREQ_DIV1_1, FAN_PWM_FREQ_DIV1_2,
        FAN_PWM_FREQ_DIV1_3, FAN_PWM_FREQ_DIV1_4, FAN_PWM_FREQ_DIV1_5, FAN_CONFIG_1_1,
        FAN_CONFIG_2_1, FAN_CONFIG_1_2, FAN_CONFIG_2_2, FAN_CONFIG_1_3, FAN_CONFIG_2_3,
        FAN_CONFIG_1_4, FAN_CONFIG_2_4, FAN_CONFIG_1_5, FAN_CONFIG_2_5, FAN_PID_GAIN_1,
        FAN_PID_GAIN_2, FAN_PID_GAIN_3, FAN_PID_GAIN_4, FAN_PID_GAIN_5, FAN_SPIN_CONF_1,
        FAN_SPIN_CONF_2, FAN_SPIN_CONF_3, FAN_SPIN_CONF_4, FAN_SPIN_CONF_5,
        FAN_MAX_STEP_CONF_1, FAN_MAX_STEP_CONF_2, FAN_MAX_STEP_CONF_3, FAN_MAX_STEP_CONF_4,
        FAN_MAX_STEP_CONF_5, FAN_MIN_DRV_CONF_1, FAN_MIN_DRV_CONF_2, FAN_MIN_DRV_CONF_3,
        FAN_MIN_DRV_CONF_4, FAN_MIN_DRV_CONF_5, FAN_TAC_LOW_PORT, FAN_TAC_HIGH_PORT,
        FAN_TAC_TGT_LOW, FAN_TAC_TGT_HIGH, FAN_TAC_VALID_HIGH, FAN_TAC_FAIL_HIGH,
        FAN_TAC_FAIL_LOW,
    ]
}

#[test]
fn registers_that_the_accessors_read() {
    assert_eq!(FAN_STAT_PORT, 0x24);
    assert_eq!(FAN_TAC_TGT_HIGH, 0x3d);
    assert_eq!(FAN_TAC_TGT_LOW, 0x3c);
    assert_eq!(FAN_TAC_HIGH_PORT, 0x3e);
    assert_eq!(FAN_TAC_LOW_PORT, 0x3f);
    assert_eq!(FAN_SPEED_CTRL_PORT, 0x30);
}

#[test]
fn whole_register_map() {
    assert_eq!(
        register_map(),
        vec![
            0x20, 0x24, 0x25, 0x26, 0x27, 0x29, 0x2a, 0x2b, 0x2c, 0x2d, 0x30, 0x31, 0x41, 0x51,
            0x61, 0x71, 0x32, 0x33, 0x42, 0x43, 0x52, 0x53, 0x62, 0x63, 0x72, 0x73, 0x35, 0x45,
            0x55, 0x65, 0x75, 0x36, 0x46, 0x56, 0x66, 0x76, 0x37, 0x47, 0x57, 0x67, 0x77, 0x38,
            0x48, 0x58, 0x68, 0x78, 0x3f, 0x3e, 0x3c, 0x3d, 0x39, 0x3b, 0x3a,
        ]
    );
}

#[test]
fn no_two_registers_share_an_address() {
    let map = register_map();
    assert_eq!(map.len(), 53);
    for (i, first) in map.iter().enumerate() {
        for second in &map[i + 1..] {
            assert_ne!(first, second);
        }
    }
}

#[test]
fn per_fan_registers_are_sixteen_apart() {
    let banks = [
        [FAN_PWM_FREQ_DIV1_1, FAN_PWM_FREQ_DIV1_2, FAN_PWM_FREQ_DIV1_3, FAN_PWM_FREQ_DIV1_4, FAN_PWM_FREQ_DIV1_5],
        [FAN_CONFIG_1_1, FAN_CONFIG_1_2, FAN_CONFIG_1_3, FAN_CONFIG_1_4, FAN_CONFIG_1_5],
        [FAN_CONFIG_2_1, FAN_CONFIG_2_2, FAN_CONFIG_2_3, FAN_CONFIG_2_4, FAN_CONFIG_2_5],
        [FAN_PID_GAIN_1, FAN_PID_GAIN_2, FAN_PID_GAIN_3, FAN_PID_GAIN_4, FAN_PID_GAIN_5],
        [FAN_SPIN_CONF_1, FAN_SPIN_CONF_2, FAN_SPIN_CONF_3, FAN_SPIN_CONF_4, FAN_SPIN_CONF_5],
        [FAN_MAX_STEP_CONF_1, FAN_MAX_STEP_CONF_2, FAN_MAX_STEP_CONF_3, FAN_MAX_STEP_CONF_4, FAN_MAX_STEP_CONF_5],
        [FAN_MIN_DRV_CONF_1, FAN_MIN_DRV_CONF_2, FAN_MIN_DRV_CONF_3, FAN_MIN_DRV_CONF_4, FAN_MIN_DRV_CONF_5],
    ];
    for bank in banks {
        for fan in 1..5 {
            assert_eq!(bank[fan], bank[fan - 1] + 0x10);
        }
    }
}

#[test]
fn high_weight_table() {
    assert_eq!(FAN_TAC_HIGH_VAL, [4096, 2048, 1024, 512, 256, 128, 64, 32]);
}

#[test]
fn low_weight_table() {
    assert_eq!(FAN_TAC_LOW_VAL, [16, 8, 4, 2, 1]);
}

#[test]
fn weights_add_up_to_the_largest_count() {
    let high: u16 = FAN_TAC_HIGH_VAL.iter().sum();
    let low: u16 = FAN_TAC_LOW_VAL.iter().sum();
    assert_eq!(high, 8160);
    assert_eq!(low, 31);
    assert_eq!(high + low, 8191);
}
