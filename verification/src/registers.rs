//! The register map of the EMC2301 fan controller: the address of every
//! byte register of the device, and the two weight tables of its tachometer
//! encoding. All of it is fixed by the hardware.

use vstd::prelude::*;

verus! {

/// Configuration of alert, SMBus timeout, watchdog and clock.
pub const DRV_CONFIG_PORT: u8 = 0x20;

/// Fan status: failure of the watchdog, of the fan driver, of spin-up, or a stall.
pub const FAN_STAT_PORT: u8 = 0x24;

/// Tells which fan has stalled.
pub const FAN_STALL_PORT: u8 = 0x25;

/// Tells which fan failed its spin-up routine.
pub const FAN_SPIN_ST_PORT: u8 = 0x26;

/// Tells which fan cannot reach its target speed.
pub const FAN_DRIVE_FAIL_PORT: u8 = 0x27;

/// Masks or unmasks the error conditions that raise the alert.
pub const FAN_INTERRUPT_PORT: u8 = 0x29;

/// Polarity of the PWM output: which end of `FAN_SPEED_CTRL_PORT` is full duty.
pub const FAN_PWM_DUTY_PORT: u8 = 0x2a;

/// Output type of the PWM pins, push-pull or open-drain.
pub const FAN_PWM_OUT_PORT: u8 = 0x2b;

/// Base frequency of PWM outputs 4 and 5.
pub const FAN_PWM_FREQ45_PORT: u8 = 0x2c;

/// Base frequency of PWM outputs 1, 2 and 3.
pub const FAN_PWM_FREQ123_PORT: u8 = 0x2d;

/// Fan speed: written in manual mode, read back in automatic mode.
pub const FAN_SPEED_CTRL_PORT: u8 = 0x30;

/// Divider of the PWM base frequency, driver 1.
pub const FAN_PWM_FREQ_DIV1_1: u8 = 0x31;

/// Divider of the PWM base frequency, driver 2.
pub const FAN_PWM_FREQ_DIV1_2: u8 = 0x41;

/// Divider of the PWM base frequency, driver 3.
pub const FAN_PWM_FREQ_DIV1_3: u8 = 0x51;

/// Divider of the PWM base frequency, driver 4.
pub const FAN_PWM_FREQ_DIV1_4: u8 = 0x61;

/// Divider of the PWM base frequency, driver 5.
pub const FAN_PWM_FREQ_DIV1_5: u8 = 0x71;

/// Operating mode of fan 1, first register.
pub const FAN_CONFIG_1_1: u8 = 0x32;

/// Operating mode of fan 1, second register.
pub const FAN_CONFIG_2_1: u8 = 0x33;

/// Operating mode of fan 2, first register.
pub const FAN_CONFIG_1_2: u8 = 0x42;

/// Operating mode of fan 2, second register.
pub const FAN_CONFIG_2_2: u8 = 0x43;

/// Operating mode of fan 3, first register.
pub const FAN_CONFIG_1_3: u8 = 0x52;

/// Operating mode of fan 3, second register.
pub const FAN_CONFIG_2_3: u8 = 0x53;

/// Operating mode of fan 4, first register.
pub const FAN_CONFIG_1_4: u8 = 0x62;

/// Operating mode of fan 4, second register.
pub const FAN_CONFIG_2_4: u8 = 0x63;

/// Operating mode of fan 5, first register.
pub const FAN_CONFIG_1_5: u8 = 0x72;

/// Operating mode of fan 5, second register.
pub const FAN_CONFIG_2_5: u8 = 0x73;

/// Gain of the speed control loop, fan 1.
pub const FAN_PID_GAIN_1: u8 = 0x35;

/// Gain of the speed control loop, fan 2.
pub const FAN_PID_GAIN_2: u8 = 0x45;

/// Gain of the speed control loop, fan 3.
pub const FAN_PID_GAIN_3: u8 = 0x55;

/// Gain of the speed control loop, fan 4.
pub const FAN_PID_GAIN_4: u8 = 0x65;

/// Gain of the speed control loop, fan 5.
pub const FAN_PID_GAIN_5: u8 = 0x75;

/// Spin-up routine, fan 1.
pub const FAN_SPIN_CONF_1: u8 = 0x36;

/// Spin-up routine, fan 2.
pub const FAN_SPIN_CONF_2: u8 = 0x46;

/// Spin-up routine, fan 3.
pub const FAN_SPIN_CONF_3: u8 = 0x56;

/// Spin-up routine, fan 4.
pub const FAN_SPIN_CONF_4: u8 = 0x66;

/// Spin-up routine, fan 5.
pub const FAN_SPIN_CONF_5: u8 = 0x76;

/// Largest step of the drive between two updates, fan 1.
pub const FAN_MAX_STEP_CONF_1: u8 = 0x37;

/// Largest step of the drive between two updates, fan 2.
pub const FAN_MAX_STEP_CONF_2: u8 = 0x47;

/// Largest step of the drive between two updates, fan 3.
pub const FAN_MAX_STEP_CONF_3: u8 = 0x57;

/// Largest step of the drive between two updates, fan 4.
pub const FAN_MAX_STEP_CONF_4: u8 = 0x67;

/// Largest step of the drive between two updates, fan 5.
pub const FAN_MAX_STEP_CONF_5: u8 = 0x77;

/// Smallest drive in automatic mode, fan 1.
pub const FAN_MIN_DRV_CONF_1: u8 = 0x38;

/// Smallest drive in automatic mode, fan 2.
pub const FAN_MIN_DRV_CONF_2: u8 = 0x48;

/// Smallest drive in automatic mode, fan 3.
pub const FAN_MIN_DRV_CONF_3: u8 = 0x58;

/// Smallest drive in automatic mode, fan 4.
pub const FAN_MIN_DRV_CONF_4: u8 = 0x68;

/// Smallest drive in automatic mode, fan 5.
pub const FAN_MIN_DRV_CONF_5: u8 = 0x78;

/// Measured tachometer count, low byte.
pub const FAN_TAC_LOW_PORT: u8 = 0x3f;

/// Measured tachometer count, high byte.
pub const FAN_TAC_HIGH_PORT: u8 = 0x3e;

/// Target tachometer count, low byte.
pub const FAN_TAC_TGT_LOW: u8 = 0x3c;

/// Target tachometer count, high byte.
pub const FAN_TAC_TGT_HIGH: u8 = 0x3d;

/// Largest tachometer count that is taken as a valid reading.
pub const FAN_TAC_VALID_HIGH: u8 = 0x39;

/// Margin below the target count at which the drive counts as failing, high byte.
pub const FAN_TAC_FAIL_HIGH: u8 = 0x3b;

/// Margin below the target count at which the drive counts as failing, low byte.
pub const FAN_TAC_FAIL_LOW: u8 = 0x3a;

/// Weight of each bit of a high tachometer byte, most significant bit first.
pub const FAN_TAC_HIGH_VAL: [u16; 8] = [4096, 2048, 1024, 512, 256, 128, 64, 32];

/// Weight of each of the top five bits of a low tachometer byte, most
/// significant bit first. The three bits below them carry no weight.
pub const FAN_TAC_LOW_VAL: [u16; 5] = [16, 8, 4, 2, 1];

/// Every register of the map.
pub open spec fn register_map() -> Seq<u8> {
    seq![
        DRV_CONFIG_PORT,
        FAN_STAT_PORT,
        FAN_STALL_PORT,
        FAN_SPIN_ST_PORT,
        FAN_DRIVE_FAIL_PORT,
        FAN_INTERRUPT_PORT,
        FAN_PWM_DUTY_PORT,
        FAN_PWM_OUT_PORT,
        FAN_PWM_FREQ45_PORT,
        FAN_PWM_FREQ123_PORT,
        FAN_SPEED_CTRL_PORT,
        FAN_PWM_FREQ_DIV1_1,
        FAN_PWM_FREQ_DIV1_2,
        FAN_PWM_FREQ_DIV1_3,
        FAN_PWM_FREQ_DIV1_4,
        FAN_PWM_FREQ_DIV1_5,
        FAN_CONFIG_1_1,
        FAN_CONFIG_2_1,
        FAN_CONFIG_1_2,
        FAN_CONFIG_2_2,
        FAN_CONFIG_1_3,
        FAN_CONFIG_2_3,
        FAN_CONFIG_1_4,
        FAN_CONFIG_2_4,
        FAN_CONFIG_1_5,
        FAN_CONFIG_2_5,
        FAN_PID_GAIN_1,
        FAN_PID_GAIN_2,
        FAN_PID_GAIN_3,
        FAN_PID_GAIN_4,
        FAN_PID_GAIN_5,
        FAN_SPIN_CONF_1,
        FAN_SPIN_CONF_2,
        FAN_SPIN_CONF_3,
        FAN_SPIN_CONF_4,
        FAN_SPIN_CONF_5,
        FAN_MAX_STEP_CONF_1,
        FAN_MAX_STEP_CONF_2,
        FAN_MAX_STEP_CONF_3,
        FAN_MAX_STEP_CONF_4,
        FAN_MAX_STEP_CONF_5,
        FAN_MIN_DRV_CONF_1,
        FAN_MIN_DRV_CONF_2,
        FAN_MIN_DRV_CONF_3,
        FAN_MIN_DRV_CONF_4,
        FAN_MIN_DRV_CONF_5,
        FAN_TAC_LOW_PORT,
        FAN_TAC_HIGH_PORT,
        FAN_TAC_TGT_LOW,
        FAN_TAC_TGT_HIGH,
        FAN_TAC_VALID_HIGH,
        FAN_TAC_FAIL_HIGH,
        FAN_TAC_FAIL_LOW,
    ]
}

/// No two registers of the map share an address.
pub proof fn lemma_register_map_has_no_duplicates()
    ensures
        register_map().no_duplicates(),
{
}

} // verus!
