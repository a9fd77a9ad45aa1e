//! The bytes of the wire protocol: frame markers and command letters.

use vstd::prelude::*;

verus! {

/// Opens every frame sent to the controller: `:`.
pub const QUERY_BYTE: u8 = 0x3A;

/// Closes every frame, in both directions: a carriage return.
pub const TERMINATION_BYTE: u8 = 0x0D;

/// Opens a response that carries a payload: `=`.
pub const SUCCESS_BYTE: u8 = 0x3D;

/// Opens a response that carries an error code: `!`.
pub const ERROR_BYTE: u8 = 0x21;

/// The most payload bytes a response may carry.
pub const MAX_VALID_RESPONSE: usize = 6;

/// The code for a command that the controller does not know: `0`.
pub const CODE_UNKNOWN_COMMAND: u8 = 0x30;

/// The code for a command of the wrong length: `1`.
pub const CODE_COMMAND_LENGTH: u8 = 0x31;

/// The code for a command that needs the motor stopped: `2`.
pub const CODE_MOTOR_NOT_STOPPED: u8 = 0x32;

/// The code for a character that the controller does not accept: `3`.
pub const CODE_INVALID_CHARACTER: u8 = 0x33;

/// The code for a controller that is not initialized: `4`.
pub const CODE_NOT_INITIALIZED: u8 = 0x34;

/// The code for a driver that is asleep: `5`.
pub const CODE_DRIVER_SLEEPING: u8 = 0x35;

/// The code for a command that cannot run while PEC training does: `7`.
pub const CODE_PEC_TRAINING_RUNNING: u8 = 0x37;

/// The code for a command that needs PEC data where there is none: `8`.
pub const CODE_NO_VALID_PEC_DATA: u8 = 0x38;

/// `E`
pub const SET_POSITION: u8 = 0x45;

/// `F`
pub const INITIALIZATION_DONE: u8 = 0x46;

/// `G`
pub const SET_MOTION_MODE: u8 = 0x47;

/// `H`
pub const SET_GOTO_TARGET_INCREMENT: u8 = 0x48;

/// `M`
pub const SET_BRAKE_POINT_INCREMENT: u8 = 0x4D;

/// `S`
pub const SET_GOTO_TARGET: u8 = 0x53;

/// `I`
pub const SET_STEP_PERIOD: u8 = 0x49;

/// `T`
pub const SET_LONG_GOTO_STEP: u8 = 0x54;

/// `U`
pub const SET_BRAKE_STEPS: u8 = 0x55;

/// `J`
pub const START_MOTION: u8 = 0x4A;

/// `K`
pub const STOP_MOTION: u8 = 0x4B;

/// `L`
pub const INSTANT_STOP: u8 = 0x4C;

/// `B`
pub const SET_SLEEP: u8 = 0x42;

/// `O`
pub const SET_AUX_SWITCH: u8 = 0x4F;

/// `P`
pub const SET_AUTOGUIDE_SPEED: u8 = 0x50;

/// `Q`
pub const RUN_BOOTLOADER_MODE: u8 = 0x51;

/// `V`
pub const SET_POLAR_SCOPE_BRIGHTNESS: u8 = 0x56;

/// `a`
pub const INQUIRE_COUNTS_PER_REVOLUTION: u8 = 0x61;

/// `b`
pub const INQUIRE_TIMER_INTERRUPT_FREQUENCY: u8 = 0x62;

/// `c`
pub const INQUIRE_BRAKE_STEPS: u8 = 0x63;

/// `h`
pub const INQUIRE_GOTO_TARGET_POSITION: u8 = 0x68;

/// `i`
pub const INQUIRE_STEP_PERIOD: u8 = 0x69;

/// `j`
pub const INQUIRE_POSITION: u8 = 0x6A;

/// `k`
pub const INQUIRE_INCREMENT: u8 = 0x6B;

/// `m`
pub const INQUIRE_BRAKE_POINT: u8 = 0x6D;

/// `f`
pub const INQUIRE_STATUS: u8 = 0x66;

/// `g`
pub const INQUIRE_HIGH_SPEED_RATIO: u8 = 0x67;

/// `D`
pub const INQUIRE_1X_TRACKING_PERIOD: u8 = 0x44;

/// `d`
pub const INQUIRE_TELE_AXIS_POSITION: u8 = 0x64;

/// `e`
pub const INQUIRE_MOTOR_BOARD_VERSION: u8 = 0x65;

/// `s`
pub const INQUIRE_PEC_PERIOD: u8 = 0x73;

/// `z`
pub const SET_DEBUG_FLAG: u8 = 0x7A;

/// `W`
pub const EXTENDED_SETTING: u8 = 0x57;

/// `q`
pub const EXTENDED_INQUIRE: u8 = 0x71;

/// `C`
pub const SET_EEPROM_ADDRESS: u8 = 0x43;

/// `N`
pub const SET_EEPROM_VALUE: u8 = 0x4E;

/// `n`
pub const INQUIRE_EEPROM_VALUE: u8 = 0x6E;

/// `A`
pub const SET_REGISTER_ADDRESS: u8 = 0x41;

/// `R`
pub const SET_REGISTER_VALUE: u8 = 0x52;

/// `r`
pub const INQUIRE_REGISTER_VALUE: u8 = 0x72;

} // verus!
