//! Client side of the SynScan motor controller protocol.
//!
//! A mount with two stepper-driven axes is spoken to over a serial line, one
//! command and one response at a time. This crate builds the command frames,
//! reads and classifies the responses, packs and unpacks the numbers that
//! travel in them, and offers the typed operations of the controller on top.
//!
//! The layers, from the bottom:
//!
//! - [`serial_port`]: the transport, which is anything that reads a byte
//!   with a timeout and writes bytes, and the [`serial_port::Line`] that
//!   records each use of it;
//! - [`codec`]: numbers as hexadecimal digits in the order of the wire;
//! - [`exchange`]: what one round trip is, as a reading of the record;
//! - [`synscan_port`]: the engine that makes round trips;
//! - [`motor_controller`]: the operations of the mount.
//!
//! Every function is verified against its contract. A contract of an
//! operation says which frame was written, that exactly one response was
//! read, byte by byte and no further than its end, and how the result
//! follows from what was read. It says so over the record of the line, so
//! that it holds of every transport, whatever the transport does.
//!
//! An operation borrows the controller for the whole round trip. Two round
//! trips on one port can therefore never overlap.

pub mod autoguide_speed;
pub mod bichannel_value;
pub mod channels;
pub mod codec;
pub mod commands;
pub mod counts;
pub mod direction;
pub mod drive_mode;
pub mod exchange;
pub mod mock;
pub mod motor_controller;
pub mod motor_parameters;
pub mod motor_status;
pub mod result;
pub mod serial_port;
pub mod synscan_port;

pub use crate::autoguide_speed::AutoGuideSpeed;
pub use crate::bichannel_value::BiChannelValue;
pub use crate::channels::{Channel, MultiChannel, SingleChannel};
pub use crate::codec::{bytes_to_number, number_to_bytes};
pub use crate::direction::Direction;
pub use crate::drive_mode::DriveMode;
pub use crate::mock::MockSynScanPort;
pub use crate::motor_controller::MotorController;
pub use crate::motor_parameters::MotorParameters;
pub use crate::motor_status::MotorStatus;
pub use crate::result::{IoError, SynScanError, SynScanResult};
pub use crate::serial_port::SerialPort;
pub use crate::synscan_port::SynScanPort;
