//! Decisions of the Dreambo robot motor controller.
//!
//! The robot's arms and nose are Feetech servos on one serial bus (SM40BL on
//! the arms, STS3025BL on the nose); its neck is three Damiao motors on a CAN
//! bus. This crate holds what the controller decides: which servo is which,
//! how a request on chosen servos becomes sync writes per servo family, how
//! ping rounds are read, when a bus operation is retried, how the control
//! loop starts and runs, what its errors say, and how the PID registers are
//! encoded.
pub mod control;
pub mod error;
pub mod labels;
pub mod layout;
pub mod motors;
pub mod neck;
pub mod pid;
pub mod presence;
pub mod retry;
pub mod startup;
pub mod torque;

pub use error::MotorError;
pub use motors::{split_ids_by_family, DEFAULT_CAN_BUS, SERVO_BAUD};
