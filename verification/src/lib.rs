//! Haptic obstacle-feedback logic for a wearable device: a time-of-flight
//! sensor scans 16 fixed regions of its field of view, and each measured
//! distance drives one of 16 vibration motors through a PWM controller,
//! giving the wearer a coarse "touch image" of nearby obstacles.
//!
//! This crate holds the verified core of that firmware: the distance-to-
//! vibration mapping policy, the motor-channel resolution, the sensor
//! sampling state machine, the debug-display grid formatting, and the
//! per-cycle scan step that ties them together. Bus transactions with the
//! actual sensor, PWM chip and display are hardware I/O and live outside
//! the library; they exchange plain values with it.

pub mod channels;
pub mod grid;
pub mod mapper;
pub mod sampler;
pub mod scan;
