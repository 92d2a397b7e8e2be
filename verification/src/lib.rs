//! The logic of a head-orientation tracker that runs on two cores.
//!
//! One core samples an inertial sensor and, at a fixed cadence, puts a
//! telemetry frame into a byte channel. The other core takes the frames out
//! of the channel and hands them to the host whenever the host is ready.
//! Everything here is free of hardware: what drives the sensor, the clock
//! and the serial port reports to these tasks what happened and carries out
//! what they answer.

pub mod cadence;
pub mod channel;
pub mod frame;
pub mod tasks;
pub mod text;
