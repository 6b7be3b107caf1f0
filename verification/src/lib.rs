//! Calibration and position control for a motorized mechanism built from
//! continuous linear actuators and a discrete gear shifter.
//!
//! The crate turns logical actuation intents ("extend this actuator to a
//! fraction of its stroke", "select this gear") into absolute motor-angle
//! commands, and decides from polled position feedback when those commands
//! have physically completed.  Outbound commands go through the [`messenger::Messenger`]
//! trait; position feedback is handed in by the caller as plain values.

pub mod actuator;
pub mod command;
pub mod error;
pub mod messenger;
pub mod port;
pub mod ratio;
pub mod shifter;
