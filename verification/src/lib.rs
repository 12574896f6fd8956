//! Core of a controller-tracking bridge: the tuning store that a user edits,
//! the snapshot slots through which a background worker hands device
//! telemetry to a fixed-tick consumer, and the consumer's state transitions.
//!
//! Angles are whole degrees and scale factors are thousandths, so that every
//! rule of the store is a statement about integers.

pub mod settings;
pub mod status;
pub mod worker;
pub mod present;
pub mod state;
pub mod text;
