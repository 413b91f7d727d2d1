//! Push-to-talk speech capture: the decisions of a capture → resample →
//! buffer → transcribe pipeline, and of the recording session that drives it.
//!
//! Audio samples are a type parameter: the library moves, splits and counts
//! them, and leaves arithmetic on them to the caller.

pub mod errors;
pub mod messages;
pub mod capture;
pub mod flush;
pub mod resample;
pub mod transcribe;
pub mod supervisor;
pub mod commands;
pub mod session;
pub mod layout;
