//! Verified decision logic for a safe binding to OpenVINO's inference-engine C API.
//!
//! The native calls themselves are made by the caller; this crate decides which call comes next,
//! what it is handed, and how each reported status becomes a typed result.
pub mod error;
pub mod tensor;
pub mod setup;
pub mod read;
pub mod load;
