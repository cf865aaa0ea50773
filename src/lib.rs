//! Safe, verified decision layer around the NRV (UCL) compression engine.
//!
//! The engine itself is a native routine reached through a foreign call.
//! This crate holds what decides around that call: the worst-case sizing
//! rule for compression output, the guards checked before a call, the
//! mapping of the engine's status codes to typed errors, and the check of
//! the used length that the engine hands back.
pub mod error;
pub mod handoff;
pub mod sizing;

pub use error::UclErrorKind;
pub use handoff::{finish_call, prepare_compress, prepare_compress_owned, prepare_decompress, NativeLengths};
pub use sizing::minimum_compression_buffer_size;
