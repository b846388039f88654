//! Core library of a dive-computer prototype.
//!
//! The heart of the crate is the message-framing protocol: typed payloads are
//! wrapped in an envelope with a fixed-layout header and summation checksums,
//! serialized to bytes, and parsed back with full structural and integrity
//! validation.  The remaining modules supply the command/response vocabulary,
//! sensor data types, and integer dive calculations.

pub mod commands;
pub mod dive_calc;
pub mod examples;
pub mod protocol;
pub mod sensor;
pub mod wire;
