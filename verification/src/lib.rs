//! A minimal logging backend for environments whose only output primitive
//! emits one character at a time.
//!
//! The crate renders a structured log record (target, severity, message) as a
//! single colourised line and pushes it, character by character, through a
//! character sink.  Severity filtering, the ANSI colour table and the exact
//! wire format of the rendered line are all stated in the contracts.

pub mod level;
pub mod logger;
pub mod sink;
