//! Format dispatch and conversion orchestration for a Markdown <-> Word
//! file converter built around an external command-line tool.
//!
//! The crate resolves input and output formats from explicit tokens or
//! file extensions, selects the conversion strategy for a format pair,
//! and runs each conversion as a small state machine: the machine tells
//! its driver which filesystem or process action to take next, consumes
//! the observed outcome, and finally produces a structured result value.
//! All decisions are verified; the driver performs only the raw effects.

pub mod commands;
pub mod converter;
pub mod error;
mod text;
