//! Diagnostic reporting for a cargo/kcov coverage wrapper.
//!
//! Every failure the wrapper can hit is classified as one variant of
//! [`errors::Diagnostic`]; rendering turns a diagnostic into an ordered sequence
//! of styled output segments that a terminal front end writes before the
//! process exits with the fixed diagnostic exit code.

pub mod errors;
pub mod render;
