//! A memory-safe, verified boundary layer around the `blazesym` address
//! normalization engine.
//!
//! The library decodes versioned, size-prefixed option records under a
//! zero-extension rule, converts the engine's rich result values into
//! flat, caller-owned records with a stable shape, and provides a
//! symmetric teardown path for every marshaled object graph. Every
//! entry point records its outcome in a call-status cell readable
//! independently of the return value.
#![allow(non_camel_case_types)]

pub mod err;
pub mod meta;
pub mod normalize;
pub mod opts;
pub mod output;
pub mod reason;
