//! Host-side session layer for the Media Transfer Protocol.
//!
//! The native protocol engine is driven from outside this crate; the library holds the
//! decisions around it: how native results and the session's error stack turn into typed
//! results, how storage snapshots, file records and folder trees are modelled, how value
//! constraints are decoded, and what each transfer asks of the native layer.
use vstd::prelude::*;

pub mod device;
pub mod error;
pub mod internals;
pub mod object;
pub mod storage;
pub mod util;
pub mod values;

verus! {

/// Result type used throughout the crate.
pub type Result<T> = core::result::Result<T, error::Error>;

} // verus!
