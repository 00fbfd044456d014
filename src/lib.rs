//! Shared ownership of industrial I/O contexts and the devices derived from them.
//!
//! The native library hands out raw handles with explicit destroy calls. This crate
//! holds the rules around those calls: which strings may reach the native layer,
//! how a failed call becomes an error, how a context is shared between its clones
//! and devices, and how the devices of a context are walked by index. Every native
//! entry point is supplied by the caller as a closure, so the decisions made before
//! and after it are verified here.

use vstd::prelude::*;

pub mod context;
pub mod device;
pub mod error;
pub mod native;
pub mod timeout;

pub use context::Context;
pub use device::{Device, DeviceIterator};
pub use error::Error;
