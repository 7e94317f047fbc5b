//! A resilient, single-connection database session actor, modelled as a
//! verified state machine.
//!
//! The library owns the logic of the session: the connection lifecycle
//! states, the classification of driver errors into transient and fatal,
//! the bounded retry and reconnection policy with its monotonically
//! increasing connection epoch, the strictly ordered handling of commands,
//! and the conversion of raw result rows into tagged values. Everything
//! that talks to the network or to the embedding host (the driver calls,
//! the async runtime, the callback queue) lives outside the library and
//! hands it plain values.

use vstd::prelude::*;

pub mod config;
pub mod error;
pub mod executor;
pub mod options;
pub mod query;
pub mod result;
pub mod session;
pub mod state;
pub mod text;

verus! {

/// Server-side idle timeout, in seconds, installed on every successful
/// connect. A heartbeat at half this interval keeps the session alive.
pub const WAIT_TIMEOUT: u32 = 7200;

} // verus!
