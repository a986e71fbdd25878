//! Open/closed status of a physical space: the guarded status holder with its
//! timed auto-close, and the request logic of the endpoints that read and
//! change it.
//!
//! The library neither listens nor sleeps. A server around it parses the
//! requests, holds the [`state::SpaceGuard`] under a lock, tells it the time,
//! runs the timers it asks for, and sends what the functions of [`routes`]
//! return.

use vstd::prelude::*;

pub mod config;
pub mod laws;
pub mod routes;
pub mod state;

verus! {

/// The name under which the server presents itself.
pub const SOFTWARE: &'static str = "spaceapi-dezentrale-server";

/// The version under which the server presents itself.
pub const VERSION: &'static str = "0.9.0";

} // verus!
