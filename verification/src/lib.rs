//! Request planning, session-state synchronisation and GPU capacity
//! accounting for a GPU-session API in front of the Spur scheduler.
use vstd::prelude::*;

pub mod text;
pub mod ids;
pub mod crd;
pub mod job;
pub mod capacity;
pub mod settings;
pub mod sync;
pub mod session;
pub mod auth;
pub mod terminal;
pub mod user;
