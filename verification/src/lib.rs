//! Host health monitoring for a desktop status indicator.
//!
//! The crate holds the decisions of the monitor and none of its effects: how
//! the reply of a health endpoint is read, how the outcome of a probe becomes
//! the state that is shown, when a target is probed again, and how the set of
//! targets is kept. Sending a request, waiting, and drawing are left to the
//! program that drives the monitor: it performs each [`policy::Action`] it is
//! handed and reports what happened as an [`policy::Event`].

pub mod monitor;
pub mod policy;
pub mod probe;
pub mod state;
pub mod target;
pub mod trace;
pub mod ui;
