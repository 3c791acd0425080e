//! Window-activity capture for Wayland compositors, streamed to an
//! `arbtt-import` process.
//!
//! The crate holds the decisions of the capture pipeline: how a compositor's
//! answers become a snapshot, which backend is chosen, what the sink asks of
//! its consumer process and which bytes it hands to it. Sockets, processes and
//! the clock belong to the caller, who performs the requests that the types
//! here hand out and reports back what happened.

pub mod text;
pub mod backend;
pub mod entry;
pub mod arbtt;
