//! Verified command layer for a local container runtime.
//!
//! The crate normalizes raw runtime records into stable summary payloads,
//! fixes the parameters of each lifecycle request (list, create+start,
//! stop, kill, remove image), and decides the outcome of every command and
//! of a log-streaming session from the results the runtime hands back.
//! The surrounding process performs the actual runtime calls and feeds
//! their results to the functions here.

pub mod error;
pub mod lifecycle;
pub mod logs;
pub mod payload;
