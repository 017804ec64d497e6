//! An interactive terminal browser for the process environment: a snapshot
//! of key/value pairs, a saturating selection over it, a four-band layout,
//! a renderer that computes each frame's contents as plain values, and the
//! dispatcher that maps input events to state changes. A thin front end owns
//! the terminal itself and feeds events in and frames out.

pub mod app;
pub mod input;
pub mod laws;
pub mod layout;
pub mod render;
pub mod selection;
pub mod snapshot;
