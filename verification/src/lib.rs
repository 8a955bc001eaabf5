//! Core logic for a graphics-tablet peripheral driver: a verified decoder for
//! the device's fixed-layout binary reports, the retry discipline of the
//! non-blocking transport underneath it, and the session state machine that
//! keeps the device in managed mode.

pub mod events;
pub mod session;
pub mod transport;
pub mod util;
