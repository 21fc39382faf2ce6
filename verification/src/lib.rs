//! Voice-command trigger logic: a progress indicator, the configuration record,
//! the action dispatcher and the command-acquisition state machine.
//!
//! The library decides; a driver performs. Audio capture, the detection engines,
//! the interrupt handler and process launching live with the driver, which feeds
//! what it observed to [`listener::Listener::step`] and carries out the action
//! that comes back.

pub mod config;
pub mod dispatch;
pub mod listener;
pub mod paths;
pub mod wait;
