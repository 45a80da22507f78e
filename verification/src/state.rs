//! The persistent records of the event state machine.

pub mod assets;
pub mod attendee;
pub mod collection;
pub mod community;
pub mod event;
pub mod ticket;
