//! The handlers of inbound events, one module for each kind of object.

pub mod attendee;
pub mod calendar;
pub mod event;
