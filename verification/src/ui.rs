//! What the window shows: the messages it receives and how it reacts to them.
pub mod messages;
pub mod controls;
pub mod window;
