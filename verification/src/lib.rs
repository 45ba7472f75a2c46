//! A modal screen-controller for a small terminal file browser.
//!
//! The library owns the control logic: input commands, cursor movement over a
//! directory listing, the signals a screen emits (quit, switch screen, deliver
//! a message), the queue that decomposes composite signals, and the driver
//! state that applies them.  Terminal drawing, directory enumeration and the
//! history store live outside, in the surrounding application.

pub mod ctx;
pub mod dir;
pub mod driver;
pub mod laws;
pub mod meta;
pub mod signal;
