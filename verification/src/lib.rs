//! Raw mode for terminals that live in a host environment.
//!
//! A terminal in raw mode hands input over byte by byte, echoes nothing and
//! leaves output as it is written. [`raw::RawTerminal`] puts a device into raw
//! mode and brings its former configuration back when it is released.

pub mod raw;
pub mod sys;
