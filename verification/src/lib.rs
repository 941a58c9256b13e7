//! Core logic of a serial-port monitor: the control state machine that starts
//! and stops the reader thread, the framing of received bytes, and the small
//! pieces of decision logic around them.  I/O, threads and the GUI live in the
//! application crate; everything here is verified.
#![allow(non_snake_case)]
#![allow(non_camel_case_types)]

pub mod engine;
pub mod ffi;
pub mod framing;
pub mod front;
pub mod manager;
pub mod serial;
pub mod types;
