//! A verified, I/O-free core for the CMOS chip and its real-time clock.
//!
//! The library never touches hardware. It says which registers have to be
//! read, in which order, and turns the bytes that come back into a
//! [`RTCDateTime`]. The caller owns the two ports and performs the transfers.

pub mod datetime;
pub mod decode;
pub mod format;
pub mod order;
pub mod reader;
pub mod registers;

pub use datetime::RTCDateTime;
pub use decode::{CMOSCenturyHandler, RawClock};
