//! HTTP timestamps.
//!
//! An [`HttpDate`] is a calendar instant in UTC as the headers of HTTP carry
//! it. It is read from any of the three forms of text that HTTP has used,
//! and written in the one form that a sender must produce, the IMF-fixdate:
//!
//! ```text
//! Sun, 06 Nov 1994 08:49:37 GMT    ; IMF-fixdate, read and written
//! Sunday, 06-Nov-94 08:49:37 GMT   ; RFC 850, read only
//! Sun Nov  6 08:49:37 1994         ; asctime, read only
//! ```
//!
//! It is also made from an instant of the machine's clock, given as a
//! distance from the epoch ([`EpochOffset`]) or as linear seconds and
//! nanoseconds ([`Timespec`]), and turned back into either. Timestamps are
//! equal where they denote one instant, and ordered as their instants are.
//!
//! # Layout
//!
//! - [`calendar`]: the broken-down calendar time, and when it is valid.
//! - [`instant`]: the two notations of an instant and the arithmetic
//!   between them.
//! - [`text`]: what the canonical text is, character by character.
//! - [`engine`]: the `time` crate, which matches text against patterns and
//!   does the calendar arithmetic, behind contracts that are trusted.
//! - [`date`]: `HttpDate` itself.
//! - [`order`]: its equality and order.
//! - [`error`]: the one error.
//!
//! # What is proved and what is not
//!
//! Every function is verified against its contract but for the five of
//! `engine` that call the `time` crate; their contracts are believed.
//!
//! Those five contracts are stated of the `time` crate as it is built for
//! Unix, where it hands the calendar to the C library's `gmtime_r` and
//! `timegm` and seconds are counted in 64 bits. On such a build no function
//! of this library panics. On other builds the crate itself may panic inside
//! a call that this library makes: on Windows when it is asked for the
//! instant of a date that no calendar has, such as the 31st of February,
//! which comparing two timestamps does, and when it is asked to break down
//! an instant that the platform cannot hold.

pub mod calendar;
pub mod date;
pub mod engine;
pub mod error;
pub mod instant;
pub mod order;
pub mod text;

pub use calendar::CalendarTime;
pub use date::HttpDate;
pub use error::Error;
pub use instant::{EpochOffset, Timespec};
