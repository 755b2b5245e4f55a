//! Typing-throughput estimation over a trailing one-minute window.
//!
//! Key presses are timestamped into a [`log::TimestampLog`]; a periodic
//! [`sampler::Sampler`] prunes the log to the trailing window, turns the
//! remaining count into a rate and keeps the best rate seen so far.

pub mod collector;
pub mod log;
pub mod sampler;
pub mod text;

pub use crate::collector::{record_event, KeyEvent, PRESSED};
pub use crate::log::TimestampLog;
pub use crate::sampler::{format_reading, rate_of, Sampler, Unit, WINDOW_MS, WORD_LENGTH};
pub use crate::text::{decimal_string, zero_pad};
