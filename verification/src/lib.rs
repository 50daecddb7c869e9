//! Parsing of human-friendly duration strings such as `"2h 15m"` or
//! `"0.1 days"` into an exact whole-seconds plus nanoseconds value.
//!
//! The grammar accepts a sequence of `<number><unit>` spans, separated by
//! whitespace or the word `and`, and sums them.  Every function here carries
//! a contract relating it to a mathematical model of the grammar.

pub mod convert;
pub mod duration;
pub mod laws;
pub mod parse;
pub mod resolve;
pub mod scan;
pub mod table;
pub mod units;

pub use duration::Duration;
pub use parse::{parse_duration, Error, SpanErrorKind};
