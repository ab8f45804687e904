//! Finds timestamps in loosely structured text.
//!
//! A format template such as `%d/%b/%Y:%H:%M:%S%.f` is read once into a list
//! of items. From the items comes a search pattern, which locates a candidate
//! substring in a line of text, and the same items then parse the candidate
//! into a calendar moment and on into seconds since 1970-01-01T00:00:00 UTC.
//!
//! The search is loose and the parse is exact: the pattern takes any digits
//! of the right count, and the parser then holds them to the calendar. What
//! the pattern found and the parser refuses is no timestamp.

pub mod calendar;
pub mod fields;
pub mod matcher;
pub mod parser;
pub mod pattern;
pub mod specifier;
pub mod template;
pub mod text;
pub mod timestamp_finder;

pub use crate::timestamp_finder::{FormatCompileError, TimestampFinder};
