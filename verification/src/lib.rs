//! Planning and formatting for a one-shot export of metric identifiers.
//!
//! A run asks the vendor's metrics catalog for the metrics of a fixed tag that
//! were queried in the last fourteen days, and writes their identifiers to a
//! file named after the day. This library holds all of it but the keyboard, the
//! network and the disk: the rule for the keys, the request, the reading of the
//! response, the content and the name of the file, the lines for the console,
//! and the course of a run from one outcome to the next.

pub mod calendar;
pub mod console;
pub mod credentials;
pub mod export;
pub mod metrics;
pub mod request;
pub mod response;
pub mod run;
pub mod text;
