//! A bidirectional marshalling layer between SQLite's per-column storage and
//! strongly typed host values.
//!
//! Each logical column type ([`sql_types`]) is backed by one SQLite storage
//! class. A [`value::SqliteValue`] is a borrowed view over one column of the
//! row currently being fetched; the [`decode`] functions turn it into host
//! values, one function per sound (logical type, host type) pair, so that an
//! unsound pair (say, text read as an integer) is not expressible. In the
//! other direction, an [`value::Output`] accumulates one bind parameter, and
//! the [`encode`] functions fill it, again one per sound pair.
//!
//! Numeric narrowing (the 32-to-16-bit truncation of the `SmallInt` decode)
//! is deliberate and wraps by two's complement; it is never range-checked.
//! The zero-copy decode paths return borrowed views whose backing storage is
//! invalidated by the next fetch, which the borrow checker enforces here.
//! Floating-point values travel through the layer as their IEEE-754 bit
//! patterns; the float conversions themselves live with the caller.

pub mod decode;
pub mod encode;
pub mod error;
pub mod flags;
pub mod laws;
pub mod sql_types;
pub mod value;
