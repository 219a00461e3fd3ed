//! pprof profiles as table rows.
//!
//! A pprof profile is a `profile.proto` message, mostly inside of a gzip file. The library
//! decodes its bytes and flattens the message into rows, one kind per table, and lays the rows
//! of several sources out as columns.
//!
//! - [`wire`], [`message`] and [`proto`] read the message, [`gzip`] what it is wrapped in.
//! - [`decoded`] holds a decoded profile and gives its [`rows`]; [`flatten`] says what they are.
//! - [`source`] finds the profiles that an argument names.
//! - [`table`] collects rows into [`columns`] of a [`schema`], and [`arrow`] turns these into
//!   Arrow arrays, whose [`cells`] are the values of the rows.
//! - [`meta`] and [`catalog`] hold what is told of the tables.
//! - [`laws`] states what holds of all of it.

pub mod arrow;
pub mod catalog;
pub mod cells;
pub mod columns;
pub mod decoded;
pub mod flatten;
pub mod gzip;
pub mod laws;
pub mod lists;
pub mod message;
pub mod meta;
pub mod proto;
pub mod rows;
pub mod schema;
pub mod source;
pub mod table;
pub mod text;
pub mod wire;

pub use crate::decoded::{Decoded, PprofError};
pub use crate::rows::{
    Frame, FunctionRow, LineRef, LocationRow, MappingRow, Meta, SampleRow, StackRow, ValueType,
};
