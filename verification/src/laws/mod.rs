//! Laws that hold of the library as a whole.

pub mod catalog;
pub mod cells;
pub mod decoding;
pub mod encoding;
pub mod fields;
pub mod meta;
pub mod profile;
pub mod results;
pub mod round_trip;
pub mod rows;
pub mod source;
pub mod tables;
pub mod values;
