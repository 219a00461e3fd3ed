//! Values as the cells of Arrow arrays.

use vstd::prelude::*;

use crate::arrow::Cell;
use crate::rows::{FrameView, LineRef, ValueTypeView};

verus! {

/// A number, or null.
pub open spec fn i64_cell(value: Option<i64>) -> Cell {
    match value {
        Some(v) => Cell::Int64(v),
        None => Cell::Null,
    }
}

/// A number, or null.
pub open spec fn u64_cell(value: Option<u64>) -> Cell {
    match value {
        Some(v) => Cell::UInt64(v),
        None => Cell::Null,
    }
}

/// A string, or null.
pub open spec fn str_cell(value: Option<Seq<char>>) -> Cell {
    match value {
        Some(v) => Cell::Utf8(v),
        None => Cell::Null,
    }
}

/// A value type: its name and its unit.
pub open spec fn value_type_struct(value: ValueTypeView) -> Cell {
    Cell::Struct(seq![Cell::Utf8(value.type_), Cell::Utf8(value.unit)])
}

/// A frame: function, file, line and address.
pub open spec fn frame_struct(value: FrameView) -> Cell {
    Cell::Struct(
        seq![
            str_cell(value.function),
            str_cell(value.filename),
            i64_cell(value.line),
            Cell::UInt64(value.address),
        ],
    )
}

/// A line: its function and its number.
pub open spec fn lineref_struct(value: LineRef) -> Cell {
    Cell::Struct(seq![Cell::UInt64(value.function_id), Cell::Int64(value.line)])
}

/// A map entry: its key and its value.
pub open spec fn entry_struct(value: (Seq<char>, Seq<char>)) -> Cell {
    Cell::Struct(seq![Cell::Utf8(value.0), Cell::Utf8(value.1)])
}

/// A value type, or null.
pub open spec fn value_type_struct_cell(value: Option<ValueTypeView>) -> Cell {
    match value {
        Some(v) => value_type_struct(v),
        None => Cell::Null,
    }
}

/// A list of signed numbers, or null.
pub open spec fn list_i64_cell(value: Option<Seq<i64>>) -> Cell {
    match value {
        Some(items) => Cell::List(Seq::new(items.len(), |j: int| Cell::Int64(items[j]))),
        None => Cell::Null,
    }
}

/// A list of unsigned numbers, or null.
pub open spec fn list_u64_cell(value: Option<Seq<u64>>) -> Cell {
    match value {
        Some(items) => Cell::List(Seq::new(items.len(), |j: int| Cell::UInt64(items[j]))),
        None => Cell::Null,
    }
}

/// A list of value types, or null.
pub open spec fn list_value_type_cell(value: Option<Seq<ValueTypeView>>) -> Cell {
    match value {
        Some(items) => Cell::List(Seq::new(items.len(), |j: int| value_type_struct(items[j]))),
        None => Cell::Null,
    }
}

/// A list of frames, or null.
pub open spec fn list_frame_cell(value: Option<Seq<FrameView>>) -> Cell {
    match value {
        Some(items) => Cell::List(Seq::new(items.len(), |j: int| frame_struct(items[j]))),
        None => Cell::Null,
    }
}

/// A list of lines, or null.
pub open spec fn list_lineref_cell(value: Option<Seq<LineRef>>) -> Cell {
    match value {
        Some(items) => Cell::List(Seq::new(items.len(), |j: int| lineref_struct(items[j]))),
        None => Cell::Null,
    }
}

/// A map, or null.
pub open spec fn map_cell(value: Option<Seq<(Seq<char>, Seq<char>)>>) -> Cell {
    match value {
        Some(items) => Cell::Entries(Seq::new(items.len(), |j: int| entry_struct(items[j]))),
        None => Cell::Null,
    }
}

} // verus!
