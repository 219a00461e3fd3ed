//! What the rows of a profile are.
//!
//! The functions here say, over the value of a profile, what each table holds:
//! string indices are looked up in the string table, and stacks are resolved
//! through the location and function tables.

use vstd::prelude::*;

use crate::proto::{Function, Label, Line, LocationView, ProfileView, SampleView};
use crate::proto;
use crate::rows::{
    FrameView, FunctionRowView, LineRef, LocationRowView, MappingRowView, MetaView, SampleRowView,
    StackRowView, ValueTypeView,
};
use crate::text;

verus! {

/// The string at an index. Index zero, an index outside of the table and an empty
/// string stand for no string.
pub open spec fn text_at(p: ProfileView, index: i64) -> Option<Seq<char>> {
    if 0 < index < p.string_table.len() && p.string_table[index as int].len() > 0 {
        Some(p.string_table[index as int])
    } else {
        None
    }
}

/// The string at an index, empty where there is none.
pub open spec fn text_or_empty(p: ProfileView, index: i64) -> Seq<char> {
    match text_at(p, index) {
        Some(s) => s,
        None => Seq::empty(),
    }
}

/// A value type with its strings.
pub open spec fn value_type_of(p: ProfileView, value_type: proto::ValueType) -> ValueTypeView {
    ValueTypeView {
        type_: text_or_empty(p, value_type.type_),
        unit: text_or_empty(p, value_type.unit),
    }
}

/// The text of a label: its string, or its number, with the unit where it has one.
pub open spec fn label_text(p: ProfileView, label: Label) -> Seq<char> {
    if label.str != 0 {
        text_or_empty(p, label.str)
    } else {
        match text_at(p, label.num_unit) {
            Some(unit) => text::decimal(label.num as int) + " "@ + unit,
            None => text::decimal(label.num as int),
        }
    }
}

/// A label as key and text.
pub open spec fn label_pair(p: ProfileView, label: Label) -> (Seq<char>, Seq<char>) {
    (text_or_empty(p, label.key), label_text(p, label))
}

/// Whether some pair has this key.
pub open spec fn has_key(pairs: Seq<(Seq<char>, Seq<char>)>, key: Seq<char>) -> bool {
    exists|i: int| 0 <= i < pairs.len() && #[trigger] pairs[i].0 == key
}

/// The pairs without those whose key stands in an earlier pair.
pub open spec fn first_of_each_key(pairs: Seq<(Seq<char>, Seq<char>)>) -> Seq<
    (Seq<char>, Seq<char>),
>
    decreases pairs.len(),
{
    if pairs.len() == 0 {
        pairs
    } else {
        let kept = first_of_each_key(pairs.drop_last());
        if has_key(kept, pairs.last().0) {
            kept
        } else {
            kept.push(pairs.last())
        }
    }
}

/// All labels of a sample, in order.
pub open spec fn label_pairs(p: ProfileView, labels: Seq<Label>) -> Seq<(Seq<char>, Seq<char>)> {
    Seq::new(labels.len(), |i: int| label_pair(p, labels[i]))
}

/// The labels of a sample, the first of each key.
pub open spec fn labels_of(p: ProfileView, sample: SampleView) -> Seq<(Seq<char>, Seq<char>)> {
    first_of_each_key(label_pairs(p, sample.label))
}

/// The last position at which `id` stands.
pub open spec fn last_position(ids: Seq<u64>, id: u64) -> Option<int>
    decreases ids.len(),
{
    if ids.len() == 0 {
        None
    } else if ids.last() == id {
        Some(ids.len() - 1)
    } else {
        last_position(ids.drop_last(), id)
    }
}

/// The ids of the location table, in order.
pub open spec fn location_ids(locations: Seq<LocationView>) -> Seq<u64> {
    Seq::new(locations.len(), |i: int| locations[i].id)
}

/// The ids of the function table, in order.
pub open spec fn function_ids(functions: Seq<Function>) -> Seq<u64> {
    Seq::new(functions.len(), |i: int| functions[i].id)
}

/// The location with an id. Where an id occurs again, the last one counts.
pub open spec fn location_at(p: ProfileView, id: u64) -> Option<LocationView> {
    match last_position(location_ids(p.location), id) {
        Some(i) => Some(p.location[i]),
        None => None,
    }
}

/// The function with an id. Where an id occurs again, the last one counts.
pub open spec fn function_at(p: ProfileView, id: u64) -> Option<Function> {
    match last_position(function_ids(p.function), id) {
        Some(i) => Some(p.function[i]),
        None => None,
    }
}

/// A frame of which only the address is known.
pub open spec fn bare_frame(address: u64) -> FrameView {
    FrameView { function: None, filename: None, line: None, address }
}

/// The frame of a source line at an address.
pub open spec fn line_frame(p: ProfileView, line: Line, address: u64) -> FrameView {
    FrameView {
        function: match function_at(p, line.function_id) {
            Some(f) => text_at(p, f.name),
            None => None,
        },
        filename: match function_at(p, line.function_id) {
            Some(f) => text_at(p, f.filename),
            None => None,
        },
        line: Some(line.line),
        address,
    }
}

/// The frames of a location: one per source line, innermost first, or the address
/// alone where there is no line. A location that the table lacks has address zero.
pub open spec fn location_frames(p: ProfileView, id: u64) -> Seq<FrameView> {
    match location_at(p, id) {
        None => seq![bare_frame(0)],
        Some(location) => if location.line.len() == 0 {
            seq![bare_frame(location.address)]
        } else {
            Seq::new(
                location.line.len(),
                |i: int| line_frame(p, location.line[i], location.address),
            )
        },
    }
}

/// The frames of a stack of locations, leaf first.
pub open spec fn stack_frames(p: ProfileView, ids: Seq<u64>) -> Seq<FrameView>
    decreases ids.len(),
{
    if ids.len() == 0 {
        Seq::empty()
    } else {
        stack_frames(p, ids.drop_last()) + location_frames(p, ids.last())
    }
}

/// The resolved row of the sample at position `i`.
pub open spec fn stack_row(p: ProfileView, i: int) -> StackRowView {
    StackRowView {
        sample_id: (i + 1) as i64,
        value: p.sample[i].value,
        labels: labels_of(p, p.sample[i]),
        frames: stack_frames(p, p.sample[i].location_id),
    }
}

/// The resolved rows: one per sample, in order.
pub open spec fn stack_rows(p: ProfileView) -> Seq<StackRowView> {
    Seq::new(p.sample.len(), |i: int| stack_row(p, i))
}

/// The raw row of the sample at position `i`.
pub open spec fn sample_row(p: ProfileView, i: int) -> SampleRowView {
    SampleRowView {
        sample_id: (i + 1) as i64,
        location_ids: p.sample[i].location_id,
        value: p.sample[i].value,
        labels: labels_of(p, p.sample[i]),
    }
}

/// The raw rows: one per sample, in order.
pub open spec fn sample_rows(p: ProfileView) -> Seq<SampleRowView> {
    Seq::new(p.sample.len(), |i: int| sample_row(p, i))
}

/// The row of the function at position `i`.
pub open spec fn function_row(p: ProfileView, i: int) -> FunctionRowView {
    FunctionRowView {
        function_id: p.function[i].id,
        name: text_at(p, p.function[i].name),
        system_name: text_at(p, p.function[i].system_name),
        filename: text_at(p, p.function[i].filename),
        start_line: p.function[i].start_line,
    }
}

/// The function table, in order.
pub open spec fn function_rows(p: ProfileView) -> Seq<FunctionRowView> {
    Seq::new(p.function.len(), |i: int| function_row(p, i))
}

/// A line as function id and number.
pub open spec fn line_ref(line: Line) -> LineRef {
    LineRef { function_id: line.function_id, line: line.line }
}

/// The row of the location at position `i`.
pub open spec fn location_row(p: ProfileView, i: int) -> LocationRowView {
    LocationRowView {
        location_id: p.location[i].id,
        address: p.location[i].address,
        mapping_id: p.location[i].mapping_id,
        lines: Seq::new(p.location[i].line.len(), |j: int| line_ref(p.location[i].line[j])),
    }
}

/// The location table, in order.
pub open spec fn location_rows(p: ProfileView) -> Seq<LocationRowView> {
    Seq::new(p.location.len(), |i: int| location_row(p, i))
}

/// The row of the mapping at position `i`.
pub open spec fn mapping_row(p: ProfileView, i: int) -> MappingRowView {
    MappingRowView {
        mapping_id: p.mapping[i].id,
        memory_start: p.mapping[i].memory_start,
        memory_limit: p.mapping[i].memory_limit,
        file_offset: p.mapping[i].file_offset,
        filename: text_at(p, p.mapping[i].filename),
        build_id: text_at(p, p.mapping[i].build_id),
    }
}

/// The mapping table, in order.
pub open spec fn mapping_rows(p: ProfileView) -> Seq<MappingRowView> {
    Seq::new(p.mapping.len(), |i: int| mapping_row(p, i))
}

/// The metadata of the profile.
pub open spec fn meta_of(p: ProfileView) -> MetaView {
    MetaView {
        sample_types: Seq::new(p.sample_type.len(), |i: int| value_type_of(p, p.sample_type[i])),
        period: p.period,
        period_type: match p.period_type {
            Some(value_type) => Some(value_type_of(p, value_type)),
            None => None,
        },
        duration_nanos: p.duration_nanos,
        time_nanos: p.time_nanos,
        default_sample_type: text_at(p, p.default_sample_type),
    }
}

} // verus!
