//! Laws of the values that the contracts speak of: a row, an argument, a source or a failure
//! stands for what its own fields hold.

use vstd::prelude::*;

use crate::decoded::{PprofError, PprofErrorView};
use crate::message::MessageError;
use crate::proto::{Location, Profile, Sample};
use crate::rows::{
    Frame, FunctionRow, LocationRow, MappingRow, Meta, SampleRow, StackRow, ValueType,
};
use crate::source::{Action, ActionView, DecodeUnit, SourceArg, SourceArgView};

verus! {

/// Whether a string, where there is one, is this text.
pub open spec fn is_text(text: Option<Seq<char>>, string: Option<String>) -> bool {
    match string {
        Some(s) => text == Some(s@),
        None => text is None,
    }
}

/// Whether pairs of strings are these texts.
pub open spec fn are_pairs(
    texts: Seq<(Seq<char>, Seq<char>)>,
    strings: Seq<(String, String)>,
) -> bool {
    &&& texts.len() == strings.len()
    &&& forall|i: int|
        0 <= i < strings.len() ==> (#[trigger] texts[i]).0 == strings[i].0@ && texts[i].1
            == strings[i].1@
}

/// A stack stands for its id, its values, its labels and its frames, in order.
pub proof fn law_stack_rows_stand_for_their_fields(row: StackRow, frame: Frame, i: int)
    ensures
        row.deep_view().sample_id == row.sample_id,
        row.deep_view().value == row.value@,
        are_pairs(row.deep_view().labels, row.labels@),
        row.deep_view().frames.len() == row.frames@.len(),
        0 <= i < row.frames@.len() ==> row.deep_view().frames[i] == row.frames@[i].deep_view(),
        is_text(frame.deep_view().function, frame.function),
        is_text(frame.deep_view().filename, frame.filename),
        frame.deep_view().line == frame.line,
        frame.deep_view().address == frame.address,
{
}

/// A sample stands for its id, its locations, its values and its labels, in order.
pub proof fn law_sample_rows_stand_for_their_fields(row: SampleRow)
    ensures
        row.deep_view().sample_id == row.sample_id,
        row.deep_view().location_ids == row.location_ids@,
        row.deep_view().value == row.value@,
        are_pairs(row.deep_view().labels, row.labels@),
{
}

/// A function, a location and a mapping stand for their fields.
pub proof fn law_table_rows_stand_for_their_fields(f: FunctionRow, l: LocationRow, m: MappingRow)
    ensures
        f.deep_view().function_id == f.function_id,
        is_text(f.deep_view().name, f.name),
        is_text(f.deep_view().system_name, f.system_name),
        is_text(f.deep_view().filename, f.filename),
        f.deep_view().start_line == f.start_line,
        l.deep_view().location_id == l.location_id,
        l.deep_view().address == l.address,
        l.deep_view().mapping_id == l.mapping_id,
        l.deep_view().lines == l.lines@,
        m.deep_view().mapping_id == m.mapping_id,
        m.deep_view().memory_start == m.memory_start,
        m.deep_view().memory_limit == m.memory_limit,
        m.deep_view().file_offset == m.file_offset,
        is_text(m.deep_view().filename, m.filename),
        is_text(m.deep_view().build_id, m.build_id),
{
}

/// The metadata stands for its fields, and a value type for its name and its unit.
pub proof fn law_metadata_stands_for_its_fields(meta: Meta, value_type: ValueType, i: int)
    ensures
        meta.deep_view().sample_types.len() == meta.sample_types@.len(),
        0 <= i < meta.sample_types@.len() ==> meta.deep_view().sample_types[i]
            == meta.sample_types@[i].deep_view(),
        meta.deep_view().period == meta.period,
        meta.period_type is None <==> meta.deep_view().period_type is None,
        meta.period_type matches Some(t) ==> meta.deep_view().period_type == Some(t.deep_view()),
        meta.deep_view().duration_nanos == meta.duration_nanos,
        meta.deep_view().time_nanos == meta.time_nanos,
        is_text(meta.deep_view().default_sample_type, meta.default_sample_type),
        value_type.deep_view().type_ == value_type.type_@,
        value_type.deep_view().unit == value_type.unit@,
{
}

/// A profile stands for its tables and its numbers, and so do its samples and its locations.
pub proof fn law_profiles_stand_for_their_fields(p: Profile, s: Sample, l: Location, i: int)
    ensures
        p.deep_view().sample_type == p.sample_type@,
        p.deep_view().sample.len() == p.sample@.len(),
        0 <= i < p.sample@.len() ==> p.deep_view().sample[i] == p.sample@[i].deep_view(),
        p.deep_view().mapping == p.mapping@,
        p.deep_view().location.len() == p.location@.len(),
        0 <= i < p.location@.len() ==> p.deep_view().location[i] == p.location@[i].deep_view(),
        p.deep_view().function == p.function@,
        p.deep_view().string_table.len() == p.string_table@.len(),
        0 <= i < p.string_table@.len() ==> p.deep_view().string_table[i] == p.string_table@[i]@,
        p.deep_view().drop_frames == p.drop_frames,
        p.deep_view().keep_frames == p.keep_frames,
        p.deep_view().time_nanos == p.time_nanos,
        p.deep_view().duration_nanos == p.duration_nanos,
        p.deep_view().period_type == p.period_type,
        p.deep_view().period == p.period,
        p.deep_view().comment == p.comment@,
        p.deep_view().default_sample_type == p.default_sample_type,
        p.deep_view().doc_url == p.doc_url,
        s.deep_view().location_id == s.location_id@,
        s.deep_view().value == s.value@,
        s.deep_view().label == s.label@,
        l.deep_view().id == l.id,
        l.deep_view().mapping_id == l.mapping_id,
        l.deep_view().address == l.address,
        l.deep_view().line == l.line@,
        l.deep_view().is_folded == l.is_folded,
{
}

/// An argument stands for what it holds, and so does what is to be looked up.
pub proof fn law_arguments_stand_for_what_they_hold(arg: SourceArg, action: Action, i: int)
    ensures
        arg is Missing <==> arg.deep_view() is Missing,
        arg is OtherList <==> arg.deep_view() is OtherList,
        arg is Other <==> arg.deep_view() is Other,
        arg matches SourceArg::Text(s) ==> arg.deep_view() == SourceArgView::Text(s@),
        arg matches SourceArg::Blob(Some(bytes)) ==> arg.deep_view() == SourceArgView::Blob(
            Some(bytes@),
        ),
        arg matches SourceArg::Blob(None) ==> arg.deep_view() == SourceArgView::Blob(None),
        arg matches SourceArg::TextList(list) ==> arg.deep_view() matches SourceArgView::TextList(
            texts,
        ) && texts.len() == list@.len() && (0 <= i < list@.len() ==> is_text(texts[i], list@[i])),
        action is Finish <==> action.deep_view() is Finish,
        action matches Action::Glob(s) ==> action.deep_view() == ActionView::Glob(s@),
        action matches Action::Read(s) ==> action.deep_view() == ActionView::Read(s@),
{
}

/// A source stands for its path and its profile, and a failure for its cause and the fields that
/// lead to it.
pub proof fn law_sources_stand_for_what_they_hold(
    unit: DecodeUnit,
    error: PprofError,
    inner: MessageError,
    i: int,
)
    ensures
        is_text(unit.deep_view().file, unit.file),
        unit.result matches Ok(decoded) ==> unit.deep_view().result matches Ok(p) && p
            == decoded@,
        unit.result matches Err(words) ==> unit.deep_view().result matches Err(text) && text
            == words@,
        error is Empty <==> error.deep_view() is Empty,
        error matches PprofError::Gunzip(reason) ==> error.deep_view() == PprofErrorView::Gunzip(
            reason@,
        ),
        error matches PprofError::Decode(cause) ==> error.deep_view() == PprofErrorView::Decode(
            cause.deep_view(),
        ),
        inner.deep_view().fault == inner.fault,
        inner.deep_view().path.len() == inner.path@.len(),
        0 <= i < inner.path@.len() ==> inner.deep_view().path[i] == (
            inner.path@[i].message@,
            inner.path@[i].field@,
        ),
{
}

} // verus!
