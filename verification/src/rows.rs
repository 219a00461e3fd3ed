//! The rows that a profile flattens into.
//!
//! Ids are those of the profile, so rows of different tables join on them.

use vstd::prelude::*;

verus! {

/// A line of a location: the function it belongs to and its number.
#[derive(Debug, Clone, Copy, PartialEq, Eq, Structural)]
pub struct LineRef {
    pub function_id: u64,
    pub line: i64,
}

impl DeepView for LineRef {
    type V = LineRef;

    open spec fn deep_view(&self) -> LineRef {
        *self
    }
}

/// A resolved value type, such as `cpu` in `nanoseconds` or `alloc_space` in `bytes`.
#[derive(Debug, Clone, PartialEq, Eq)]
pub struct ValueType {
    pub type_: String,
    pub unit: String,
}

/// The value of a [`ValueType`].
pub struct ValueTypeView {
    pub type_: Seq<char>,
    pub unit: Seq<char>,
}

impl DeepView for ValueType {
    type V = ValueTypeView;

    open spec fn deep_view(&self) -> ValueTypeView {
        ValueTypeView {
            type_: self.type_@,
            unit: self.unit@,
        }
    }
}

/// One resolved frame of a stack: the function, where the profile knows it, and the
/// instruction address, which a symbolizer can start from where it does not.
#[derive(Debug, Clone, PartialEq)]
pub struct Frame {
    /// The function's name, `None` for an unsymbolized frame.
    pub function: Option<String>,
    /// The function's source file, `None` where unknown.
    pub filename: Option<String>,
    /// The source line, `None` where unknown.
    pub line: Option<i64>,
    /// The instruction address, zero where unavailable.
    pub address: u64,
}

/// The value of a [`Frame`].
pub struct FrameView {
    pub function: Option<Seq<char>>,
    pub filename: Option<Seq<char>>,
    pub line: Option<i64>,
    pub address: u64,
}

impl DeepView for Frame {
    type V = FrameView;

    open spec fn deep_view(&self) -> FrameView {
        FrameView {
            function: self.function.deep_view(),
            filename: self.filename.deep_view(),
            line: self.line,
            address: self.address,
        }
    }
}

/// A sample with its stack resolved.
#[derive(Debug, Clone, PartialEq)]
pub struct StackRow {
    /// Position of the sample in the profile, counted from one. The same sample has the
    /// same id in a [`SampleRow`].
    pub sample_id: i64,
    /// One value per sample type of the profile, in the same order.
    pub value: Vec<i64>,
    /// Labels as key and value, each key once: the first label of a key counts.
    pub labels: Vec<(String, String)>,
    /// Frames, leaf first, and within a location innermost inlined call first.
    pub frames: Vec<Frame>,
}

/// The value of a [`StackRow`].
pub struct StackRowView {
    pub sample_id: i64,
    pub value: Seq<i64>,
    pub labels: Seq<(Seq<char>, Seq<char>)>,
    pub frames: Seq<FrameView>,
}

impl DeepView for StackRow {
    type V = StackRowView;

    open spec fn deep_view(&self) -> StackRowView {
        StackRowView {
            sample_id: self.sample_id,
            value: self.value@,
            labels: self.labels.deep_view(),
            frames: self.frames.deep_view(),
        }
    }
}

/// A sample as the profile holds it.
#[derive(Debug, Clone, PartialEq)]
pub struct SampleRow {
    pub sample_id: i64,
    pub location_ids: Vec<u64>,
    pub value: Vec<i64>,
    pub labels: Vec<(String, String)>,
}

/// The value of a [`SampleRow`].
pub struct SampleRowView {
    pub sample_id: i64,
    pub location_ids: Seq<u64>,
    pub value: Seq<i64>,
    pub labels: Seq<(Seq<char>, Seq<char>)>,
}

impl DeepView for SampleRow {
    type V = SampleRowView;

    open spec fn deep_view(&self) -> SampleRowView {
        SampleRowView {
            sample_id: self.sample_id,
            location_ids: self.location_ids@,
            value: self.value@,
            labels: self.labels.deep_view(),
        }
    }
}

/// A row of the function table.
#[derive(Debug, Clone, PartialEq, Eq)]
pub struct FunctionRow {
    pub function_id: u64,
    pub name: Option<String>,
    pub system_name: Option<String>,
    pub filename: Option<String>,
    pub start_line: i64,
}

/// The value of a [`FunctionRow`].
pub struct FunctionRowView {
    pub function_id: u64,
    pub name: Option<Seq<char>>,
    pub system_name: Option<Seq<char>>,
    pub filename: Option<Seq<char>>,
    pub start_line: i64,
}

impl DeepView for FunctionRow {
    type V = FunctionRowView;

    open spec fn deep_view(&self) -> FunctionRowView {
        FunctionRowView {
            function_id: self.function_id,
            name: self.name.deep_view(),
            system_name: self.system_name.deep_view(),
            filename: self.filename.deep_view(),
            start_line: self.start_line,
        }
    }
}

/// A row of the location table.
#[derive(Debug, Clone, PartialEq, Eq)]
pub struct LocationRow {
    pub location_id: u64,
    pub address: u64,
    pub mapping_id: u64,
    pub lines: Vec<LineRef>,
}

/// The value of a [`LocationRow`].
pub struct LocationRowView {
    pub location_id: u64,
    pub address: u64,
    pub mapping_id: u64,
    pub lines: Seq<LineRef>,
}

impl DeepView for LocationRow {
    type V = LocationRowView;

    open spec fn deep_view(&self) -> LocationRowView {
        LocationRowView {
            location_id: self.location_id,
            address: self.address,
            mapping_id: self.mapping_id,
            lines: self.lines@,
        }
    }
}

/// A row of the mapping table. The build id tells a symbolizer which binary the
/// addresses of unresolved frames belong to.
#[derive(Debug, Clone, PartialEq, Eq)]
pub struct MappingRow {
    pub mapping_id: u64,
    pub memory_start: u64,
    pub memory_limit: u64,
    pub file_offset: u64,
    pub filename: Option<String>,
    pub build_id: Option<String>,
}

/// The value of a [`MappingRow`].
pub struct MappingRowView {
    pub mapping_id: u64,
    pub memory_start: u64,
    pub memory_limit: u64,
    pub file_offset: u64,
    pub filename: Option<Seq<char>>,
    pub build_id: Option<Seq<char>>,
}

impl DeepView for MappingRow {
    type V = MappingRowView;

    open spec fn deep_view(&self) -> MappingRowView {
        MappingRowView {
            mapping_id: self.mapping_id,
            memory_start: self.memory_start,
            memory_limit: self.memory_limit,
            file_offset: self.file_offset,
            filename: self.filename.deep_view(),
            build_id: self.build_id.deep_view(),
        }
    }
}

/// What a profile says of itself.
#[derive(Debug, Clone, PartialEq, Eq)]
pub struct Meta {
    /// What each value of a sample measures.
    pub sample_types: Vec<ValueType>,
    /// How many events lie between two samples.
    pub period: i64,
    /// What those events are.
    pub period_type: Option<ValueType>,
    pub duration_nanos: i64,
    pub time_nanos: i64,
    /// The name of the preferred sample type.
    pub default_sample_type: Option<String>,
}

/// The value of a [`Meta`].
pub struct MetaView {
    pub sample_types: Seq<ValueTypeView>,
    pub period: i64,
    pub period_type: Option<ValueTypeView>,
    pub duration_nanos: i64,
    pub time_nanos: i64,
    pub default_sample_type: Option<Seq<char>>,
}

impl DeepView for Meta {
    type V = MetaView;

    open spec fn deep_view(&self) -> MetaView {
        MetaView {
            sample_types: self.sample_types.deep_view(),
            period: self.period,
            period_type: self.period_type.deep_view(),
            duration_nanos: self.duration_nanos,
            time_nanos: self.time_nanos,
            default_sample_type: self.default_sample_type.deep_view(),
        }
    }
}

} // verus!
