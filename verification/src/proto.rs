//! The messages of the `profile.proto` schema (package `perftools.profiles`).
//!
//! A profile is a set of samples. Each sample refers to locations by id, leaf
//! first; a location belongs to a mapping and lists source lines, innermost
//! inlined call first; a line names a function. Strings stand in one table, and
//! every other message holds indices into it.

use vstd::prelude::*;

use crate::message;
use crate::message::{Message, MessageError, MessageErrorView};
use crate::wire;
use crate::wire::WireType;

verus! {

/// What a value measures, by its name and its unit.
#[derive(Clone, Copy, Debug, PartialEq, Eq, Structural)]
pub struct ValueType {
    /// Index into the string table.
    pub type_: i64,
    /// Index into the string table.
    pub unit: i64,
}

impl DeepView for ValueType {
    type V = ValueType;

    open spec fn deep_view(&self) -> ValueType {
        *self
    }
}

impl Message for ValueType {
    open spec fn blank() -> ValueType {
        ValueType {
            type_: 0,
            unit: 0,
        }
    }

    open spec fn field(
        m: ValueType,
        tag: u32,
        wire_type: WireType,
        s: Seq<u8>,
        depth: nat,
    ) -> Result<(ValueType, Seq<u8>), MessageErrorView> {
        if tag == 1 {
            match message::scalar_field::<i64>(wire_type, s) {
                Ok((type_, rest)) => Ok((ValueType { type_, ..m }, rest)),
                Err(fault) => Err(message::fault_in_field(fault, "ValueType"@, "r#type"@)),
            }
        } else if tag == 2 {
            match message::scalar_field::<i64>(wire_type, s) {
                Ok((unit, rest)) => Ok((ValueType { unit, ..m }, rest)),
                Err(fault) => Err(message::fault_in_field(fault, "ValueType"@, "unit"@)),
            }
        } else {
            match wire::skip_field_spec(wire_type, tag, s, depth) {
                Ok(rest) => Ok((m, rest)),
                Err(fault) => Err(message::bare(fault)),
            }
        }
    }

    proof fn lemma_field_shrinks(
        m: ValueType,
        tag: u32,
        wire_type: WireType,
        s: Seq<u8>,
        depth: nat,
    ) {
        message::lemma_scalar_field_shrinks::<i64>(wire_type, s);
        wire::lemma_skip_field_shrinks(wire_type, tag, s, depth);
    }

    fn new_blank() -> (m: ValueType) {
        ValueType {
            type_: 0,
            unit: 0,
        }
    }

    fn read_field<'a>(
        &mut self,
        tag: u32,
        wire_type: WireType,
        buf: &'a [u8],
        depth: u32,
    ) -> (res: Result<&'a [u8], MessageError>) {
        if tag == 1 {
            match message::read_scalar::<i64>(wire_type, buf) {
                Ok((value, rest)) => {
                    self.type_ = value;
                    Ok(rest)
                },
                Err(fault) => Err(message::fault_inside(fault, "ValueType", "r#type")),
            }
        } else if tag == 2 {
            match message::read_scalar::<i64>(wire_type, buf) {
                Ok((value, rest)) => {
                    self.unit = value;
                    Ok(rest)
                },
                Err(fault) => Err(message::fault_inside(fault, "ValueType", "unit")),
            }
        } else {
            match wire::skip_field(wire_type, tag, buf, depth) {
                Ok(rest) => Ok(rest),
                Err(fault) => Err(message::outside(fault)),
            }
        }
    }
}

impl Default for ValueType {
    fn default() -> (m: ValueType)
        ensures
            m.deep_view() == ValueType::blank(),
    {
        ValueType::new_blank()
    }
}

/// One recorded call stack with its values.
#[derive(Clone, Debug)]
pub struct Sample {
    /// Location ids, leaf first.
    pub location_id: Vec<u64>,
    /// One value per sample type of the profile.
    pub value: Vec<i64>,
    /// What else is known of the sample.
    pub label: Vec<Label>,
}

/// The value of a [`Sample`].
pub struct SampleView {
    pub location_id: Seq<u64>,
    pub value: Seq<i64>,
    pub label: Seq<Label>,
}

impl DeepView for Sample {
    type V = SampleView;

    open spec fn deep_view(&self) -> SampleView {
        SampleView {
            location_id: self.location_id@,
            value: self.value@,
            label: self.label.deep_view(),
        }
    }
}

impl Message for Sample {
    open spec fn blank() -> SampleView {
        SampleView {
            location_id: Seq::empty(),
            value: Seq::empty(),
            label: Seq::empty(),
        }
    }

    open spec fn field(
        m: SampleView,
        tag: u32,
        wire_type: WireType,
        s: Seq<u8>,
        depth: nat,
    ) -> Result<(SampleView, Seq<u8>), MessageErrorView> {
        if tag == 1 {
            match message::scalar_list_field(m.location_id, wire_type, s) {
                Ok((location_id, rest)) => Ok((SampleView { location_id, ..m }, rest)),
                Err(fault) => Err(message::fault_in_field(fault, "Sample"@, "location_id"@)),
            }
        } else if tag == 2 {
            match message::scalar_list_field(m.value, wire_type, s) {
                Ok((value, rest)) => Ok((SampleView { value, ..m }, rest)),
                Err(fault) => Err(message::fault_in_field(fault, "Sample"@, "value"@)),
            }
        } else if tag == 3 {
            match message::message_list_field::<Label>(m.label, wire_type, s, depth) {
                Ok((label, rest)) => Ok((SampleView { label, ..m }, rest)),
                Err(error) => Err(message::within(error, "Sample"@, "label"@)),
            }
        } else {
            match wire::skip_field_spec(wire_type, tag, s, depth) {
                Ok(rest) => Ok((m, rest)),
                Err(fault) => Err(message::bare(fault)),
            }
        }
    }

    proof fn lemma_field_shrinks(
        m: SampleView,
        tag: u32,
        wire_type: WireType,
        s: Seq<u8>,
        depth: nat,
    ) {
        message::lemma_scalar_list_field_shrinks(m.location_id, wire_type, s);
        message::lemma_scalar_list_field_shrinks(m.value, wire_type, s);
        message::lemma_message_field_shrinks::<Label>(Label::blank(), wire_type, s, depth);
        wire::lemma_skip_field_shrinks(wire_type, tag, s, depth);
    }

    fn new_blank() -> (m: Sample) {
        let m = Sample {
            location_id: Vec::new(),
            value: Vec::new(),
            label: Vec::new(),
        };
        assert(m.label.deep_view() =~= Seq::empty());
        m
    }

    fn read_field<'a>(
        &mut self,
        tag: u32,
        wire_type: WireType,
        buf: &'a [u8],
        depth: u32,
    ) -> (res: Result<&'a [u8], MessageError>) {
        if tag == 1 {
            match message::read_scalar_list(&mut self.location_id, wire_type, buf) {
                Ok(rest) => Ok(rest),
                Err(fault) => Err(message::fault_inside(fault, "Sample", "location_id")),
            }
        } else if tag == 2 {
            match message::read_scalar_list(&mut self.value, wire_type, buf) {
                Ok(rest) => Ok(rest),
                Err(fault) => Err(message::fault_inside(fault, "Sample", "value")),
            }
        } else if tag == 3 {
            match message::read_message_list(&mut self.label, wire_type, buf, depth) {
                Ok(rest) => Ok(rest),
                Err(error) => Err(message::inside(error, "Sample", "label")),
            }
        } else {
            match wire::skip_field(wire_type, tag, buf, depth) {
                Ok(rest) => Ok(rest),
                Err(fault) => Err(message::outside(fault)),
            }
        }
    }
}

impl Default for Sample {
    fn default() -> (m: Sample)
        ensures
            m.deep_view() == Sample::blank(),
    {
        Sample::new_blank()
    }
}

/// A label of a sample: a string, or a number with a unit.
#[derive(Clone, Copy, Debug, PartialEq, Eq, Structural)]
pub struct Label {
    /// Index into the string table.
    pub key: i64,
    /// Index into the string table, zero for a numeric label.
    pub str: i64,
    /// The number of a numeric label.
    pub num: i64,
    /// Index into the string table.
    pub num_unit: i64,
}

impl DeepView for Label {
    type V = Label;

    open spec fn deep_view(&self) -> Label {
        *self
    }
}

impl Message for Label {
    open spec fn blank() -> Label {
        Label {
            key: 0,
            str: 0,
            num: 0,
            num_unit: 0,
        }
    }

    open spec fn field(
        m: Label,
        tag: u32,
        wire_type: WireType,
        s: Seq<u8>,
        depth: nat,
    ) -> Result<(Label, Seq<u8>), MessageErrorView> {
        if tag == 1 {
            match message::scalar_field::<i64>(wire_type, s) {
                Ok((key, rest)) => Ok((Label { key, ..m }, rest)),
                Err(fault) => Err(message::fault_in_field(fault, "Label"@, "key"@)),
            }
        } else if tag == 2 {
            match message::scalar_field::<i64>(wire_type, s) {
                Ok((str, rest)) => Ok((Label { str, ..m }, rest)),
                Err(fault) => Err(message::fault_in_field(fault, "Label"@, "str"@)),
            }
        } else if tag == 3 {
            match message::scalar_field::<i64>(wire_type, s) {
                Ok((num, rest)) => Ok((Label { num, ..m }, rest)),
                Err(fault) => Err(message::fault_in_field(fault, "Label"@, "num"@)),
            }
        } else if tag == 4 {
            match message::scalar_field::<i64>(wire_type, s) {
                Ok((num_unit, rest)) => Ok((Label { num_unit, ..m }, rest)),
                Err(fault) => Err(message::fault_in_field(fault, "Label"@, "num_unit"@)),
            }
        } else {
            match wire::skip_field_spec(wire_type, tag, s, depth) {
                Ok(rest) => Ok((m, rest)),
                Err(fault) => Err(message::bare(fault)),
            }
        }
    }

    proof fn lemma_field_shrinks(
        m: Label,
        tag: u32,
        wire_type: WireType,
        s: Seq<u8>,
        depth: nat,
    ) {
        message::lemma_scalar_field_shrinks::<i64>(wire_type, s);
        wire::lemma_skip_field_shrinks(wire_type, tag, s, depth);
    }

    fn new_blank() -> (m: Label) {
        Label {
            key: 0,
            str: 0,
            num: 0,
            num_unit: 0,
        }
    }

    fn read_field<'a>(
        &mut self,
        tag: u32,
        wire_type: WireType,
        buf: &'a [u8],
        depth: u32,
    ) -> (res: Result<&'a [u8], MessageError>) {
        if tag == 1 {
            match message::read_scalar::<i64>(wire_type, buf) {
                Ok((value, rest)) => {
                    self.key = value;
                    Ok(rest)
                },
                Err(fault) => Err(message::fault_inside(fault, "Label", "key")),
            }
        } else if tag == 2 {
            match message::read_scalar::<i64>(wire_type, buf) {
                Ok((value, rest)) => {
                    self.str = value;
                    Ok(rest)
                },
                Err(fault) => Err(message::fault_inside(fault, "Label", "str")),
            }
        } else if tag == 3 {
            match message::read_scalar::<i64>(wire_type, buf) {
                Ok((value, rest)) => {
                    self.num = value;
                    Ok(rest)
                },
                Err(fault) => Err(message::fault_inside(fault, "Label", "num")),
            }
        } else if tag == 4 {
            match message::read_scalar::<i64>(wire_type, buf) {
                Ok((value, rest)) => {
                    self.num_unit = value;
                    Ok(rest)
                },
                Err(fault) => Err(message::fault_inside(fault, "Label", "num_unit")),
            }
        } else {
            match wire::skip_field(wire_type, tag, buf, depth) {
                Ok(rest) => Ok(rest),
                Err(fault) => Err(message::outside(fault)),
            }
        }
    }
}

impl Default for Label {
    fn default() -> (m: Label)
        ensures
            m.deep_view() == Label::blank(),
    {
        Label::new_blank()
    }
}

/// A binary or library, and where it was loaded.
#[derive(Clone, Copy, Debug, PartialEq, Eq, Structural)]
pub struct Mapping {
    /// Unique, nonzero.
    pub id: u64,
    /// Where it is loaded.
    pub memory_start: u64,
    /// One past its last address.
    pub memory_limit: u64,
    /// The offset in the file of `memory_start`.
    pub file_offset: u64,
    /// Index into the string table.
    pub filename: i64,
    /// Index into the string table.
    pub build_id: i64,
    pub has_functions: bool,
    pub has_filenames: bool,
    pub has_line_numbers: bool,
    pub has_inline_frames: bool,
}

impl DeepView for Mapping {
    type V = Mapping;

    open spec fn deep_view(&self) -> Mapping {
        *self
    }
}

impl Message for Mapping {
    open spec fn blank() -> Mapping {
        Mapping {
            id: 0,
            memory_start: 0,
            memory_limit: 0,
            file_offset: 0,
            filename: 0,
            build_id: 0,
            has_functions: false,
            has_filenames: false,
            has_line_numbers: false,
            has_inline_frames: false,
        }
    }

    open spec fn field(
        m: Mapping,
        tag: u32,
        wire_type: WireType,
        s: Seq<u8>,
        depth: nat,
    ) -> Result<(Mapping, Seq<u8>), MessageErrorView> {
        if tag == 1 {
            match message::scalar_field::<u64>(wire_type, s) {
                Ok((id, rest)) => Ok((Mapping { id, ..m }, rest)),
                Err(fault) => Err(message::fault_in_field(fault, "Mapping"@, "id"@)),
            }
        } else if tag == 2 {
            match message::scalar_field::<u64>(wire_type, s) {
                Ok((memory_start, rest)) => Ok((Mapping { memory_start, ..m }, rest)),
                Err(fault) => Err(message::fault_in_field(fault, "Mapping"@, "memory_start"@)),
            }
        } else if tag == 3 {
            match message::scalar_field::<u64>(wire_type, s) {
                Ok((memory_limit, rest)) => Ok((Mapping { memory_limit, ..m }, rest)),
                Err(fault) => Err(message::fault_in_field(fault, "Mapping"@, "memory_limit"@)),
            }
        } else if tag == 4 {
            match message::scalar_field::<u64>(wire_type, s) {
                Ok((file_offset, rest)) => Ok((Mapping { file_offset, ..m }, rest)),
                Err(fault) => Err(message::fault_in_field(fault, "Mapping"@, "file_offset"@)),
            }
        } else if tag == 5 {
            match message::scalar_field::<i64>(wire_type, s) {
                Ok((filename, rest)) => Ok((Mapping { filename, ..m }, rest)),
                Err(fault) => Err(message::fault_in_field(fault, "Mapping"@, "filename"@)),
            }
        } else if tag == 6 {
            match message::scalar_field::<i64>(wire_type, s) {
                Ok((build_id, rest)) => Ok((Mapping { build_id, ..m }, rest)),
                Err(fault) => Err(message::fault_in_field(fault, "Mapping"@, "build_id"@)),
            }
        } else if tag == 7 {
            match message::scalar_field::<bool>(wire_type, s) {
                Ok((has_functions, rest)) => Ok((Mapping { has_functions, ..m }, rest)),
                Err(fault) => Err(message::fault_in_field(fault, "Mapping"@, "has_functions"@)),
            }
        } else if tag == 8 {
            match message::scalar_field::<bool>(wire_type, s) {
                Ok((has_filenames, rest)) => Ok((Mapping { has_filenames, ..m }, rest)),
                Err(fault) => Err(message::fault_in_field(fault, "Mapping"@, "has_filenames"@)),
            }
        } else if tag == 9 {
            match message::scalar_field::<bool>(wire_type, s) {
                Ok((has_line_numbers, rest)) => Ok((Mapping { has_line_numbers, ..m }, rest)),
                Err(fault) => Err(message::fault_in_field(fault, "Mapping"@, "has_line_numbers"@)),
            }
        } else if tag == 10 {
            match message::scalar_field::<bool>(wire_type, s) {
                Ok((has_inline_frames, rest)) => Ok((Mapping { has_inline_frames, ..m }, rest)),
                Err(fault) => Err(message::fault_in_field(fault, "Mapping"@, "has_inline_frames"@)),
            }
        } else {
            match wire::skip_field_spec(wire_type, tag, s, depth) {
                Ok(rest) => Ok((m, rest)),
                Err(fault) => Err(message::bare(fault)),
            }
        }
    }

    proof fn lemma_field_shrinks(
        m: Mapping,
        tag: u32,
        wire_type: WireType,
        s: Seq<u8>,
        depth: nat,
    ) {
        message::lemma_scalar_field_shrinks::<u64>(wire_type, s);
        message::lemma_scalar_field_shrinks::<i64>(wire_type, s);
        message::lemma_scalar_field_shrinks::<bool>(wire_type, s);
        wire::lemma_skip_field_shrinks(wire_type, tag, s, depth);
    }

    fn new_blank() -> (m: Mapping) {
        Mapping {
            id: 0,
            memory_start: 0,
            memory_limit: 0,
            file_offset: 0,
            filename: 0,
            build_id: 0,
            has_functions: false,
            has_filenames: false,
            has_line_numbers: false,
            has_inline_frames: false,
        }
    }

    fn read_field<'a>(
        &mut self,
        tag: u32,
        wire_type: WireType,
        buf: &'a [u8],
        depth: u32,
    ) -> (res: Result<&'a [u8], MessageError>) {
        if tag == 1 {
            match message::read_scalar::<u64>(wire_type, buf) {
                Ok((value, rest)) => {
                    self.id = value;
                    Ok(rest)
                },
                Err(fault) => Err(message::fault_inside(fault, "Mapping", "id")),
            }
        } else if tag == 2 {
            match message::read_scalar::<u64>(wire_type, buf) {
                Ok((value, rest)) => {
                    self.memory_start = value;
                    Ok(rest)
                },
                Err(fault) => Err(message::fault_inside(fault, "Mapping", "memory_start")),
            }
        } else if tag == 3 {
            match message::read_scalar::<u64>(wire_type, buf) {
                Ok((value, rest)) => {
                    self.memory_limit = value;
                    Ok(rest)
                },
                Err(fault) => Err(message::fault_inside(fault, "Mapping", "memory_limit")),
            }
        } else if tag == 4 {
            match message::read_scalar::<u64>(wire_type, buf) {
                Ok((value, rest)) => {
                    self.file_offset = value;
                    Ok(rest)
                },
                Err(fault) => Err(message::fault_inside(fault, "Mapping", "file_offset")),
            }
        } else if tag == 5 {
            match message::read_scalar::<i64>(wire_type, buf) {
                Ok((value, rest)) => {
                    self.filename = value;
                    Ok(rest)
                },
                Err(fault) => Err(message::fault_inside(fault, "Mapping", "filename")),
            }
        } else if tag == 6 {
            match message::read_scalar::<i64>(wire_type, buf) {
                Ok((value, rest)) => {
                    self.build_id = value;
                    Ok(rest)
                },
                Err(fault) => Err(message::fault_inside(fault, "Mapping", "build_id")),
            }
        } else if tag == 7 {
            match message::read_scalar::<bool>(wire_type, buf) {
                Ok((value, rest)) => {
                    self.has_functions = value;
                    Ok(rest)
                },
                Err(fault) => Err(message::fault_inside(fault, "Mapping", "has_functions")),
            }
        } else if tag == 8 {
            match message::read_scalar::<bool>(wire_type, buf) {
                Ok((value, rest)) => {
                    self.has_filenames = value;
                    Ok(rest)
                },
                Err(fault) => Err(message::fault_inside(fault, "Mapping", "has_filenames")),
            }
        } else if tag == 9 {
            match message::read_scalar::<bool>(wire_type, buf) {
                Ok((value, rest)) => {
                    self.has_line_numbers = value;
                    Ok(rest)
                },
                Err(fault) => Err(message::fault_inside(fault, "Mapping", "has_line_numbers")),
            }
        } else if tag == 10 {
            match message::read_scalar::<bool>(wire_type, buf) {
                Ok((value, rest)) => {
                    self.has_inline_frames = value;
                    Ok(rest)
                },
                Err(fault) => Err(message::fault_inside(fault, "Mapping", "has_inline_frames")),
            }
        } else {
            match wire::skip_field(wire_type, tag, buf, depth) {
                Ok(rest) => Ok(rest),
                Err(fault) => Err(message::outside(fault)),
            }
        }
    }
}

impl Default for Mapping {
    fn default() -> (m: Mapping)
        ensures
            m.deep_view() == Mapping::blank(),
    {
        Mapping::new_blank()
    }
}

/// An instruction address, with the source lines it stands for.
#[derive(Clone, Debug)]
pub struct Location {
    /// Unique, nonzero.
    pub id: u64,
    /// The mapping it belongs to, zero where unknown.
    pub mapping_id: u64,
    /// Zero where unavailable.
    pub address: u64,
    /// Innermost inlined call first.
    pub line: Vec<Line>,
    pub is_folded: bool,
}

/// The value of a [`Location`].
pub struct LocationView {
    pub id: u64,
    pub mapping_id: u64,
    pub address: u64,
    pub line: Seq<Line>,
    pub is_folded: bool,
}

impl DeepView for Location {
    type V = LocationView;

    open spec fn deep_view(&self) -> LocationView {
        LocationView {
            id: self.id,
            mapping_id: self.mapping_id,
            address: self.address,
            line: self.line.deep_view(),
            is_folded: self.is_folded,
        }
    }
}

impl Message for Location {
    open spec fn blank() -> LocationView {
        LocationView {
            id: 0,
            mapping_id: 0,
            address: 0,
            line: Seq::empty(),
            is_folded: false,
        }
    }

    open spec fn field(
        m: LocationView,
        tag: u32,
        wire_type: WireType,
        s: Seq<u8>,
        depth: nat,
    ) -> Result<(LocationView, Seq<u8>), MessageErrorView> {
        if tag == 1 {
            match message::scalar_field::<u64>(wire_type, s) {
                Ok((id, rest)) => Ok((LocationView { id, ..m }, rest)),
                Err(fault) => Err(message::fault_in_field(fault, "Location"@, "id"@)),
            }
        } else if tag == 2 {
            match message::scalar_field::<u64>(wire_type, s) {
                Ok((mapping_id, rest)) => Ok((LocationView { mapping_id, ..m }, rest)),
                Err(fault) => Err(message::fault_in_field(fault, "Location"@, "mapping_id"@)),
            }
        } else if tag == 3 {
            match message::scalar_field::<u64>(wire_type, s) {
                Ok((address, rest)) => Ok((LocationView { address, ..m }, rest)),
                Err(fault) => Err(message::fault_in_field(fault, "Location"@, "address"@)),
            }
        } else if tag == 4 {
            match message::message_list_field::<Line>(m.line, wire_type, s, depth) {
                Ok((line, rest)) => Ok((LocationView { line, ..m }, rest)),
                Err(error) => Err(message::within(error, "Location"@, "line"@)),
            }
        } else if tag == 5 {
            match message::scalar_field::<bool>(wire_type, s) {
                Ok((is_folded, rest)) => Ok((LocationView { is_folded, ..m }, rest)),
                Err(fault) => Err(message::fault_in_field(fault, "Location"@, "is_folded"@)),
            }
        } else {
            match wire::skip_field_spec(wire_type, tag, s, depth) {
                Ok(rest) => Ok((m, rest)),
                Err(fault) => Err(message::bare(fault)),
            }
        }
    }

    proof fn lemma_field_shrinks(
        m: LocationView,
        tag: u32,
        wire_type: WireType,
        s: Seq<u8>,
        depth: nat,
    ) {
        message::lemma_scalar_field_shrinks::<u64>(wire_type, s);
        message::lemma_message_field_shrinks::<Line>(Line::blank(), wire_type, s, depth);
        message::lemma_scalar_field_shrinks::<bool>(wire_type, s);
        wire::lemma_skip_field_shrinks(wire_type, tag, s, depth);
    }

    fn new_blank() -> (m: Location) {
        let m = Location {
            id: 0,
            mapping_id: 0,
            address: 0,
            line: Vec::new(),
            is_folded: false,
        };
        assert(m.line.deep_view() =~= Seq::empty());
        m
    }

    fn read_field<'a>(
        &mut self,
        tag: u32,
        wire_type: WireType,
        buf: &'a [u8],
        depth: u32,
    ) -> (res: Result<&'a [u8], MessageError>) {
        if tag == 1 {
            match message::read_scalar::<u64>(wire_type, buf) {
                Ok((value, rest)) => {
                    self.id = value;
                    Ok(rest)
                },
                Err(fault) => Err(message::fault_inside(fault, "Location", "id")),
            }
        } else if tag == 2 {
            match message::read_scalar::<u64>(wire_type, buf) {
                Ok((value, rest)) => {
                    self.mapping_id = value;
                    Ok(rest)
                },
                Err(fault) => Err(message::fault_inside(fault, "Location", "mapping_id")),
            }
        } else if tag == 3 {
            match message::read_scalar::<u64>(wire_type, buf) {
                Ok((value, rest)) => {
                    self.address = value;
                    Ok(rest)
                },
                Err(fault) => Err(message::fault_inside(fault, "Location", "address")),
            }
        } else if tag == 4 {
            match message::read_message_list(&mut self.line, wire_type, buf, depth) {
                Ok(rest) => Ok(rest),
                Err(error) => Err(message::inside(error, "Location", "line")),
            }
        } else if tag == 5 {
            match message::read_scalar::<bool>(wire_type, buf) {
                Ok((value, rest)) => {
                    self.is_folded = value;
                    Ok(rest)
                },
                Err(fault) => Err(message::fault_inside(fault, "Location", "is_folded")),
            }
        } else {
            match wire::skip_field(wire_type, tag, buf, depth) {
                Ok(rest) => Ok(rest),
                Err(fault) => Err(message::outside(fault)),
            }
        }
    }
}

impl Default for Location {
    fn default() -> (m: Location)
        ensures
            m.deep_view() == Location::blank(),
    {
        Location::new_blank()
    }
}

/// A line of source code.
#[derive(Clone, Copy, Debug, PartialEq, Eq, Structural)]
pub struct Line {
    /// The function it belongs to.
    pub function_id: u64,
    pub line: i64,
    pub column: i64,
}

impl DeepView for Line {
    type V = Line;

    open spec fn deep_view(&self) -> Line {
        *self
    }
}

impl Message for Line {
    open spec fn blank() -> Line {
        Line {
            function_id: 0,
            line: 0,
            column: 0,
        }
    }

    open spec fn field(
        m: Line,
        tag: u32,
        wire_type: WireType,
        s: Seq<u8>,
        depth: nat,
    ) -> Result<(Line, Seq<u8>), MessageErrorView> {
        if tag == 1 {
            match message::scalar_field::<u64>(wire_type, s) {
                Ok((function_id, rest)) => Ok((Line { function_id, ..m }, rest)),
                Err(fault) => Err(message::fault_in_field(fault, "Line"@, "function_id"@)),
            }
        } else if tag == 2 {
            match message::scalar_field::<i64>(wire_type, s) {
                Ok((line, rest)) => Ok((Line { line, ..m }, rest)),
                Err(fault) => Err(message::fault_in_field(fault, "Line"@, "line"@)),
            }
        } else if tag == 3 {
            match message::scalar_field::<i64>(wire_type, s) {
                Ok((column, rest)) => Ok((Line { column, ..m }, rest)),
                Err(fault) => Err(message::fault_in_field(fault, "Line"@, "column"@)),
            }
        } else {
            match wire::skip_field_spec(wire_type, tag, s, depth) {
                Ok(rest) => Ok((m, rest)),
                Err(fault) => Err(message::bare(fault)),
            }
        }
    }

    proof fn lemma_field_shrinks(
        m: Line,
        tag: u32,
        wire_type: WireType,
        s: Seq<u8>,
        depth: nat,
    ) {
        message::lemma_scalar_field_shrinks::<u64>(wire_type, s);
        message::lemma_scalar_field_shrinks::<i64>(wire_type, s);
        wire::lemma_skip_field_shrinks(wire_type, tag, s, depth);
    }

    fn new_blank() -> (m: Line) {
        Line {
            function_id: 0,
            line: 0,
            column: 0,
        }
    }

    fn read_field<'a>(
        &mut self,
        tag: u32,
        wire_type: WireType,
        buf: &'a [u8],
        depth: u32,
    ) -> (res: Result<&'a [u8], MessageError>) {
        if tag == 1 {
            match message::read_scalar::<u64>(wire_type, buf) {
                Ok((value, rest)) => {
                    self.function_id = value;
                    Ok(rest)
                },
                Err(fault) => Err(message::fault_inside(fault, "Line", "function_id")),
            }
        } else if tag == 2 {
            match message::read_scalar::<i64>(wire_type, buf) {
                Ok((value, rest)) => {
                    self.line = value;
                    Ok(rest)
                },
                Err(fault) => Err(message::fault_inside(fault, "Line", "line")),
            }
        } else if tag == 3 {
            match message::read_scalar::<i64>(wire_type, buf) {
                Ok((value, rest)) => {
                    self.column = value;
                    Ok(rest)
                },
                Err(fault) => Err(message::fault_inside(fault, "Line", "column")),
            }
        } else {
            match wire::skip_field(wire_type, tag, buf, depth) {
                Ok(rest) => Ok(rest),
                Err(fault) => Err(message::outside(fault)),
            }
        }
    }
}

impl Default for Line {
    fn default() -> (m: Line)
        ensures
            m.deep_view() == Line::blank(),
    {
        Line::new_blank()
    }
}

/// A function, by its names and its source file.
#[derive(Clone, Copy, Debug, PartialEq, Eq, Structural)]
pub struct Function {
    /// Unique, nonzero.
    pub id: u64,
    /// Index into the string table.
    pub name: i64,
    /// Index into the string table.
    pub system_name: i64,
    /// Index into the string table.
    pub filename: i64,
    pub start_line: i64,
}

impl DeepView for Function {
    type V = Function;

    open spec fn deep_view(&self) -> Function {
        *self
    }
}

impl Message for Function {
    open spec fn blank() -> Function {
        Function {
            id: 0,
            name: 0,
            system_name: 0,
            filename: 0,
            start_line: 0,
        }
    }

    open spec fn field(
        m: Function,
        tag: u32,
        wire_type: WireType,
        s: Seq<u8>,
        depth: nat,
    ) -> Result<(Function, Seq<u8>), MessageErrorView> {
        if tag == 1 {
            match message::scalar_field::<u64>(wire_type, s) {
                Ok((id, rest)) => Ok((Function { id, ..m }, rest)),
                Err(fault) => Err(message::fault_in_field(fault, "Function"@, "id"@)),
            }
        } else if tag == 2 {
            match message::scalar_field::<i64>(wire_type, s) {
                Ok((name, rest)) => Ok((Function { name, ..m }, rest)),
                Err(fault) => Err(message::fault_in_field(fault, "Function"@, "name"@)),
            }
        } else if tag == 3 {
            match message::scalar_field::<i64>(wire_type, s) {
                Ok((system_name, rest)) => Ok((Function { system_name, ..m }, rest)),
                Err(fault) => Err(message::fault_in_field(fault, "Function"@, "system_name"@)),
            }
        } else if tag == 4 {
            match message::scalar_field::<i64>(wire_type, s) {
                Ok((filename, rest)) => Ok((Function { filename, ..m }, rest)),
                Err(fault) => Err(message::fault_in_field(fault, "Function"@, "filename"@)),
            }
        } else if tag == 5 {
            match message::scalar_field::<i64>(wire_type, s) {
                Ok((start_line, rest)) => Ok((Function { start_line, ..m }, rest)),
                Err(fault) => Err(message::fault_in_field(fault, "Function"@, "start_line"@)),
            }
        } else {
            match wire::skip_field_spec(wire_type, tag, s, depth) {
                Ok(rest) => Ok((m, rest)),
                Err(fault) => Err(message::bare(fault)),
            }
        }
    }

    proof fn lemma_field_shrinks(
        m: Function,
        tag: u32,
        wire_type: WireType,
        s: Seq<u8>,
        depth: nat,
    ) {
        message::lemma_scalar_field_shrinks::<u64>(wire_type, s);
        message::lemma_scalar_field_shrinks::<i64>(wire_type, s);
        wire::lemma_skip_field_shrinks(wire_type, tag, s, depth);
    }

    fn new_blank() -> (m: Function) {
        Function {
            id: 0,
            name: 0,
            system_name: 0,
            filename: 0,
            start_line: 0,
        }
    }

    fn read_field<'a>(
        &mut self,
        tag: u32,
        wire_type: WireType,
        buf: &'a [u8],
        depth: u32,
    ) -> (res: Result<&'a [u8], MessageError>) {
        if tag == 1 {
            match message::read_scalar::<u64>(wire_type, buf) {
                Ok((value, rest)) => {
                    self.id = value;
                    Ok(rest)
                },
                Err(fault) => Err(message::fault_inside(fault, "Function", "id")),
            }
        } else if tag == 2 {
            match message::read_scalar::<i64>(wire_type, buf) {
                Ok((value, rest)) => {
                    self.name = value;
                    Ok(rest)
                },
                Err(fault) => Err(message::fault_inside(fault, "Function", "name")),
            }
        } else if tag == 3 {
            match message::read_scalar::<i64>(wire_type, buf) {
                Ok((value, rest)) => {
                    self.system_name = value;
                    Ok(rest)
                },
                Err(fault) => Err(message::fault_inside(fault, "Function", "system_name")),
            }
        } else if tag == 4 {
            match message::read_scalar::<i64>(wire_type, buf) {
                Ok((value, rest)) => {
                    self.filename = value;
                    Ok(rest)
                },
                Err(fault) => Err(message::fault_inside(fault, "Function", "filename")),
            }
        } else if tag == 5 {
            match message::read_scalar::<i64>(wire_type, buf) {
                Ok((value, rest)) => {
                    self.start_line = value;
                    Ok(rest)
                },
                Err(fault) => Err(message::fault_inside(fault, "Function", "start_line")),
            }
        } else {
            match wire::skip_field(wire_type, tag, buf, depth) {
                Ok(rest) => Ok(rest),
                Err(fault) => Err(message::outside(fault)),
            }
        }
    }
}

impl Default for Function {
    fn default() -> (m: Function)
        ensures
            m.deep_view() == Function::blank(),
    {
        Function::new_blank()
    }
}

/// A profile: samples, the tables they refer to, and what was measured.
#[derive(Clone, Debug)]
pub struct Profile {
    /// What each value of a sample measures.
    pub sample_type: Vec<ValueType>,
    pub sample: Vec<Sample>,
    pub mapping: Vec<Mapping>,
    pub location: Vec<Location>,
    pub function: Vec<Function>,
    /// Every string of the profile; the first is empty.
    pub string_table: Vec<String>,
    /// Index into the string table.
    pub drop_frames: i64,
    /// Index into the string table.
    pub keep_frames: i64,
    pub time_nanos: i64,
    pub duration_nanos: i64,
    /// What the events between samples are.
    pub period_type: Option<ValueType>,
    pub period: i64,
    /// Indices into the string table.
    pub comment: Vec<i64>,
    /// Index into the string table.
    pub default_sample_type: i64,
    /// Index into the string table.
    pub doc_url: i64,
}

/// The value of a [`Profile`].
pub struct ProfileView {
    pub sample_type: Seq<ValueType>,
    pub sample: Seq<SampleView>,
    pub mapping: Seq<Mapping>,
    pub location: Seq<LocationView>,
    pub function: Seq<Function>,
    pub string_table: Seq<Seq<char>>,
    pub drop_frames: i64,
    pub keep_frames: i64,
    pub time_nanos: i64,
    pub duration_nanos: i64,
    pub period_type: Option<ValueType>,
    pub period: i64,
    pub comment: Seq<i64>,
    pub default_sample_type: i64,
    pub doc_url: i64,
}

impl DeepView for Profile {
    type V = ProfileView;

    open spec fn deep_view(&self) -> ProfileView {
        ProfileView {
            sample_type: self.sample_type.deep_view(),
            sample: self.sample.deep_view(),
            mapping: self.mapping.deep_view(),
            location: self.location.deep_view(),
            function: self.function.deep_view(),
            string_table: self.string_table.deep_view(),
            drop_frames: self.drop_frames,
            keep_frames: self.keep_frames,
            time_nanos: self.time_nanos,
            duration_nanos: self.duration_nanos,
            period_type: self.period_type,
            period: self.period,
            comment: self.comment@,
            default_sample_type: self.default_sample_type,
            doc_url: self.doc_url,
        }
    }
}

impl Message for Profile {
    open spec fn blank() -> ProfileView {
        ProfileView {
            sample_type: Seq::empty(),
            sample: Seq::empty(),
            mapping: Seq::empty(),
            location: Seq::empty(),
            function: Seq::empty(),
            string_table: Seq::empty(),
            drop_frames: 0,
            keep_frames: 0,
            time_nanos: 0,
            duration_nanos: 0,
            period_type: None,
            period: 0,
            comment: Seq::empty(),
            default_sample_type: 0,
            doc_url: 0,
        }
    }

    open spec fn field(
        m: ProfileView,
        tag: u32,
        wire_type: WireType,
        s: Seq<u8>,
        depth: nat,
    ) -> Result<(ProfileView, Seq<u8>), MessageErrorView> {
        if tag == 1 {
            match message::message_list_field::<ValueType>(m.sample_type, wire_type, s, depth) {
                Ok((sample_type, rest)) => Ok((ProfileView { sample_type, ..m }, rest)),
                Err(error) => Err(message::within(error, "Profile"@, "sample_type"@)),
            }
        } else if tag == 2 {
            match message::message_list_field::<Sample>(m.sample, wire_type, s, depth) {
                Ok((sample, rest)) => Ok((ProfileView { sample, ..m }, rest)),
                Err(error) => Err(message::within(error, "Profile"@, "sample"@)),
            }
        } else if tag == 3 {
            match message::message_list_field::<Mapping>(m.mapping, wire_type, s, depth) {
                Ok((mapping, rest)) => Ok((ProfileView { mapping, ..m }, rest)),
                Err(error) => Err(message::within(error, "Profile"@, "mapping"@)),
            }
        } else if tag == 4 {
            match message::message_list_field::<Location>(m.location, wire_type, s, depth) {
                Ok((location, rest)) => Ok((ProfileView { location, ..m }, rest)),
                Err(error) => Err(message::within(error, "Profile"@, "location"@)),
            }
        } else if tag == 5 {
            match message::message_list_field::<Function>(m.function, wire_type, s, depth) {
                Ok((function, rest)) => Ok((ProfileView { function, ..m }, rest)),
                Err(error) => Err(message::within(error, "Profile"@, "function"@)),
            }
        } else if tag == 6 {
            match message::text_field(wire_type, s) {
                Ok((text, rest)) => Ok(
                    (ProfileView { string_table: m.string_table.push(text), ..m }, rest),
                ),
                Err(fault) => Err(message::fault_in_field(fault, "Profile"@, "string_table"@)),
            }
        } else if tag == 7 {
            match message::scalar_field::<i64>(wire_type, s) {
                Ok((drop_frames, rest)) => Ok((ProfileView { drop_frames, ..m }, rest)),
                Err(fault) => Err(message::fault_in_field(fault, "Profile"@, "drop_frames"@)),
            }
        } else if tag == 8 {
            match message::scalar_field::<i64>(wire_type, s) {
                Ok((keep_frames, rest)) => Ok((ProfileView { keep_frames, ..m }, rest)),
                Err(fault) => Err(message::fault_in_field(fault, "Profile"@, "keep_frames"@)),
            }
        } else if tag == 9 {
            match message::scalar_field::<i64>(wire_type, s) {
                Ok((time_nanos, rest)) => Ok((ProfileView { time_nanos, ..m }, rest)),
                Err(fault) => Err(message::fault_in_field(fault, "Profile"@, "time_nanos"@)),
            }
        } else if tag == 10 {
            match message::scalar_field::<i64>(wire_type, s) {
                Ok((duration_nanos, rest)) => Ok((ProfileView { duration_nanos, ..m }, rest)),
                Err(fault) => Err(message::fault_in_field(fault, "Profile"@, "duration_nanos"@)),
            }
        } else if tag == 11 {
            let current = match m.period_type {
                Some(current) => current,
                None => ValueType::blank(),
            };
            match message::message_field::<ValueType>(current, wire_type, s, depth) {
                Ok((period_type, rest)) => Ok(
                    (ProfileView { period_type: Some(period_type), ..m }, rest),
                ),
                Err(error) => Err(message::within(error, "Profile"@, "period_type"@)),
            }
        } else if tag == 12 {
            match message::scalar_field::<i64>(wire_type, s) {
                Ok((period, rest)) => Ok((ProfileView { period, ..m }, rest)),
                Err(fault) => Err(message::fault_in_field(fault, "Profile"@, "period"@)),
            }
        } else if tag == 13 {
            match message::scalar_list_field(m.comment, wire_type, s) {
                Ok((comment, rest)) => Ok((ProfileView { comment, ..m }, rest)),
                Err(fault) => Err(message::fault_in_field(fault, "Profile"@, "comment"@)),
            }
        } else if tag == 14 {
            match message::scalar_field::<i64>(wire_type, s) {
                Ok((default_sample_type, rest)) => Ok(
                    (ProfileView { default_sample_type, ..m }, rest),
                ),
                Err(fault) => Err(
                    message::fault_in_field(fault, "Profile"@, "default_sample_type"@),
                ),
            }
        } else if tag == 15 {
            match message::scalar_field::<i64>(wire_type, s) {
                Ok((doc_url, rest)) => Ok((ProfileView { doc_url, ..m }, rest)),
                Err(fault) => Err(message::fault_in_field(fault, "Profile"@, "doc_url"@)),
            }
        } else {
            match wire::skip_field_spec(wire_type, tag, s, depth) {
                Ok(rest) => Ok((m, rest)),
                Err(fault) => Err(message::bare(fault)),
            }
        }
    }

    proof fn lemma_field_shrinks(
        m: ProfileView,
        tag: u32,
        wire_type: WireType,
        s: Seq<u8>,
        depth: nat,
    ) {
        message::lemma_message_field_shrinks::<ValueType>(ValueType::blank(), wire_type, s, depth);
        message::lemma_message_field_shrinks::<Sample>(Sample::blank(), wire_type, s, depth);
        message::lemma_message_field_shrinks::<Mapping>(Mapping::blank(), wire_type, s, depth);
        message::lemma_message_field_shrinks::<Location>(Location::blank(), wire_type, s, depth);
        message::lemma_message_field_shrinks::<Function>(Function::blank(), wire_type, s, depth);
        message::lemma_text_field_shrinks(wire_type, s);
        message::lemma_scalar_field_shrinks::<i64>(wire_type, s);
        match m.period_type {
            Some(current) => message::lemma_message_field_shrinks::<ValueType>(
                current,
                wire_type,
                s,
                depth,
            ),
            None => message::lemma_message_field_shrinks::<ValueType>(
                ValueType::blank(),
                wire_type,
                s,
                depth,
            ),
        }
        message::lemma_scalar_list_field_shrinks(m.comment, wire_type, s);
        wire::lemma_skip_field_shrinks(wire_type, tag, s, depth);
    }

    fn new_blank() -> (m: Profile) {
        let m = Profile {
            sample_type: Vec::new(),
            sample: Vec::new(),
            mapping: Vec::new(),
            location: Vec::new(),
            function: Vec::new(),
            string_table: Vec::new(),
            drop_frames: 0,
            keep_frames: 0,
            time_nanos: 0,
            duration_nanos: 0,
            period_type: None,
            period: 0,
            comment: Vec::new(),
            default_sample_type: 0,
            doc_url: 0,
        };
        assert(m.sample_type.deep_view() =~= Seq::empty());
        assert(m.sample.deep_view() =~= Seq::empty());
        assert(m.mapping.deep_view() =~= Seq::empty());
        assert(m.location.deep_view() =~= Seq::empty());
        assert(m.function.deep_view() =~= Seq::empty());
        assert(m.string_table.deep_view() =~= Seq::empty());
        m
    }

    fn read_field<'a>(
        &mut self,
        tag: u32,
        wire_type: WireType,
        buf: &'a [u8],
        depth: u32,
    ) -> (res: Result<&'a [u8], MessageError>) {
        if tag == 1 {
            match message::read_message_list(&mut self.sample_type, wire_type, buf, depth) {
                Ok(rest) => Ok(rest),
                Err(error) => Err(message::inside(error, "Profile", "sample_type")),
            }
        } else if tag == 2 {
            match message::read_message_list(&mut self.sample, wire_type, buf, depth) {
                Ok(rest) => Ok(rest),
                Err(error) => Err(message::inside(error, "Profile", "sample")),
            }
        } else if tag == 3 {
            match message::read_message_list(&mut self.mapping, wire_type, buf, depth) {
                Ok(rest) => Ok(rest),
                Err(error) => Err(message::inside(error, "Profile", "mapping")),
            }
        } else if tag == 4 {
            match message::read_message_list(&mut self.location, wire_type, buf, depth) {
                Ok(rest) => Ok(rest),
                Err(error) => Err(message::inside(error, "Profile", "location")),
            }
        } else if tag == 5 {
            match message::read_message_list(&mut self.function, wire_type, buf, depth) {
                Ok(rest) => Ok(rest),
                Err(error) => Err(message::inside(error, "Profile", "function")),
            }
        } else if tag == 6 {
            match message::read_text(wire_type, buf) {
                Ok((text, rest)) => {
                    let ghost before = self.string_table.deep_view();
                    self.string_table.push(text);
                    assert(self.string_table.deep_view() =~= before.push(text@));
                    Ok(rest)
                },
                Err(fault) => Err(message::fault_inside(fault, "Profile", "string_table")),
            }
        } else if tag == 7 {
            match message::read_scalar::<i64>(wire_type, buf) {
                Ok((value, rest)) => {
                    self.drop_frames = value;
                    Ok(rest)
                },
                Err(fault) => Err(message::fault_inside(fault, "Profile", "drop_frames")),
            }
        } else if tag == 8 {
            match message::read_scalar::<i64>(wire_type, buf) {
                Ok((value, rest)) => {
                    self.keep_frames = value;
                    Ok(rest)
                },
                Err(fault) => Err(message::fault_inside(fault, "Profile", "keep_frames")),
            }
        } else if tag == 9 {
            match message::read_scalar::<i64>(wire_type, buf) {
                Ok((value, rest)) => {
                    self.time_nanos = value;
                    Ok(rest)
                },
                Err(fault) => Err(message::fault_inside(fault, "Profile", "time_nanos")),
            }
        } else if tag == 10 {
            match message::read_scalar::<i64>(wire_type, buf) {
                Ok((value, rest)) => {
                    self.duration_nanos = value;
                    Ok(rest)
                },
                Err(fault) => Err(message::fault_inside(fault, "Profile", "duration_nanos")),
            }
        } else if tag == 11 {
            let mut current = match self.period_type {
                Some(current) => current,
                None => ValueType::new_blank(),
            };
            match message::read_message(&mut current, wire_type, buf, depth) {
                Ok(rest) => {
                    self.period_type = Some(current);
                    Ok(rest)
                },
                Err(error) => Err(message::inside(error, "Profile", "period_type")),
            }
        } else if tag == 12 {
            match message::read_scalar::<i64>(wire_type, buf) {
                Ok((value, rest)) => {
                    self.period = value;
                    Ok(rest)
                },
                Err(fault) => Err(message::fault_inside(fault, "Profile", "period")),
            }
        } else if tag == 13 {
            match message::read_scalar_list(&mut self.comment, wire_type, buf) {
                Ok(rest) => Ok(rest),
                Err(fault) => Err(message::fault_inside(fault, "Profile", "comment")),
            }
        } else if tag == 14 {
            match message::read_scalar::<i64>(wire_type, buf) {
                Ok((value, rest)) => {
                    self.default_sample_type = value;
                    Ok(rest)
                },
                Err(fault) => Err(message::fault_inside(fault, "Profile", "default_sample_type")),
            }
        } else if tag == 15 {
            match message::read_scalar::<i64>(wire_type, buf) {
                Ok((value, rest)) => {
                    self.doc_url = value;
                    Ok(rest)
                },
                Err(fault) => Err(message::fault_inside(fault, "Profile", "doc_url")),
            }
        } else {
            match wire::skip_field(wire_type, tag, buf, depth) {
                Ok(rest) => Ok(rest),
                Err(fault) => Err(message::outside(fault)),
            }
        }
    }
}

impl Default for Profile {
    fn default() -> (m: Profile)
        ensures
            m.deep_view() == Profile::blank(),
    {
        Profile::new_blank()
    }
}

} // verus!
