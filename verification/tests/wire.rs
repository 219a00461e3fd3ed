//! The message reader against prost: the same bytes give the same message, or the same error in
//! the same words.

use prost::bytes::{Buf, BufMut};
use prost::encoding::{DecodeContext, WireType as PbWireType};
use prost::{DecodeError, Message as PbMessage};

use pprof_core::message;
use pprof_core::proto;
use pprof_core::wire::DecodeFault;

#[derive(Clone, Debug, Default, PartialEq)]
struct PbValueType {
    type_: i64,
    unit: i64,
}

impl PbMessage for PbValueType {
    fn encode_raw(&self, buf: &mut impl BufMut) {
        if self.type_ != 0 {
            prost::encoding::int64::encode(1, &self.type_, buf);
        }
        if self.unit != 0 {
            prost::encoding::int64::encode(2, &self.unit, buf);
        }
    }

    fn merge_field(
        &mut self,
        tag: u32,
        wire_type: PbWireType,
        buf: &mut impl Buf,
        ctx: DecodeContext,
    ) -> Result<(), DecodeError> {
        match tag {
            1 => prost::encoding::int64::merge(wire_type, &mut self.type_, buf, ctx).map_err(|mut e| {
                e.push("ValueType", "r#type");
                e
            }),
            2 => prost::encoding::int64::merge(wire_type, &mut self.unit, buf, ctx).map_err(|mut e| {
                e.push("ValueType", "unit");
                e
            }),
            _ => prost::encoding::skip_field(wire_type, tag, buf, ctx),
        }
    }

    fn encoded_len(&self) -> usize {
        let mut buf = Vec::new();
        self.encode_raw(&mut buf);
        buf.len()
    }

    fn clear(&mut self) {
        *self = Default::default();
    }
}

fn same_valuetype(a: &proto::ValueType, b: &PbValueType) -> bool {
    a.type_ == b.type_
        && a.unit == b.unit
}

#[derive(Clone, Debug, Default, PartialEq)]
struct PbSample {
    location_id: Vec<u64>,
    value: Vec<i64>,
    label: Vec<PbLabel>,
}

impl PbMessage for PbSample {
    fn encode_raw(&self, buf: &mut impl BufMut) {
        prost::encoding::uint64::encode_packed(1, &self.location_id, buf);
        prost::encoding::int64::encode_packed(2, &self.value, buf);
        for m in &self.label {
            prost::encoding::message::encode(3, m, buf);
        }
    }

    fn merge_field(
        &mut self,
        tag: u32,
        wire_type: PbWireType,
        buf: &mut impl Buf,
        ctx: DecodeContext,
    ) -> Result<(), DecodeError> {
        match tag {
            1 => prost::encoding::uint64::merge_repeated(wire_type, &mut self.location_id, buf, ctx).map_err(|mut e| {
                e.push("Sample", "location_id");
                e
            }),
            2 => prost::encoding::int64::merge_repeated(wire_type, &mut self.value, buf, ctx).map_err(|mut e| {
                e.push("Sample", "value");
                e
            }),
            3 => prost::encoding::message::merge_repeated(wire_type, &mut self.label, buf, ctx).map_err(|mut e| {
                e.push("Sample", "label");
                e
            }),
            _ => prost::encoding::skip_field(wire_type, tag, buf, ctx),
        }
    }

    fn encoded_len(&self) -> usize {
        let mut buf = Vec::new();
        self.encode_raw(&mut buf);
        buf.len()
    }

    fn clear(&mut self) {
        *self = Default::default();
    }
}

fn same_sample(a: &proto::Sample, b: &PbSample) -> bool {
    a.location_id == b.location_id
        && a.value == b.value
        && a.label.len() == b.label.len()
        && a.label.iter().zip(&b.label).all(|(x, y)| same_label(x, y))
}

#[derive(Clone, Debug, Default, PartialEq)]
struct PbLabel {
    key: i64,
    str: i64,
    num: i64,
    num_unit: i64,
}

impl PbMessage for PbLabel {
    fn encode_raw(&self, buf: &mut impl BufMut) {
        if self.key != 0 {
            prost::encoding::int64::encode(1, &self.key, buf);
        }
        if self.str != 0 {
            prost::encoding::int64::encode(2, &self.str, buf);
        }
        if self.num != 0 {
            prost::encoding::int64::encode(3, &self.num, buf);
        }
        if self.num_unit != 0 {
            prost::encoding::int64::encode(4, &self.num_unit, buf);
        }
    }

    fn merge_field(
        &mut self,
        tag: u32,
        wire_type: PbWireType,
        buf: &mut impl Buf,
        ctx: DecodeContext,
    ) -> Result<(), DecodeError> {
        match tag {
            1 => prost::encoding::int64::merge(wire_type, &mut self.key, buf, ctx).map_err(|mut e| {
                e.push("Label", "key");
                e
            }),
            2 => prost::encoding::int64::merge(wire_type, &mut self.str, buf, ctx).map_err(|mut e| {
                e.push("Label", "str");
                e
            }),
            3 => prost::encoding::int64::merge(wire_type, &mut self.num, buf, ctx).map_err(|mut e| {
                e.push("Label", "num");
                e
            }),
            4 => prost::encoding::int64::merge(wire_type, &mut self.num_unit, buf, ctx).map_err(|mut e| {
                e.push("Label", "num_unit");
                e
            }),
            _ => prost::encoding::skip_field(wire_type, tag, buf, ctx),
        }
    }

    fn encoded_len(&self) -> usize {
        let mut buf = Vec::new();
        self.encode_raw(&mut buf);
        buf.len()
    }

    fn clear(&mut self) {
        *self = Default::default();
    }
}

fn same_label(a: &proto::Label, b: &PbLabel) -> bool {
    a.key == b.key
        && a.str == b.str
        && a.num == b.num
        && a.num_unit == b.num_unit
}

#[derive(Clone, Debug, Default, PartialEq)]
struct PbMapping {
    id: u64,
    memory_start: u64,
    memory_limit: u64,
    file_offset: u64,
    filename: i64,
    build_id: i64,
    has_functions: bool,
    has_filenames: bool,
    has_line_numbers: bool,
    has_inline_frames: bool,
}

impl PbMessage for PbMapping {
    fn encode_raw(&self, buf: &mut impl BufMut) {
        if self.id != 0 {
            prost::encoding::uint64::encode(1, &self.id, buf);
        }
        if self.memory_start != 0 {
            prost::encoding::uint64::encode(2, &self.memory_start, buf);
        }
        if self.memory_limit != 0 {
            prost::encoding::uint64::encode(3, &self.memory_limit, buf);
        }
        if self.file_offset != 0 {
            prost::encoding::uint64::encode(4, &self.file_offset, buf);
        }
        if self.filename != 0 {
            prost::encoding::int64::encode(5, &self.filename, buf);
        }
        if self.build_id != 0 {
            prost::encoding::int64::encode(6, &self.build_id, buf);
        }
        if self.has_functions {
            prost::encoding::bool::encode(7, &self.has_functions, buf);
        }
        if self.has_filenames {
            prost::encoding::bool::encode(8, &self.has_filenames, buf);
        }
        if self.has_line_numbers {
            prost::encoding::bool::encode(9, &self.has_line_numbers, buf);
        }
        if self.has_inline_frames {
            prost::encoding::bool::encode(10, &self.has_inline_frames, buf);
        }
    }

    fn merge_field(
        &mut self,
        tag: u32,
        wire_type: PbWireType,
        buf: &mut impl Buf,
        ctx: DecodeContext,
    ) -> Result<(), DecodeError> {
        match tag {
            1 => prost::encoding::uint64::merge(wire_type, &mut self.id, buf, ctx).map_err(|mut e| {
                e.push("Mapping", "id");
                e
            }),
            2 => prost::encoding::uint64::merge(wire_type, &mut self.memory_start, buf, ctx).map_err(|mut e| {
                e.push("Mapping", "memory_start");
                e
            }),
            3 => prost::encoding::uint64::merge(wire_type, &mut self.memory_limit, buf, ctx).map_err(|mut e| {
                e.push("Mapping", "memory_limit");
                e
            }),
            4 => prost::encoding::uint64::merge(wire_type, &mut self.file_offset, buf, ctx).map_err(|mut e| {
                e.push("Mapping", "file_offset");
                e
            }),
            5 => prost::encoding::int64::merge(wire_type, &mut self.filename, buf, ctx).map_err(|mut e| {
                e.push("Mapping", "filename");
                e
            }),
            6 => prost::encoding::int64::merge(wire_type, &mut self.build_id, buf, ctx).map_err(|mut e| {
                e.push("Mapping", "build_id");
                e
            }),
            7 => prost::encoding::bool::merge(wire_type, &mut self.has_functions, buf, ctx).map_err(|mut e| {
                e.push("Mapping", "has_functions");
                e
            }),
            8 => prost::encoding::bool::merge(wire_type, &mut self.has_filenames, buf, ctx).map_err(|mut e| {
                e.push("Mapping", "has_filenames");
                e
            }),
            9 => prost::encoding::bool::merge(wire_type, &mut self.has_line_numbers, buf, ctx).map_err(|mut e| {
                e.push("Mapping", "has_line_numbers");
                e
            }),
            10 => prost::encoding::bool::merge(wire_type, &mut self.has_inline_frames, buf, ctx).map_err(|mut e| {
                e.push("Mapping", "has_inline_frames");
                e
            }),
            _ => prost::encoding::skip_field(wire_type, tag, buf, ctx),
        }
    }

    fn encoded_len(&self) -> usize {
        let mut buf = Vec::new();
        self.encode_raw(&mut buf);
        buf.len()
    }

    fn clear(&mut self) {
        *self = Default::default();
    }
}

fn same_mapping(a: &proto::Mapping, b: &PbMapping) -> bool {
    a.id == b.id
        && a.memory_start == b.memory_start
        && a.memory_limit == b.memory_limit
        && a.file_offset == b.file_offset
        && a.filename == b.filename
        && a.build_id == b.build_id
        && a.has_functions == b.has_functions
        && a.has_filenames == b.has_filenames
        && a.has_line_numbers == b.has_line_numbers
        && a.has_inline_frames == b.has_inline_frames
}

#[derive(Clone, Debug, Default, PartialEq)]
struct PbLocation {
    id: u64,
    mapping_id: u64,
    address: u64,
    line: Vec<PbLine>,
    is_folded: bool,
}

impl PbMessage for PbLocation {
    fn encode_raw(&self, buf: &mut impl BufMut) {
        if self.id != 0 {
            prost::encoding::uint64::encode(1, &self.id, buf);
        }
        if self.mapping_id != 0 {
            prost::encoding::uint64::encode(2, &self.mapping_id, buf);
        }
        if self.address != 0 {
            prost::encoding::uint64::encode(3, &self.address, buf);
        }
        for m in &self.line {
            prost::encoding::message::encode(4, m, buf);
        }
        if self.is_folded {
            prost::encoding::bool::encode(5, &self.is_folded, buf);
        }
    }

    fn merge_field(
        &mut self,
        tag: u32,
        wire_type: PbWireType,
        buf: &mut impl Buf,
        ctx: DecodeContext,
    ) -> Result<(), DecodeError> {
        match tag {
            1 => prost::encoding::uint64::merge(wire_type, &mut self.id, buf, ctx).map_err(|mut e| {
                e.push("Location", "id");
                e
            }),
            2 => prost::encoding::uint64::merge(wire_type, &mut self.mapping_id, buf, ctx).map_err(|mut e| {
                e.push("Location", "mapping_id");
                e
            }),
            3 => prost::encoding::uint64::merge(wire_type, &mut self.address, buf, ctx).map_err(|mut e| {
                e.push("Location", "address");
                e
            }),
            4 => prost::encoding::message::merge_repeated(wire_type, &mut self.line, buf, ctx).map_err(|mut e| {
                e.push("Location", "line");
                e
            }),
            5 => prost::encoding::bool::merge(wire_type, &mut self.is_folded, buf, ctx).map_err(|mut e| {
                e.push("Location", "is_folded");
                e
            }),
            _ => prost::encoding::skip_field(wire_type, tag, buf, ctx),
        }
    }

    fn encoded_len(&self) -> usize {
        let mut buf = Vec::new();
        self.encode_raw(&mut buf);
        buf.len()
    }

    fn clear(&mut self) {
        *self = Default::default();
    }
}

fn same_location(a: &proto::Location, b: &PbLocation) -> bool {
    a.id == b.id
        && a.mapping_id == b.mapping_id
        && a.address == b.address
        && a.line.len() == b.line.len()
        && a.line.iter().zip(&b.line).all(|(x, y)| same_line(x, y))
        && a.is_folded == b.is_folded
}

#[derive(Clone, Debug, Default, PartialEq)]
struct PbLine {
    function_id: u64,
    line: i64,
    column: i64,
}

impl PbMessage for PbLine {
    fn encode_raw(&self, buf: &mut impl BufMut) {
        if self.function_id != 0 {
            prost::encoding::uint64::encode(1, &self.function_id, buf);
        }
        if self.line != 0 {
            prost::encoding::int64::encode(2, &self.line, buf);
        }
        if self.column != 0 {
            prost::encoding::int64::encode(3, &self.column, buf);
        }
    }

    fn merge_field(
        &mut self,
        tag: u32,
        wire_type: PbWireType,
        buf: &mut impl Buf,
        ctx: DecodeContext,
    ) -> Result<(), DecodeError> {
        match tag {
            1 => prost::encoding::uint64::merge(wire_type, &mut self.function_id, buf, ctx).map_err(|mut e| {
                e.push("Line", "function_id");
                e
            }),
            2 => prost::encoding::int64::merge(wire_type, &mut self.line, buf, ctx).map_err(|mut e| {
                e.push("Line", "line");
                e
            }),
            3 => prost::encoding::int64::merge(wire_type, &mut self.column, buf, ctx).map_err(|mut e| {
                e.push("Line", "column");
                e
            }),
            _ => prost::encoding::skip_field(wire_type, tag, buf, ctx),
        }
    }

    fn encoded_len(&self) -> usize {
        let mut buf = Vec::new();
        self.encode_raw(&mut buf);
        buf.len()
    }

    fn clear(&mut self) {
        *self = Default::default();
    }
}

fn same_line(a: &proto::Line, b: &PbLine) -> bool {
    a.function_id == b.function_id
        && a.line == b.line
        && a.column == b.column
}

#[derive(Clone, Debug, Default, PartialEq)]
struct PbFunction {
    id: u64,
    name: i64,
    system_name: i64,
    filename: i64,
    start_line: i64,
}

impl PbMessage for PbFunction {
    fn encode_raw(&self, buf: &mut impl BufMut) {
        if self.id != 0 {
            prost::encoding::uint64::encode(1, &self.id, buf);
        }
        if self.name != 0 {
            prost::encoding::int64::encode(2, &self.name, buf);
        }
        if self.system_name != 0 {
            prost::encoding::int64::encode(3, &self.system_name, buf);
        }
        if self.filename != 0 {
            prost::encoding::int64::encode(4, &self.filename, buf);
        }
        if self.start_line != 0 {
            prost::encoding::int64::encode(5, &self.start_line, buf);
        }
    }

    fn merge_field(
        &mut self,
        tag: u32,
        wire_type: PbWireType,
        buf: &mut impl Buf,
        ctx: DecodeContext,
    ) -> Result<(), DecodeError> {
        match tag {
            1 => prost::encoding::uint64::merge(wire_type, &mut self.id, buf, ctx).map_err(|mut e| {
                e.push("Function", "id");
                e
            }),
            2 => prost::encoding::int64::merge(wire_type, &mut self.name, buf, ctx).map_err(|mut e| {
                e.push("Function", "name");
                e
            }),
            3 => prost::encoding::int64::merge(wire_type, &mut self.system_name, buf, ctx).map_err(|mut e| {
                e.push("Function", "system_name");
                e
            }),
            4 => prost::encoding::int64::merge(wire_type, &mut self.filename, buf, ctx).map_err(|mut e| {
                e.push("Function", "filename");
                e
            }),
            5 => prost::encoding::int64::merge(wire_type, &mut self.start_line, buf, ctx).map_err(|mut e| {
                e.push("Function", "start_line");
                e
            }),
            _ => prost::encoding::skip_field(wire_type, tag, buf, ctx),
        }
    }

    fn encoded_len(&self) -> usize {
        let mut buf = Vec::new();
        self.encode_raw(&mut buf);
        buf.len()
    }

    fn clear(&mut self) {
        *self = Default::default();
    }
}

fn same_function(a: &proto::Function, b: &PbFunction) -> bool {
    a.id == b.id
        && a.name == b.name
        && a.system_name == b.system_name
        && a.filename == b.filename
        && a.start_line == b.start_line
}

#[derive(Clone, Debug, Default, PartialEq)]
struct PbProfile {
    sample_type: Vec<PbValueType>,
    sample: Vec<PbSample>,
    mapping: Vec<PbMapping>,
    location: Vec<PbLocation>,
    function: Vec<PbFunction>,
    string_table: Vec<String>,
    drop_frames: i64,
    keep_frames: i64,
    time_nanos: i64,
    duration_nanos: i64,
    period_type: Option<PbValueType>,
    period: i64,
    comment: Vec<i64>,
    default_sample_type: i64,
    doc_url: i64,
}

impl PbMessage for PbProfile {
    fn encode_raw(&self, buf: &mut impl BufMut) {
        for m in &self.sample_type {
            prost::encoding::message::encode(1, m, buf);
        }
        for m in &self.sample {
            prost::encoding::message::encode(2, m, buf);
        }
        for m in &self.mapping {
            prost::encoding::message::encode(3, m, buf);
        }
        for m in &self.location {
            prost::encoding::message::encode(4, m, buf);
        }
        for m in &self.function {
            prost::encoding::message::encode(5, m, buf);
        }
        prost::encoding::string::encode_repeated(6, &self.string_table, buf);
        if self.drop_frames != 0 {
            prost::encoding::int64::encode(7, &self.drop_frames, buf);
        }
        if self.keep_frames != 0 {
            prost::encoding::int64::encode(8, &self.keep_frames, buf);
        }
        if self.time_nanos != 0 {
            prost::encoding::int64::encode(9, &self.time_nanos, buf);
        }
        if self.duration_nanos != 0 {
            prost::encoding::int64::encode(10, &self.duration_nanos, buf);
        }
        if let Some(m) = &self.period_type {
            prost::encoding::message::encode(11, m, buf);
        }
        if self.period != 0 {
            prost::encoding::int64::encode(12, &self.period, buf);
        }
        prost::encoding::int64::encode_packed(13, &self.comment, buf);
        if self.default_sample_type != 0 {
            prost::encoding::int64::encode(14, &self.default_sample_type, buf);
        }
        if self.doc_url != 0 {
            prost::encoding::int64::encode(15, &self.doc_url, buf);
        }
    }

    fn merge_field(
        &mut self,
        tag: u32,
        wire_type: PbWireType,
        buf: &mut impl Buf,
        ctx: DecodeContext,
    ) -> Result<(), DecodeError> {
        match tag {
            1 => prost::encoding::message::merge_repeated(wire_type, &mut self.sample_type, buf, ctx).map_err(|mut e| {
                e.push("Profile", "sample_type");
                e
            }),
            2 => prost::encoding::message::merge_repeated(wire_type, &mut self.sample, buf, ctx).map_err(|mut e| {
                e.push("Profile", "sample");
                e
            }),
            3 => prost::encoding::message::merge_repeated(wire_type, &mut self.mapping, buf, ctx).map_err(|mut e| {
                e.push("Profile", "mapping");
                e
            }),
            4 => prost::encoding::message::merge_repeated(wire_type, &mut self.location, buf, ctx).map_err(|mut e| {
                e.push("Profile", "location");
                e
            }),
            5 => prost::encoding::message::merge_repeated(wire_type, &mut self.function, buf, ctx).map_err(|mut e| {
                e.push("Profile", "function");
                e
            }),
            6 => prost::encoding::string::merge_repeated(wire_type, &mut self.string_table, buf, ctx).map_err(|mut e| {
                e.push("Profile", "string_table");
                e
            }),
            7 => prost::encoding::int64::merge(wire_type, &mut self.drop_frames, buf, ctx).map_err(|mut e| {
                e.push("Profile", "drop_frames");
                e
            }),
            8 => prost::encoding::int64::merge(wire_type, &mut self.keep_frames, buf, ctx).map_err(|mut e| {
                e.push("Profile", "keep_frames");
                e
            }),
            9 => prost::encoding::int64::merge(wire_type, &mut self.time_nanos, buf, ctx).map_err(|mut e| {
                e.push("Profile", "time_nanos");
                e
            }),
            10 => prost::encoding::int64::merge(wire_type, &mut self.duration_nanos, buf, ctx).map_err(|mut e| {
                e.push("Profile", "duration_nanos");
                e
            }),
            11 => prost::encoding::message::merge(
                wire_type,
                self.period_type.get_or_insert_with(Default::default),
                buf,
                ctx,
            ).map_err(|mut e| {
                e.push("Profile", "period_type");
                e
            }),
            12 => prost::encoding::int64::merge(wire_type, &mut self.period, buf, ctx).map_err(|mut e| {
                e.push("Profile", "period");
                e
            }),
            13 => prost::encoding::int64::merge_repeated(wire_type, &mut self.comment, buf, ctx).map_err(|mut e| {
                e.push("Profile", "comment");
                e
            }),
            14 => prost::encoding::int64::merge(wire_type, &mut self.default_sample_type, buf, ctx).map_err(|mut e| {
                e.push("Profile", "default_sample_type");
                e
            }),
            15 => prost::encoding::int64::merge(wire_type, &mut self.doc_url, buf, ctx).map_err(|mut e| {
                e.push("Profile", "doc_url");
                e
            }),
            _ => prost::encoding::skip_field(wire_type, tag, buf, ctx),
        }
    }

    fn encoded_len(&self) -> usize {
        let mut buf = Vec::new();
        self.encode_raw(&mut buf);
        buf.len()
    }

    fn clear(&mut self) {
        *self = Default::default();
    }
}

fn same_profile(a: &proto::Profile, b: &PbProfile) -> bool {
    a.sample_type.len() == b.sample_type.len()
        && a.sample_type.iter().zip(&b.sample_type).all(|(x, y)| same_valuetype(x, y))
        && a.sample.len() == b.sample.len()
        && a.sample.iter().zip(&b.sample).all(|(x, y)| same_sample(x, y))
        && a.mapping.len() == b.mapping.len()
        && a.mapping.iter().zip(&b.mapping).all(|(x, y)| same_mapping(x, y))
        && a.location.len() == b.location.len()
        && a.location.iter().zip(&b.location).all(|(x, y)| same_location(x, y))
        && a.function.len() == b.function.len()
        && a.function.iter().zip(&b.function).all(|(x, y)| same_function(x, y))
        && a.string_table == b.string_table
        && a.drop_frames == b.drop_frames
        && a.keep_frames == b.keep_frames
        && a.time_nanos == b.time_nanos
        && a.duration_nanos == b.duration_nanos
        && match (&a.period_type, &b.period_type) {
            (Some(x), Some(y)) => same_valuetype(x, y),
            (None, None) => true,
            _ => false,
        }
        && a.period == b.period
        && a.comment == b.comment
        && a.default_sample_type == b.default_sample_type
        && a.doc_url == b.doc_url
}

/// Decodes both ways and compares.
fn compare(bytes: &[u8]) -> bool {
    let ours = message::decode::<proto::Profile>(bytes);
    let theirs = PbProfile::decode(bytes);
    match (ours, theirs) {
        (Ok(a), Ok(b)) => {
            assert!(same_profile(&a, &b), "different messages from {:?}", bytes);
            true
        }
        (Err(a), Err(b)) => {
            assert_eq!(a.to_string(), b.to_string(), "different errors from {:?}", bytes);
            false
        }
        (Ok(_), Err(b)) => panic!("only ours decodes {:?}: {}", bytes, b),
        (Err(a), Ok(_)) => panic!("only theirs decodes {:?}: {}", bytes, a.to_string()),
    }
}

fn sample_profile() -> PbProfile {
    PbProfile {
        sample_type: vec![PbValueType { type_: 1, unit: 2 }, PbValueType { type_: -3, unit: 4 }],
        sample: vec![
            PbSample {
                location_id: vec![1, 2, 300, u64::MAX],
                value: vec![10, -2000, i64::MIN, i64::MAX],
                label: vec![PbLabel { key: 8, str: 9, num: 0, num_unit: 0 }],
            },
            PbSample::default(),
        ],
        mapping: vec![PbMapping {
            id: 1,
            memory_start: 0x400000,
            memory_limit: 0x500000,
            file_offset: 4096,
            filename: 5,
            build_id: 6,
            has_functions: true,
            has_filenames: false,
            has_line_numbers: true,
            has_inline_frames: true,
        }],
        location: vec![PbLocation {
            id: 1,
            mapping_id: 1,
            address: 0x401000,
            line: vec![
                PbLine { function_id: 7, line: 42, column: 3 },
                PbLine { function_id: 5, line: -1, column: 0 },
            ],
            is_folded: true,
        }],
        function: vec![PbFunction { id: 5, name: 1, system_name: 2, filename: 3, start_line: 4 }],
        string_table: vec![
            String::new(),
            "samples".to_string(),
            "count".to_string(),
            "caf\u{e9} \u{1F980}".to_string(),
        ],
        drop_frames: 1,
        keep_frames: 2,
        time_nanos: 1_700_000_000_000_000_000,
        duration_nanos: 1_000_000_000,
        period_type: Some(PbValueType { type_: 3, unit: 4 }),
        period: 10_000_000,
        comment: vec![1, 2, 3],
        default_sample_type: 3,
        doc_url: 1,
    }
}

/// A small generator of test numbers.
struct Numbers(u64);

impl Numbers {
    fn next(&mut self) -> u64 {
        self.0 ^= self.0 << 13;
        self.0 ^= self.0 >> 7;
        self.0 ^= self.0 << 17;
        self.0
    }

    fn below(&mut self, n: usize) -> usize {
        (self.next() % n as u64) as usize
    }
}

fn error_text(bytes: &[u8]) -> String {
    compare(bytes);
    match message::decode::<proto::Profile>(bytes) {
        Ok(_) => panic!("decoded"),
        Err(e) => e.to_string(),
    }
}

#[test]
fn whole_profile_reads_as_prost_reads_it() {
    let mut body = Vec::new();
    sample_profile().encode(&mut body).unwrap();
    assert!(compare(&body));
    let ours = message::decode::<proto::Profile>(&body).unwrap();
    assert!(same_profile(&ours, &sample_profile()));
}

#[test]
fn every_prefix_reads_as_prost_reads_it() {
    let mut body = Vec::new();
    sample_profile().encode(&mut body).unwrap();
    for n in 0..body.len() {
        compare(&body[..n]);
    }
}

#[test]
fn every_changed_byte_reads_as_prost_reads_it() {
    let mut body = Vec::new();
    sample_profile().encode(&mut body).unwrap();
    for i in 0..body.len() {
        for change in [1u8, 2, 4, 8, 16, 32, 64, 128, 255] {
            let mut bytes = body.clone();
            bytes[i] ^= change;
            compare(&bytes);
        }
    }
}

#[test]
fn random_bytes_read_as_prost_reads_them() {
    let mut numbers = Numbers(0x9E3779B97F4A7C15);
    for _ in 0..20_000 {
        let n = numbers.below(24);
        let bytes: Vec<u8> = (0..n).map(|_| numbers.next() as u8).collect();
        compare(&bytes);
    }
}

#[test]
fn random_fields_read_as_prost_reads_them() {
    // Bytes that look like fields: a small key, then small values.
    let mut numbers = Numbers(0xD1B54A32D192ED03);
    for _ in 0..20_000 {
        let n = numbers.below(20);
        let mut bytes = Vec::new();
        for _ in 0..n {
            let key = (numbers.below(18) << 3 | numbers.below(6)) as u64;
            prost::encoding::encode_varint(key, &mut bytes);
            bytes.push(numbers.below(6) as u8);
        }
        compare(&bytes);
    }
}

#[test]
fn changed_profiles_read_as_prost_reads_them() {
    let mut body = Vec::new();
    sample_profile().encode(&mut body).unwrap();
    let mut numbers = Numbers(0xA0761D6478BD642F);
    for _ in 0..5_000 {
        let mut bytes = body.clone();
        for _ in 0..1 + numbers.below(4) {
            let i = numbers.below(bytes.len());
            match numbers.below(3) {
                0 => bytes[i] = numbers.next() as u8,
                1 => bytes.insert(i, numbers.next() as u8),
                _ => {
                    bytes.remove(i);
                }
            }
        }
        compare(&bytes);
    }
}

#[test]
fn repeated_numbers_may_be_packed_or_not() {
    let mut packed = Vec::new();
    prost::encoding::int64::encode_packed(13, &[1, -2, 3], &mut packed);
    let mut single = Vec::new();
    prost::encoding::int64::encode_repeated(13, &[1, -2, 3], &mut single);
    assert_ne!(packed, single);
    assert!(compare(&packed));
    assert!(compare(&single));
    for bytes in [&packed, &single] {
        assert_eq!(message::decode::<proto::Profile>(bytes).unwrap().comment, vec![1, -2, 3]);
    }
}

#[test]
fn later_fields_replace_or_merge() {
    let mut bytes = Vec::new();
    prost::encoding::int64::encode(12, &1, &mut bytes);
    prost::encoding::int64::encode(12, &2, &mut bytes);
    prost::encoding::message::encode(11, &PbValueType { type_: 7, unit: 0 }, &mut bytes);
    prost::encoding::message::encode(11, &PbValueType { type_: 0, unit: 8 }, &mut bytes);
    assert!(compare(&bytes));
    let profile = message::decode::<proto::Profile>(&bytes).unwrap();
    assert_eq!(profile.period, 2);
    assert_eq!(profile.period_type, Some(proto::ValueType { type_: 7, unit: 8 }));
}

#[test]
fn unknown_fields_are_passed_over() {
    let mut bytes = Vec::new();
    prost::encoding::int64::encode(99, &1, &mut bytes);
    prost::encoding::string::encode(100, &"text".to_string(), &mut bytes);
    prost::encoding::fixed64::encode(101, &1, &mut bytes);
    prost::encoding::fixed32::encode(102, &1, &mut bytes);
    prost::encoding::encode_key(103, PbWireType::StartGroup, &mut bytes);
    prost::encoding::int64::encode(1, &1, &mut bytes);
    prost::encoding::encode_key(104, PbWireType::StartGroup, &mut bytes);
    prost::encoding::encode_key(104, PbWireType::EndGroup, &mut bytes);
    prost::encoding::encode_key(103, PbWireType::EndGroup, &mut bytes);
    prost::encoding::int64::encode(12, &5, &mut bytes);
    assert!(compare(&bytes));
    assert_eq!(message::decode::<proto::Profile>(&bytes).unwrap().period, 5);
}

#[test]
fn groups_nest_up_to_the_limit() {
    for depth in [1usize, 2, 98, 99, 100, 101, 102, 150] {
        let mut bytes = Vec::new();
        for _ in 0..depth {
            prost::encoding::encode_key(99, PbWireType::StartGroup, &mut bytes);
        }
        for _ in 0..depth {
            prost::encoding::encode_key(99, PbWireType::EndGroup, &mut bytes);
        }
        assert_eq!(compare(&bytes), depth <= 100, "depth {}", depth);
    }
}

#[test]
fn invalid_varint_is_reported() {
    assert_eq!(error_text(&[0x60]), "failed to decode Protobuf message: Profile.period: invalid varint");
    assert_eq!(error_text(&[0xff]), "failed to decode Protobuf message: invalid varint");
}

#[test]
fn invalid_key_is_reported() {
    assert_eq!(
        error_text(&[0x80, 0x80, 0x80, 0x80, 0x10]),
        "failed to decode Protobuf message: invalid key value: 4294967296"
    );
}

#[test]
fn invalid_tag_is_reported() {
    assert_eq!(error_text(&[0x00]), "failed to decode Protobuf message: invalid tag value: 0");
}

#[test]
fn invalid_wire_type_is_reported() {
    assert_eq!(
        error_text(&[0x0f]),
        "failed to decode Protobuf message: invalid wire type value: 7"
    );
}

#[test]
fn unexpected_wire_type_is_reported() {
    assert_eq!(
        error_text(&[0x62, 0x00]),
        "failed to decode Protobuf message: Profile.period: invalid wire type: LengthDelimited (expected Varint)"
    );
}

#[test]
fn buffer_underflow_is_reported() {
    assert_eq!(
        error_text(&[0x0a, 0x05, 0x01]),
        "failed to decode Protobuf message: Profile.sample_type: buffer underflow"
    );
}

#[test]
fn exceeded_length_is_reported() {
    // A value type of one byte whose field runs past its end.
    assert_eq!(
        error_text(&[0x0a, 0x01, 0x08, 0x01]),
        "failed to decode Protobuf message: Profile.sample_type: delimited length exceeded"
    );
}

#[test]
fn unexpected_end_group_is_reported() {
    assert_eq!(
        error_text(&[0x84, 0x7d]),
        "failed to decode Protobuf message: unexpected end group tag"
    );
}

#[test]
fn recursion_limit_is_reported() {
    let mut bytes = Vec::new();
    for _ in 0..101 {
        prost::encoding::encode_key(99, PbWireType::StartGroup, &mut bytes);
    }
    prost::encoding::encode_key(1, PbWireType::Varint, &mut bytes);
    assert_eq!(
        error_text(&bytes),
        "failed to decode Protobuf message: recursion limit reached"
    );
}

#[test]
fn invalid_string_is_reported() {
    assert_eq!(
        error_text(&[0x32, 0x01, 0xff]),
        "failed to decode Protobuf message: Profile.string_table: invalid string value: data is not UTF-8 encoded"
    );
    match message::decode::<proto::Profile>(&[0x32, 0x01, 0xff]) {
        Err(e) => {
            assert_eq!(e.fault, DecodeFault::InvalidString);
            assert_eq!(e.path.len(), 1);
        }
        Ok(_) => panic!("decoded"),
    }
}

#[test]
fn nested_errors_name_every_field() {
    // Profile.sample[0].label[0].num with a wrong wire type.
    assert_eq!(
        error_text(&[0x12, 0x04, 0x1a, 0x02, 0x1a, 0x00]),
        "failed to decode Protobuf message: Label.num: Sample.label: Profile.sample: invalid wire type: LengthDelimited (expected Varint)"
    );
}
