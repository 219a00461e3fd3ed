//! A decoded profile and its tables.

use std::collections::HashMap;

use vstd::prelude::*;
use vstd::string::*;

use crate::flatten;
use crate::gzip;
use crate::message;
use crate::message::{Message, MessageError, MessageErrorView};
use crate::proto;
use crate::proto::{Function, Label, Line, Location, LocationView, Profile, ProfileView, Sample};
use crate::rows::{
    Frame, FunctionRow, LineRef, LocationRow, MappingRow, Meta, SampleRow, StackRow, ValueType,
};
use crate::text;
use crate::wire::WireType;

verus! {

/// Why bytes are not a profile.
#[derive(Debug)]
pub enum PprofError {
    /// There are no bytes.
    Empty,
    /// The gzip wrapper could not be inflated, for this reason.
    Gunzip(String),
    /// The contents are not a `profile.proto` message.
    Decode(MessageError),
}

/// The value of a [`PprofError`].
pub enum PprofErrorView {
    Empty,
    Gunzip(Seq<char>),
    Decode(MessageErrorView),
}

impl DeepView for PprofError {
    type V = PprofErrorView;

    open spec fn deep_view(&self) -> PprofErrorView {
        match self {
            PprofError::Empty => PprofErrorView::Empty,
            PprofError::Gunzip(reason) => PprofErrorView::Gunzip(reason@),
            PprofError::Decode(error) => PprofErrorView::Decode(error.deep_view()),
        }
    }
}

/// A decode failure in words.
pub open spec fn pprof_error_text(error: PprofErrorView) -> Seq<char> {
    match error {
        PprofErrorView::Empty => "empty profile (zero bytes)"@,
        PprofErrorView::Gunzip(reason) => "gzip decompression failed: "@ + reason,
        PprofErrorView::Decode(error) => "pprof protobuf decode failed: "@
            + message::message_error_text(error),
    }
}

impl PprofError {
    /// The failure in words.
    pub fn to_string(&self) -> (res: String)
        ensures
            res@ == pprof_error_text(self.deep_view()),
    {
        let mut out = String::new();
        match self {
            PprofError::Empty => {
                out.append("empty profile (zero bytes)");
            },
            PprofError::Gunzip(reason) => {
                out.append("gzip decompression failed: ");
                out.append(reason.as_str());
            },
            PprofError::Decode(error) => {
                out.append("pprof protobuf decode failed: ");
                out.append(error.to_string().as_str());
            },
        }
        assert(out@ =~= pprof_error_text(self.deep_view()));
        out
    }
}

/// The profile that the bytes of an uncompressed message are.
pub open spec fn raw_profile(raw: Seq<u8>) -> Result<ProfileView, PprofErrorView> {
    match message::message_of::<Profile>(raw) {
        Ok(p) => Ok(p),
        Err(error) => Err(PprofErrorView::Decode(error)),
    }
}

/// The profile that an attempt to inflate gzip bytes leads to.
pub open spec fn inflated_profile(contents: Result<Seq<u8>, Seq<char>>) -> Result<
    ProfileView,
    PprofErrorView,
> {
    match contents {
        Ok(raw) => raw_profile(raw),
        Err(reason) => Err(PprofErrorView::Gunzip(reason)),
    }
}

/// The profile that bytes hold, gzip-wrapped or not.
pub open spec fn profile_in(bytes: Seq<u8>) -> Result<ProfileView, PprofErrorView> {
    if bytes.len() == 0 {
        Err(PprofErrorView::Empty)
    } else if gzip::has_gzip_magic(bytes) {
        inflated_profile(gzip::gzip_contents(bytes))
    } else {
        raw_profile(bytes)
    }
}

/// Whether `index` leads from each id to the last position at which it stands.
pub open spec fn indexes(index: Map<u64, usize>, ids: Seq<u64>) -> bool {
    forall|id: u64|
        #![trigger index.contains_key(id)]
        #![trigger flatten::last_position(ids, id)]
        match flatten::last_position(ids, id) {
            Some(i) => index.contains_key(id) && index[id] == i,
            None => !index.contains_key(id),
        }
}

proof fn lemma_index_step(index: Map<u64, usize>, ids: Seq<u64>, id: u64, i: usize)
    requires
        indexes(index, ids),
        i == ids.len(),
    ensures
        indexes(index.insert(id, i), ids.push(id)),
{
    assert(ids.push(id).drop_last() =~= ids);
    assert forall|other: u64|
        match #[trigger] flatten::last_position(ids.push(id), other) {
            Some(j) => index.insert(id, i).contains_key(other) && index.insert(id, i)[other] == j,
            None => !index.insert(id, i).contains_key(other),
        } by {
        assert(flatten::last_position(ids, other) is Some || flatten::last_position(
            ids,
            other,
        ) is None);
    }
}

/// A position at which an id stands lies within the ids, and the id stands there.
pub proof fn lemma_last_position(ids: Seq<u64>, id: u64)
    ensures
        flatten::last_position(ids, id) matches Some(i) ==> 0 <= i < ids.len() && ids[i] == id,
    decreases ids.len(),
{
    if ids.len() > 0 {
        lemma_last_position(ids.drop_last(), id);
    }
}

/// A field of a profile adds at most one sample.
proof fn lemma_sample_growth(m: ProfileView, tag: u32, wire_type: WireType, s: Seq<u8>, depth: nat)
    ensures
        Profile::field(m, tag, wire_type, s, depth) matches Ok((next, _)) ==> next.sample.len()
            <= m.sample.len() + 1,
{
}

/// Each sample of a profile takes at least two bytes of the message.
proof fn lemma_sample_count(raw: Seq<u8>)
    ensures
        raw_profile(raw) matches Ok(p) ==> 2 * p.sample.len() <= raw.len(),
{
    let size = |p: ProfileView| p.sample.len();
    assert forall|m: ProfileView, tag: u32, wire_type: WireType, s: Seq<u8>, depth: nat|
        (#[trigger] Profile::field(m, tag, wire_type, s, depth) matches Ok((next, _)) ==> size(next)
            <= size(m) + 1) by {
        lemma_sample_growth(m, tag, wire_type, s, depth);
    }
    message::lemma_fields_size::<Profile>(
        size,
        Profile::blank(),
        raw,
        0,
        message::RECURSION_LIMIT as nat,
    );
}

/// A decoded profile, with its locations and functions found by id.
pub struct Decoded {
    profile: Profile,
    loc_by_id: HashMap<u64, usize>,
    fn_by_id: HashMap<u64, usize>,
}

impl View for Decoded {
    type V = ProfileView;

    closed spec fn view(&self) -> ProfileView {
        self.profile.deep_view()
    }
}

/// Something that is found by its id.
trait Identified: DeepView + Sized {
    /// The id.
    spec fn id_of(value: Self::V) -> u64;

    fn id(&self) -> (res: u64)
        ensures
            res == Self::id_of(self.deep_view()),
    ;
}

impl Identified for Location {
    spec fn id_of(value: LocationView) -> u64 {
        value.id
    }

    fn id(&self) -> (res: u64) {
        self.id
    }
}

impl Identified for Function {
    spec fn id_of(value: Function) -> u64 {
        value.id
    }

    fn id(&self) -> (res: u64) {
        self.id
    }
}

/// Where each id of a list was last seen.
fn index_by_id<T: Identified>(items: &Vec<T>) -> (index: HashMap<u64, usize>)
    ensures
        indexes(
            index@,
            Seq::new(items@.len(), |i: int| T::id_of(items.deep_view()[i])),
        ),
{
    broadcast use vstd::std_specs::hash::group_hash_axioms;

    let mut index: HashMap<u64, usize> = HashMap::new();
    let ghost ids = Seq::new(items@.len(), |i: int| T::id_of(items.deep_view()[i]));
    for i in 0..items.len()
        invariant
            ids == Seq::new(items@.len(), |i: int| T::id_of(items.deep_view()[i])),
            indexes(index@, ids.take(i as int)),
    {
        proof {
            lemma_index_step(index@, ids.take(i as int), ids[i as int], i);
            assert(ids.take(i + 1) =~= ids.take(i as int).push(ids[i as int]));
        }
        index.insert(items[i].id(), i);
    }
    assert(ids.take(items.len() as int) =~= ids);
    index
}

impl Decoded {
    #[verifier::type_invariant]
    spec fn well_formed(&self) -> bool {
        &&& indexes(self.loc_by_id@, flatten::location_ids(self@.location))
        &&& indexes(self.fn_by_id@, flatten::function_ids(self@.function))
        &&& self@.sample.len() <= i64::MAX
    }

    /// Decodes an uncompressed profile.
    pub fn from_raw(raw: &[u8]) -> (res: Result<Decoded, PprofError>)
        ensures
            match raw_profile(raw@) {
                Ok(p) => res matches Ok(d) && d@ == p,
                Err(error) => res matches Err(e) && e.deep_view() == error,
            },
    {
        let profile: Profile = match message::decode(raw) {
            Ok(profile) => profile,
            Err(error) => {
                return Err(PprofError::Decode(error));
            },
        };
        proof {
            lemma_sample_count(raw@);
            assert(raw.len() <= usize::MAX);
        }
        let loc_by_id = index_by_id(&profile.location);
        let fn_by_id = index_by_id(&profile.function);
        proof {
            let p = profile.deep_view();
            assert(flatten::location_ids(p.location) =~= Seq::new(
                p.location.len(),
                |i: int| Location::id_of(p.location[i]),
            ));
            assert(flatten::function_ids(p.function) =~= Seq::new(
                p.function.len(),
                |i: int| Function::id_of(p.function[i]),
            ));
        }
        Ok(Decoded { profile, loc_by_id, fn_by_id })
    }

    /// Decodes what the attempt to inflate a gzip-wrapped profile gave.
    pub fn from_inflated(contents: Result<Vec<u8>, String>) -> (res: Result<Decoded, PprofError>)
        ensures
            match inflated_profile(gzip::contents_value(contents)) {
                Ok(p) => res matches Ok(d) && d@ == p,
                Err(error) => res matches Err(e) && e.deep_view() == error,
            },
    {
        match contents {
            Ok(raw) => Decoded::from_raw(raw.as_slice()),
            Err(reason) => Err(PprofError::Gunzip(reason)),
        }
    }

    /// Decodes a profile, gzip-wrapped or not. Bytes that start with the gzip magic are
    /// inflated first.
    pub fn from_bytes(bytes: &[u8]) -> (res: Result<Decoded, PprofError>)
        ensures
            match profile_in(bytes@) {
                Ok(p) => res matches Ok(d) && d@ == p,
                Err(error) => res matches Err(e) && e.deep_view() == error,
            },
    {
        if bytes.len() == 0 {
            return Err(PprofError::Empty);
        }
        if gzip::is_gzip(bytes) {
            let contents = gzip::gunzip(bytes);
            Decoded::from_inflated(contents)
        } else {
            Decoded::from_raw(bytes)
        }
    }

    /// The string at an index of the string table. Index zero, an index outside of the table
    /// and an empty string give `None`.
    pub fn str(&self, index: i64) -> (res: Option<&str>)
        ensures
            match flatten::text_at(self@, index) {
                Some(text) => res matches Some(s) && s@ == text,
                None => res is None,
            },
    {
        if index <= 0 || index as u64 >= self.profile.string_table.len() as u64 {
            return None;
        }
        let s = self.profile.string_table[index as usize].as_str();
        if s.is_empty() {
            None
        } else {
            Some(s)
        }
    }

    fn owned_str(&self, index: i64) -> (res: Option<String>)
        ensures
            res.deep_view() == flatten::text_at(self@, index),
    {
        match self.str(index) {
            Some(s) => Some(s.to_owned()),
            None => None,
        }
    }

    fn str_or_empty(&self, index: i64) -> (res: String)
        ensures
            res@ == flatten::text_or_empty(self@, index),
    {
        match self.str(index) {
            Some(s) => s.to_owned(),
            None => String::new(),
        }
    }

    /// A value type with its strings.
    pub fn value_type(&self, value_type: &proto::ValueType) -> (res: ValueType)
        ensures
            res.deep_view() == flatten::value_type_of(self@, *value_type),
    {
        ValueType {
            type_: self.str_or_empty(value_type.type_),
            unit: self.str_or_empty(value_type.unit),
        }
    }

    fn label_value(&self, label: &Label) -> (res: String)
        ensures
            res@ == flatten::label_text(self@, *label),
    {
        if label.str != 0 {
            return self.str_or_empty(label.str);
        }
        let mut out = String::new();
        text::push_signed(&mut out, label.num);
        assert(out@ =~= text::decimal(label.num as int));
        if let Some(unit) = self.str(label.num_unit) {
            out.append(" ");
            out.append(unit);
        }
        out
    }

    /// The labels of a sample as key and text, the first of each key. A numeric label is
    /// written as its number, and its unit where it has one.
    pub fn labels(&self, sample: &Sample) -> (res: Vec<(String, String)>)
        ensures
            res.deep_view() == flatten::labels_of(self@, sample.deep_view()),
    {
        let mut out: Vec<(String, String)> = Vec::with_capacity(sample.label.len());
        let ghost pairs = flatten::label_pairs(self@, sample.deep_view().label);
        assert(out.deep_view() =~= flatten::first_of_each_key(pairs.take(0)));
        for i in 0..sample.label.len()
            invariant
                pairs == flatten::label_pairs(self@, sample.deep_view().label),
                out.deep_view() == flatten::first_of_each_key(pairs.take(i as int)),
        {
            let label = &sample.label[i];
            let key = self.str_or_empty(label.key);
            assert(pairs.take(i + 1).drop_last() =~= pairs.take(i as int));
            if !key_is_present(&out, &key) {
                let value = self.label_value(label);
                let ghost before = out.deep_view();
                out.push((key, value));
                assert(out.deep_view() =~= before.push(pairs[i as int]));
            }
        }
        assert(pairs.take(sample.label.len() as int) =~= pairs);
        out
    }

    /// Appends the frames of a location. A location without lines, and one that the table
    /// lacks, gives one frame that has only an address.
    pub fn frames_for(&self, location_id: u64, out: &mut Vec<Frame>)
        ensures
            final(out).deep_view() == old(out).deep_view() + flatten::location_frames(
                self@,
                location_id,
            ),
    {
        broadcast use vstd::std_specs::hash::group_hash_axioms;

        proof {
            use_type_invariant(self);
            lemma_last_position(flatten::location_ids(self@.location), location_id);
        }
        let ghost before = out.deep_view();
        let location = match self.loc_by_id.get(&location_id) {
            Some(i) => &self.profile.location[*i],
            None => {
                out.push(Frame { function: None, filename: None, line: None, address: 0 });
                assert(out.deep_view() =~= before + flatten::location_frames(self@, location_id));
                return ;
            },
        };
        if location.line.len() == 0 {
            out.push(
                Frame { function: None, filename: None, line: None, address: location.address },
            );
            assert(out.deep_view() =~= before + flatten::location_frames(self@, location_id));
            return ;
        }
        for i in 0..location.line.len()
            invariant
                flatten::location_at(self@, location_id) == Some(location.deep_view()),
                location.line.len() > 0,
                before == old(out).deep_view(),
                out.deep_view() == before + flatten::location_frames(self@, location_id).take(
                    i as int,
                ),
        {
            let line = location.line[i];
            proof {
                use_type_invariant(self);
                lemma_last_position(flatten::function_ids(self@.function), line.function_id);
            }
            let (function, filename) = match self.fn_by_id.get(&line.function_id) {
                Some(f) => {
                    let f = self.profile.function[*f];
                    (self.owned_str(f.name), self.owned_str(f.filename))
                },
                None => (None, None),
            };
            let ghost frames = flatten::location_frames(self@, location_id);
            let ghost previous = out.deep_view();
            out.push(
                Frame { function, filename, line: Some(line.line), address: location.address },
            );
            assert(out.deep_view() =~= previous.push(frames[i as int]));
            assert(out.deep_view() =~= before + frames.take(i + 1));
        }
        assert(flatten::location_frames(self@, location_id).take(location.line.len() as int)
            =~= flatten::location_frames(self@, location_id));
    }

    /// The metadata of the profile.
    pub fn meta(&self) -> (res: Meta)
        ensures
            res.deep_view() == flatten::meta_of(self@),
    {
        let mut sample_types: Vec<ValueType> = Vec::with_capacity(self.profile.sample_type.len());
        let ghost all = flatten::meta_of(self@).sample_types;
        for i in 0..self.profile.sample_type.len()
            invariant
                all == flatten::meta_of(self@).sample_types,
                sample_types.deep_view() == all.take(i as int),
        {
            let ghost before = sample_types.deep_view();
            sample_types.push(self.value_type(&self.profile.sample_type[i]));
            assert(sample_types.deep_view() =~= before.push(all[i as int]));
            assert(all.take(i + 1) =~= all.take(i as int).push(all[i as int]));
        }
        assert(all.take(self.profile.sample_type.len() as int) =~= all);
        let period_type = match &self.profile.period_type {
            Some(value_type) => Some(self.value_type(value_type)),
            None => None,
        };
        Meta {
            sample_types,
            period: self.profile.period,
            period_type,
            duration_nanos: self.profile.duration_nanos,
            time_nanos: self.profile.time_nanos,
            default_sample_type: self.owned_str(self.profile.default_sample_type),
        }
    }

    fn frames(&self, location_ids: &Vec<u64>) -> (res: Vec<Frame>)
        ensures
            res.deep_view() == flatten::stack_frames(self@, location_ids@),
    {
        let mut frames: Vec<Frame> = Vec::new();
        assert(frames.deep_view() =~= flatten::stack_frames(self@, location_ids@.take(0)));
        for i in 0..location_ids.len()
            invariant
                frames.deep_view() == flatten::stack_frames(self@, location_ids@.take(i as int)),
        {
            self.frames_for(location_ids[i], &mut frames);
            assert(location_ids@.take(i + 1).drop_last() =~= location_ids@.take(i as int));
        }
        assert(location_ids@.take(location_ids.len() as int) =~= location_ids@);
        frames
    }

    /// The samples with their stacks resolved, one row per sample.
    pub fn stacks(&self) -> (res: Vec<StackRow>)
        ensures
            res.deep_view() == flatten::stack_rows(self@),
            self@.sample.len() <= i64::MAX,
    {
        proof {
            use_type_invariant(self);
        }
        let mut rows: Vec<StackRow> = Vec::with_capacity(self.profile.sample.len());
        let ghost all = flatten::stack_rows(self@);
        for i in 0..self.profile.sample.len()
            invariant
                all == flatten::stack_rows(self@),
                self@.sample.len() <= i64::MAX,
                rows.deep_view() == all.take(i as int),
        {
            let sample = &self.profile.sample[i];
            let ghost before = rows.deep_view();
            let value = sample.value.clone();
            assert(value@ =~= sample.value@);
            rows.push(
                StackRow {
                    sample_id: (i as i64) + 1,
                    value,
                    labels: self.labels(sample),
                    frames: self.frames(&sample.location_id),
                },
            );
            assert(rows.deep_view() =~= before.push(all[i as int]));
            assert(all.take(i + 1) =~= all.take(i as int).push(all[i as int]));
        }
        assert(all.take(self.profile.sample.len() as int) =~= all);
        rows
    }

    /// The samples as the profile holds them, one row per sample.
    pub fn samples(&self) -> (res: Vec<SampleRow>)
        ensures
            res.deep_view() == flatten::sample_rows(self@),
            self@.sample.len() <= i64::MAX,
    {
        proof {
            use_type_invariant(self);
        }
        let mut rows: Vec<SampleRow> = Vec::with_capacity(self.profile.sample.len());
        let ghost all = flatten::sample_rows(self@);
        for i in 0..self.profile.sample.len()
            invariant
                all == flatten::sample_rows(self@),
                self@.sample.len() <= i64::MAX,
                rows.deep_view() == all.take(i as int),
        {
            let sample = &self.profile.sample[i];
            let ghost before = rows.deep_view();
            let location_ids = sample.location_id.clone();
            assert(location_ids@ =~= sample.location_id@);
            let value = sample.value.clone();
            assert(value@ =~= sample.value@);
            rows.push(
                SampleRow {
                    sample_id: (i as i64) + 1,
                    location_ids,
                    value,
                    labels: self.labels(sample),
                },
            );
            assert(rows.deep_view() =~= before.push(all[i as int]));
            assert(all.take(i + 1) =~= all.take(i as int).push(all[i as int]));
        }
        assert(all.take(self.profile.sample.len() as int) =~= all);
        rows
    }

    /// The function table.
    pub fn functions(&self) -> (res: Vec<FunctionRow>)
        ensures
            res.deep_view() == flatten::function_rows(self@),
    {
        let mut rows: Vec<FunctionRow> = Vec::with_capacity(self.profile.function.len());
        let ghost all = flatten::function_rows(self@);
        for i in 0..self.profile.function.len()
            invariant
                all == flatten::function_rows(self@),
                rows.deep_view() == all.take(i as int),
        {
            let f = &self.profile.function[i];
            let ghost before = rows.deep_view();
            rows.push(
                FunctionRow {
                    function_id: f.id,
                    name: self.owned_str(f.name),
                    system_name: self.owned_str(f.system_name),
                    filename: self.owned_str(f.filename),
                    start_line: f.start_line,
                },
            );
            assert(rows.deep_view() =~= before.push(all[i as int]));
            assert(all.take(i + 1) =~= all.take(i as int).push(all[i as int]));
        }
        assert(all.take(self.profile.function.len() as int) =~= all);
        rows
    }

    /// The location table.
    pub fn locations(&self) -> (res: Vec<LocationRow>)
        ensures
            res.deep_view() == flatten::location_rows(self@),
    {
        let mut rows: Vec<LocationRow> = Vec::with_capacity(self.profile.location.len());
        let ghost all = flatten::location_rows(self@);
        for i in 0..self.profile.location.len()
            invariant
                all == flatten::location_rows(self@),
                rows.deep_view() == all.take(i as int),
        {
            let location = &self.profile.location[i];
            let ghost before = rows.deep_view();
            let lines = line_refs(&location.line);
            assert(lines@ =~= all[i as int].lines);
            rows.push(
                LocationRow {
                    location_id: location.id,
                    address: location.address,
                    mapping_id: location.mapping_id,
                    lines,
                },
            );
            assert(rows.deep_view() =~= before.push(all[i as int]));
            assert(all.take(i + 1) =~= all.take(i as int).push(all[i as int]));
        }
        assert(all.take(self.profile.location.len() as int) =~= all);
        rows
    }

    /// The mapping table. Build ids are passed on as they are.
    pub fn mappings(&self) -> (res: Vec<MappingRow>)
        ensures
            res.deep_view() == flatten::mapping_rows(self@),
    {
        let mut rows: Vec<MappingRow> = Vec::with_capacity(self.profile.mapping.len());
        let ghost all = flatten::mapping_rows(self@);
        for i in 0..self.profile.mapping.len()
            invariant
                all == flatten::mapping_rows(self@),
                rows.deep_view() == all.take(i as int),
        {
            let mapping = &self.profile.mapping[i];
            let ghost before = rows.deep_view();
            rows.push(
                MappingRow {
                    mapping_id: mapping.id,
                    memory_start: mapping.memory_start,
                    memory_limit: mapping.memory_limit,
                    file_offset: mapping.file_offset,
                    filename: self.owned_str(mapping.filename),
                    build_id: self.owned_str(mapping.build_id),
                },
            );
            assert(rows.deep_view() =~= before.push(all[i as int]));
            assert(all.take(i + 1) =~= all.take(i as int).push(all[i as int]));
        }
        assert(all.take(self.profile.mapping.len() as int) =~= all);
        rows
    }
}

fn line_refs(lines: &Vec<Line>) -> (res: Vec<LineRef>)
    ensures
        res@ == Seq::new(lines@.len(), |i: int| flatten::line_ref(lines@[i])),
{
    let mut refs: Vec<LineRef> = Vec::with_capacity(lines.len());
    for i in 0..lines.len()
        invariant
            refs.len() == i,
            forall|j: int| 0 <= j < i ==> refs@[j] == flatten::line_ref(#[trigger] lines@[j]),
    {
        refs.push(LineRef { function_id: lines[i].function_id, line: lines[i].line });
    }
    refs
}

fn key_is_present(pairs: &Vec<(String, String)>, key: &String) -> (res: bool)
    ensures
        res == flatten::has_key(pairs.deep_view(), key@),
{
    for i in 0..pairs.len()
        invariant
            forall|j: int| 0 <= j < i ==> #[trigger] pairs.deep_view()[j].0 != key@,
    {
        if pairs[i].0 == *key {
            assert(pairs.deep_view()[i as int].0 == key@);
            return true;
        }
    }
    false
}

} // verus!
