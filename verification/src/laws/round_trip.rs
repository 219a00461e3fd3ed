//! Reading a profile gives back the profile that was written.

use vstd::prelude::*;

use crate::decoded;
use crate::gzip;
use crate::laws::encoding;
use crate::laws::encoding::Written;
use crate::message;
use crate::message::Message;
use crate::proto::{
    Function, Label, Line, Location, LocationView, Mapping, Profile, ProfileView, Sample,
    SampleView, ValueType,
};
use crate::wire;

verus! {

impl Written for ValueType {
    open spec fn nesting() -> nat {
        0
    }

    open spec fn bytes(m: ValueType) -> Seq<u8> {
        encoding::scalar_piece(1, m.type_) + encoding::scalar_piece(2, m.unit)
    }

    proof fn lemma_reads_back(m: ValueType, depth: nat) {
        let m0 = ValueType::blank();
        let m1 = ValueType { type_: m.type_, ..m0 };
        let s1 = encoding::lemma_scalar_step::<ValueType, i64>(m0, 1, m.type_, m1, depth);
        let m2 = ValueType { unit: m.unit, ..m1 };
        let p2 = encoding::lemma_scalar_step::<ValueType, i64>(m1, 2, m.unit, m2, depth);
        encoding::lemma_steps_join::<ValueType>(m0, s1, m1, p2, m2, depth);
    }
}

impl Written for Label {
    open spec fn nesting() -> nat {
        0
    }

    open spec fn bytes(m: Label) -> Seq<u8> {
        encoding::scalar_piece(1, m.key)
            + encoding::scalar_piece(2, m.str)
            + encoding::scalar_piece(3, m.num)
            + encoding::scalar_piece(4, m.num_unit)
    }

    proof fn lemma_reads_back(m: Label, depth: nat) {
        let m0 = Label::blank();
        let m1 = Label { key: m.key, ..m0 };
        let s1 = encoding::lemma_scalar_step::<Label, i64>(m0, 1, m.key, m1, depth);
        let m2 = Label { str: m.str, ..m1 };
        let p2 = encoding::lemma_scalar_step::<Label, i64>(m1, 2, m.str, m2, depth);
        let s2 = encoding::lemma_steps_join::<Label>(m0, s1, m1, p2, m2, depth);
        let m3 = Label { num: m.num, ..m2 };
        let p3 = encoding::lemma_scalar_step::<Label, i64>(m2, 3, m.num, m3, depth);
        let s3 = encoding::lemma_steps_join::<Label>(m0, s2, m2, p3, m3, depth);
        let m4 = Label { num_unit: m.num_unit, ..m3 };
        let p4 = encoding::lemma_scalar_step::<Label, i64>(m3, 4, m.num_unit, m4, depth);
        encoding::lemma_steps_join::<Label>(m0, s3, m3, p4, m4, depth);
    }
}

impl Written for Line {
    open spec fn nesting() -> nat {
        0
    }

    open spec fn bytes(m: Line) -> Seq<u8> {
        encoding::scalar_piece(1, m.function_id)
            + encoding::scalar_piece(2, m.line)
            + encoding::scalar_piece(3, m.column)
    }

    proof fn lemma_reads_back(m: Line, depth: nat) {
        let m0 = Line::blank();
        let m1 = Line { function_id: m.function_id, ..m0 };
        let s1 = encoding::lemma_scalar_step::<Line, u64>(m0, 1, m.function_id, m1, depth);
        let m2 = Line { line: m.line, ..m1 };
        let p2 = encoding::lemma_scalar_step::<Line, i64>(m1, 2, m.line, m2, depth);
        let s2 = encoding::lemma_steps_join::<Line>(m0, s1, m1, p2, m2, depth);
        let m3 = Line { column: m.column, ..m2 };
        let p3 = encoding::lemma_scalar_step::<Line, i64>(m2, 3, m.column, m3, depth);
        encoding::lemma_steps_join::<Line>(m0, s2, m2, p3, m3, depth);
    }
}

impl Written for Mapping {
    open spec fn nesting() -> nat {
        0
    }

    open spec fn bytes(m: Mapping) -> Seq<u8> {
        encoding::scalar_piece(1, m.id)
            + encoding::scalar_piece(2, m.memory_start)
            + encoding::scalar_piece(3, m.memory_limit)
            + encoding::scalar_piece(4, m.file_offset)
            + encoding::scalar_piece(5, m.filename)
            + encoding::scalar_piece(6, m.build_id)
            + encoding::scalar_piece(7, m.has_functions)
            + encoding::scalar_piece(8, m.has_filenames)
            + encoding::scalar_piece(9, m.has_line_numbers)
            + encoding::scalar_piece(10, m.has_inline_frames)
    }

    proof fn lemma_reads_back(m: Mapping, depth: nat) {
        let m0 = Mapping::blank();
        let m1 = Mapping { id: m.id, ..m0 };
        let s1 = encoding::lemma_scalar_step::<Mapping, u64>(m0, 1, m.id, m1, depth);
        let m2 = Mapping { memory_start: m.memory_start, ..m1 };
        let p2 = encoding::lemma_scalar_step::<Mapping, u64>(m1, 2, m.memory_start, m2, depth);
        let s2 = encoding::lemma_steps_join::<Mapping>(m0, s1, m1, p2, m2, depth);
        let m3 = Mapping { memory_limit: m.memory_limit, ..m2 };
        let p3 = encoding::lemma_scalar_step::<Mapping, u64>(m2, 3, m.memory_limit, m3, depth);
        let s3 = encoding::lemma_steps_join::<Mapping>(m0, s2, m2, p3, m3, depth);
        let m4 = Mapping { file_offset: m.file_offset, ..m3 };
        let p4 = encoding::lemma_scalar_step::<Mapping, u64>(m3, 4, m.file_offset, m4, depth);
        let s4 = encoding::lemma_steps_join::<Mapping>(m0, s3, m3, p4, m4, depth);
        let m5 = Mapping { filename: m.filename, ..m4 };
        let p5 = encoding::lemma_scalar_step::<Mapping, i64>(m4, 5, m.filename, m5, depth);
        let s5 = encoding::lemma_steps_join::<Mapping>(m0, s4, m4, p5, m5, depth);
        let m6 = Mapping { build_id: m.build_id, ..m5 };
        let p6 = encoding::lemma_scalar_step::<Mapping, i64>(m5, 6, m.build_id, m6, depth);
        let s6 = encoding::lemma_steps_join::<Mapping>(m0, s5, m5, p6, m6, depth);
        let m7 = Mapping { has_functions: m.has_functions, ..m6 };
        let p7 = encoding::lemma_scalar_step::<Mapping, bool>(m6, 7, m.has_functions, m7, depth);
        let s7 = encoding::lemma_steps_join::<Mapping>(m0, s6, m6, p7, m7, depth);
        let m8 = Mapping { has_filenames: m.has_filenames, ..m7 };
        let p8 = encoding::lemma_scalar_step::<Mapping, bool>(m7, 8, m.has_filenames, m8, depth);
        let s8 = encoding::lemma_steps_join::<Mapping>(m0, s7, m7, p8, m8, depth);
        let m9 = Mapping { has_line_numbers: m.has_line_numbers, ..m8 };
        let p9 = encoding::lemma_scalar_step::<Mapping, bool>(m8, 9, m.has_line_numbers, m9, depth);
        let s9 = encoding::lemma_steps_join::<Mapping>(m0, s8, m8, p9, m9, depth);
        let m10 = Mapping { has_inline_frames: m.has_inline_frames, ..m9 };
        let p10 = encoding::lemma_scalar_step::<Mapping, bool>(
            m9,
            10,
            m.has_inline_frames,
            m10,
            depth,
        );
        encoding::lemma_steps_join::<Mapping>(m0, s9, m9, p10, m10, depth);
    }
}

impl Written for Function {
    open spec fn nesting() -> nat {
        0
    }

    open spec fn bytes(m: Function) -> Seq<u8> {
        encoding::scalar_piece(1, m.id)
            + encoding::scalar_piece(2, m.name)
            + encoding::scalar_piece(3, m.system_name)
            + encoding::scalar_piece(4, m.filename)
            + encoding::scalar_piece(5, m.start_line)
    }

    proof fn lemma_reads_back(m: Function, depth: nat) {
        let m0 = Function::blank();
        let m1 = Function { id: m.id, ..m0 };
        let s1 = encoding::lemma_scalar_step::<Function, u64>(m0, 1, m.id, m1, depth);
        let m2 = Function { name: m.name, ..m1 };
        let p2 = encoding::lemma_scalar_step::<Function, i64>(m1, 2, m.name, m2, depth);
        let s2 = encoding::lemma_steps_join::<Function>(m0, s1, m1, p2, m2, depth);
        let m3 = Function { system_name: m.system_name, ..m2 };
        let p3 = encoding::lemma_scalar_step::<Function, i64>(m2, 3, m.system_name, m3, depth);
        let s3 = encoding::lemma_steps_join::<Function>(m0, s2, m2, p3, m3, depth);
        let m4 = Function { filename: m.filename, ..m3 };
        let p4 = encoding::lemma_scalar_step::<Function, i64>(m3, 4, m.filename, m4, depth);
        let s4 = encoding::lemma_steps_join::<Function>(m0, s3, m3, p4, m4, depth);
        let m5 = Function { start_line: m.start_line, ..m4 };
        let p5 = encoding::lemma_scalar_step::<Function, i64>(m4, 5, m.start_line, m5, depth);
        encoding::lemma_steps_join::<Function>(m0, s4, m4, p5, m5, depth);
    }
}

impl Written for Sample {
    open spec fn nesting() -> nat {
        1
    }

    open spec fn bytes(m: SampleView) -> Seq<u8> {
        encoding::packed_piece(1, m.location_id)
            + encoding::packed_piece(2, m.value)
            + encoding::message_list_piece::<Label>(3, m.label)
    }

    proof fn lemma_reads_back(m: SampleView, depth: nat) {
        let m0 = Sample::blank();
        let m1 = SampleView { location_id: m.location_id, ..m0 };
        assert(m.location_id.len() == 0 ==> m.location_id =~= seq![]);
        let s1 = encoding::lemma_packed_step::<Sample, u64>(m0, 1, m.location_id, m1, depth);
        let m2 = SampleView { value: m.value, ..m1 };
        assert(m.value.len() == 0 ==> m.value =~= seq![]);
        let p2 = encoding::lemma_packed_step::<Sample, i64>(m1, 2, m.value, m2, depth);
        let s2 = encoding::lemma_steps_join::<Sample>(m0, s1, m1, p2, m2, depth);
        let with3 = |list: Seq<Label>| SampleView { label: list, ..m2 };
        let m3 = with3(m.label);
        assert(with3(seq![]) == m2);
        let p3 = encoding::lemma_message_list_step::<Sample, Label>(with3, 3, m.label, depth);
        encoding::lemma_steps_join::<Sample>(m0, s2, m2, p3, m3, depth);
    }
}

impl Written for Location {
    open spec fn nesting() -> nat {
        1
    }

    open spec fn bytes(m: LocationView) -> Seq<u8> {
        encoding::scalar_piece(1, m.id)
            + encoding::scalar_piece(2, m.mapping_id)
            + encoding::scalar_piece(3, m.address)
            + encoding::message_list_piece::<Line>(4, m.line)
            + encoding::scalar_piece(5, m.is_folded)
    }

    proof fn lemma_reads_back(m: LocationView, depth: nat) {
        let m0 = Location::blank();
        let m1 = LocationView { id: m.id, ..m0 };
        let s1 = encoding::lemma_scalar_step::<Location, u64>(m0, 1, m.id, m1, depth);
        let m2 = LocationView { mapping_id: m.mapping_id, ..m1 };
        let p2 = encoding::lemma_scalar_step::<Location, u64>(m1, 2, m.mapping_id, m2, depth);
        let s2 = encoding::lemma_steps_join::<Location>(m0, s1, m1, p2, m2, depth);
        let m3 = LocationView { address: m.address, ..m2 };
        let p3 = encoding::lemma_scalar_step::<Location, u64>(m2, 3, m.address, m3, depth);
        let s3 = encoding::lemma_steps_join::<Location>(m0, s2, m2, p3, m3, depth);
        let with4 = |list: Seq<Line>| LocationView { line: list, ..m3 };
        let m4 = with4(m.line);
        assert(with4(seq![]) == m3);
        let p4 = encoding::lemma_message_list_step::<Location, Line>(with4, 4, m.line, depth);
        let s4 = encoding::lemma_steps_join::<Location>(m0, s3, m3, p4, m4, depth);
        let m5 = LocationView { is_folded: m.is_folded, ..m4 };
        let p5 = encoding::lemma_scalar_step::<Location, bool>(m4, 5, m.is_folded, m5, depth);
        encoding::lemma_steps_join::<Location>(m0, s4, m4, p5, m5, depth);
    }
}

impl Written for Profile {
    open spec fn nesting() -> nat {
        2
    }

    open spec fn bytes(m: ProfileView) -> Seq<u8> {
        encoding::message_list_piece::<ValueType>(1, m.sample_type)
            + encoding::message_list_piece::<Sample>(2, m.sample)
            + encoding::message_list_piece::<Mapping>(3, m.mapping)
            + encoding::message_list_piece::<Location>(4, m.location)
            + encoding::message_list_piece::<Function>(5, m.function)
            + encoding::text_list_piece(6, m.string_table)
            + encoding::scalar_piece(7, m.drop_frames)
            + encoding::scalar_piece(8, m.keep_frames)
            + encoding::scalar_piece(9, m.time_nanos)
            + encoding::scalar_piece(10, m.duration_nanos)
            + encoding::optional_piece::<ValueType>(11, m.period_type)
            + encoding::scalar_piece(12, m.period)
            + encoding::packed_piece(13, m.comment)
            + encoding::scalar_piece(14, m.default_sample_type)
            + encoding::scalar_piece(15, m.doc_url)
    }

    #[verifier::rlimit(50)]
    #[verifier::spinoff_prover]
    proof fn lemma_reads_back(m: ProfileView, depth: nat) {
        let m0 = Profile::blank();
        let with1 = |list: Seq<ValueType>| ProfileView { sample_type: list, ..m0 };
        let m1 = with1(m.sample_type);
        assert(with1(seq![]) == m0);
        let s1 = encoding::lemma_message_list_step::<Profile, ValueType>(
            with1,
            1,
            m.sample_type,
            depth,
        );
        let with2 = |list: Seq<SampleView>| ProfileView { sample: list, ..m1 };
        let m2 = with2(m.sample);
        assert(with2(seq![]) == m1);
        let p2 = encoding::lemma_message_list_step::<Profile, Sample>(with2, 2, m.sample, depth);
        let s2 = encoding::lemma_steps_join::<Profile>(m0, s1, m1, p2, m2, depth);
        let with3 = |list: Seq<Mapping>| ProfileView { mapping: list, ..m2 };
        let m3 = with3(m.mapping);
        assert(with3(seq![]) == m2);
        let p3 = encoding::lemma_message_list_step::<Profile, Mapping>(with3, 3, m.mapping, depth);
        let s3 = encoding::lemma_steps_join::<Profile>(m0, s2, m2, p3, m3, depth);
        let with4 = |list: Seq<LocationView>| ProfileView { location: list, ..m3 };
        let m4 = with4(m.location);
        assert(with4(seq![]) == m3);
        let p4 = encoding::lemma_message_list_step::<Profile, Location>(
            with4,
            4,
            m.location,
            depth,
        );
        let s4 = encoding::lemma_steps_join::<Profile>(m0, s3, m3, p4, m4, depth);
        let with5 = |list: Seq<Function>| ProfileView { function: list, ..m4 };
        let m5 = with5(m.function);
        assert(with5(seq![]) == m4);
        let p5 = encoding::lemma_message_list_step::<Profile, Function>(
            with5,
            5,
            m.function,
            depth,
        );
        let s5 = encoding::lemma_steps_join::<Profile>(m0, s4, m4, p5, m5, depth);
        let with6 = |list: Seq<Seq<char>>| ProfileView { string_table: list, ..m5 };
        let m6 = with6(m.string_table);
        assert(with6(seq![]) == m5);
        let p6 = encoding::lemma_text_list_step::<Profile>(with6, 6, m.string_table, depth);
        let s6 = encoding::lemma_steps_join::<Profile>(m0, s5, m5, p6, m6, depth);
        let m7 = ProfileView { drop_frames: m.drop_frames, ..m6 };
        let p7 = encoding::lemma_scalar_step::<Profile, i64>(m6, 7, m.drop_frames, m7, depth);
        let s7 = encoding::lemma_steps_join::<Profile>(m0, s6, m6, p7, m7, depth);
        let m8 = ProfileView { keep_frames: m.keep_frames, ..m7 };
        let p8 = encoding::lemma_scalar_step::<Profile, i64>(m7, 8, m.keep_frames, m8, depth);
        let s8 = encoding::lemma_steps_join::<Profile>(m0, s7, m7, p8, m8, depth);
        let m9 = ProfileView { time_nanos: m.time_nanos, ..m8 };
        let p9 = encoding::lemma_scalar_step::<Profile, i64>(m8, 9, m.time_nanos, m9, depth);
        let s9 = encoding::lemma_steps_join::<Profile>(m0, s8, m8, p9, m9, depth);
        let m10 = ProfileView { duration_nanos: m.duration_nanos, ..m9 };
        let p10 = encoding::lemma_scalar_step::<Profile, i64>(m9, 10, m.duration_nanos, m10, depth);
        let s10 = encoding::lemma_steps_join::<Profile>(m0, s9, m9, p10, m10, depth);
        let m11 = ProfileView { period_type: m.period_type, ..m10 };
        let p11 = encoding::lemma_optional_step::<Profile, ValueType>(
            m10,
            11,
            m.period_type,
            m11,
            depth,
        );
        let s11 = encoding::lemma_steps_join::<Profile>(m0, s10, m10, p11, m11, depth);
        let m12 = ProfileView { period: m.period, ..m11 };
        let p12 = encoding::lemma_scalar_step::<Profile, i64>(m11, 12, m.period, m12, depth);
        let s12 = encoding::lemma_steps_join::<Profile>(m0, s11, m11, p12, m12, depth);
        let m13 = ProfileView { comment: m.comment, ..m12 };
        assert(m.comment.len() == 0 ==> m.comment =~= seq![]);
        let p13 = encoding::lemma_packed_step::<Profile, i64>(m12, 13, m.comment, m13, depth);
        let s13 = encoding::lemma_steps_join::<Profile>(m0, s12, m12, p13, m13, depth);
        let m14 = ProfileView { default_sample_type: m.default_sample_type, ..m13 };
        let p14 = encoding::lemma_scalar_step::<Profile, i64>(
            m13,
            14,
            m.default_sample_type,
            m14,
            depth,
        );
        let s14 = encoding::lemma_steps_join::<Profile>(m0, s13, m13, p14, m14, depth);
        let m15 = ProfileView { doc_url: m.doc_url, ..m14 };
        let p15 = encoding::lemma_scalar_step::<Profile, i64>(m14, 15, m.doc_url, m15, depth);
        encoding::lemma_steps_join::<Profile>(m0, s14, m14, p15, m15, depth);
    }
}

/// A profile on the wire.
pub open spec fn profile_bytes(p: ProfileView) -> Seq<u8> {
    Profile::bytes(p)
}

/// Reading a written profile gives the profile.
pub proof fn law_raw_profiles_read_back(p: ProfileView)
    requires
        profile_bytes(p).len() <= u64::MAX,
    ensures
        decoded::raw_profile(profile_bytes(p)) == Ok::<ProfileView, decoded::PprofErrorView>(p),
{
    let depth = message::RECURSION_LIMIT as nat;
    let none = Seq::<u8>::empty();
    Profile::lemma_reads_back(p, depth);
    assert(profile_bytes(p) + none =~= profile_bytes(p));
    assert(message::fields::<Profile>(Profile::blank(), profile_bytes(p) + none, 0, depth)
        == message::fields::<Profile>(p, none, 0, depth));
}

/// No message starts as a gzip file does.
proof fn lemma_messages_are_not_gzip(raw: Seq<u8>)
    requires
        gzip::has_gzip_magic(raw),
    ensures
        decoded::raw_profile(raw) is Err,
{
    assert(wire::leb128(raw, 10) == Some((0x1fnat, 1nat)));
    assert(wire::key(raw) is Err);
}

/// Decoding the bytes of a profile gives the profile, and so does decoding a gzip file that
/// holds them. The bytes of a profile without any field are no bytes at all: on their own they
/// are refused as empty.
pub proof fn law_profiles_read_back(p: ProfileView, wrapped: Seq<u8>)
    requires
        profile_bytes(p).len() <= u64::MAX,
    ensures
        profile_bytes(p).len() > 0 ==> decoded::profile_in(profile_bytes(p)) == Ok::<
            ProfileView,
            decoded::PprofErrorView,
        >(p),
        gzip::has_gzip_magic(wrapped) && gzip::gzip_contents(wrapped) == Ok::<
            Seq<u8>,
            Seq<char>,
        >(profile_bytes(p)) ==> decoded::profile_in(wrapped) == Ok::<
            ProfileView,
            decoded::PprofErrorView,
        >(p),
{
    law_raw_profiles_read_back(p);
    if gzip::has_gzip_magic(profile_bytes(p)) {
        lemma_messages_are_not_gzip(profile_bytes(p));
    }
}

} // verus!
