//! Laws of the fields of each message: what a field on the wire does to a message that was read
//! so far, wherever the field stands.
//!
//! A number replaces the one before it, an item is added to its list, a message is merged into
//! the one before it, and a field with an unknown number changes nothing.

use vstd::prelude::*;

use crate::laws::encoding;
use crate::laws::encoding::{Travels, Written};
use crate::message;
use crate::message::{Message, MessageErrorView, Scalar};
use crate::proto::{
    Function, Label, Line, Location, LocationView, Mapping, Profile, ProfileView, Sample,
    SampleView, ValueType,
};
use crate::wire;
use crate::wire::{DecodeFault, WireType};

verus! {

/// A number in a field, also where it is zero.
pub open spec fn number<T: Travels>(tag: u32, value: T) -> Seq<u8> {
    encoding::key_bytes(tag, WireType::Varint) + encoding::varint_bytes(value.wire() as nat)
}

/// A field that holds a payload behind its length.
pub open spec fn payload(tag: u32, bytes: Seq<u8>) -> Seq<u8> {
    encoding::key_bytes(tag, WireType::LengthDelimited) + encoding::delimited_bytes(bytes)
}

/// Numbers in one field.
pub open spec fn numbers<T: Travels>(tag: u32, values: Seq<T>) -> Seq<u8> {
    payload(tag, encoding::packed_bytes(values))
}

/// A text in a field.
pub open spec fn string(tag: u32, text: Seq<char>) -> Seq<u8> {
    payload(tag, vstd::utf8::encode_utf8(text))
}

proof fn lemma_number<M: Message, T: Travels>(
    m: M::V,
    tag: u32,
    value: T,
    next: M::V,
    depth: nat,
)
    requires
        0 < tag < 0x2000_0000,
        forall|s: Seq<u8>|
            message::scalar_field::<T>(WireType::Varint, s) matches Ok((v, rest)) ==> v
                == value ==> #[trigger] M::field(m, tag, WireType::Varint, s, depth) == Ok::<
                (M::V, Seq<u8>),
                MessageErrorView,
            >((next, rest)),
    ensures
        encoding::is_step::<M>(m, number(tag, value), next, depth),
{
    let bytes = encoding::varint_bytes(value.wire() as nat);
    assert forall|rest: Seq<u8>|
        #[trigger] M::field(m, tag, WireType::Varint, bytes + rest, depth) == Ok::<
            (M::V, Seq<u8>),
            MessageErrorView,
        >((next, rest)) by {
        encoding::law_varints_read_back(value.wire(), rest);
        value.lemma_wire();
    }
    encoding::lemma_field_is_step::<M>(m, tag, WireType::Varint, bytes, next, depth);
}

proof fn lemma_numbers<M: Message, T: Travels>(
    m: M::V,
    tag: u32,
    list: Seq<T>,
    values: Seq<T>,
    next: M::V,
    depth: nat,
)
    requires
        0 < tag < 0x2000_0000,
        encoding::packed_bytes(values).len() <= u64::MAX,
        forall|s: Seq<u8>|
            message::scalar_list_field(list, WireType::LengthDelimited, s) matches Ok(
                (longer, rest),
            ) ==> longer == list + values ==> #[trigger] M::field(
                m,
                tag,
                WireType::LengthDelimited,
                s,
                depth,
            ) == Ok::<(M::V, Seq<u8>), MessageErrorView>((next, rest)),
    ensures
        encoding::is_step::<M>(m, numbers(tag, values), next, depth),
{
    let packed = encoding::packed_bytes(values);
    let bytes = encoding::delimited_bytes(packed);
    assert forall|rest: Seq<u8>|
        #[trigger] M::field(m, tag, WireType::LengthDelimited, bytes + rest, depth) == Ok::<
            (M::V, Seq<u8>),
            MessageErrorView,
        >((next, rest)) by {
        encoding::lemma_delimited_reads_back(packed, rest);
        encoding::lemma_packed_reads_back(list, values, rest);
    }
    encoding::lemma_field_is_step::<M>(m, tag, WireType::LengthDelimited, bytes, next, depth);
}

proof fn lemma_string<M: Message>(m: M::V, tag: u32, text: Seq<char>, next: M::V, depth: nat)
    requires
        0 < tag < 0x2000_0000,
        vstd::utf8::encode_utf8(text).len() <= u64::MAX,
        forall|s: Seq<u8>|
            message::text_field(WireType::LengthDelimited, s) matches Ok((t, rest)) ==> t
                == text ==> #[trigger] M::field(
                m,
                tag,
                WireType::LengthDelimited,
                s,
                depth,
            ) == Ok::<(M::V, Seq<u8>), MessageErrorView>((next, rest)),
    ensures
        encoding::is_step::<M>(m, string(tag, text), next, depth),
{
    let bytes = encoding::delimited_bytes(vstd::utf8::encode_utf8(text));
    assert forall|rest: Seq<u8>|
        #[trigger] M::field(m, tag, WireType::LengthDelimited, bytes + rest, depth) == Ok::<
            (M::V, Seq<u8>),
            MessageErrorView,
        >((next, rest)) by {
        encoding::lemma_text_reads_back(text, rest);
    }
    encoding::lemma_field_is_step::<M>(m, tag, WireType::LengthDelimited, bytes, next, depth);
}

/// A message whose bytes lead from one message to another is read into it as a field.
proof fn lemma_part<M: Message, E: Message>(
    m: M::V,
    tag: u32,
    from: E::V,
    body: Seq<u8>,
    to: E::V,
    next: M::V,
    depth: nat,
)
    requires
        0 < tag < 0x2000_0000,
        body.len() <= u64::MAX,
        depth > 0,
        encoding::is_step::<E>(from, body, to, (depth - 1) as nat),
        forall|s: Seq<u8>|
            message::message_field::<E>(from, WireType::LengthDelimited, s, depth) matches Ok(
                (v, rest),
            ) ==> v == to ==> #[trigger] M::field(
                m,
                tag,
                WireType::LengthDelimited,
                s,
                depth,
            ) == Ok::<(M::V, Seq<u8>), MessageErrorView>((next, rest)),
    ensures
        encoding::is_step::<M>(m, payload(tag, body), next, depth),
{
    let bytes = encoding::delimited_bytes(body);
    assert forall|rest: Seq<u8>|
        #[trigger] M::field(m, tag, WireType::LengthDelimited, bytes + rest, depth) == Ok::<
            (M::V, Seq<u8>),
            MessageErrorView,
        >((next, rest)) by {
        encoding::lemma_delimited_reads_back(body, rest);
        assert(message::fields::<E>(from, body + rest, rest.len(), (depth - 1) as nat)
            == message::fields::<E>(to, rest, rest.len(), (depth - 1) as nat));
    }
    encoding::lemma_field_is_step::<M>(m, tag, WireType::LengthDelimited, bytes, next, depth);
}

/// Whether a message passes over fields with a number, whatever they hold.
pub open spec fn passes_over<M: Message>(m: M::V, tag: u32, depth: nat) -> bool {
    &&& forall|v: u64| #[trigger] encoding::is_step::<M>(m, number(tag, v), m, depth)
    &&& forall|bytes: Seq<u8>|
        bytes.len() <= u64::MAX ==> #[trigger] encoding::is_step::<M>(
            m,
            payload(tag, bytes),
            m,
            depth,
        )
    &&& forall|bytes: Seq<u8>|
        bytes.len() == 8 ==> #[trigger] encoding::is_step::<M>(
            m,
            encoding::key_bytes(tag, WireType::SixtyFourBit) + bytes,
            m,
            depth,
        )
    &&& forall|bytes: Seq<u8>|
        bytes.len() == 4 ==> #[trigger] encoding::is_step::<M>(
            m,
            encoding::key_bytes(tag, WireType::ThirtyTwoBit) + bytes,
            m,
            depth,
        )
}

proof fn lemma_passes_over<M: Message>(m: M::V, tag: u32, depth: nat)
    requires
        0 < tag < 0x2000_0000,
        depth > 0,
        forall|wire_type: WireType, s: Seq<u8>|
            wire::skip_field_spec(wire_type, tag, s, depth) matches Ok(rest)
                ==> #[trigger] M::field(m, tag, wire_type, s, depth) == Ok::<
                (M::V, Seq<u8>),
                MessageErrorView,
            >((m, rest)),
    ensures
        passes_over::<M>(m, tag, depth),
{
    assert forall|v: u64| #[trigger] encoding::is_step::<M>(m, number(tag, v), m, depth) by {
        let bytes = encoding::varint_bytes(v as nat);
        assert forall|rest: Seq<u8>|
            #[trigger] M::field(m, tag, WireType::Varint, bytes + rest, depth) == Ok::<
                (M::V, Seq<u8>),
                MessageErrorView,
            >((m, rest)) by {
            encoding::law_varints_read_back(v, rest);
            assert(wire::skip_field_spec(WireType::Varint, tag, bytes + rest, depth) is Ok);
        }
        encoding::lemma_field_is_step::<M>(m, tag, WireType::Varint, bytes, m, depth);
    }
    assert forall|body: Seq<u8>| body.len() <= u64::MAX implies #[trigger] encoding::is_step::<M>(
        m,
        payload(tag, body),
        m,
        depth,
    ) by {
        let bytes = encoding::delimited_bytes(body);
        assert forall|rest: Seq<u8>|
            #[trigger] M::field(m, tag, WireType::LengthDelimited, bytes + rest, depth) == Ok::<
                (M::V, Seq<u8>),
                MessageErrorView,
            >((m, rest)) by {
            assert(bytes + rest =~= encoding::varint_bytes(body.len()) + (body + rest));
            encoding::law_varints_read_back(body.len() as u64, body + rest);
            assert((body + rest).skip(body.len() as int) =~= rest);
            assert(wire::skip_field_spec(WireType::LengthDelimited, tag, bytes + rest, depth)
                is Ok);
        }
        encoding::lemma_field_is_step::<M>(m, tag, WireType::LengthDelimited, bytes, m, depth);
    }
    assert forall|bytes: Seq<u8>| bytes.len() == 8 implies #[trigger] encoding::is_step::<M>(
        m,
        encoding::key_bytes(tag, WireType::SixtyFourBit) + bytes,
        m,
        depth,
    ) by {
        assert forall|rest: Seq<u8>|
            #[trigger] M::field(m, tag, WireType::SixtyFourBit, bytes + rest, depth) == Ok::<
                (M::V, Seq<u8>),
                MessageErrorView,
            >((m, rest)) by {
            assert((bytes + rest).skip(8) =~= rest);
            assert(wire::skip_field_spec(WireType::SixtyFourBit, tag, bytes + rest, depth) is Ok);
        }
        encoding::lemma_field_is_step::<M>(m, tag, WireType::SixtyFourBit, bytes, m, depth);
    }
    assert forall|bytes: Seq<u8>| bytes.len() == 4 implies #[trigger] encoding::is_step::<M>(
        m,
        encoding::key_bytes(tag, WireType::ThirtyTwoBit) + bytes,
        m,
        depth,
    ) by {
        assert forall|rest: Seq<u8>|
            #[trigger] M::field(m, tag, WireType::ThirtyTwoBit, bytes + rest, depth) == Ok::<
                (M::V, Seq<u8>),
                MessageErrorView,
            >((m, rest)) by {
            assert((bytes + rest).skip(4) =~= rest);
            assert(wire::skip_field_spec(WireType::ThirtyTwoBit, tag, bytes + rest, depth) is Ok);
        }
        encoding::lemma_field_is_step::<M>(m, tag, WireType::ThirtyTwoBit, bytes, m, depth);
    }
}

/// Whether a field of a message is refused unless it has a wire type, with the name of the
/// message and of the field.
pub open spec fn expects<M: Message>(
    m: M::V,
    tag: u32,
    expected: WireType,
    message: Seq<char>,
    field: Seq<char>,
    depth: nat,
) -> bool {
    forall|actual: WireType, s: Seq<u8>|
        actual != expected ==> #[trigger] M::field(m, tag, actual, s, depth) == Err::<
            (M::V, Seq<u8>),
            MessageErrorView,
        >(
            MessageErrorView {
                fault: DecodeFault::UnexpectedWireType { actual, expected },
                path: seq![(message, field)],
            },
        )
}

/// Whether a fault in the number of a field is told with the name of the message and of the field.
pub open spec fn tells_numbers<M: Message>(
    m: M::V,
    tag: u32,
    message: Seq<char>,
    field: Seq<char>,
    depth: nat,
) -> bool {
    forall|s: Seq<u8>|
        wire::varint(s) is None ==> #[trigger] M::field(m, tag, WireType::Varint, s, depth)
            == Err::<(M::V, Seq<u8>), MessageErrorView>(
            MessageErrorView { fault: DecodeFault::InvalidVarint, path: seq![(message, field)] },
        )
}

/// Whether a fault in a list of numbers is told with the name of the message and of the field,
/// and only single numbers and runs of them are read.
pub open spec fn tells_lists<M: Message, T: Scalar>(
    m: M::V,
    list: Seq<T>,
    tag: u32,
    message: Seq<char>,
    field: Seq<char>,
    depth: nat,
) -> bool {
    &&& tells_numbers::<M>(m, tag, message, field, depth)
    &&& forall|actual: WireType, s: Seq<u8>|
        actual != WireType::Varint && actual != WireType::LengthDelimited
            ==> #[trigger] M::field(m, tag, actual, s, depth) == Err::<
            (M::V, Seq<u8>),
            MessageErrorView,
        >(
            MessageErrorView {
                fault: DecodeFault::UnexpectedWireType { actual, expected: WireType::Varint },
                path: seq![(message, field)],
            },
        )
    &&& forall|s: Seq<u8>|
        message::scalar_list_field(list, WireType::LengthDelimited, s) matches Err(fault)
            ==> #[trigger] M::field(m, tag, WireType::LengthDelimited, s, depth) == Err::<
            (M::V, Seq<u8>),
            MessageErrorView,
        >(MessageErrorView { fault, path: seq![(message, field)] })
}

/// Whether a fault in a string is told with the name of the message and of the field.
pub open spec fn tells_strings<M: Message>(
    m: M::V,
    tag: u32,
    message: Seq<char>,
    field: Seq<char>,
    depth: nat,
) -> bool {
    forall|s: Seq<u8>|
        message::text_field(WireType::LengthDelimited, s) matches Err(fault)
            ==> #[trigger] M::field(m, tag, WireType::LengthDelimited, s, depth) == Err::<
            (M::V, Seq<u8>),
            MessageErrorView,
        >(MessageErrorView { fault, path: seq![(message, field)] })
}

/// Whether an error in a message is told with the name of the outer message and of the field
/// behind the fields that lead to it.
pub open spec fn tells_parts<M: Message, E: Message>(
    m: M::V,
    from: E::V,
    tag: u32,
    message: Seq<char>,
    field: Seq<char>,
    depth: nat,
) -> bool {
    forall|actual: WireType, s: Seq<u8>|
        message::message_field::<E>(from, actual, s, depth) matches Err(error)
            ==> #[trigger] M::field(m, tag, actual, s, depth) == Err::<
            (M::V, Seq<u8>),
            MessageErrorView,
        >(MessageErrorView { fault: error.fault, path: error.path.push((message, field)) })
}

/// What each field on the wire does to a value type.
pub proof fn law_value_type_fields(
    m: ValueType,
    type_: i64,
    unit: i64,
    depth: nat,
)
    ensures
        encoding::is_step::<ValueType>(m, number(1, type_), ValueType { type_, ..m }, depth),
        encoding::is_step::<ValueType>(m, number(2, unit), ValueType { unit, ..m }, depth),
{
    lemma_number::<ValueType, i64>(m, 1, type_, ValueType { type_, ..m }, depth);
    lemma_number::<ValueType, i64>(m, 2, unit, ValueType { unit, ..m }, depth);
}

/// Fields that a value type does not know are passed over.
pub proof fn law_value_type_passes_over_other_fields(m: ValueType, tag: u32, depth: nat)
    requires
        2 < tag < 0x2000_0000,
        depth > 0,
    ensures
        passes_over::<ValueType>(m, tag, depth),
{
    lemma_passes_over::<ValueType>(m, tag, depth);
}

/// A field of a value type that is malformed, or has another wire type, is refused by name.
#[verifier::rlimit(40)]
#[verifier::spinoff_prover]
pub proof fn law_value_type_checks_its_fields(m: ValueType, depth: nat)
    ensures
        tells_numbers::<ValueType>(m, 1, "ValueType"@, "r#type"@, depth),
        tells_numbers::<ValueType>(m, 2, "ValueType"@, "unit"@, depth),
        expects::<ValueType>(m, 1, WireType::Varint, "ValueType"@, "r#type"@, depth),
        expects::<ValueType>(m, 2, WireType::Varint, "ValueType"@, "unit"@, depth),
{
}

/// What each field on the wire does to a sample.
pub proof fn law_sample_fields(
    m: SampleView,
    location_id: Seq<u64>,
    one_location_id: u64,
    value: Seq<i64>,
    one_value: i64,
    label: Label,
    depth: nat,
)
    requires
        depth > 0,
        encoding::packed_bytes(location_id).len() <= u64::MAX,
        encoding::packed_bytes(value).len() <= u64::MAX,
        Label::bytes(label).len() <= u64::MAX,
    ensures
        encoding::is_step::<Sample>(
            m,
            numbers(1, location_id),
            SampleView { location_id: m.location_id + location_id, ..m },
            depth,
        ),
        encoding::is_step::<Sample>(
            m,
            number(1, one_location_id),
            SampleView { location_id: m.location_id.push(one_location_id), ..m },
            depth,
        ),
        encoding::is_step::<Sample>(
            m,
            numbers(2, value),
            SampleView { value: m.value + value, ..m },
            depth,
        ),
        encoding::is_step::<Sample>(
            m,
            number(2, one_value),
            SampleView { value: m.value.push(one_value), ..m },
            depth,
        ),
        encoding::is_step::<Sample>(
            m,
            payload(3, Label::bytes(label)),
            SampleView { label: m.label.push(label), ..m },
            depth,
        ),
{
    lemma_numbers::<Sample, u64>(
        m,
        1,
        m.location_id,
        location_id,
        SampleView { location_id: m.location_id + location_id, ..m },
        depth,
    );
    lemma_number::<Sample, u64>(
        m,
        1,
        one_location_id,
        SampleView { location_id: m.location_id.push(one_location_id), ..m },
        depth,
    );
    lemma_numbers::<Sample, i64>(
        m,
        2,
        m.value,
        value,
        SampleView { value: m.value + value, ..m },
        depth,
    );
    lemma_number::<Sample, i64>(
        m,
        2,
        one_value,
        SampleView { value: m.value.push(one_value), ..m },
        depth,
    );
    Label::lemma_reads_back(label, (depth - 1) as nat);
    lemma_part::<Sample, Label>(
        m,
        3,
        Label::blank(),
        Label::bytes(label),
        label,
        SampleView { label: m.label.push(label), ..m },
        depth,
    );
}

/// Fields that a sample does not know are passed over.
pub proof fn law_sample_passes_over_other_fields(m: SampleView, tag: u32, depth: nat)
    requires
        3 < tag < 0x2000_0000,
        depth > 0,
    ensures
        passes_over::<Sample>(m, tag, depth),
{
    lemma_passes_over::<Sample>(m, tag, depth);
}

/// A field of a sample that is malformed, or has another wire type, is refused by name.
#[verifier::rlimit(40)]
#[verifier::spinoff_prover]
pub proof fn law_sample_checks_its_fields(m: SampleView, depth: nat)
    ensures
        tells_lists::<Sample, u64>(m, m.location_id, 1, "Sample"@, "location_id"@, depth),
        tells_lists::<Sample, i64>(m, m.value, 2, "Sample"@, "value"@, depth),
        tells_parts::<Sample, Label>(m, Label::blank(), 3, "Sample"@, "label"@, depth),
{
}

/// What each field on the wire does to a label.
pub proof fn law_label_fields(
    m: Label,
    key: i64,
    str: i64,
    num: i64,
    num_unit: i64,
    depth: nat,
)
    ensures
        encoding::is_step::<Label>(m, number(1, key), Label { key, ..m }, depth),
        encoding::is_step::<Label>(m, number(2, str), Label { str, ..m }, depth),
        encoding::is_step::<Label>(m, number(3, num), Label { num, ..m }, depth),
        encoding::is_step::<Label>(m, number(4, num_unit), Label { num_unit, ..m }, depth),
{
    lemma_number::<Label, i64>(m, 1, key, Label { key, ..m }, depth);
    lemma_number::<Label, i64>(m, 2, str, Label { str, ..m }, depth);
    lemma_number::<Label, i64>(m, 3, num, Label { num, ..m }, depth);
    lemma_number::<Label, i64>(m, 4, num_unit, Label { num_unit, ..m }, depth);
}

/// Fields that a label does not know are passed over.
pub proof fn law_label_passes_over_other_fields(m: Label, tag: u32, depth: nat)
    requires
        4 < tag < 0x2000_0000,
        depth > 0,
    ensures
        passes_over::<Label>(m, tag, depth),
{
    lemma_passes_over::<Label>(m, tag, depth);
}

/// A field of a label that is malformed, or has another wire type, is refused by name.
#[verifier::rlimit(40)]
#[verifier::spinoff_prover]
pub proof fn law_label_checks_its_fields(m: Label, depth: nat)
    ensures
        tells_numbers::<Label>(m, 1, "Label"@, "key"@, depth),
        tells_numbers::<Label>(m, 2, "Label"@, "str"@, depth),
        tells_numbers::<Label>(m, 3, "Label"@, "num"@, depth),
        tells_numbers::<Label>(m, 4, "Label"@, "num_unit"@, depth),
        expects::<Label>(m, 1, WireType::Varint, "Label"@, "key"@, depth),
        expects::<Label>(m, 2, WireType::Varint, "Label"@, "str"@, depth),
        expects::<Label>(m, 3, WireType::Varint, "Label"@, "num"@, depth),
        expects::<Label>(m, 4, WireType::Varint, "Label"@, "num_unit"@, depth),
{
}

/// What each field on the wire does to a mapping.
pub proof fn law_mapping_fields(
    m: Mapping,
    id: u64,
    memory_start: u64,
    memory_limit: u64,
    file_offset: u64,
    filename: i64,
    build_id: i64,
    has_functions: bool,
    has_filenames: bool,
    has_line_numbers: bool,
    has_inline_frames: bool,
    depth: nat,
)
    ensures
        encoding::is_step::<Mapping>(m, number(1, id), Mapping { id, ..m }, depth),
        encoding::is_step::<Mapping>(
            m,
            number(2, memory_start),
            Mapping { memory_start, ..m },
            depth,
        ),
        encoding::is_step::<Mapping>(
            m,
            number(3, memory_limit),
            Mapping { memory_limit, ..m },
            depth,
        ),
        encoding::is_step::<Mapping>(
            m,
            number(4, file_offset),
            Mapping { file_offset, ..m },
            depth,
        ),
        encoding::is_step::<Mapping>(m, number(5, filename), Mapping { filename, ..m }, depth),
        encoding::is_step::<Mapping>(m, number(6, build_id), Mapping { build_id, ..m }, depth),
        encoding::is_step::<Mapping>(
            m,
            number(7, has_functions),
            Mapping { has_functions, ..m },
            depth,
        ),
        encoding::is_step::<Mapping>(
            m,
            number(8, has_filenames),
            Mapping { has_filenames, ..m },
            depth,
        ),
        encoding::is_step::<Mapping>(
            m,
            number(9, has_line_numbers),
            Mapping { has_line_numbers, ..m },
            depth,
        ),
        encoding::is_step::<Mapping>(
            m,
            number(10, has_inline_frames),
            Mapping { has_inline_frames, ..m },
            depth,
        ),
{
    lemma_number::<Mapping, u64>(m, 1, id, Mapping { id, ..m }, depth);
    lemma_number::<Mapping, u64>(m, 2, memory_start, Mapping { memory_start, ..m }, depth);
    lemma_number::<Mapping, u64>(m, 3, memory_limit, Mapping { memory_limit, ..m }, depth);
    lemma_number::<Mapping, u64>(m, 4, file_offset, Mapping { file_offset, ..m }, depth);
    lemma_number::<Mapping, i64>(m, 5, filename, Mapping { filename, ..m }, depth);
    lemma_number::<Mapping, i64>(m, 6, build_id, Mapping { build_id, ..m }, depth);
    lemma_number::<Mapping, bool>(m, 7, has_functions, Mapping { has_functions, ..m }, depth);
    lemma_number::<Mapping, bool>(m, 8, has_filenames, Mapping { has_filenames, ..m }, depth);
    lemma_number::<Mapping, bool>(m, 9, has_line_numbers, Mapping { has_line_numbers, ..m }, depth);
    lemma_number::<Mapping, bool>(
        m,
        10,
        has_inline_frames,
        Mapping { has_inline_frames, ..m },
        depth,
    );
}

/// Fields that a mapping does not know are passed over.
pub proof fn law_mapping_passes_over_other_fields(m: Mapping, tag: u32, depth: nat)
    requires
        10 < tag < 0x2000_0000,
        depth > 0,
    ensures
        passes_over::<Mapping>(m, tag, depth),
{
    lemma_passes_over::<Mapping>(m, tag, depth);
}

/// A field of a mapping that is malformed, or has another wire type, is refused by name.
#[verifier::rlimit(40)]
#[verifier::spinoff_prover]
pub proof fn law_mapping_checks_its_fields(m: Mapping, depth: nat)
    ensures
        tells_numbers::<Mapping>(m, 1, "Mapping"@, "id"@, depth),
        tells_numbers::<Mapping>(m, 2, "Mapping"@, "memory_start"@, depth),
        tells_numbers::<Mapping>(m, 3, "Mapping"@, "memory_limit"@, depth),
        tells_numbers::<Mapping>(m, 4, "Mapping"@, "file_offset"@, depth),
        tells_numbers::<Mapping>(m, 5, "Mapping"@, "filename"@, depth),
        tells_numbers::<Mapping>(m, 6, "Mapping"@, "build_id"@, depth),
        tells_numbers::<Mapping>(m, 7, "Mapping"@, "has_functions"@, depth),
        tells_numbers::<Mapping>(m, 8, "Mapping"@, "has_filenames"@, depth),
        tells_numbers::<Mapping>(m, 9, "Mapping"@, "has_line_numbers"@, depth),
        tells_numbers::<Mapping>(m, 10, "Mapping"@, "has_inline_frames"@, depth),
        expects::<Mapping>(m, 1, WireType::Varint, "Mapping"@, "id"@, depth),
        expects::<Mapping>(m, 2, WireType::Varint, "Mapping"@, "memory_start"@, depth),
        expects::<Mapping>(m, 3, WireType::Varint, "Mapping"@, "memory_limit"@, depth),
        expects::<Mapping>(m, 4, WireType::Varint, "Mapping"@, "file_offset"@, depth),
        expects::<Mapping>(m, 5, WireType::Varint, "Mapping"@, "filename"@, depth),
        expects::<Mapping>(m, 6, WireType::Varint, "Mapping"@, "build_id"@, depth),
        expects::<Mapping>(m, 7, WireType::Varint, "Mapping"@, "has_functions"@, depth),
        expects::<Mapping>(m, 8, WireType::Varint, "Mapping"@, "has_filenames"@, depth),
        expects::<Mapping>(m, 9, WireType::Varint, "Mapping"@, "has_line_numbers"@, depth),
        expects::<Mapping>(m, 10, WireType::Varint, "Mapping"@, "has_inline_frames"@, depth),
{
}

/// What each field on the wire does to a location.
pub proof fn law_location_fields(
    m: LocationView,
    id: u64,
    mapping_id: u64,
    address: u64,
    line: Line,
    is_folded: bool,
    depth: nat,
)
    requires
        depth > 0,
        Line::bytes(line).len() <= u64::MAX,
    ensures
        encoding::is_step::<Location>(m, number(1, id), LocationView { id, ..m }, depth),
        encoding::is_step::<Location>(
            m,
            number(2, mapping_id),
            LocationView { mapping_id, ..m },
            depth,
        ),
        encoding::is_step::<Location>(m, number(3, address), LocationView { address, ..m }, depth),
        encoding::is_step::<Location>(
            m,
            payload(4, Line::bytes(line)),
            LocationView { line: m.line.push(line), ..m },
            depth,
        ),
        encoding::is_step::<Location>(
            m,
            number(5, is_folded),
            LocationView { is_folded, ..m },
            depth,
        ),
{
    lemma_number::<Location, u64>(m, 1, id, LocationView { id, ..m }, depth);
    lemma_number::<Location, u64>(m, 2, mapping_id, LocationView { mapping_id, ..m }, depth);
    lemma_number::<Location, u64>(m, 3, address, LocationView { address, ..m }, depth);
    Line::lemma_reads_back(line, (depth - 1) as nat);
    lemma_part::<Location, Line>(
        m,
        4,
        Line::blank(),
        Line::bytes(line),
        line,
        LocationView { line: m.line.push(line), ..m },
        depth,
    );
    lemma_number::<Location, bool>(m, 5, is_folded, LocationView { is_folded, ..m }, depth);
}

/// Fields that a location does not know are passed over.
pub proof fn law_location_passes_over_other_fields(m: LocationView, tag: u32, depth: nat)
    requires
        5 < tag < 0x2000_0000,
        depth > 0,
    ensures
        passes_over::<Location>(m, tag, depth),
{
    lemma_passes_over::<Location>(m, tag, depth);
}

/// A field of a location that is malformed, or has another wire type, is refused by name.
#[verifier::rlimit(40)]
#[verifier::spinoff_prover]
pub proof fn law_location_checks_its_fields(m: LocationView, depth: nat)
    ensures
        tells_numbers::<Location>(m, 1, "Location"@, "id"@, depth),
        tells_numbers::<Location>(m, 2, "Location"@, "mapping_id"@, depth),
        tells_numbers::<Location>(m, 3, "Location"@, "address"@, depth),
        tells_parts::<Location, Line>(m, Line::blank(), 4, "Location"@, "line"@, depth),
        tells_numbers::<Location>(m, 5, "Location"@, "is_folded"@, depth),
        expects::<Location>(m, 1, WireType::Varint, "Location"@, "id"@, depth),
        expects::<Location>(m, 2, WireType::Varint, "Location"@, "mapping_id"@, depth),
        expects::<Location>(m, 3, WireType::Varint, "Location"@, "address"@, depth),
        expects::<Location>(m, 5, WireType::Varint, "Location"@, "is_folded"@, depth),
{
}

/// What each field on the wire does to a line.
pub proof fn law_line_fields(
    m: Line,
    function_id: u64,
    line: i64,
    column: i64,
    depth: nat,
)
    ensures
        encoding::is_step::<Line>(m, number(1, function_id), Line { function_id, ..m }, depth),
        encoding::is_step::<Line>(m, number(2, line), Line { line, ..m }, depth),
        encoding::is_step::<Line>(m, number(3, column), Line { column, ..m }, depth),
{
    lemma_number::<Line, u64>(m, 1, function_id, Line { function_id, ..m }, depth);
    lemma_number::<Line, i64>(m, 2, line, Line { line, ..m }, depth);
    lemma_number::<Line, i64>(m, 3, column, Line { column, ..m }, depth);
}

/// Fields that a line does not know are passed over.
pub proof fn law_line_passes_over_other_fields(m: Line, tag: u32, depth: nat)
    requires
        3 < tag < 0x2000_0000,
        depth > 0,
    ensures
        passes_over::<Line>(m, tag, depth),
{
    lemma_passes_over::<Line>(m, tag, depth);
}

/// A field of a line that is malformed, or has another wire type, is refused by name.
#[verifier::rlimit(40)]
#[verifier::spinoff_prover]
pub proof fn law_line_checks_its_fields(m: Line, depth: nat)
    ensures
        tells_numbers::<Line>(m, 1, "Line"@, "function_id"@, depth),
        tells_numbers::<Line>(m, 2, "Line"@, "line"@, depth),
        tells_numbers::<Line>(m, 3, "Line"@, "column"@, depth),
        expects::<Line>(m, 1, WireType::Varint, "Line"@, "function_id"@, depth),
        expects::<Line>(m, 2, WireType::Varint, "Line"@, "line"@, depth),
        expects::<Line>(m, 3, WireType::Varint, "Line"@, "column"@, depth),
{
}

/// What each field on the wire does to a function.
pub proof fn law_function_fields(
    m: Function,
    id: u64,
    name: i64,
    system_name: i64,
    filename: i64,
    start_line: i64,
    depth: nat,
)
    ensures
        encoding::is_step::<Function>(m, number(1, id), Function { id, ..m }, depth),
        encoding::is_step::<Function>(m, number(2, name), Function { name, ..m }, depth),
        encoding::is_step::<Function>(
            m,
            number(3, system_name),
            Function { system_name, ..m },
            depth,
        ),
        encoding::is_step::<Function>(m, number(4, filename), Function { filename, ..m }, depth),
        encoding::is_step::<Function>(
            m,
            number(5, start_line),
            Function { start_line, ..m },
            depth,
        ),
{
    lemma_number::<Function, u64>(m, 1, id, Function { id, ..m }, depth);
    lemma_number::<Function, i64>(m, 2, name, Function { name, ..m }, depth);
    lemma_number::<Function, i64>(m, 3, system_name, Function { system_name, ..m }, depth);
    lemma_number::<Function, i64>(m, 4, filename, Function { filename, ..m }, depth);
    lemma_number::<Function, i64>(m, 5, start_line, Function { start_line, ..m }, depth);
}

/// Fields that a function does not know are passed over.
pub proof fn law_function_passes_over_other_fields(m: Function, tag: u32, depth: nat)
    requires
        5 < tag < 0x2000_0000,
        depth > 0,
    ensures
        passes_over::<Function>(m, tag, depth),
{
    lemma_passes_over::<Function>(m, tag, depth);
}

/// A field of a function that is malformed, or has another wire type, is refused by name.
#[verifier::rlimit(40)]
#[verifier::spinoff_prover]
pub proof fn law_function_checks_its_fields(m: Function, depth: nat)
    ensures
        tells_numbers::<Function>(m, 1, "Function"@, "id"@, depth),
        tells_numbers::<Function>(m, 2, "Function"@, "name"@, depth),
        tells_numbers::<Function>(m, 3, "Function"@, "system_name"@, depth),
        tells_numbers::<Function>(m, 4, "Function"@, "filename"@, depth),
        tells_numbers::<Function>(m, 5, "Function"@, "start_line"@, depth),
        expects::<Function>(m, 1, WireType::Varint, "Function"@, "id"@, depth),
        expects::<Function>(m, 2, WireType::Varint, "Function"@, "name"@, depth),
        expects::<Function>(m, 3, WireType::Varint, "Function"@, "system_name"@, depth),
        expects::<Function>(m, 4, WireType::Varint, "Function"@, "filename"@, depth),
        expects::<Function>(m, 5, WireType::Varint, "Function"@, "start_line"@, depth),
{
}

/// A value type with another one merged into it: a number that is not zero replaces the one
/// before it.
pub open spec fn merged(current: Option<ValueType>, other: ValueType) -> ValueType {
    match current {
        None => other,
        Some(c) => ValueType {
            type_: if other.type_ != 0 {
                other.type_
            } else {
                c.type_
            },
            unit: if other.unit != 0 {
                other.unit
            } else {
                c.unit
            },
        },
    }
}

proof fn lemma_merged(current: Option<ValueType>, other: ValueType, depth: nat)
    ensures
        encoding::is_step::<ValueType>(
            match current {
                Some(c) => c,
                None => ValueType::blank(),
            },
            ValueType::bytes(other),
            merged(current, other),
            depth,
        ),
{
    let m0 = match current {
        Some(c) => c,
        None => ValueType::blank(),
    };
    let m1 = ValueType {
        type_: if other.type_ != 0 {
            other.type_
        } else {
            m0.type_
        },
        ..m0
    };
    let s1 = encoding::lemma_scalar_step::<ValueType, i64>(m0, 1, other.type_, m1, depth);
    let m2 = merged(current, other);
    let p2 = encoding::lemma_scalar_step::<ValueType, i64>(m1, 2, other.unit, m2, depth);
    encoding::lemma_steps_join::<ValueType>(m0, s1, m1, p2, m2, depth);
}

/// What each field on the wire does to a profile.
#[verifier::rlimit(80)]
#[verifier::spinoff_prover]
pub proof fn law_profile_fields(
    m: ProfileView,
    sample_type: ValueType,
    sample: SampleView,
    mapping: Mapping,
    location: LocationView,
    function: Function,
    string_table: Seq<char>,
    drop_frames: i64,
    keep_frames: i64,
    time_nanos: i64,
    duration_nanos: i64,
    period_type: ValueType,
    period: i64,
    comment: Seq<i64>,
    one_comment: i64,
    default_sample_type: i64,
    doc_url: i64,
    depth: nat,
)
    requires
        depth > 1,
        ValueType::bytes(sample_type).len() <= u64::MAX,
        Sample::bytes(sample).len() <= u64::MAX,
        Mapping::bytes(mapping).len() <= u64::MAX,
        Location::bytes(location).len() <= u64::MAX,
        Function::bytes(function).len() <= u64::MAX,
        vstd::utf8::encode_utf8(string_table).len() <= u64::MAX,
        ValueType::bytes(period_type).len() <= u64::MAX,
        encoding::packed_bytes(comment).len() <= u64::MAX,
    ensures
        encoding::is_step::<Profile>(
            m,
            payload(1, ValueType::bytes(sample_type)),
            ProfileView { sample_type: m.sample_type.push(sample_type), ..m },
            depth,
        ),
        encoding::is_step::<Profile>(
            m,
            payload(2, Sample::bytes(sample)),
            ProfileView { sample: m.sample.push(sample), ..m },
            depth,
        ),
        encoding::is_step::<Profile>(
            m,
            payload(3, Mapping::bytes(mapping)),
            ProfileView { mapping: m.mapping.push(mapping), ..m },
            depth,
        ),
        encoding::is_step::<Profile>(
            m,
            payload(4, Location::bytes(location)),
            ProfileView { location: m.location.push(location), ..m },
            depth,
        ),
        encoding::is_step::<Profile>(
            m,
            payload(5, Function::bytes(function)),
            ProfileView { function: m.function.push(function), ..m },
            depth,
        ),
        encoding::is_step::<Profile>(
            m,
            string(6, string_table),
            ProfileView { string_table: m.string_table.push(string_table), ..m },
            depth,
        ),
        encoding::is_step::<Profile>(
            m,
            number(7, drop_frames),
            ProfileView { drop_frames, ..m },
            depth,
        ),
        encoding::is_step::<Profile>(
            m,
            number(8, keep_frames),
            ProfileView { keep_frames, ..m },
            depth,
        ),
        encoding::is_step::<Profile>(
            m,
            number(9, time_nanos),
            ProfileView { time_nanos, ..m },
            depth,
        ),
        encoding::is_step::<Profile>(
            m,
            number(10, duration_nanos),
            ProfileView { duration_nanos, ..m },
            depth,
        ),
        encoding::is_step::<Profile>(
            m,
            payload(11, ValueType::bytes(period_type)),
            ProfileView { period_type: Some(merged(m.period_type, period_type)), ..m },
            depth,
        ),
        encoding::is_step::<Profile>(m, number(12, period), ProfileView { period, ..m }, depth),
        encoding::is_step::<Profile>(
            m,
            numbers(13, comment),
            ProfileView { comment: m.comment + comment, ..m },
            depth,
        ),
        encoding::is_step::<Profile>(
            m,
            number(13, one_comment),
            ProfileView { comment: m.comment.push(one_comment), ..m },
            depth,
        ),
        encoding::is_step::<Profile>(
            m,
            number(14, default_sample_type),
            ProfileView { default_sample_type, ..m },
            depth,
        ),
        encoding::is_step::<Profile>(m, number(15, doc_url), ProfileView { doc_url, ..m }, depth),
{
    ValueType::lemma_reads_back(sample_type, (depth - 1) as nat);
    lemma_part::<Profile, ValueType>(
        m,
        1,
        ValueType::blank(),
        ValueType::bytes(sample_type),
        sample_type,
        ProfileView { sample_type: m.sample_type.push(sample_type), ..m },
        depth,
    );
    Sample::lemma_reads_back(sample, (depth - 1) as nat);
    lemma_part::<Profile, Sample>(
        m,
        2,
        Sample::blank(),
        Sample::bytes(sample),
        sample,
        ProfileView { sample: m.sample.push(sample), ..m },
        depth,
    );
    Mapping::lemma_reads_back(mapping, (depth - 1) as nat);
    lemma_part::<Profile, Mapping>(
        m,
        3,
        Mapping::blank(),
        Mapping::bytes(mapping),
        mapping,
        ProfileView { mapping: m.mapping.push(mapping), ..m },
        depth,
    );
    Location::lemma_reads_back(location, (depth - 1) as nat);
    lemma_part::<Profile, Location>(
        m,
        4,
        Location::blank(),
        Location::bytes(location),
        location,
        ProfileView { location: m.location.push(location), ..m },
        depth,
    );
    Function::lemma_reads_back(function, (depth - 1) as nat);
    lemma_part::<Profile, Function>(
        m,
        5,
        Function::blank(),
        Function::bytes(function),
        function,
        ProfileView { function: m.function.push(function), ..m },
        depth,
    );
    lemma_string::<Profile>(
        m,
        6,
        string_table,
        ProfileView { string_table: m.string_table.push(string_table), ..m },
        depth,
    );
    lemma_number::<Profile, i64>(m, 7, drop_frames, ProfileView { drop_frames, ..m }, depth);
    lemma_number::<Profile, i64>(m, 8, keep_frames, ProfileView { keep_frames, ..m }, depth);
    lemma_number::<Profile, i64>(m, 9, time_nanos, ProfileView { time_nanos, ..m }, depth);
    lemma_number::<Profile, i64>(m, 10, duration_nanos, ProfileView { duration_nanos, ..m }, depth);
    lemma_merged(m.period_type, period_type, (depth - 1) as nat);
    lemma_part::<Profile, ValueType>(
        m,
        11,
        match m.period_type {
            Some(current) => current,
            None => ValueType::blank(),
        },
        ValueType::bytes(period_type),
        merged(m.period_type, period_type),
        ProfileView { period_type: Some(merged(m.period_type, period_type)), ..m },
        depth,
    );
    lemma_number::<Profile, i64>(m, 12, period, ProfileView { period, ..m }, depth);
    lemma_numbers::<Profile, i64>(
        m,
        13,
        m.comment,
        comment,
        ProfileView { comment: m.comment + comment, ..m },
        depth,
    );
    lemma_number::<Profile, i64>(
        m,
        13,
        one_comment,
        ProfileView { comment: m.comment.push(one_comment), ..m },
        depth,
    );
    lemma_number::<Profile, i64>(
        m,
        14,
        default_sample_type,
        ProfileView { default_sample_type, ..m },
        depth,
    );
    lemma_number::<Profile, i64>(m, 15, doc_url, ProfileView { doc_url, ..m }, depth);
}

/// Fields that a profile does not know are passed over.
pub proof fn law_profile_passes_over_other_fields(m: ProfileView, tag: u32, depth: nat)
    requires
        15 < tag < 0x2000_0000,
        depth > 0,
    ensures
        passes_over::<Profile>(m, tag, depth),
{
    lemma_passes_over::<Profile>(m, tag, depth);
}

/// A field of a profile that is malformed, or has another wire type, is refused by name.
#[verifier::rlimit(40)]
#[verifier::spinoff_prover]
pub proof fn law_profile_checks_its_fields(m: ProfileView, depth: nat)
    ensures
        tells_parts::<Profile, ValueType>(
            m,
            ValueType::blank(),
            1,
            "Profile"@,
            "sample_type"@,
            depth,
        ),
        tells_parts::<Profile, Sample>(m, Sample::blank(), 2, "Profile"@, "sample"@, depth),
        tells_parts::<Profile, Mapping>(m, Mapping::blank(), 3, "Profile"@, "mapping"@, depth),
        tells_parts::<Profile, Location>(m, Location::blank(), 4, "Profile"@, "location"@, depth),
        tells_parts::<Profile, Function>(m, Function::blank(), 5, "Profile"@, "function"@, depth),
        tells_strings::<Profile>(m, 6, "Profile"@, "string_table"@, depth),
        tells_numbers::<Profile>(m, 7, "Profile"@, "drop_frames"@, depth),
        tells_numbers::<Profile>(m, 8, "Profile"@, "keep_frames"@, depth),
        tells_numbers::<Profile>(m, 9, "Profile"@, "time_nanos"@, depth),
        tells_numbers::<Profile>(m, 10, "Profile"@, "duration_nanos"@, depth),
        m.period_type is None ==> tells_parts::<Profile, ValueType>(
            m,
            ValueType::blank(),
            11,
            "Profile"@,
            "period_type"@,
            depth,
        ),
        m.period_type matches Some(current) ==> tells_parts::<Profile, ValueType>(
            m,
            current,
            11,
            "Profile"@,
            "period_type"@,
            depth,
        ),
        tells_numbers::<Profile>(m, 12, "Profile"@, "period"@, depth),
        tells_lists::<Profile, i64>(m, m.comment, 13, "Profile"@, "comment"@, depth),
        tells_numbers::<Profile>(m, 14, "Profile"@, "default_sample_type"@, depth),
        tells_numbers::<Profile>(m, 15, "Profile"@, "doc_url"@, depth),
        expects::<Profile>(m, 6, WireType::LengthDelimited, "Profile"@, "string_table"@, depth),
        expects::<Profile>(m, 7, WireType::Varint, "Profile"@, "drop_frames"@, depth),
        expects::<Profile>(m, 8, WireType::Varint, "Profile"@, "keep_frames"@, depth),
        expects::<Profile>(m, 9, WireType::Varint, "Profile"@, "time_nanos"@, depth),
        expects::<Profile>(m, 10, WireType::Varint, "Profile"@, "duration_nanos"@, depth),
        expects::<Profile>(m, 12, WireType::Varint, "Profile"@, "period"@, depth),
        expects::<Profile>(m, 14, WireType::Varint, "Profile"@, "default_sample_type"@, depth),
        expects::<Profile>(m, 15, WireType::Varint, "Profile"@, "doc_url"@, depth),
{
}

} // verus!
