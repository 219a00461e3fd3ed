//! Laws of decoding: which bytes are inflated, what malformed bytes give, and how failures are
//! told.

use vstd::prelude::*;

use crate::decoded;
use crate::decoded::PprofErrorView;
use crate::gzip;
use crate::laws::encoding;
use crate::message;
use crate::message::{Message, MessageErrorView, Scalar};
use crate::proto::{Profile, ProfileView};
use crate::text;
use crate::wire;
use crate::wire::{DecodeFault, WireType};

verus! {

/// What the message reader makes of bytes.
pub open spec fn read_as_message(bytes: Seq<u8>) -> Result<ProfileView, PprofErrorView> {
    match message::message_of::<Profile>(bytes) {
        Ok(p) => Ok(p),
        Err(error) => Err(PprofErrorView::Decode(error)),
    }
}

/// Bytes that start with the two magic bytes of gzip, however many there are, are inflated, and
/// their contents are read as a message. All other bytes are read as they are, and no bytes at
/// all are refused.
pub proof fn law_the_magic_decides(bytes: Seq<u8>)
    ensures
        gzip::has_gzip_magic(bytes) <==> bytes.len() >= 2 && bytes[0] == 0x1f && bytes[1] == 0x8b,
        bytes.len() == 0 ==> decoded::profile_in(bytes) == Err::<ProfileView, PprofErrorView>(
            PprofErrorView::Empty,
        ),
        bytes.len() >= 2 && bytes[0] == 0x1f && bytes[1] == 0x8b ==> {
            decoded::profile_in(bytes) == match gzip::gzip_contents(bytes) {
                Ok(raw) => read_as_message(raw),
                Err(reason) => Err(PprofErrorView::Gunzip(reason)),
            }
        },
        bytes.len() == 1 ==> decoded::profile_in(bytes) == read_as_message(bytes),
        bytes.len() >= 2 && (bytes[0] != 0x1f || bytes[1] != 0x8b) ==> decoded::profile_in(bytes)
            == read_as_message(bytes),
{
}

/// What was inflated beforehand is decoded as it would be after inflating it here.
pub proof fn law_inflated_contents_decode_alike(contents: Result<Seq<u8>, Seq<char>>)
    ensures
        decoded::inflated_profile(contents) == match contents {
            Ok(raw) => read_as_message(raw),
            Err(reason) => Err(PprofErrorView::Gunzip(reason)),
        },
        contents matches Ok(raw) ==> decoded::raw_profile(raw) == read_as_message(raw),
{
}

/// A failure to decode says which of the three it is, and why.
pub proof fn law_failures_are_told(reason: Seq<char>, error: MessageErrorView)
    ensures
        decoded::pprof_error_text(PprofErrorView::Empty) == "empty profile (zero bytes)"@,
        decoded::pprof_error_text(PprofErrorView::Gunzip(reason))
            == "gzip decompression failed: "@ + reason,
        decoded::pprof_error_text(PprofErrorView::Decode(error))
            == "pprof protobuf decode failed: "@ + message::message_error_text(error),
        message::message_error_text(error) == "failed to decode Protobuf message: "@
            + message::path_text(error.path) + message::fault_text(error.fault),
{
}

/// The fields on the way to a fault are told innermost first, each by its message and its name.
pub proof fn law_paths_are_told(
    path: Seq<(Seq<char>, Seq<char>)>,
    message: Seq<char>,
    field: Seq<char>,
)
    ensures
        message::path_text(seq![]).len() == 0,
        message::path_text(path.push((message, field))) == message::path_text(path) + message + "."@
            + field + ": "@,
{
    assert(path.push((message, field)).drop_last() =~= path);
}

/// The number that base-128 digits stand for, the lowest first.
pub open spec fn base128_value(s: Seq<u8>) -> nat
    decreases s.len(),
{
    if s.len() == 0 {
        0
    } else {
        (s[0] % 128) as nat + 128 * base128_value(s.skip(1))
    }
}

/// Whether bytes are one varint: all but the last say that more follows.
pub open spec fn is_varint(s: Seq<u8>) -> bool {
    &&& s.len() > 0
    &&& s.last() < 128
    &&& forall|i: int| 0 <= i < s.len() - 1 ==> #[trigger] s[i] >= 128
}

/// Any varint of at most ten bytes that fits 64 bits is read as its number, also one that is
/// longer than it had to be, and what follows it is left.
pub proof fn law_varints_are_base128(digits: Seq<u8>, rest: Seq<u8>)
    requires
        is_varint(digits),
        digits.len() <= 10,
    ensures
        base128_value(digits) <= u64::MAX ==> wire::varint(digits + rest) == Some(
            (base128_value(digits) as u64, rest),
        ),
        base128_value(digits) > u64::MAX ==> wire::varint(digits + rest) is None,
{
    lemma_base128(digits, rest, 10);
    assert((digits + rest).skip(digits.len() as int) =~= rest);
}

proof fn lemma_base128(digits: Seq<u8>, rest: Seq<u8>, limit: nat)
    requires
        is_varint(digits),
        digits.len() <= limit,
    ensures
        wire::leb128(digits + rest, limit) == Some((base128_value(digits), digits.len())),
    decreases digits.len(),
{
    let s = digits + rest;
    if digits.len() == 1 {
        assert(base128_value(digits.skip(1)) == 0);
    } else {
        assert(digits[0] >= 128);
        lemma_base128(digits.skip(1), rest, (limit - 1) as nat);
        assert(s.skip(1) =~= digits.skip(1) + rest);
    }
}

/// A varint stands for itself as an unsigned number, for the number with the same 64 bits in
/// two's complement as a signed one, and for true unless it is zero.
pub proof fn law_varints_are_numbers(v: u64, s: Seq<u8>)
    ensures
        u64::from_wire(v) == v,
        v < 0x8000_0000_0000_0000 ==> i64::from_wire(v) == v,
        v >= 0x8000_0000_0000_0000 ==> i64::from_wire(v) == v - 0x1_0000_0000_0000_0000,
        bool::from_wire(v) <==> v != 0,
        wire::varint(s) matches Some((n, rest)) ==> {
            &&& message::scalar_field::<u64>(WireType::Varint, s) == Ok::<
                (u64, Seq<u8>),
                DecodeFault,
            >((n, rest))
            &&& message::scalar_field::<i64>(WireType::Varint, s) == Ok::<
                (i64, Seq<u8>),
                DecodeFault,
            >((i64::from_wire(n), rest))
            &&& message::scalar_field::<bool>(WireType::Varint, s) == Ok::<
                (bool, Seq<u8>),
                DecodeFault,
            >((n != 0, rest))
        },
{
}

/// Bytes that all say that more follows are no varint, nor are ten of them before anything.
pub proof fn law_endless_varints_are_refused(s: Seq<u8>)
    requires
        forall|i: int| 0 <= i < s.len() && i < 10 ==> #[trigger] s[i] >= 128,
    ensures
        wire::varint(s) is None,
        wire::key(s) == Err::<(u32, WireType, Seq<u8>), DecodeFault>(DecodeFault::InvalidVarint),
{
    lemma_endless(s, 10);
}

proof fn lemma_endless(s: Seq<u8>, limit: nat)
    requires
        forall|i: int| 0 <= i < s.len() && i < limit ==> #[trigger] s[i] >= 128,
    ensures
        wire::leb128(s, limit) is None,
    decreases limit,
{
    if limit > 0 && s.len() > 0 {
        assert(s[0] >= 128);
        assert forall|i: int| 0 <= i < s.skip(1).len() && i < limit - 1 implies
            #[trigger] s.skip(1)[i] >= 128 by {
            assert(s[i + 1] >= 128);
        }
        lemma_endless(s.skip(1), (limit - 1) as nat);
    }
}

/// A key holds the field number above the three bits of the wire type. One that does not fit 32
/// bits, that has another wire type, or whose field number is zero, is refused as such.
pub proof fn law_keys_are_checked(k: u64, rest: Seq<u8>)
    ensures
        ({
            let read = wire::key(encoding::varint_bytes(k as nat) + rest);
            if k > u32::MAX {
                read == Err::<(u32, WireType, Seq<u8>), DecodeFault>(
                    DecodeFault::InvalidKey { key: k },
                )
            } else if k % 8 > 5 {
                read == Err::<(u32, WireType, Seq<u8>), DecodeFault>(
                    DecodeFault::InvalidWireType { value: k % 8 },
                )
            } else if k < 8 {
                read == Err::<(u32, WireType, Seq<u8>), DecodeFault>(DecodeFault::InvalidTag)
            } else {
                read matches Ok((tag, wire_type, after)) && tag == k / 8 && after == rest && match
                    wire_type {
                    WireType::Varint => k % 8 == 0,
                    WireType::SixtyFourBit => k % 8 == 1,
                    WireType::LengthDelimited => k % 8 == 2,
                    WireType::StartGroup => k % 8 == 3,
                    WireType::EndGroup => k % 8 == 4,
                    WireType::ThirtyTwoBit => k % 8 == 5,
                }
            }
        }),
{
    encoding::law_varints_read_back(k, rest);
}

/// A payload that is longer than what is left is refused, and one that is not is found.
pub proof fn law_lengths_are_checked(len: u64, rest: Seq<u8>)
    ensures
        wire::delimited(encoding::varint_bytes(len as nat) + rest) == (if len > rest.len() {
            Err::<(nat, Seq<u8>), DecodeFault>(DecodeFault::BufferUnderflow)
        } else {
            Ok::<(nat, Seq<u8>), DecodeFault>((len as nat, rest))
        }),
{
    encoding::law_varints_read_back(len, rest);
}

/// Fields inside of groups are passed over one by one: a number, a payload, 64 bits and 32 bits
/// leave the open groups as they are, a start opens one more group, and an end closes the
/// innermost one. An end that does not match is refused, and so is a field inside of more groups
/// than the reader follows.
pub proof fn law_groups_are_passed_over(
    open: Seq<u32>,
    tag: u32,
    v: u64,
    payload: Seq<u8>,
    eight: Seq<u8>,
    four: Seq<u8>,
    rest: Seq<u8>,
    depth: nat,
)
    requires
        open.len() > 0,
        0 < tag < 0x2000_0000,
        payload.len() <= u64::MAX,
        eight.len() == 8,
        four.len() == 4,
    ensures
        open.len() < depth ==> {
            &&& wire::skip_groups(
                open,
                encoding::key_bytes(tag, WireType::Varint) + (encoding::varint_bytes(v as nat)
                    + rest),
                depth,
            ) == wire::skip_groups(open, rest, depth)
            &&& wire::skip_groups(
                open,
                encoding::key_bytes(tag, WireType::LengthDelimited) + (encoding::delimited_bytes(
                    payload,
                ) + rest),
                depth,
            ) == wire::skip_groups(open, rest, depth)
            &&& wire::skip_groups(
                open,
                encoding::key_bytes(tag, WireType::SixtyFourBit) + (eight + rest),
                depth,
            ) == wire::skip_groups(open, rest, depth)
            &&& wire::skip_groups(
                open,
                encoding::key_bytes(tag, WireType::ThirtyTwoBit) + (four + rest),
                depth,
            ) == wire::skip_groups(open, rest, depth)
            &&& wire::skip_groups(
                open,
                encoding::key_bytes(tag, WireType::StartGroup) + rest,
                depth,
            ) == wire::skip_groups(open.push(tag), rest, depth)
        },
        open.len() >= depth ==> wire::skip_groups(
            open,
            encoding::key_bytes(tag, WireType::Varint) + rest,
            depth,
        ) == Err::<Seq<u8>, DecodeFault>(DecodeFault::RecursionLimitReached),
        wire::skip_groups(open, encoding::key_bytes(tag, WireType::EndGroup) + rest, depth) == (
        if tag != open.last() {
            Err::<Seq<u8>, DecodeFault>(DecodeFault::UnexpectedEndGroupTag)
        } else if open.len() == 1 {
            Ok::<Seq<u8>, DecodeFault>(rest)
        } else {
            wire::skip_groups(open.drop_last(), rest, depth)
        }),
{
    let number = encoding::varint_bytes(v as nat);
    let delimited = encoding::delimited_bytes(payload);
    encoding::law_keys_read_back(tag, WireType::Varint, number + rest);
    encoding::law_keys_read_back(tag, WireType::Varint, rest);
    encoding::law_varints_read_back(v, rest);
    encoding::law_keys_read_back(tag, WireType::LengthDelimited, delimited + rest);
    assert(delimited + rest =~= encoding::varint_bytes(payload.len()) + (payload + rest));
    encoding::law_varints_read_back(payload.len() as u64, payload + rest);
    assert((payload + rest).skip(payload.len() as int) =~= rest);
    encoding::law_keys_read_back(tag, WireType::SixtyFourBit, eight + rest);
    assert((eight + rest).skip(8) =~= rest);
    encoding::law_keys_read_back(tag, WireType::ThirtyTwoBit, four + rest);
    assert((four + rest).skip(4) =~= rest);
    encoding::law_keys_read_back(tag, WireType::StartGroup, rest);
    encoding::law_keys_read_back(tag, WireType::EndGroup, rest);
}

/// A field that is passed over and starts a group ends where the group ends; the end of a group
/// that was not started is refused, and so is everything where no level is left.
pub proof fn law_fields_are_passed_over(tag: u32, s: Seq<u8>, depth: nat)
    ensures
        depth > 0 ==> wire::skip_field_spec(WireType::StartGroup, tag, s, depth)
            == wire::skip_groups(seq![tag], s, depth),
        depth > 0 ==> wire::skip_field_spec(WireType::EndGroup, tag, s, depth) == Err::<
            Seq<u8>,
            DecodeFault,
        >(DecodeFault::UnexpectedEndGroupTag),
        forall|wire_type: WireType|
            #[trigger] wire::skip_field_spec(wire_type, tag, s, 0) == Err::<Seq<u8>, DecodeFault>(
                DecodeFault::RecursionLimitReached,
            ),
        depth > 0 && s.len() < 8 ==> wire::skip_field_spec(WireType::SixtyFourBit, tag, s, depth)
            == Err::<Seq<u8>, DecodeFault>(DecodeFault::BufferUnderflow),
        depth > 0 && s.len() < 4 ==> wire::skip_field_spec(WireType::ThirtyTwoBit, tag, s, depth)
            == Err::<Seq<u8>, DecodeFault>(DecodeFault::BufferUnderflow),
{
}

/// Each fault is told in its own words, with the numbers that belong to it.
pub proof fn law_faults_are_told(value: u64, actual: WireType, expected: WireType)
    ensures
        message::fault_text(DecodeFault::InvalidVarint) == "invalid varint"@,
        message::fault_text(DecodeFault::RecursionLimitReached) == "recursion limit reached"@,
        message::fault_text(DecodeFault::InvalidWireType { value }) == "invalid wire type value: "@
            + text::decimal(value as int),
        message::fault_text(DecodeFault::InvalidKey { key: value }) == "invalid key value: "@
            + text::decimal(value as int),
        message::fault_text(DecodeFault::InvalidTag) == "invalid tag value: 0"@,
        message::fault_text(DecodeFault::UnexpectedWireType { actual, expected })
            == "invalid wire type: "@ + message::wire_type_text(actual) + " (expected "@
            + message::wire_type_text(expected) + ")"@,
        message::fault_text(DecodeFault::BufferUnderflow) == "buffer underflow"@,
        message::fault_text(DecodeFault::DelimitedLengthExceeded) == "delimited length exceeded"@,
        message::fault_text(DecodeFault::UnexpectedEndGroupTag) == "unexpected end group tag"@,
        message::fault_text(DecodeFault::InvalidString)
            == "invalid string value: data is not UTF-8 encoded"@,
        message::wire_type_text(WireType::Varint) == "Varint"@,
        message::wire_type_text(WireType::SixtyFourBit) == "SixtyFourBit"@,
        message::wire_type_text(WireType::LengthDelimited) == "LengthDelimited"@,
        message::wire_type_text(WireType::StartGroup) == "StartGroup"@,
        message::wire_type_text(WireType::EndGroup) == "EndGroup"@,
        message::wire_type_text(WireType::ThirtyTwoBit) == "ThirtyTwoBit"@,
{
}

/// A string that is not UTF-8 is refused, and so is one in a field of another wire type.
pub proof fn law_strings_are_checked(bytes: Seq<u8>, rest: Seq<u8>, actual: WireType)
    requires
        bytes.len() <= u64::MAX,
    ensures
        message::text_field(WireType::LengthDelimited, encoding::delimited_bytes(bytes) + rest)
            == (if vstd::utf8::valid_utf8(bytes) {
            Ok::<(Seq<char>, Seq<u8>), DecodeFault>((vstd::utf8::decode_utf8(bytes), rest))
        } else {
            Err::<(Seq<char>, Seq<u8>), DecodeFault>(DecodeFault::InvalidString)
        }),
        actual != WireType::LengthDelimited ==> message::text_field(actual, rest) == Err::<
            (Seq<char>, Seq<u8>),
            DecodeFault,
        >(DecodeFault::UnexpectedWireType { actual, expected: WireType::LengthDelimited }),
{
    encoding::lemma_delimited_reads_back(bytes, rest);
    assert((bytes + rest).take(bytes.len() as int) =~= bytes);
    assert((bytes + rest).skip(bytes.len() as int) =~= rest);
}

/// A message ends where its bytes end: all of them are read, and a field that would run past the
/// end is refused.
pub proof fn law_messages_end_with_their_bytes<M: Message>(m: M::V, s: Seq<u8>, limit: nat, depth:
    nat)
    ensures
        message::fields::<M>(m, s, limit, depth) matches Ok((_, rest)) ==> rest.len() == limit,
        s.len() == limit ==> message::fields::<M>(m, s, limit, depth) == Ok::<
            (M::V, Seq<u8>),
            MessageErrorView,
        >((m, s)),
        s.len() < limit ==> message::fields::<M>(m, s, limit, depth) == Err::<
            (M::V, Seq<u8>),
            MessageErrorView,
        >(MessageErrorView { fault: DecodeFault::DelimitedLengthExceeded, path: seq![] }),
        message::message_of::<M>(s) is Ok <==> message::fields::<M>(M::blank(), s, 0, 100) is Ok,
        message::message_of::<M>(s) matches Ok(read) ==> message::fields::<M>(
            M::blank(),
            s,
            0,
            100,
        ) matches Ok((all, _)) && all == read,
    decreases s.len(),
{
    wire::lemma_key_shrinks(s);
    if s.len() > limit {
        if let Ok((tag, wire_type, after_key)) = wire::key(s) {
            M::lemma_field_shrinks(m, tag, wire_type, after_key, depth);
            if let Ok((next, after)) = M::field(m, tag, wire_type, after_key, depth) {
                law_messages_end_with_their_bytes::<M>(next, after, limit, depth);
            }
        }
    }
}

/// A packed list ends where its bytes end: all of them are read, and a number that would run past
/// the end is refused.
pub proof fn law_packed_lists_end_with_their_bytes<T: Scalar>(
    values: Seq<T>,
    s: Seq<u8>,
    limit: nat,
)
    ensures
        message::packed::<T>(values, s, limit) matches Ok((all, rest)) ==> rest.len() == limit
            && values.is_prefix_of(all),
        s.len() == limit ==> message::packed::<T>(values, s, limit) == Ok::<
            (Seq<T>, Seq<u8>),
            DecodeFault,
        >((values, s)),
        s.len() < limit ==> message::packed::<T>(values, s, limit) == Err::<
            (Seq<T>, Seq<u8>),
            DecodeFault,
        >(DecodeFault::DelimitedLengthExceeded),
        s.len() > limit ==> (match wire::varint(s) {
            Some((n, rest)) => message::packed::<T>(values, s, limit) == message::packed::<T>(
                values.push(T::from_wire(n)),
                rest,
                limit,
            ),
            None => message::packed::<T>(values, s, limit) == Err::<
                (Seq<T>, Seq<u8>),
                DecodeFault,
            >(DecodeFault::InvalidVarint),
        }),
    decreases s.len(),
{
    wire::lemma_varint_shrinks(s);
    if s.len() > limit {
        if let Some((n, rest)) = wire::varint(s) {
            law_packed_lists_end_with_their_bytes::<T>(
                values.push(T::from_wire(n)),
                rest,
                limit,
            );
        }
    }
}

/// A fault inside of a message is told with the fields that lead to it, and a message in a field
/// of another wire type is refused.
pub proof fn law_nested_messages_are_checked<M: Message>(
    m: M::V,
    body: Seq<u8>,
    rest: Seq<u8>,
    actual: WireType,
    depth: nat,
)
    requires
        body.len() <= u64::MAX,
    ensures
        depth > 0 ==> message::message_field::<M>(
            m,
            WireType::LengthDelimited,
            encoding::delimited_bytes(body) + rest,
            depth,
        ) == message::fields::<M>(m, body + rest, rest.len(), (depth - 1) as nat),
        message::message_field::<M>(m, WireType::LengthDelimited, rest, 0) == Err::<
            (M::V, Seq<u8>),
            MessageErrorView,
        >(MessageErrorView { fault: DecodeFault::RecursionLimitReached, path: seq![] }),
        actual != WireType::LengthDelimited ==> message::message_field::<M>(m, actual, rest, depth)
            == Err::<(M::V, Seq<u8>), MessageErrorView>(
            MessageErrorView {
                fault: DecodeFault::UnexpectedWireType {
                    actual,
                    expected: WireType::LengthDelimited,
                },
                path: seq![],
            },
        ),
{
    encoding::lemma_delimited_reads_back(body, rest);
}

} // verus!
