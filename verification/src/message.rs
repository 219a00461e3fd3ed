//! Protobuf messages read from the wire, field by field.
//!
//! A type that implements [`Message`] says what each of its fields does to the
//! message read so far; the loops around that, which are the same for every
//! message, stand here. As protobuf asks, a field that occurs again replaces a
//! number or string, adds to a list, and is merged into a message.

use vstd::prelude::*;
use vstd::slice::slice_subrange;
use vstd::string::*;

use crate::text;
use crate::wire;
use crate::wire::{DecodeFault, WireType};

verus! {

/// How many messages and groups may stand inside each other.
pub const RECURSION_LIMIT: u32 = 100;

/// A field of a message, by the names that the schema gives them.
#[derive(Clone, Debug)]
pub struct FieldName {
    pub message: &'static str,
    pub field: &'static str,
}

impl DeepView for FieldName {
    type V = (Seq<char>, Seq<char>);

    open spec fn deep_view(&self) -> (Seq<char>, Seq<char>) {
        (self.message@, self.field@)
    }
}

/// Why bytes are not a message, and in which field, innermost first.
#[derive(Clone, Debug)]
pub struct MessageError {
    pub fault: DecodeFault,
    pub path: Vec<FieldName>,
}

/// The value of a [`MessageError`].
pub struct MessageErrorView {
    pub fault: DecodeFault,
    pub path: Seq<(Seq<char>, Seq<char>)>,
}

impl DeepView for MessageError {
    type V = MessageErrorView;

    open spec fn deep_view(&self) -> MessageErrorView {
        MessageErrorView { fault: self.fault, path: self.path.deep_view() }
    }
}

/// A fault outside of any known field.
pub open spec fn bare(fault: DecodeFault) -> MessageErrorView {
    MessageErrorView { fault, path: Seq::empty() }
}

/// `error`, seen from the message that holds the field.
pub open spec fn within(
    error: MessageErrorView,
    message: Seq<char>,
    field: Seq<char>,
) -> MessageErrorView {
    MessageErrorView { fault: error.fault, path: error.path.push((message, field)) }
}

/// A fault in the payload of a field.
pub open spec fn fault_in_field(
    fault: DecodeFault,
    message: Seq<char>,
    field: Seq<char>,
) -> MessageErrorView {
    within(bare(fault), message, field)
}

/// The name of a wire type.
pub open spec fn wire_type_text(wire_type: WireType) -> Seq<char> {
    match wire_type {
        WireType::Varint => "Varint"@,
        WireType::SixtyFourBit => "SixtyFourBit"@,
        WireType::LengthDelimited => "LengthDelimited"@,
        WireType::StartGroup => "StartGroup"@,
        WireType::EndGroup => "EndGroup"@,
        WireType::ThirtyTwoBit => "ThirtyTwoBit"@,
    }
}

/// A fault in words.
pub open spec fn fault_text(fault: DecodeFault) -> Seq<char> {
    match fault {
        DecodeFault::InvalidVarint => "invalid varint"@,
        DecodeFault::RecursionLimitReached => "recursion limit reached"@,
        DecodeFault::InvalidWireType { value } => "invalid wire type value: "@ + text::decimal(
            value as int,
        ),
        DecodeFault::InvalidKey { key } => "invalid key value: "@ + text::decimal(key as int),
        DecodeFault::InvalidTag => "invalid tag value: 0"@,
        DecodeFault::UnexpectedWireType { actual, expected } => "invalid wire type: "@
            + wire_type_text(actual) + " (expected "@ + wire_type_text(expected) + ")"@,
        DecodeFault::BufferUnderflow => "buffer underflow"@,
        DecodeFault::DelimitedLengthExceeded => "delimited length exceeded"@,
        DecodeFault::UnexpectedEndGroupTag => "unexpected end group tag"@,
        DecodeFault::InvalidString => "invalid string value: data is not UTF-8 encoded"@,
    }
}

/// The fields on the way to a fault, each as `Message.field: `.
pub open spec fn path_text(path: Seq<(Seq<char>, Seq<char>)>) -> Seq<char>
    decreases path.len(),
{
    if path.len() == 0 {
        Seq::empty()
    } else {
        path_text(path.drop_last()) + path.last().0 + "."@ + path.last().1 + ": "@
    }
}

/// A decode error in words.
pub open spec fn message_error_text(error: MessageErrorView) -> Seq<char> {
    "failed to decode Protobuf message: "@ + path_text(error.path) + fault_text(error.fault)
}

fn push_wire_type(out: &mut String, wire_type: WireType)
    ensures
        final(out)@ == old(out)@ + wire_type_text(wire_type),
{
    match wire_type {
        WireType::Varint => out.append("Varint"),
        WireType::SixtyFourBit => out.append("SixtyFourBit"),
        WireType::LengthDelimited => out.append("LengthDelimited"),
        WireType::StartGroup => out.append("StartGroup"),
        WireType::EndGroup => out.append("EndGroup"),
        WireType::ThirtyTwoBit => out.append("ThirtyTwoBit"),
    }
}

fn push_fault(out: &mut String, fault: DecodeFault)
    ensures
        final(out)@ == old(out)@ + fault_text(fault),
{
    match fault {
        DecodeFault::InvalidVarint => out.append("invalid varint"),
        DecodeFault::RecursionLimitReached => out.append("recursion limit reached"),
        DecodeFault::InvalidWireType { value } => {
            out.append("invalid wire type value: ");
            text::push_unsigned(out, value);
        },
        DecodeFault::InvalidKey { key } => {
            out.append("invalid key value: ");
            text::push_unsigned(out, key);
        },
        DecodeFault::InvalidTag => out.append("invalid tag value: 0"),
        DecodeFault::UnexpectedWireType { actual, expected } => {
            out.append("invalid wire type: ");
            push_wire_type(out, actual);
            out.append(" (expected ");
            push_wire_type(out, expected);
            out.append(")");
        },
        DecodeFault::BufferUnderflow => out.append("buffer underflow"),
        DecodeFault::DelimitedLengthExceeded => out.append("delimited length exceeded"),
        DecodeFault::UnexpectedEndGroupTag => out.append("unexpected end group tag"),
        DecodeFault::InvalidString => out.append("invalid string value: data is not UTF-8 encoded"),
    }
    assert(out@ =~= old(out)@ + fault_text(fault));
}

impl MessageError {
    /// The error in words.
    pub fn to_string(&self) -> (res: String)
        ensures
            res@ == message_error_text(self.deep_view()),
    {
        let mut out = String::new();
        out.append("failed to decode Protobuf message: ");
        let ghost start = out@;
        let mut i: usize = 0;
        while i < self.path.len()
            invariant
                0 <= i <= self.path@.len(),
                out@ == start + path_text(self.path.deep_view().take(i as int)),
            decreases self.path@.len() - i,
        {
            let ghost whole = self.path.deep_view();
            assert(whole.take(i + 1).drop_last() == whole.take(i as int));
            out.append(self.path[i].message);
            out.append(".");
            out.append(self.path[i].field);
            out.append(": ");
            i += 1;
            assert(out@ =~= start + path_text(whole.take(i as int)));
        }
        assert(self.path.deep_view().take(i as int) == self.path.deep_view());
        push_fault(&mut out, self.fault);
        assert(out@ =~= message_error_text(self.deep_view()));
        out
    }
}

/// An error for a fault outside of any known field.
pub fn outside(fault: DecodeFault) -> (error: MessageError)
    ensures
        error.deep_view() == bare(fault),
{
    let error = MessageError { fault, path: Vec::new() };
    assert(error.path.deep_view() =~= Seq::empty());
    error
}

/// `error`, with the field that holds it added to its path.
pub fn inside(
    error: MessageError,
    message: &'static str,
    field: &'static str,
) -> (res: MessageError)
    ensures
        res.deep_view() == within(error.deep_view(), message@, field@),
{
    let MessageError { fault, path } = error;
    let ghost before = path.deep_view();
    let mut path = path;
    path.push(FieldName { message, field });
    assert(path.deep_view() =~= before.push((message@, field@)));
    MessageError { fault, path }
}

/// An error for a fault in the payload of a field.
pub fn fault_inside(fault: DecodeFault, message: &'static str, field: &'static str) -> (res:
    MessageError)
    ensures
        res.deep_view() == fault_in_field(fault, message@, field@),
{
    inside(outside(fault), message, field)
}

/// A number that travels as a varint.
pub trait Scalar: Sized + Copy {
    /// The number that the varint `v` stands for.
    spec fn from_wire(v: u64) -> Self;

    fn from_varint(v: u64) -> (res: Self)
        ensures
            res == Self::from_wire(v),
    ;
}

impl Scalar for u64 {
    open spec fn from_wire(v: u64) -> u64 {
        v
    }

    fn from_varint(v: u64) -> (res: u64) {
        v
    }
}

impl Scalar for i64 {
    /// Negative numbers travel in two's complement.
    open spec fn from_wire(v: u64) -> i64 {
        if v <= i64::MAX {
            v as i64
        } else {
            (v - 0x1_0000_0000_0000_0000) as i64
        }
    }

    fn from_varint(v: u64) -> (res: i64) {
        if v <= i64::MAX as u64 {
            v as i64
        } else {
            -((u64::MAX - v) as i64) - 1
        }
    }
}

impl Scalar for bool {
    open spec fn from_wire(v: u64) -> bool {
        v != 0
    }

    fn from_varint(v: u64) -> (res: bool) {
        v != 0
    }
}

/// The number in a numeric field, and what follows it.
pub open spec fn scalar_field<T: Scalar>(wire_type: WireType, s: Seq<u8>) -> Result<
    (T, Seq<u8>),
    DecodeFault,
> {
    match wire::expect(WireType::Varint, wire_type) {
        Err(fault) => Err(fault),
        Ok(_) => match wire::varint(s) {
            Some((v, rest)) => Ok((T::from_wire(v), rest)),
            None => Err(DecodeFault::InvalidVarint),
        },
    }
}

/// Numbers one after the other until `limit` bytes are left, added to `values`.
pub open spec fn packed<T: Scalar>(values: Seq<T>, s: Seq<u8>, limit: nat) -> Result<
    (Seq<T>, Seq<u8>),
    DecodeFault,
>
    decreases s.len(),
{
    proof {
        wire::lemma_varint_shrinks(s);
    }
    if s.len() > limit {
        match wire::varint(s) {
            Some((v, rest)) => packed(values.push(T::from_wire(v)), rest, limit),
            None => Err(DecodeFault::InvalidVarint),
        }
    } else if s.len() == limit {
        Ok((values, s))
    } else {
        Err(DecodeFault::DelimitedLengthExceeded)
    }
}

/// A field of a list of numbers: one number, or a packed run of them.
pub open spec fn scalar_list_field<T: Scalar>(
    values: Seq<T>,
    wire_type: WireType,
    s: Seq<u8>,
) -> Result<(Seq<T>, Seq<u8>), DecodeFault> {
    if wire_type is LengthDelimited {
        match wire::delimited(s) {
            Ok((len, rest)) => packed(values, rest, (rest.len() - len) as nat),
            Err(fault) => Err(fault),
        }
    } else {
        match scalar_field::<T>(wire_type, s) {
            Ok((value, rest)) => Ok((values.push(value), rest)),
            Err(fault) => Err(fault),
        }
    }
}

/// The text in a string field, and what follows it.
pub open spec fn text_field(wire_type: WireType, s: Seq<u8>) -> Result<
    (Seq<char>, Seq<u8>),
    DecodeFault,
> {
    match wire::expect(WireType::LengthDelimited, wire_type) {
        Err(fault) => Err(fault),
        Ok(_) => match wire::delimited(s) {
            Err(fault) => Err(fault),
            Ok((len, rest)) => if vstd::utf8::valid_utf8(rest.take(len as int)) {
                Ok((vstd::utf8::decode_utf8(rest.take(len as int)), rest.skip(len as int)))
            } else {
                Err(DecodeFault::InvalidString)
            },
        },
    }
}

/// A protobuf message type.
pub trait Message: Sized + DeepView {
    /// The message without any field.
    spec fn blank() -> Self::V;

    /// What the field number `tag` of type `wire_type`, whose payload starts at `s`,
    /// makes of the message `m`, and what follows the field.
    spec fn field(m: Self::V, tag: u32, wire_type: WireType, s: Seq<u8>, depth: nat) -> Result<
        (Self::V, Seq<u8>),
        MessageErrorView,
    >;

    /// Reading a field takes at least one byte.
    proof fn lemma_field_shrinks(
        m: Self::V,
        tag: u32,
        wire_type: WireType,
        s: Seq<u8>,
        depth: nat,
    )
        ensures
            Self::field(m, tag, wire_type, s, depth) matches Ok((_, rest)) ==> rest.len()
                < s.len(),
    ;

    fn new_blank() -> (m: Self)
        ensures
            m.deep_view() == Self::blank(),
    ;

    fn read_field<'a>(
        &mut self,
        tag: u32,
        wire_type: WireType,
        buf: &'a [u8],
        depth: u32,
    ) -> (res: Result<&'a [u8], MessageError>)
        ensures
            match Self::field(old(self).deep_view(), tag, wire_type, buf@, depth as nat) {
                Ok((m, rest)) => res matches Ok(r) && r@ == rest && final(self).deep_view() == m,
                Err(error) => res matches Err(e) && e.deep_view() == error,
            },
    ;
}

/// Fields one after the other until `limit` bytes are left, read into `m`.
pub open spec fn fields<M: Message>(m: M::V, s: Seq<u8>, limit: nat, depth: nat) -> Result<
    (M::V, Seq<u8>),
    MessageErrorView,
>
    decreases s.len(),
{
    proof {
        wire::lemma_key_shrinks(s);
    }
    if s.len() > limit {
        match wire::key(s) {
            Err(fault) => Err(bare(fault)),
            Ok((tag, wire_type, rest)) => {
                proof {
                    M::lemma_field_shrinks(m, tag, wire_type, rest, depth);
                }
                match M::field(m, tag, wire_type, rest, depth) {
                    Err(error) => Err(error),
                    Ok((next, after)) => fields::<M>(next, after, limit, depth),
                }
            },
        }
    } else if s.len() == limit {
        Ok((m, s))
    } else {
        Err(bare(DecodeFault::DelimitedLengthExceeded))
    }
}

/// A field of message type, read into `m`.
pub open spec fn message_field<M: Message>(
    m: M::V,
    wire_type: WireType,
    s: Seq<u8>,
    depth: nat,
) -> Result<(M::V, Seq<u8>), MessageErrorView> {
    match wire::expect(WireType::LengthDelimited, wire_type) {
        Err(fault) => Err(bare(fault)),
        Ok(_) => if depth == 0 {
            Err(bare(DecodeFault::RecursionLimitReached))
        } else {
            match wire::delimited(s) {
                Err(fault) => Err(bare(fault)),
                Ok((len, rest)) => fields::<M>(
                    m,
                    rest,
                    (rest.len() - len) as nat,
                    (depth - 1) as nat,
                ),
            }
        },
    }
}

/// A field of a list of messages: one more message.
pub open spec fn message_list_field<M: Message>(
    list: Seq<M::V>,
    wire_type: WireType,
    s: Seq<u8>,
    depth: nat,
) -> Result<(Seq<M::V>, Seq<u8>), MessageErrorView> {
    match message_field::<M>(M::blank(), wire_type, s, depth) {
        Ok((m, rest)) => Ok((list.push(m), rest)),
        Err(error) => Err(error),
    }
}

/// The message that the bytes `s` are.
pub open spec fn message_of<M: Message>(s: Seq<u8>) -> Result<M::V, MessageErrorView> {
    match fields::<M>(M::blank(), s, 0, RECURSION_LIMIT as nat) {
        Ok((m, _)) => Ok(m),
        Err(error) => Err(error),
    }
}

pub proof fn lemma_scalar_field_shrinks<T: Scalar>(wire_type: WireType, s: Seq<u8>)
    ensures
        scalar_field::<T>(wire_type, s) matches Ok((_, rest)) ==> rest.len() < s.len(),
{
    wire::lemma_varint_shrinks(s);
}

pub proof fn lemma_packed_shrinks<T: Scalar>(values: Seq<T>, s: Seq<u8>, limit: nat)
    ensures
        packed(values, s, limit) matches Ok((_, rest)) ==> rest.len() <= s.len(),
    decreases s.len(),
{
    wire::lemma_varint_shrinks(s);
    if s.len() > limit {
        if let Some((v, rest)) = wire::varint(s) {
            lemma_packed_shrinks(values.push(T::from_wire(v)), rest, limit);
        }
    }
}

pub proof fn lemma_scalar_list_field_shrinks<T: Scalar>(
    values: Seq<T>,
    wire_type: WireType,
    s: Seq<u8>,
)
    ensures
        scalar_list_field(values, wire_type, s) matches Ok((_, rest)) ==> rest.len() < s.len(),
{
    wire::lemma_varint_shrinks(s);
    if let Ok((len, rest)) = wire::delimited(s) {
        lemma_packed_shrinks(values, rest, (rest.len() - len) as nat);
    }
}

pub proof fn lemma_text_field_shrinks(wire_type: WireType, s: Seq<u8>)
    ensures
        text_field(wire_type, s) matches Ok((_, rest)) ==> rest.len() < s.len(),
{
    wire::lemma_varint_shrinks(s);
}

pub proof fn lemma_fields_shrinks<M: Message>(m: M::V, s: Seq<u8>, limit: nat, depth: nat)
    ensures
        fields::<M>(m, s, limit, depth) matches Ok((_, rest)) ==> rest.len() <= s.len()
            && rest.len() == limit,
    decreases s.len(),
{
    wire::lemma_key_shrinks(s);
    if s.len() > limit {
        if let Ok((tag, wire_type, rest)) = wire::key(s) {
            M::lemma_field_shrinks(m, tag, wire_type, rest, depth);
            if let Ok((next, after)) = M::field(m, tag, wire_type, rest, depth) {
                lemma_fields_shrinks::<M>(next, after, limit, depth);
            }
        }
    }
}

/// Where no field adds more than one to the size of a message, the size is at most half the
/// number of bytes.
pub proof fn lemma_fields_size<M: Message>(
    size: spec_fn(M::V) -> nat,
    m: M::V,
    s: Seq<u8>,
    limit: nat,
    depth: nat,
)
    requires
        forall|m: M::V, tag: u32, wire_type: WireType, s: Seq<u8>, depth: nat|
            #[trigger] M::field(m, tag, wire_type, s, depth) matches Ok((next, _)) ==> size(next)
                <= size(m) + 1,
    ensures
        fields::<M>(m, s, limit, depth) matches Ok((v, _)) ==> 2 * size(v) <= 2 * size(m)
            + s.len(),
    decreases s.len(),
{
    wire::lemma_key_shrinks(s);
    if s.len() > limit {
        if let Ok((tag, wire_type, rest)) = wire::key(s) {
            M::lemma_field_shrinks(m, tag, wire_type, rest, depth);
            if let Ok((next, after)) = M::field(m, tag, wire_type, rest, depth) {
                lemma_fields_size::<M>(size, next, after, limit, depth);
            }
        }
    }
}

pub proof fn lemma_message_field_shrinks<M: Message>(
    m: M::V,
    wire_type: WireType,
    s: Seq<u8>,
    depth: nat,
)
    ensures
        message_field::<M>(m, wire_type, s, depth) matches Ok((_, rest)) ==> rest.len() < s.len(),
{
    wire::lemma_varint_shrinks(s);
    if depth > 0 {
        if let Ok((len, rest)) = wire::delimited(s) {
            lemma_fields_shrinks::<M>(m, rest, (rest.len() - len) as nat, (depth - 1) as nat);
        }
    }
}

/// Reads a numeric field.
pub fn read_scalar<T: Scalar>(wire_type: WireType, buf: &[u8]) -> (res: Result<
    (T, &[u8]),
    DecodeFault,
>)
    ensures
        match scalar_field::<T>(wire_type, buf@) {
            Ok((value, rest)) => res matches Ok((v, r)) && v == value && r@ == rest,
            Err(fault) => res matches Err(f) && f == fault,
        },
{
    match wire::check_wire_type(WireType::Varint, wire_type) {
        Err(fault) => Err(fault),
        Ok(_) => match wire::read_varint(buf) {
            Ok((v, rest)) => Ok((T::from_varint(v), rest)),
            Err(fault) => Err(fault),
        },
    }
}

/// Reads a field of a list of numbers onto the end of the list.
pub fn read_scalar_list<'a, T: Scalar>(
    values: &mut Vec<T>,
    wire_type: WireType,
    buf: &'a [u8],
) -> (res: Result<&'a [u8], DecodeFault>)
    ensures
        match scalar_list_field(old(values)@, wire_type, buf@) {
            Ok((list, rest)) => res matches Ok(r) && r@ == rest && final(values)@ == list,
            Err(fault) => res matches Err(f) && f == fault,
        },
{
    if !matches!(wire_type, WireType::LengthDelimited) {
        return match read_scalar::<T>(wire_type, buf) {
            Ok((value, rest)) => {
                values.push(value);
                Ok(rest)
            },
            Err(fault) => Err(fault),
        };
    }
    let (len, payload) = match wire::read_delimiter(buf) {
        Ok(read) => read,
        Err(fault) => {
            return Err(fault);
        },
    };
    let limit: usize = payload.len() - len;
    let mut rest: &[u8] = payload;
    while rest.len() > limit
        invariant
            packed(values@, rest@, limit as nat) == scalar_list_field(
                old(values)@,
                wire_type,
                buf@,
            ),
        decreases rest@.len(),
    {
        match wire::read_varint(rest) {
            Ok((v, after)) => {
                values.push(T::from_varint(v));
                rest = after;
            },
            Err(fault) => {
                return Err(fault);
            },
        }
    }
    if rest.len() == limit {
        Ok(rest)
    } else {
        Err(DecodeFault::DelimitedLengthExceeded)
    }
}

/// std's UTF-8 error, carried as an opaque value.
#[verifier::external_type_specification]
#[verifier::external_body]
pub struct ExUtf8Error(core::str::Utf8Error);

/// `core::str::from_utf8` succeeds exactly on valid UTF-8, and its result is the text
/// that the bytes encode.
pub assume_specification[ core::str::from_utf8 ](v: &[u8]) -> (res: Result<
    &str,
    core::str::Utf8Error,
>)
    ensures
        vstd::utf8::valid_utf8(v@) <==> res is Ok,
        res matches Ok(s) ==> s@ == vstd::utf8::decode_utf8(v@),
;

/// Reads a string field.
pub fn read_text(wire_type: WireType, buf: &[u8]) -> (res: Result<(String, &[u8]), DecodeFault>)
    ensures
        match text_field(wire_type, buf@) {
            Ok((text, rest)) => res matches Ok((t, r)) && t@ == text && r@ == rest,
            Err(fault) => res matches Err(f) && f == fault,
        },
{
    match wire::check_wire_type(WireType::LengthDelimited, wire_type) {
        Err(fault) => {
            return Err(fault);
        },
        Ok(_) => {},
    }
    let (len, payload) = match wire::read_delimiter(buf) {
        Ok(read) => read,
        Err(fault) => {
            return Err(fault);
        },
    };
    let bytes = slice_subrange(payload, 0, len);
    assert(bytes@ == payload@.take(len as int));
    match core::str::from_utf8(bytes) {
        Ok(text) => {
            let rest = slice_subrange(payload, len, payload.len());
            assert(rest@ == payload@.skip(len as int));
            Ok((text.to_owned(), rest))
        },
        Err(_) => Err(DecodeFault::InvalidString),
    }
}

/// Reads fields into `m` until `limit` bytes are left.
fn read_fields<'a, M: Message>(m: &mut M, buf: &'a [u8], limit: usize, depth: u32) -> (res: Result<
    &'a [u8],
    MessageError,
>)
    ensures
        match fields::<M>(old(m).deep_view(), buf@, limit as nat, depth as nat) {
            Ok((v, rest)) => res matches Ok(r) && r@ == rest && final(m).deep_view() == v,
            Err(error) => res matches Err(e) && e.deep_view() == error,
        },
{
    let mut rest: &[u8] = buf;
    while rest.len() > limit
        invariant
            fields::<M>(m.deep_view(), rest@, limit as nat, depth as nat) == fields::<M>(
                old(m).deep_view(),
                buf@,
                limit as nat,
                depth as nat,
            ),
        decreases rest@.len(),
    {
        let (tag, wire_type, after_key) = match wire::read_key(rest) {
            Ok(read) => read,
            Err(fault) => {
                return Err(outside(fault));
            },
        };
        proof {
            M::lemma_field_shrinks(m.deep_view(), tag, wire_type, after_key@, depth as nat);
        }
        rest = match m.read_field(tag, wire_type, after_key, depth) {
            Ok(after) => after,
            Err(error) => {
                return Err(error);
            },
        };
    }
    if rest.len() == limit {
        Ok(rest)
    } else {
        Err(outside(DecodeFault::DelimitedLengthExceeded))
    }
}

/// Reads a field of message type into `m`.
pub fn read_message<'a, M: Message>(
    m: &mut M,
    wire_type: WireType,
    buf: &'a [u8],
    depth: u32,
) -> (res: Result<&'a [u8], MessageError>)
    ensures
        match message_field::<M>(old(m).deep_view(), wire_type, buf@, depth as nat) {
            Ok((v, rest)) => res matches Ok(r) && r@ == rest && final(m).deep_view() == v,
            Err(error) => res matches Err(e) && e.deep_view() == error,
        },
{
    match wire::check_wire_type(WireType::LengthDelimited, wire_type) {
        Err(fault) => {
            return Err(outside(fault));
        },
        Ok(_) => {},
    }
    if depth == 0 {
        return Err(outside(DecodeFault::RecursionLimitReached));
    }
    match wire::read_delimiter(buf) {
        Err(fault) => Err(outside(fault)),
        Ok((len, payload)) => read_fields(m, payload, payload.len() - len, depth - 1),
    }
}

/// Reads a field of a list of messages onto the end of the list.
pub fn read_message_list<'a, M: Message>(
    list: &mut Vec<M>,
    wire_type: WireType,
    buf: &'a [u8],
    depth: u32,
) -> (res: Result<&'a [u8], MessageError>)
    ensures
        match message_list_field::<M>(old(list).deep_view(), wire_type, buf@, depth as nat) {
            Ok((v, rest)) => res matches Ok(r) && r@ == rest && final(list).deep_view() == v,
            Err(error) => res matches Err(e) && e.deep_view() == error,
        },
{
    let mut m = M::new_blank();
    match read_message(&mut m, wire_type, buf, depth) {
        Ok(rest) => {
            list.push(m);
            assert(list.deep_view() =~= old(list).deep_view().push(m.deep_view()));
            Ok(rest)
        },
        Err(error) => Err(error),
    }
}

/// Reads a whole message.
pub fn decode<M: Message>(buf: &[u8]) -> (res: Result<M, MessageError>)
    ensures
        match message_of::<M>(buf@) {
            Ok(v) => res matches Ok(m) && m.deep_view() == v,
            Err(error) => res matches Err(e) && e.deep_view() == error,
        },
{
    let mut m = M::new_blank();
    match read_fields(&mut m, buf, 0, RECURSION_LIMIT) {
        Ok(_) => Ok(m),
        Err(error) => Err(error),
    }
}

} // verus!
