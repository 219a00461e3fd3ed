//! How messages are written on the wire, and that reading gives back what was written.

use vstd::prelude::*;

use crate::message;
use crate::message::{Message, MessageErrorView, Scalar};
use crate::wire;
use crate::wire::WireType;

verus! {

/// A number as a varint: seven bits per byte, the lowest ones first.
pub open spec fn varint_bytes(v: nat) -> Seq<u8>
    decreases v,
{
    if v < 128 {
        seq![v as u8]
    } else {
        seq![(128 + v % 128) as u8] + varint_bytes(v / 128)
    }
}

/// How many numbers a run of seven-bit digits can tell apart.
pub open spec fn digit_values(digits: nat) -> nat
    decreases digits,
{
    if digits == 0 {
        1
    } else {
        128 * digit_values((digits - 1) as nat)
    }
}

proof fn lemma_digits_read_back(v: nat, limit: nat, rest: Seq<u8>)
    requires
        limit > 0,
        v < digit_values(limit),
    ensures
        wire::leb128(varint_bytes(v) + rest, limit) == Some((v, varint_bytes(v).len())),
    decreases limit,
{
    let s = varint_bytes(v) + rest;
    if v < 128 {
        assert(s[0] == v);
    } else {
        assert(limit > 1) by {
            reveal_with_fuel(digit_values, 2);
        }
        lemma_digits_read_back(v / 128, (limit - 1) as nat, rest);
        assert(s.skip(1) =~= varint_bytes(v / 128) + rest);
        assert(s[0] == 128 + v % 128);
    }
}

/// Reading a written varint gives the number, and leaves what follows it.
pub proof fn law_varints_read_back(v: u64, rest: Seq<u8>)
    ensures
        wire::varint(varint_bytes(v as nat) + rest) == Some((v, rest)),
{
    reveal_with_fuel(digit_values, 11);
    lemma_digits_read_back(v as nat, 10, rest);
    assert((varint_bytes(v as nat) + rest).skip(varint_bytes(v as nat).len() as int) =~= rest);
}

/// The low three bits of a key.
pub open spec fn wire_type_bits(wire_type: WireType) -> nat {
    match wire_type {
        WireType::Varint => 0,
        WireType::SixtyFourBit => 1,
        WireType::LengthDelimited => 2,
        WireType::StartGroup => 3,
        WireType::EndGroup => 4,
        WireType::ThirtyTwoBit => 5,
    }
}

/// The key of a field.
pub open spec fn key_bytes(tag: u32, wire_type: WireType) -> Seq<u8> {
    varint_bytes((tag * 8 + wire_type_bits(wire_type)) as nat)
}

/// Reading a written key gives the field number and the wire type, and leaves what follows it.
/// Field numbers have 29 bits.
pub proof fn law_keys_read_back(tag: u32, wire_type: WireType, rest: Seq<u8>)
    requires
        0 < tag < 0x2000_0000,
    ensures
        wire::key(key_bytes(tag, wire_type) + rest) == Ok::<
            (u32, WireType, Seq<u8>),
            wire::DecodeFault,
        >((tag, wire_type, rest)),
{
    let k = (tag * 8 + wire_type_bits(wire_type)) as u64;
    law_varints_read_back(k, rest);
    assert(k % 8 == wire_type_bits(wire_type));
    assert(k / 8 == tag);
}

/// A payload behind its length.
pub open spec fn delimited_bytes(payload: Seq<u8>) -> Seq<u8> {
    varint_bytes(payload.len()) + payload
}

pub proof fn lemma_delimited_reads_back(payload: Seq<u8>, rest: Seq<u8>)
    requires
        payload.len() <= u64::MAX,
    ensures
        wire::delimited(delimited_bytes(payload) + rest) == Ok::<
            (nat, Seq<u8>),
            wire::DecodeFault,
        >((payload.len(), payload + rest)),
{
    assert(delimited_bytes(payload) + rest =~= varint_bytes(payload.len()) + (payload + rest));
    law_varints_read_back(payload.len() as u64, payload + rest);
}

/// A number as it travels in a varint.
pub trait Travels: Scalar {
    /// The varint.
    spec fn wire(self) -> u64;

    /// The varint stands for the number.
    proof fn lemma_wire(self)
        ensures
            Self::from_wire(self.wire()) == self,
    ;
}

impl Travels for u64 {
    open spec fn wire(self) -> u64 {
        self
    }

    proof fn lemma_wire(self) {
    }
}

impl Travels for i64 {
    /// Negative numbers travel in two's complement.
    open spec fn wire(self) -> u64 {
        if self >= 0 {
            self as u64
        } else {
            (self + 0x1_0000_0000_0000_0000) as u64
        }
    }

    proof fn lemma_wire(self) {
    }
}

impl Travels for bool {
    open spec fn wire(self) -> u64 {
        if self {
            1
        } else {
            0
        }
    }

    proof fn lemma_wire(self) {
    }
}

/// Numbers as varints, one after the other.
pub open spec fn packed_bytes<T: Travels>(values: Seq<T>) -> Seq<u8>
    decreases values.len(),
{
    if values.len() == 0 {
        seq![]
    } else {
        varint_bytes(values.first().wire() as nat) + packed_bytes(values.drop_first())
    }
}

pub proof fn lemma_packed_reads_back<T: Travels>(list: Seq<T>, values: Seq<T>, rest: Seq<u8>)
    ensures
        message::packed(list, packed_bytes(values) + rest, rest.len()) == Ok::<
            (Seq<T>, Seq<u8>),
            wire::DecodeFault,
        >((list + values, rest)),
    decreases values.len(),
{
    let s = packed_bytes(values) + rest;
    if values.len() == 0 {
        assert(s =~= rest);
        assert(list + values =~= list);
    } else {
        let first = values.first();
        let more = values.drop_first();
        let tail = packed_bytes(more) + rest;
        assert(s =~= varint_bytes(first.wire() as nat) + tail);
        law_varints_read_back(first.wire(), tail);
        first.lemma_wire();
        lemma_packed_reads_back(list.push(first), more, rest);
        assert(list.push(first) + more =~= list + values);
    }
}

/// A message that can be written.
pub trait Written: Message {
    /// How deep messages are nested in one of these.
    spec fn nesting() -> nat;

    /// A message on the wire: its fields, in order.
    spec fn bytes(m: Self::V) -> Seq<u8>;

    /// Reading the bytes into a message without any field gives the message.
    proof fn lemma_reads_back(m: Self::V, depth: nat)
        requires
            Self::bytes(m).len() <= u64::MAX,
            depth >= Self::nesting(),
        ensures
            is_step::<Self>(Self::blank(), Self::bytes(m), m, depth),
    ;
}

/// A numeric field, left out where it is zero.
pub open spec fn scalar_piece<T: Travels>(tag: u32, value: T) -> Seq<u8> {
    if value.wire() == 0 {
        seq![]
    } else {
        key_bytes(tag, WireType::Varint) + varint_bytes(value.wire() as nat)
    }
}

/// A field of a list of numbers, left out where it is empty.
pub open spec fn packed_piece<T: Travels>(tag: u32, values: Seq<T>) -> Seq<u8> {
    if values.len() == 0 {
        seq![]
    } else {
        key_bytes(tag, WireType::LengthDelimited) + delimited_bytes(packed_bytes(values))
    }
}

/// A field of a list of strings: one field per string.
pub open spec fn text_list_piece(tag: u32, items: Seq<Seq<char>>) -> Seq<u8>
    decreases items.len(),
{
    if items.len() == 0 {
        seq![]
    } else {
        text_list_piece(tag, items.drop_last()) + (key_bytes(tag, WireType::LengthDelimited)
            + delimited_bytes(vstd::utf8::encode_utf8(items.last())))
    }
}

/// A field of message type.
pub open spec fn message_piece<E: Written>(tag: u32, m: E::V) -> Seq<u8> {
    key_bytes(tag, WireType::LengthDelimited) + delimited_bytes(E::bytes(m))
}

/// A field of message type, left out where there is no message.
pub open spec fn optional_piece<E: Written>(tag: u32, value: Option<E::V>) -> Seq<u8> {
    match value {
        Some(m) => message_piece::<E>(tag, m),
        None => seq![],
    }
}

/// A field of a list of messages: one field per message.
pub open spec fn message_list_piece<E: Written>(tag: u32, items: Seq<E::V>) -> Seq<u8>
    decreases items.len(),
{
    if items.len() == 0 {
        seq![]
    } else {
        message_list_piece::<E>(tag, items.drop_last()) + message_piece::<E>(tag, items.last())
    }
}

/// Whether reading the bytes turns one message into the next, whatever follows them.
pub open spec fn is_step<M: Message>(m: M::V, bytes: Seq<u8>, next: M::V, depth: nat) -> bool {
    forall|rest: Seq<u8>, limit: nat|
        limit <= rest.len() ==> #[trigger] message::fields::<M>(m, bytes + rest, limit, depth)
            == message::fields::<M>(next, rest, limit, depth)
}

/// Reading no bytes changes nothing.
proof fn lemma_no_step<M: Message>(m: M::V, depth: nat)
    ensures
        is_step::<M>(m, seq![], m, depth),
{
    assert forall|rest: Seq<u8>, limit: nat| limit <= rest.len() implies
        #[trigger] message::fields::<M>(m, Seq::<u8>::empty() + rest, limit, depth)
            == message::fields::<M>(m, rest, limit, depth) by {
        assert(Seq::<u8>::empty() + rest =~= rest);
    }
}

/// Steps can be taken one after the other. The result is the bytes of both.
pub proof fn lemma_steps_join<M: Message>(
    m: M::V,
    first: Seq<u8>,
    between: M::V,
    second: Seq<u8>,
    next: M::V,
    depth: nat,
) -> (bytes: Seq<u8>)
    requires
        is_step::<M>(m, first, between, depth),
        is_step::<M>(between, second, next, depth),
    ensures
        bytes == first + second,
        is_step::<M>(m, bytes, next, depth),
{
    assert forall|rest: Seq<u8>, limit: nat| limit <= rest.len() implies
        #[trigger] message::fields::<M>(m, first + second + rest, limit, depth)
            == message::fields::<M>(next, rest, limit, depth) by {
        assert(first + second + rest =~= first + (second + rest));
        assert(message::fields::<M>(m, first + (second + rest), limit, depth)
            == message::fields::<M>(between, second + rest, limit, depth));
    }
    first + second
}

/// A field that is read in any place is a step.
pub proof fn lemma_field_is_step<M: Message>(
    m: M::V,
    tag: u32,
    wire_type: WireType,
    payload: Seq<u8>,
    next: M::V,
    depth: nat,
)
    requires
        0 < tag < 0x2000_0000,
        forall|rest: Seq<u8>|
            #[trigger] M::field(m, tag, wire_type, payload + rest, depth) == Ok::<
                (M::V, Seq<u8>),
                MessageErrorView,
            >((next, rest)),
    ensures
        is_step::<M>(m, key_bytes(tag, wire_type) + payload, next, depth),
{
    let bytes = key_bytes(tag, wire_type) + payload;
    assert forall|rest: Seq<u8>, limit: nat| limit <= rest.len() implies
        #[trigger] message::fields::<M>(m, bytes + rest, limit, depth)
            == message::fields::<M>(next, rest, limit, depth) by {
        assert(bytes + rest =~= key_bytes(tag, wire_type) + (payload + rest));
        law_keys_read_back(tag, wire_type, payload + rest);
        assert(key_bytes(tag, wire_type).len() > 0);
        assert(M::field(m, tag, wire_type, payload + rest, depth) is Ok);
    }
}

/// A numeric field that a message takes is a step. The result is its bytes.
pub proof fn lemma_scalar_step<M: Message, T: Travels>(
    m: M::V,
    tag: u32,
    value: T,
    next: M::V,
    depth: nat,
) -> (bytes: Seq<u8>)
    requires
        0 < tag < 0x2000_0000,
        value.wire() == 0 ==> next == m,
        value.wire() != 0 ==> forall|s: Seq<u8>|
            message::scalar_field::<T>(WireType::Varint, s) matches Ok((v, rest)) ==> v
                == value ==> #[trigger] M::field(m, tag, WireType::Varint, s, depth) == Ok::<
                (M::V, Seq<u8>),
                MessageErrorView,
            >((next, rest)),
    ensures
        bytes == scalar_piece(tag, value),
        is_step::<M>(m, bytes, next, depth),
{
    if value.wire() == 0 {
        lemma_no_step::<M>(m, depth);
    } else {
        let payload = varint_bytes(value.wire() as nat);
        assert forall|rest: Seq<u8>|
            #[trigger] M::field(m, tag, WireType::Varint, payload + rest, depth) == Ok::<
                (M::V, Seq<u8>),
                MessageErrorView,
            >((next, rest)) by {
            law_varints_read_back(value.wire(), rest);
            value.lemma_wire();
        }
        lemma_field_is_step::<M>(m, tag, WireType::Varint, payload, next, depth);
    }
    scalar_piece(tag, value)
}

/// A field of a list of numbers that a message takes is a step. The result is its bytes.
pub proof fn lemma_packed_step<M: Message, T: Travels>(
    m: M::V,
    tag: u32,
    values: Seq<T>,
    next: M::V,
    depth: nat,
) -> (bytes: Seq<u8>)
    requires
        0 < tag < 0x2000_0000,
        packed_piece(tag, values).len() <= u64::MAX,
        values.len() == 0 ==> next == m,
        forall|s: Seq<u8>|
            message::scalar_list_field(Seq::<T>::empty(), WireType::LengthDelimited, s) matches Ok(
                (list, rest),
            ) ==> list == values ==> #[trigger] M::field(
                m,
                tag,
                WireType::LengthDelimited,
                s,
                depth,
            ) == Ok::<(M::V, Seq<u8>), MessageErrorView>((next, rest)),
    ensures
        bytes == packed_piece(tag, values),
        is_step::<M>(m, bytes, next, depth),
{
    if values.len() == 0 {
        lemma_no_step::<M>(m, depth);
    } else {
        let packed = packed_bytes(values);
        let payload = delimited_bytes(packed);
        assert forall|rest: Seq<u8>|
            #[trigger] M::field(m, tag, WireType::LengthDelimited, payload + rest, depth) == Ok::<
                (M::V, Seq<u8>),
                MessageErrorView,
            >((next, rest)) by {
            lemma_delimited_reads_back(packed, rest);
            lemma_packed_reads_back(Seq::<T>::empty(), values, rest);
            assert(Seq::<T>::empty() + values =~= values);
        }
        lemma_field_is_step::<M>(m, tag, WireType::LengthDelimited, payload, next, depth);
    }
    packed_piece(tag, values)
}

pub proof fn lemma_text_reads_back(text: Seq<char>, rest: Seq<u8>)
    requires
        vstd::utf8::encode_utf8(text).len() <= u64::MAX,
    ensures
        message::text_field(
            WireType::LengthDelimited,
            delimited_bytes(vstd::utf8::encode_utf8(text)) + rest,
        ) == Ok::<(Seq<char>, Seq<u8>), wire::DecodeFault>((text, rest)),
{
    let bytes = vstd::utf8::encode_utf8(text);
    lemma_delimited_reads_back(bytes, rest);
    assert((bytes + rest).take(bytes.len() as int) =~= bytes);
    assert((bytes + rest).skip(bytes.len() as int) =~= rest);
    vstd::utf8::encode_utf8_valid_utf8(text);
    vstd::utf8::encode_utf8_decode_utf8(text);
}

/// A field of a list of strings that a message takes one by one is a step. `with` gives the
/// message by its list, and the result is the bytes.
pub proof fn lemma_text_list_step<M: Message>(
    with: spec_fn(Seq<Seq<char>>) -> M::V,
    tag: u32,
    items: Seq<Seq<char>>,
    depth: nat,
) -> (bytes: Seq<u8>)
    requires
        0 < tag < 0x2000_0000,
        text_list_piece(tag, items).len() <= u64::MAX,
        forall|list: Seq<Seq<char>>, s: Seq<u8>|
            message::text_field(WireType::LengthDelimited, s) matches Ok((text, rest))
                ==> #[trigger] M::field(
                with(list),
                tag,
                WireType::LengthDelimited,
                s,
                depth,
            ) == Ok::<(M::V, Seq<u8>), MessageErrorView>((with(list.push(text)), rest)),
    ensures
        bytes == text_list_piece(tag, items),
        is_step::<M>(with(seq![]), bytes, with(items), depth),
    decreases items.len(),
{
    if items.len() == 0 {
        assert(items =~= seq![]);
        lemma_no_step::<M>(with(seq![]), depth);
    } else {
        let front = items.drop_last();
        let text = items.last();
        let payload = delimited_bytes(vstd::utf8::encode_utf8(text));
        lemma_text_list_step::<M>(with, tag, front, depth);
        assert(front.push(text) =~= items);
        assert forall|rest: Seq<u8>|
            #[trigger] M::field(
                with(front),
                tag,
                WireType::LengthDelimited,
                payload + rest,
                depth,
            ) == Ok::<(M::V, Seq<u8>), MessageErrorView>((with(items), rest)) by {
            lemma_text_reads_back(text, rest);
        }
        lemma_field_is_step::<M>(
            with(front),
            tag,
            WireType::LengthDelimited,
            payload,
            with(items),
            depth,
        );
        lemma_steps_join::<M>(
            with(seq![]),
            text_list_piece(tag, front),
            with(front),
            key_bytes(tag, WireType::LengthDelimited) + payload,
            with(items),
            depth,
        );
    }
    text_list_piece(tag, items)
}

pub proof fn lemma_message_reads_back<E: Written>(m: E::V, rest: Seq<u8>, depth: nat)
    requires
        E::bytes(m).len() <= u64::MAX,
        depth > E::nesting(),
    ensures
        message::message_field::<E>(
            E::blank(),
            WireType::LengthDelimited,
            delimited_bytes(E::bytes(m)) + rest,
            depth,
        ) == Ok::<(E::V, Seq<u8>), MessageErrorView>((m, rest)),
{
    lemma_delimited_reads_back(E::bytes(m), rest);
    E::lemma_reads_back(m, (depth - 1) as nat);
    assert(message::fields::<E>(
        E::blank(),
        E::bytes(m) + rest,
        rest.len(),
        (depth - 1) as nat,
    ) == message::fields::<E>(m, rest, rest.len(), (depth - 1) as nat));
}

/// A field of message type that a message takes is a step. The result is its bytes.
proof fn lemma_message_step<M: Message, E: Written>(
    m: M::V,
    tag: u32,
    value: E::V,
    next: M::V,
    depth: nat,
) -> (bytes: Seq<u8>)
    requires
        0 < tag < 0x2000_0000,
        message_piece::<E>(tag, value).len() <= u64::MAX,
        depth > E::nesting(),
        forall|s: Seq<u8>|
            message::message_field::<E>(
                E::blank(),
                WireType::LengthDelimited,
                s,
                depth,
            ) matches Ok((v, rest)) ==> v == value ==> #[trigger] M::field(
                m,
                tag,
                WireType::LengthDelimited,
                s,
                depth,
            ) == Ok::<(M::V, Seq<u8>), MessageErrorView>((next, rest)),
    ensures
        bytes == message_piece::<E>(tag, value),
        is_step::<M>(m, bytes, next, depth),
{
    let payload = delimited_bytes(E::bytes(value));
    assert forall|rest: Seq<u8>|
        #[trigger] M::field(m, tag, WireType::LengthDelimited, payload + rest, depth) == Ok::<
            (M::V, Seq<u8>),
            MessageErrorView,
        >((next, rest)) by {
        lemma_message_reads_back::<E>(value, rest, depth);
    }
    lemma_field_is_step::<M>(m, tag, WireType::LengthDelimited, payload, next, depth);
    message_piece::<E>(tag, value)
}

/// A field of message type that a message takes, or that is left out, is a step. The result is
/// its bytes.
pub proof fn lemma_optional_step<M: Message, E: Written>(
    m: M::V,
    tag: u32,
    value: Option<E::V>,
    next: M::V,
    depth: nat,
) -> (bytes: Seq<u8>)
    requires
        0 < tag < 0x2000_0000,
        optional_piece::<E>(tag, value).len() <= u64::MAX,
        depth > E::nesting(),
        value is None ==> next == m,
        forall|s: Seq<u8>|
            message::message_field::<E>(
                E::blank(),
                WireType::LengthDelimited,
                s,
                depth,
            ) matches Ok((v, rest)) ==> Some(v) == value ==> #[trigger] M::field(
                m,
                tag,
                WireType::LengthDelimited,
                s,
                depth,
            ) == Ok::<(M::V, Seq<u8>), MessageErrorView>((next, rest)),
    ensures
        bytes == optional_piece::<E>(tag, value),
        is_step::<M>(m, bytes, next, depth),
{
    match value {
        Some(v) => {
            lemma_message_step::<M, E>(m, tag, v, next, depth);
        },
        None => {
            lemma_no_step::<M>(m, depth);
        },
    }
    optional_piece::<E>(tag, value)
}

/// A field of a list of messages that a message takes one by one is a step. `with` gives the
/// message by its list, and the result is the bytes.
pub proof fn lemma_message_list_step<M: Message, E: Written>(
    with: spec_fn(Seq<E::V>) -> M::V,
    tag: u32,
    items: Seq<E::V>,
    depth: nat,
) -> (bytes: Seq<u8>)
    requires
        0 < tag < 0x2000_0000,
        message_list_piece::<E>(tag, items).len() <= u64::MAX,
        depth > E::nesting(),
        forall|list: Seq<E::V>, s: Seq<u8>|
            message::message_list_field::<E>(
                list,
                WireType::LengthDelimited,
                s,
                depth,
            ) matches Ok((longer, rest)) ==> #[trigger] M::field(
                with(list),
                tag,
                WireType::LengthDelimited,
                s,
                depth,
            ) == Ok::<(M::V, Seq<u8>), MessageErrorView>((with(longer), rest)),
    ensures
        bytes == message_list_piece::<E>(tag, items),
        is_step::<M>(with(seq![]), bytes, with(items), depth),
    decreases items.len(),
{
    if items.len() == 0 {
        assert(items =~= seq![]);
        lemma_no_step::<M>(with(seq![]), depth);
    } else {
        let front = items.drop_last();
        let item = items.last();
        lemma_message_list_step::<M, E>(with, tag, front, depth);
        assert(front.push(item) =~= items);
        lemma_message_step::<M, E>(with(front), tag, item, with(items), depth);
        lemma_steps_join::<M>(
            with(seq![]),
            message_list_piece::<E>(tag, front),
            with(front),
            message_piece::<E>(tag, item),
            with(items),
            depth,
        );
    }
    message_list_piece::<E>(tag, items)
}

} // verus!
