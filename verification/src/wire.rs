//! The protobuf wire format: varints, field keys, and the fields a reader
//! passes over.
//!
//! A message on the wire is a run of fields. Each field starts with a *key*, a
//! varint that holds the field number and the [`WireType`] of what follows.
//! Readers here take a slice and give back what they read together with the
//! slice that is left. A malformed input yields a [`DecodeFault`] that says what
//! is wrong with it.

use vstd::prelude::*;
use vstd::slice::slice_subrange;

verus! {

/// How the payload of a field is laid out.
#[derive(Clone, Copy, Debug, PartialEq, Eq, Structural)]
pub enum WireType {
    Varint,
    SixtyFourBit,
    LengthDelimited,
    StartGroup,
    EndGroup,
    ThirtyTwoBit,
}

/// What is wrong with a malformed message.
#[derive(Clone, Copy, Debug, PartialEq, Eq, Structural)]
pub enum DecodeFault {
    /// A varint that does not end, runs past ten bytes, or exceeds 64 bits.
    InvalidVarint,
    /// Groups nested deeper than the reader follows.
    RecursionLimitReached,
    /// A key whose low three bits name no wire type.
    InvalidWireType { value: u64 },
    /// A key that does not fit in 32 bits.
    InvalidKey { key: u64 },
    /// A key with field number zero.
    InvalidTag,
    /// A field whose wire type is not the one its type calls for.
    UnexpectedWireType { actual: WireType, expected: WireType },
    /// A payload that is longer than the input.
    BufferUnderflow,
    /// A field that runs past the end of the message that holds it.
    DelimitedLengthExceeded,
    /// An end-group key without the start-group key that it answers.
    UnexpectedEndGroupTag,
    /// A string that is not UTF-8.
    InvalidString,
}

/// The base-128 number at the head of `s`, least significant digit first, and the
/// number of bytes it takes. A byte below 0x80 is the last digit; at most `limit`
/// digits are looked at.
pub open spec fn leb128(s: Seq<u8>, limit: nat) -> Option<(nat, nat)>
    decreases limit,
{
    if limit == 0 || s.len() == 0 {
        None
    } else if s[0] < 0x80 {
        Some((s[0] as nat, 1))
    } else {
        match leb128(s.skip(1), (limit - 1) as nat) {
            Some((high, n)) => Some(((s[0] - 0x80) as nat + 128 * high, n + 1)),
            None => None,
        }
    }
}

/// The varint at the head of `s` and what follows it: a base-128 number of at most
/// ten digits that fits in 64 bits.
pub open spec fn varint(s: Seq<u8>) -> Option<(u64, Seq<u8>)> {
    match leb128(s, 10) {
        Some((value, n)) => if value <= u64::MAX {
            Some((value as u64, s.skip(n as int)))
        } else {
            None
        },
        None => None,
    }
}

/// [`varint`], with the fault that a reader reports.
pub open spec fn read_varint_spec(s: Seq<u8>) -> Result<(u64, Seq<u8>), DecodeFault> {
    match varint(s) {
        Some((value, rest)) => Ok((value, rest)),
        None => Err(DecodeFault::InvalidVarint),
    }
}

/// The wire type that the low three bits of a key stand for.
pub open spec fn wire_type_of(bits: u64) -> Option<WireType> {
    if bits == 0 {
        Some(WireType::Varint)
    } else if bits == 1 {
        Some(WireType::SixtyFourBit)
    } else if bits == 2 {
        Some(WireType::LengthDelimited)
    } else if bits == 3 {
        Some(WireType::StartGroup)
    } else if bits == 4 {
        Some(WireType::EndGroup)
    } else if bits == 5 {
        Some(WireType::ThirtyTwoBit)
    } else {
        None
    }
}

/// The key at the head of `s`: field number, wire type, and what follows.
pub open spec fn key(s: Seq<u8>) -> Result<(u32, WireType, Seq<u8>), DecodeFault> {
    match varint(s) {
        None => Err(DecodeFault::InvalidVarint),
        Some((k, rest)) => if k > u32::MAX {
            Err(DecodeFault::InvalidKey { key: k })
        } else {
            match wire_type_of(k % 8) {
                None => Err(DecodeFault::InvalidWireType { value: k % 8 }),
                Some(wire_type) => if k / 8 == 0 {
                    Err(DecodeFault::InvalidTag)
                } else {
                    Ok(((k / 8) as u32, wire_type, rest))
                },
            }
        },
    }
}

/// `s` without its first `n` bytes.
pub open spec fn advance(s: Seq<u8>, n: nat) -> Result<Seq<u8>, DecodeFault> {
    if n <= s.len() {
        Ok(s.skip(n as int))
    } else {
        Err(DecodeFault::BufferUnderflow)
    }
}

/// What follows a payload of type `wire_type`, which is neither end of a group.
pub open spec fn skip_payload(wire_type: WireType, s: Seq<u8>) -> Result<
    Seq<u8>,
    DecodeFault,
> {
    match wire_type {
        WireType::Varint => match varint(s) {
            Some((_, rest)) => Ok(rest),
            None => Err(DecodeFault::InvalidVarint),
        },
        WireType::LengthDelimited => match varint(s) {
            Some((len, rest)) => advance(rest, len as nat),
            None => Err(DecodeFault::InvalidVarint),
        },
        WireType::SixtyFourBit => advance(s, 8),
        WireType::ThirtyTwoBit => advance(s, 4),
        WireType::StartGroup | WireType::EndGroup => Err(DecodeFault::UnexpectedEndGroupTag),
    }
}

/// What follows the end of the groups whose field numbers are `open`, outermost
/// first, where `s` is what comes next inside the innermost one. No more than
/// `depth` levels are followed: a field inside `depth` open groups is refused.
pub open spec fn skip_groups(open: Seq<u32>, s: Seq<u8>, depth: nat) -> Result<
    Seq<u8>,
    DecodeFault,
>
    decreases s.len(),
{
    proof {
        lemma_key_shrinks(s);
    }
    if open.len() == 0 {
        Ok(s)
    } else {
        match key(s) {
            Err(fault) => Err(fault),
            Ok((tag, wire_type, rest)) => if wire_type is EndGroup {
                if tag == open.last() {
                    skip_groups(open.drop_last(), rest, depth)
                } else {
                    Err(DecodeFault::UnexpectedEndGroupTag)
                }
            } else if open.len() >= depth {
                Err(DecodeFault::RecursionLimitReached)
            } else if wire_type is StartGroup {
                skip_groups(open.push(tag), rest, depth)
            } else {
                proof {
                    lemma_skip_payload_shrinks(wire_type, rest);
                }
                match skip_payload(wire_type, rest) {
                    Ok(after) => skip_groups(open, after, depth),
                    Err(fault) => Err(fault),
                }
            },
        }
    }
}

/// What follows the field number `tag` of type `wire_type` whose payload starts at
/// `s`, whatever it holds. `depth` bounds how deep groups may nest.
pub open spec fn skip_field_spec(wire_type: WireType, tag: u32, s: Seq<u8>, depth: nat) -> Result<
    Seq<u8>,
    DecodeFault,
> {
    if depth == 0 {
        Err(DecodeFault::RecursionLimitReached)
    } else if wire_type is StartGroup {
        skip_groups(seq![tag], s, depth)
    } else {
        skip_payload(wire_type, s)
    }
}

/// `Ok` when the wire type is the one that the field calls for.
pub open spec fn expect(expected: WireType, actual: WireType) -> Result<(), DecodeFault> {
    if expected == actual {
        Ok(())
    } else {
        Err(DecodeFault::UnexpectedWireType { actual, expected })
    }
}

/// The payload length at the head of `s`, and what follows it: the payload and what
/// comes after.
pub open spec fn delimited(s: Seq<u8>) -> Result<(nat, Seq<u8>), DecodeFault> {
    match varint(s) {
        None => Err(DecodeFault::InvalidVarint),
        Some((len, rest)) => if len > rest.len() {
            Err(DecodeFault::BufferUnderflow)
        } else {
            Ok((len as nat, rest))
        },
    }
}

/// A varint takes between one byte and all of the input.
pub proof fn lemma_leb128_length(s: Seq<u8>, limit: nat)
    ensures
        leb128(s, limit) matches Some((_, n)) ==> 1 <= n <= s.len() && n <= limit,
    decreases limit,
{
    if limit > 0 && s.len() > 0 && s[0] >= 0x80 {
        lemma_leb128_length(s.skip(1), (limit - 1) as nat);
    }
}

/// What follows a varint is shorter than the input.
pub proof fn lemma_varint_shrinks(s: Seq<u8>)
    ensures
        varint(s) matches Some((_, rest)) ==> rest.len() < s.len(),
{
    lemma_leb128_length(s, 10);
}

/// What follows a key is shorter than the input.
pub proof fn lemma_key_shrinks(s: Seq<u8>)
    ensures
        key(s) matches Ok((_, _, rest)) ==> rest.len() < s.len(),
{
    lemma_varint_shrinks(s);
}

/// Passing over a payload takes at least one byte.
pub proof fn lemma_skip_payload_shrinks(wire_type: WireType, s: Seq<u8>)
    ensures
        skip_payload(wire_type, s) matches Ok(rest) ==> rest.len() < s.len(),
{
    lemma_varint_shrinks(s);
}

/// Leaving groups never lengthens what is left, and takes at least one byte where one is open.
pub proof fn lemma_skip_groups_shrinks(open: Seq<u32>, s: Seq<u8>, depth: nat)
    ensures
        skip_groups(open, s, depth) matches Ok(rest) ==> rest.len() <= s.len() && (open.len() > 0
            ==> rest.len() < s.len()),
    decreases s.len(),
{
    lemma_key_shrinks(s);
    if open.len() > 0 {
        if let Ok((tag, wire_type, rest)) = key(s) {
            if wire_type is EndGroup {
                lemma_skip_groups_shrinks(open.drop_last(), rest, depth);
            } else if wire_type is StartGroup {
                lemma_skip_groups_shrinks(open.push(tag), rest, depth);
            } else {
                lemma_skip_payload_shrinks(wire_type, rest);
                if let Ok(after) = skip_payload(wire_type, rest) {
                    lemma_skip_groups_shrinks(open, after, depth);
                }
            }
        }
    }
}

/// Passing over a field takes at least one byte.
pub proof fn lemma_skip_field_shrinks(wire_type: WireType, tag: u32, s: Seq<u8>, depth: nat)
    ensures
        skip_field_spec(wire_type, tag, s, depth) matches Ok(rest) ==> rest.len() < s.len(),
{
    lemma_skip_groups_shrinks(seq![tag], s, depth);
    lemma_skip_payload_shrinks(wire_type, s);
}

/// prost's error, carried as an opaque value.
#[verifier::external_type_specification]
#[verifier::external_body]
pub struct ExProstDecodeError(prost::DecodeError);

/// Calls `prost::encoding::decode_varint` on the slice. The call yields the
/// [`varint`] at the head of `buf` and moves the slice behind it; it fails exactly
/// where there is none.
#[verifier::external_body]
fn prost_decode_varint(buf: &[u8]) -> (res: Result<(u64, &[u8]), prost::DecodeError>)
    ensures
        match varint(buf@) {
            Some((value, rest)) => res matches Ok((v, r)) && v == value && r@ == rest,
            None => res is Err,
        },
{
    let mut rest = buf;
    match prost::encoding::decode_varint(&mut rest) {
        Ok(value) => Ok((value, rest)),
        Err(error) => Err(error),
    }
}

/// Reads a varint.
pub fn read_varint(buf: &[u8]) -> (res: Result<(u64, &[u8]), DecodeFault>)
    ensures
        match read_varint_spec(buf@) {
            Ok((value, rest)) => res matches Ok((v, r)) && v == value && r@ == rest && r@.len()
                < buf@.len(),
            Err(fault) => res matches Err(f) && f == fault,
        },
{
    proof {
        lemma_varint_shrinks(buf@);
    }
    match prost_decode_varint(buf) {
        Ok((value, rest)) => Ok((value, rest)),
        Err(_) => Err(DecodeFault::InvalidVarint),
    }
}

fn wire_type(bits: u64) -> (res: Option<WireType>)
    ensures
        res == wire_type_of(bits),
{
    if bits == 0 {
        Some(WireType::Varint)
    } else if bits == 1 {
        Some(WireType::SixtyFourBit)
    } else if bits == 2 {
        Some(WireType::LengthDelimited)
    } else if bits == 3 {
        Some(WireType::StartGroup)
    } else if bits == 4 {
        Some(WireType::EndGroup)
    } else if bits == 5 {
        Some(WireType::ThirtyTwoBit)
    } else {
        None
    }
}

/// Reads a field key.
pub fn read_key(buf: &[u8]) -> (res: Result<(u32, WireType, &[u8]), DecodeFault>)
    ensures
        match key(buf@) {
            Ok((tag, wire_type, rest)) => res matches Ok((t, w, r)) && t == tag && w == wire_type
                && r@ == rest && r@.len() < buf@.len(),
            Err(fault) => res matches Err(f) && f == fault,
        },
{
    let (k, rest) = match read_varint(buf) {
        Ok(read) => read,
        Err(fault) => {
            return Err(fault);
        },
    };
    if k > u32::MAX as u64 {
        return Err(DecodeFault::InvalidKey { key: k });
    }
    match wire_type(k % 8) {
        None => Err(DecodeFault::InvalidWireType { value: k % 8 }),
        Some(wire_type) => if k / 8 == 0 {
            Err(DecodeFault::InvalidTag)
        } else {
            Ok(((k / 8) as u32, wire_type, rest))
        },
    }
}

fn skip_bytes(buf: &[u8], n: u64) -> (res: Result<&[u8], DecodeFault>)
    ensures
        match advance(buf@, n as nat) {
            Ok(rest) => res matches Ok(r) && r@ == rest,
            Err(fault) => res matches Err(f) && f == fault,
        },
{
    if n <= buf.len() as u64 {
        let rest = slice_subrange(buf, n as usize, buf.len());
        assert(rest@ == buf@.skip(n as int));
        Ok(rest)
    } else {
        Err(DecodeFault::BufferUnderflow)
    }
}

fn skip_one(wire_type: WireType, buf: &[u8]) -> (res: Result<&[u8], DecodeFault>)
    ensures
        match skip_payload(wire_type, buf@) {
            Ok(rest) => res matches Ok(r) && r@ == rest,
            Err(fault) => res matches Err(f) && f == fault,
        },
{
    match wire_type {
        WireType::Varint => match read_varint(buf) {
            Ok((_, rest)) => Ok(rest),
            Err(fault) => Err(fault),
        },
        WireType::LengthDelimited => match read_varint(buf) {
            Ok((len, rest)) => skip_bytes(rest, len),
            Err(fault) => Err(fault),
        },
        WireType::SixtyFourBit => skip_bytes(buf, 8),
        WireType::ThirtyTwoBit => skip_bytes(buf, 4),
        WireType::StartGroup | WireType::EndGroup => Err(DecodeFault::UnexpectedEndGroupTag),
    }
}

/// Passes over a field that the schema does not know. prost keeps the nesting
/// budget of a message that is not outermost to itself, so the walk over groups is
/// spelled out here, with the budget as an argument.
pub fn skip_field(wire_type: WireType, tag: u32, buf: &[u8], depth: u32) -> (res: Result<
    &[u8],
    DecodeFault,
>)
    ensures
        match skip_field_spec(wire_type, tag, buf@, depth as nat) {
            Ok(rest) => res matches Ok(r) && r@ == rest,
            Err(fault) => res matches Err(f) && f == fault,
        },
{
    if depth == 0 {
        return Err(DecodeFault::RecursionLimitReached);
    }
    if !matches!(wire_type, WireType::StartGroup) {
        return skip_one(wire_type, buf);
    }
    let mut open: Vec<u32> = Vec::new();
    open.push(tag);
    let mut rest: &[u8] = buf;
    assert(open@ == seq![tag]);
    while open.len() > 0
        invariant
            skip_groups(open@, rest@, depth as nat) == skip_field_spec(
                wire_type,
                tag,
                buf@,
                depth as nat,
            ),
        decreases rest@.len(), open@.len(),
    {
        let (inner_tag, inner_type, after_key) = match read_key(rest) {
            Ok(read) => read,
            Err(fault) => {
                return Err(fault);
            },
        };
        if matches!(inner_type, WireType::EndGroup) {
            let started: u32 = open[open.len() - 1];
            if inner_tag != started {
                return Err(DecodeFault::UnexpectedEndGroupTag);
            }
            let ghost before = open@;
            open.pop();
            assert(open@ == before.drop_last());
            rest = after_key;
        } else if open.len() >= depth as usize {
            return Err(DecodeFault::RecursionLimitReached);
        } else if matches!(inner_type, WireType::StartGroup) {
            open.push(inner_tag);
            rest = after_key;
        } else {
            proof {
                lemma_skip_payload_shrinks(inner_type, after_key@);
            }
            rest = match skip_one(inner_type, after_key) {
                Ok(after) => after,
                Err(fault) => {
                    return Err(fault);
                },
            };
        }
    }
    Ok(rest)
}

/// Checks the wire type of a field.
pub fn check_wire_type(expected: WireType, actual: WireType) -> (res: Result<(), DecodeFault>)
    ensures
        res == expect(expected, actual),
{
    if expected == actual {
        Ok(())
    } else {
        Err(DecodeFault::UnexpectedWireType { actual, expected })
    }
}

/// Reads the length of a payload and checks that the input holds it.
pub fn read_delimiter(buf: &[u8]) -> (res: Result<(usize, &[u8]), DecodeFault>)
    ensures
        match delimited(buf@) {
            Ok((len, rest)) => res matches Ok((n, r)) && n == len && r@ == rest && r@.len()
                < buf@.len(),
            Err(fault) => res matches Err(f) && f == fault,
        },
{
    let (len, rest) = match read_varint(buf) {
        Ok(read) => read,
        Err(fault) => {
            return Err(fault);
        },
    };
    if len > rest.len() as u64 {
        Err(DecodeFault::BufferUnderflow)
    } else {
        Ok((len as usize, rest))
    }
}

} // verus!
