//! The on-disk form of a metadata record, and the laws that tie the decoder to it.
use vstd::prelude::*;
use vstd::utf8::{encode_utf8, encode_utf8_decode_utf8, encode_utf8_valid_utf8};

use crate::error::DecodeError;
use crate::meta::{
    DependencyKind, MetaTag, MetaValue, dependency_code, dependency_of_code, record_at,
    tag_code, tag_of_code, value_at,
};
use crate::reader::{be_u16, be_u32, be_u64};

verus! {

/// The two big-endian bytes of `v`.
pub open spec fn u16_bytes(v: u16) -> Seq<u8> {
    seq![(v >> 8u16) as u8, v as u8]
}

/// The four big-endian bytes of `v`.
pub open spec fn u32_bytes(v: u32) -> Seq<u8> {
    seq![(v >> 24u32) as u8, (v >> 16u32) as u8, (v >> 8u32) as u8, v as u8]
}

/// The eight big-endian bytes of `v`.
pub open spec fn u64_bytes(v: u64) -> Seq<u8> {
    seq![
        (v >> 56u64) as u8,
        (v >> 48u64) as u8,
        (v >> 40u64) as u8,
        (v >> 32u64) as u8,
        (v >> 24u64) as u8,
        (v >> 16u64) as u8,
        (v >> 8u64) as u8,
        v as u8,
    ]
}

/// The value-kind code under which a value is stored.
pub open spec fn kind_code(v: MetaValue) -> u8 {
    match v {
        MetaValue::Int8(_) => 1,
        MetaValue::Uint8(_) => 2,
        MetaValue::Int16(_) => 3,
        MetaValue::Uint16(_) => 4,
        MetaValue::Int32(_) => 5,
        MetaValue::Uint32(_) => 6,
        MetaValue::Int64(_) => 7,
        MetaValue::Uint64(_) => 8,
        MetaValue::String(_) => 9,
        MetaValue::Dependency(_, _) => 10,
        MetaValue::Provider(_, _) => 11,
    }
}

/// The body bytes of a value.
pub open spec fn value_bytes(v: MetaValue) -> Seq<u8> {
    match v {
        MetaValue::Int8(x) => seq![x as u8],
        MetaValue::Uint8(x) => seq![x],
        MetaValue::Int16(x) => u16_bytes(x as u16),
        MetaValue::Uint16(x) => u16_bytes(x),
        MetaValue::Int32(x) => u32_bytes(x as u32),
        MetaValue::Uint32(x) => u32_bytes(x),
        MetaValue::Int64(x) => u64_bytes(x as u64),
        MetaValue::Uint64(x) => u64_bytes(x),
        MetaValue::String(s) => encode_utf8(s),
        MetaValue::Dependency(d, s) => seq![dependency_code(d)] + encode_utf8(s),
        MetaValue::Provider(d, s) => seq![dependency_code(d)] + encode_utf8(s),
    }
}

/// Whether the body of `v` is short enough for its length to be declared in a `u32`.
pub open spec fn encodable(v: MetaValue) -> bool {
    value_bytes(v).len() <= u32::MAX
}

/// The whole record: declared length, tag code, kind code, a zero padding
/// byte, then the body.
pub open spec fn record_bytes(tag: MetaTag, v: MetaValue) -> Seq<u8>
    recommends
        encodable(v),
{
    u32_bytes(value_bytes(v).len() as u32) + u16_bytes(tag_code(tag)) + seq![kind_code(v), 0u8]
        + value_bytes(v)
}

proof fn lemma_u16_bytes(v: u16)
    ensures
        be_u16(u16_bytes(v), 0) == v,
{
    let b = u16_bytes(v);
    let (b0, b1) = (b[0], b[1]);
    assert(b0 == (v >> 8u16) as u8 && b1 == v as u8);
    assert(((((v >> 8u16) as u8) as u16) << 8u16) | ((v as u8) as u16) == v) by (bit_vector);
}

proof fn lemma_u32_bytes(v: u32)
    ensures
        be_u32(u32_bytes(v), 0) == v,
{
    assert(((((v >> 24u32) as u8) as u32) << 24u32) | ((((v >> 16u32) as u8) as u32) << 16u32) | ((
    ((v >> 8u32) as u8) as u32) << 8u32) | ((v as u8) as u32) == v) by (bit_vector);
}

proof fn lemma_u64_bytes(v: u64)
    ensures
        be_u64(u64_bytes(v), 0) == v,
{
    assert(((((v >> 56u64) as u8) as u64) << 56u64) | ((((v >> 48u64) as u8) as u64) << 48u64) | ((
    ((v >> 40u64) as u8) as u64) << 40u64) | ((((v >> 32u64) as u8) as u64) << 32u64) | ((((v
        >> 24u64) as u8) as u64) << 24u64) | ((((v >> 16u64) as u8) as u64) << 16u64) | ((((v
        >> 8u64) as u8) as u64) << 8u64) | ((v as u8) as u64) == v) by (bit_vector);
}

proof fn lemma_tag_code_round_trip(tag: MetaTag)
    ensures
        tag_of_code(tag_code(tag)) == Some(tag),
{
}

proof fn lemma_dependency_code_round_trip(d: DependencyKind)
    ensures
        dependency_of_code(dependency_code(d)) == Some(d),
{
}

/// A value's body, stored at position 8 of `b`, decodes back to that value.
proof fn lemma_value_round_trip(b: Seq<u8>, v: MetaValue)
    requires
        encodable(v),
        8 + value_bytes(v).len() <= b.len(),
        forall|i: int| 0 <= i < value_bytes(v).len() ==> b[8 + i] == #[trigger] value_bytes(v)[i],
    ensures
        value_at(b, 8, kind_code(v), value_bytes(v).len() as u32) == Ok::<
            (MetaValue, int),
            DecodeError,
        >((v, 8 + value_bytes(v).len() as int)),
{
    let body = value_bytes(v);
    assert(b.subrange(8, 8 + body.len() as int) =~= body);
    match v {
        MetaValue::Int8(x) => {
            assert(b[8] == body[0]);
            assert((x as u8) as i8 == x) by (bit_vector);
        },
        MetaValue::Uint8(x) => {
            assert(b[8] == body[0]);
        },
        MetaValue::Int16(x) => {
            lemma_u16_bytes(x as u16);
            assert(b[8] == body[0] && b[9] == body[1]);
            assert((x as u16) as i16 == x) by (bit_vector);
        },
        MetaValue::Uint16(x) => {
            lemma_u16_bytes(x);
            assert(b[8] == body[0] && b[9] == body[1]);
        },
        MetaValue::Int32(x) => {
            lemma_u32_bytes(x as u32);
            assert(b[8] == body[0] && b[9] == body[1] && b[10] == body[2] && b[11] == body[3]);
            assert((x as u32) as i32 == x) by (bit_vector);
        },
        MetaValue::Uint32(x) => {
            lemma_u32_bytes(x);
            assert(b[8] == body[0] && b[9] == body[1] && b[10] == body[2] && b[11] == body[3]);
        },
        MetaValue::Int64(x) => {
            lemma_u64_bytes(x as u64);
            assert(b[8] == body[0] && b[9] == body[1] && b[10] == body[2] && b[11] == body[3]);
            assert(b[12] == body[4] && b[13] == body[5] && b[14] == body[6] && b[15] == body[7]);
            assert((x as u64) as i64 == x) by (bit_vector);
        },
        MetaValue::Uint64(x) => {
            lemma_u64_bytes(x);
            assert(b[8] == body[0] && b[9] == body[1] && b[10] == body[2] && b[11] == body[3]);
            assert(b[12] == body[4] && b[13] == body[5] && b[14] == body[6] && b[15] == body[7]);
        },
        MetaValue::String(s) => {
            encode_utf8_valid_utf8(s);
            encode_utf8_decode_utf8(s);
        },
        MetaValue::Dependency(d, s) | MetaValue::Provider(d, s) => {
            let enc = encode_utf8(s);
            encode_utf8_valid_utf8(s);
            encode_utf8_decode_utf8(s);
            lemma_dependency_code_round_trip(d);
            assert(b[8] == body[0]);
            assert(forall|k: int| 0 <= k < enc.len() ==> #[trigger] enc[k] == body[1 + k]);
            assert(b.subrange(9, 9 + enc.len() as int) =~= enc);
        },
    }
}

/// Decoding a record built from a tag and a value gives back that tag and
/// that value, and stops exactly at the end of the record, whatever follows it.
pub proof fn lemma_record_round_trip(tag: MetaTag, v: MetaValue, rest: Seq<u8>)
    requires
        encodable(v),
    ensures
        record_at(record_bytes(tag, v) + rest, 0) == Ok::<((MetaTag, MetaValue), int), DecodeError>(
            ((tag, v), record_bytes(tag, v).len() as int),
        ),
{
    let body = value_bytes(v);
    let len = body.len() as u32;
    let lb = u32_bytes(len);
    let tb = u16_bytes(tag_code(tag));
    let b = record_bytes(tag, v) + rest;
    assert(b.len() == 8 + body.len() + rest.len());
    assert(b[0] == lb[0] && b[1] == lb[1] && b[2] == lb[2] && b[3] == lb[3]);
    assert(b[4] == tb[0] && b[5] == tb[1]);
    assert(b[6] == kind_code(v));
    assert(forall|i: int| 0 <= i < body.len() ==> b[8 + i] == #[trigger] body[i]);
    lemma_u32_bytes(len);
    lemma_u16_bytes(tag_code(tag));
    lemma_tag_code_round_trip(tag);
    assert(be_u32(b, 0) == len);
    assert(be_u16(b, 4) == tag_code(tag));
    lemma_value_round_trip(b, v);
}

/// Cutting the input anywhere before the end of a record that decodes makes
/// decoding that record fail with a short read, never yield a partial value.
pub proof fn lemma_truncated_record(b: Seq<u8>, p: int, t: int)
    requires
        0 <= p,
        record_at(b, p) is Ok,
        0 <= t < record_at(b, p)->Ok_0.1,
    ensures
        record_at(b.take(t), p) == Err::<((MetaTag, MetaValue), int), DecodeError>(
            DecodeError::UnexpectedEof,
        ),
{
    let c = b.take(t);
    assert(forall|i: int| 0 <= i < t ==> #[trigger] c[i] == b[i]);
    if t >= p + 6 {
        assert(c[p + 4] == b[p + 4] && c[p + 5] == b[p + 5]);
        assert(be_u16(c, p + 4) == be_u16(b, p + 4));
    }
    if t >= p + 8 {
        assert(c[p] == b[p] && c[p + 1] == b[p + 1] && c[p + 2] == b[p + 2] && c[p + 3] == b[p
            + 3]);
        assert(be_u32(c, p) == be_u32(b, p));
        assert(c[p + 6] == b[p + 6]);
    }
    if t >= p + 9 {
        assert(c[p + 8] == b[p + 8]);
    }
}

/// A record whose tag code lies outside the known set is refused with that
/// code, whatever its kind and body.
pub proof fn lemma_unknown_tag_rejected(b: Seq<u8>, p: int)
    requires
        0 <= p,
        p + 6 <= b.len(),
        !(1 <= be_u16(b, p + 4) <= 20),
    ensures
        record_at(b, p) == Err::<((MetaTag, MetaValue), int), DecodeError>(
            DecodeError::UnknownMetaTag(be_u16(b, p + 4)),
        ),
{
}

/// A record with a known tag whose kind code lies outside the known set is
/// refused with that code, whatever its body.
pub proof fn lemma_unknown_kind_rejected(b: Seq<u8>, p: int)
    requires
        0 <= p,
        p + 8 <= b.len(),
        1 <= be_u16(b, p + 4) <= 20,
        !(1 <= b[p + 6] <= 11),
    ensures
        record_at(b, p) == Err::<((MetaTag, MetaValue), int), DecodeError>(
            DecodeError::UnknownMetaKind(b[p + 6]),
        ),
{
}

/// A dependency or provider record with a known tag whose dependency-kind
/// byte lies outside the known set is refused with that byte, whatever the
/// declared length and the name that follows.
pub proof fn lemma_unknown_dependency_rejected(b: Seq<u8>, p: int)
    requires
        0 <= p,
        p + 9 <= b.len(),
        1 <= be_u16(b, p + 4) <= 20,
        b[p + 6] == 10 || b[p + 6] == 11,
        b[p + 8] > 8,
    ensures
        record_at(b, p) == Err::<((MetaTag, MetaValue), int), DecodeError>(
            DecodeError::UnknownDependency(b[p + 8]),
        ),
{
}

} // verus!
