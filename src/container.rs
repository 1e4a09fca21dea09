//! The container: a header carrying the format version, then payload
//! sections until the input ends.
//!
//! Header: `u32` version. Each section: `u8` payload kind, `u32` entry
//! count, `u32` body length, then the body. A metadata body holds exactly
//! `entry count` records and nothing more; a layout body is kept as it is.
use vstd::prelude::*;

use crate::error::DecodeError;
use crate::meta::{Meta, MetaTag, MetaValue, record_at};
use crate::reader::{available, be_u32, has_bytes, read_u32, read_u8};

verus! {

/// The only container version this decoder understands.
pub const FORMAT_VERSION: u32 = 1;

/// Payload kind code of a metadata section.
pub const PAYLOAD_META: u8 = 1;

/// Payload kind code of a layout section.
pub const PAYLOAD_LAYOUT: u8 = 2;

/// The bytes of a section header.
pub const SECTION_HEADER_LEN: usize = 9;

/// One decoded payload section.
#[derive(Debug, Clone, PartialEq, Eq)]
pub enum Payload {
    /// The records of a metadata section, in on-disk order.
    Meta(Vec<Meta>),
    /// A layout section: its declared entry count and its undecoded body.
    Layout { entries: u32, body: Vec<u8> },
}

/// A decoded container.
#[derive(Debug, Clone, PartialEq, Eq)]
pub struct Container {
    pub version: u32,
    pub payloads: Vec<Payload>,
}

/// What a payload section stands for.
pub enum PayloadView {
    Meta(Seq<(MetaTag, MetaValue)>),
    Layout(u32, Seq<u8>),
}

/// The records of a sequence of decoded records.
pub open spec fn records_view(v: Seq<Meta>) -> Seq<(MetaTag, MetaValue)> {
    v.map_values(|m: Meta| m@)
}

impl View for Payload {
    type V = PayloadView;

    open spec fn view(&self) -> PayloadView {
        match self {
            Payload::Meta(records) => PayloadView::Meta(records_view(records@)),
            Payload::Layout { entries, body } => PayloadView::Layout(*entries, body@),
        }
    }
}

/// The payloads of a sequence of decoded sections.
pub open spec fn payloads_view(v: Seq<Payload>) -> Seq<PayloadView> {
    v.map_values(|p: Payload| p@)
}

/// The first `n` records stored one after another from `p`, with the
/// position just past the last of them.
pub open spec fn records_from(b: Seq<u8>, p: int, n: nat) -> Result<
    (Seq<(MetaTag, MetaValue)>, int),
    DecodeError,
>
    decreases n,
{
    if n == 0 {
        Ok((seq![], p))
    } else {
        match records_from(b, p, (n - 1) as nat) {
            Err(e) => Err(e),
            Ok((s, q)) => match record_at(b, q) {
                Err(e) => Err(e),
                Ok((m, r)) => Ok((s.push(m), r)),
            },
        }
    }
}

/// The section of payload kind `kind` and entry count `count` whose body is `body`.
pub open spec fn section_of(kind: u8, count: u32, body: Seq<u8>) -> Result<PayloadView, DecodeError> {
    if kind == PAYLOAD_META {
        match records_from(body, 0, count as nat) {
            Err(e) => Err(e),
            Ok((s, q)) => if q == body.len() {
                Ok(PayloadView::Meta(s))
            } else {
                Err(DecodeError::LengthMismatch)
            },
        }
    } else if kind == PAYLOAD_LAYOUT {
        Ok(PayloadView::Layout(count, body))
    } else {
        Err(DecodeError::UnknownPayloadKind(kind))
    }
}

/// The sections stored from `p` to the end of `b`.
pub open spec fn sections_from(b: Seq<u8>, p: int) -> Result<Seq<PayloadView>, DecodeError>
    decreases b.len() - p,
{
    if p >= b.len() {
        Ok(seq![])
    } else if !has_bytes(b, p, SECTION_HEADER_LEN as int) {
        Err(DecodeError::UnexpectedEof)
    } else {
        let start = p + SECTION_HEADER_LEN;
        let len = be_u32(b, p + 5);
        if !has_bytes(b, start, len as int) {
            Err(DecodeError::UnexpectedEof)
        } else {
            match section_of(b[p], be_u32(b, p + 1), b.subrange(start, start + len)) {
                Err(e) => Err(e),
                Ok(s) => match sections_from(b, start + len) {
                    Err(e) => Err(e),
                    Ok(rest) => Ok(seq![s] + rest),
                },
            }
        }
    }
}

/// The container stored in `b`: its version and its sections.
pub open spec fn container_of(b: Seq<u8>) -> Result<(u32, Seq<PayloadView>), DecodeError> {
    if !has_bytes(b, 0, 4) {
        Err(DecodeError::UnexpectedEof)
    } else if be_u32(b, 0) != FORMAT_VERSION {
        Err(DecodeError::UnsupportedVersion(be_u32(b, 0)))
    } else {
        match sections_from(b, 4) {
            Ok(s) => Ok((be_u32(b, 0), s)),
            Err(e) => Err(e),
        }
    }
}

/// What a decoded container stands for.
pub open spec fn container_view(r: Result<Container, DecodeError>) -> Result<
    (u32, Seq<PayloadView>),
    DecodeError,
> {
    match r {
        Ok(c) => Ok((c.version, payloads_view(c.payloads@))),
        Err(e) => Err(e),
    }
}

/// Decoding is a function of the input bytes alone: two results that the
/// container reader may give for the same bytes are equal in value, down to
/// every record of every section, and so are two errors.
pub proof fn lemma_decode_deterministic(
    b: Seq<u8>,
    r1: Result<Container, DecodeError>,
    r2: Result<Container, DecodeError>,
)
    requires
        container_view(r1) == container_of(b),
        container_view(r2) == container_of(b),
    ensures
        container_view(r1) == container_view(r2),
        r1 is Ok <==> r2 is Ok,
        r1 is Ok ==> r1->Ok_0.version == r2->Ok_0.version && payloads_view(r1->Ok_0.payloads@)
            == payloads_view(r2->Ok_0.payloads@),
        r1 is Err ==> r1 == r2,
{
}

/// Once the first `k` records fail, so do the first `n` for every `n >= k`.
proof fn lemma_records_error_persists(b: Seq<u8>, p: int, k: nat, n: nat, e: DecodeError)
    requires
        k <= n,
        records_from(b, p, k) == Err::<(Seq<(MetaTag, MetaValue)>, int), DecodeError>(e),
    ensures
        records_from(b, p, n) == Err::<(Seq<(MetaTag, MetaValue)>, int), DecodeError>(e),
    decreases n - k,
{
    if k < n {
        lemma_records_error_persists(b, p, k, (n - 1) as nat, e);
    }
}

/// A metadata section that declares more records than its body holds fails:
/// where the first `k < count` records end and no further record can be read
/// there (the body ends, or what follows is not a record), the section fails
/// with the error of that read and yields no records.
pub proof fn lemma_section_short_of_count(body: Seq<u8>, k: nat, count: u32)
    requires
        k < count,
        records_from(body, 0, k) is Ok,
        record_at(body, records_from(body, 0, k)->Ok_0.1) is Err,
    ensures
        section_of(PAYLOAD_META, count, body) == Err::<PayloadView, DecodeError>(
            record_at(body, records_from(body, 0, k)->Ok_0.1)->Err_0,
        ),
{
    let e = record_at(body, records_from(body, 0, k)->Ok_0.1)->Err_0;
    assert(records_from(body, 0, k + 1) == Err::<(Seq<(MetaTag, MetaValue)>, int), DecodeError>(
        e,
    ));
    lemma_records_error_persists(body, 0, k + 1, count as nat, e);
}

/// Decodes `count` records stored one after another from the start of `body`,
/// and returns them with the number of bytes they took.
pub fn read_records(body: &[u8], count: u32) -> (r: Result<(Vec<Meta>, usize), DecodeError>)
    ensures
        match r {
            Ok((v, n)) => records_from(body@, 0, count as nat) == Ok::<
                (Seq<(MetaTag, MetaValue)>, int),
                DecodeError,
            >((records_view(v@), n as int)),
            Err(e) => records_from(body@, 0, count as nat) == Err::<
                (Seq<(MetaTag, MetaValue)>, int),
                DecodeError,
            >(e),
        },
{
    let mut out: Vec<Meta> = Vec::new();
    let mut pos: usize = 0;
    let mut i: u32 = 0;
    assert(records_view(out@) =~= seq![]);
    while i < count
        invariant
            i <= count,
            records_from(body@, 0, i as nat) == Ok::<
                (Seq<(MetaTag, MetaValue)>, int),
                DecodeError,
            >((records_view(out@), pos as int)),
        decreases count - i,
    {
        match Meta::decode(body, pos) {
            Ok((m, next)) => {
                assert(records_view(out@.push(m)) =~= records_view(out@).push(m@));
                out.push(m);
                pos = next;
                i = i + 1;
            },
            Err(e) => {
                proof {
                    lemma_records_error_persists(body@, 0, (i + 1) as nat, count as nat, e);
                }
                return Err(e);
            },
        }
    }
    Ok((out, pos))
}

/// Decodes the body of a section of payload kind `kind` that declares `count` entries.
pub fn read_section(kind: u8, count: u32, body: &[u8]) -> (r: Result<Payload, DecodeError>)
    ensures
        match r {
            Ok(s) => section_of(kind, count, body@) == Ok::<PayloadView, DecodeError>(s@),
            Err(e) => section_of(kind, count, body@) == Err::<PayloadView, DecodeError>(e),
        },
{
    if kind == PAYLOAD_META {
        let (records, used) = read_records(body, count)?;
        if used != body.len() {
            return Err(DecodeError::LengthMismatch);
        }
        Ok(Payload::Meta(records))
    } else if kind == PAYLOAD_LAYOUT {
        Ok(Payload::Layout { entries: count, body: vstd::slice::slice_to_vec(body) })
    } else {
        Err(DecodeError::UnknownPayloadKind(kind))
    }
}

/// Decodes a whole container: the header, then every section to the end of `buf`.
pub fn read_container(buf: &[u8]) -> (r: Result<Container, DecodeError>)
    ensures
        container_view(r) == container_of(buf@),
{
    let (version, start) = read_u32(buf, 0)?;
    if version != FORMAT_VERSION {
        return Err(DecodeError::UnsupportedVersion(version));
    }
    let mut payloads: Vec<Payload> = Vec::new();
    let mut pos: usize = start;
    while pos < buf.len()
        invariant
            4 <= pos <= buf@.len(),
            has_bytes(buf@, 0, 4),
            version == FORMAT_VERSION,
            be_u32(buf@, 0) == version,
            sections_from(buf@, 4) == match sections_from(buf@, pos as int) {
                Ok(rest) => Ok(payloads_view(payloads@) + rest),
                Err(e) => Err(e),
            },
        decreases buf@.len() - pos,
    {
        if !available(buf, pos, SECTION_HEADER_LEN) {
            assert(sections_from(buf@, pos as int) == Err::<Seq<PayloadView>, DecodeError>(
                DecodeError::UnexpectedEof,
            ));
            return Err(DecodeError::UnexpectedEof);
        }
        let (kind, p) = read_u8(buf, pos)?;
        let (count, p) = read_u32(buf, p)?;
        let (len, p) = read_u32(buf, p)?;
        if !available(buf, p, len as usize) {
            assert(sections_from(buf@, pos as int) == Err::<Seq<PayloadView>, DecodeError>(
                DecodeError::UnexpectedEof,
            ));
            return Err(DecodeError::UnexpectedEof);
        }
        let end = p + len as usize;
        let body = &buf[p..end];
        assert(body@ == buf@.subrange(p as int, end as int));
        let section = read_section(kind, count, body)?;
        proof {
            let prev = payloads_view(payloads@);
            assert(payloads_view(payloads@.push(section)) =~= prev.push(section@));
            match sections_from(buf@, end as int) {
                Ok(rest) => {
                    assert(prev + (seq![section@] + rest) =~= prev.push(section@) + rest);
                },
                Err(_) => {},
            }
        }
        payloads.push(section);
        pos = end;
    }
    assert(payloads_view(payloads@) + seq![] =~= payloads_view(payloads@));
    Ok(Container { version, payloads })
}

} // verus!
