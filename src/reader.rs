//! Big-endian primitives read from a byte buffer at a position.
//!
//! Each reader returns the value and the position just past it, or
//! `UnexpectedEof` when the buffer holds fewer bytes than the value needs.
use vstd::prelude::*;
use vstd::utf8::{decode_utf8, valid_utf8};

use crate::error::DecodeError;

verus! {

/// The big-endian `u16` stored at `b[i..i + 2]`.
pub open spec fn be_u16(b: Seq<u8>, i: int) -> u16 {
    ((b[i] as u16) << 8u16) | (b[i + 1] as u16)
}

/// The big-endian `u32` stored at `b[i..i + 4]`.
pub open spec fn be_u32(b: Seq<u8>, i: int) -> u32 {
    ((b[i] as u32) << 24u32) | ((b[i + 1] as u32) << 16u32) | ((b[i + 2] as u32) << 8u32) | (
    b[i + 3] as u32)
}

/// The big-endian `u64` stored at `b[i..i + 8]`.
pub open spec fn be_u64(b: Seq<u8>, i: int) -> u64 {
    ((b[i] as u64) << 56u64) | ((b[i + 1] as u64) << 48u64) | ((b[i + 2] as u64) << 40u64) | ((b[i
        + 3] as u64) << 32u64) | ((b[i + 4] as u64) << 24u64) | ((b[i + 5] as u64) << 16u64) | ((b[i
        + 6] as u64) << 8u64) | (b[i + 7] as u64)
}

/// Whether `b` holds at least `n` bytes from position `p` on.
pub open spec fn has_bytes(b: Seq<u8>, p: int, n: int) -> bool {
    p + n <= b.len()
}

/// The string stored in the `n` bytes at `b[p..p + n]`.
pub open spec fn text_at(b: Seq<u8>, p: int, n: int) -> Result<Seq<char>, DecodeError> {
    if !has_bytes(b, p, n) {
        Err(DecodeError::UnexpectedEof)
    } else if !valid_utf8(b.subrange(p, p + n)) {
        Err(DecodeError::InvalidUtf8)
    } else {
        Ok(decode_utf8(b.subrange(p, p + n)))
    }
}

/// Whether `n` more bytes can be read at `pos`, without overflow.
pub fn available(buf: &[u8], pos: usize, n: usize) -> (r: bool)
    ensures
        r == has_bytes(buf@, pos as int, n as int),
{
    pos <= buf.len() && buf.len() - pos >= n
}

pub fn read_u8(buf: &[u8], pos: usize) -> (r: Result<(u8, usize), DecodeError>)
    ensures
        match r {
            Ok((v, next)) => has_bytes(buf@, pos as int, 1) && v == buf@[pos as int] && next == pos
                + 1,
            Err(e) => !has_bytes(buf@, pos as int, 1) && e == DecodeError::UnexpectedEof,
        },
{
    if !available(buf, pos, 1) {
        return Err(DecodeError::UnexpectedEof);
    }
    Ok((buf[pos], pos + 1))
}

pub fn read_u16(buf: &[u8], pos: usize) -> (r: Result<(u16, usize), DecodeError>)
    ensures
        match r {
            Ok((v, next)) => has_bytes(buf@, pos as int, 2) && v == be_u16(buf@, pos as int) && next
                == pos + 2,
            Err(e) => !has_bytes(buf@, pos as int, 2) && e == DecodeError::UnexpectedEof,
        },
{
    if !available(buf, pos, 2) {
        return Err(DecodeError::UnexpectedEof);
    }
    let v = ((buf[pos] as u16) << 8u16) | (buf[pos + 1] as u16);
    Ok((v, pos + 2))
}

pub fn read_u32(buf: &[u8], pos: usize) -> (r: Result<(u32, usize), DecodeError>)
    ensures
        match r {
            Ok((v, next)) => has_bytes(buf@, pos as int, 4) && v == be_u32(buf@, pos as int) && next
                == pos + 4,
            Err(e) => !has_bytes(buf@, pos as int, 4) && e == DecodeError::UnexpectedEof,
        },
{
    if !available(buf, pos, 4) {
        return Err(DecodeError::UnexpectedEof);
    }
    let v = ((buf[pos] as u32) << 24u32) | ((buf[pos + 1] as u32) << 16u32) | ((buf[pos + 2] as u32)
        << 8u32) | (buf[pos + 3] as u32);
    Ok((v, pos + 4))
}

pub fn read_u64(buf: &[u8], pos: usize) -> (r: Result<(u64, usize), DecodeError>)
    ensures
        match r {
            Ok((v, next)) => has_bytes(buf@, pos as int, 8) && v == be_u64(buf@, pos as int) && next
                == pos + 8,
            Err(e) => !has_bytes(buf@, pos as int, 8) && e == DecodeError::UnexpectedEof,
        },
{
    if !available(buf, pos, 8) {
        return Err(DecodeError::UnexpectedEof);
    }
    let v = ((buf[pos] as u64) << 56u64) | ((buf[pos + 1] as u64) << 48u64) | ((buf[pos + 2] as u64)
        << 40u64) | ((buf[pos + 3] as u64) << 32u64) | ((buf[pos + 4] as u64) << 24u64) | ((buf[pos
        + 5] as u64) << 16u64) | ((buf[pos + 6] as u64) << 8u64) | (buf[pos + 7] as u64);
    Ok((v, pos + 8))
}

/// Relies on `String::from_utf8`: it succeeds exactly when the bytes are valid
/// UTF-8, and the string then holds the characters they encode.
#[verifier::external_body]
fn string_from_utf8(bytes: Vec<u8>) -> (r: Option<String>)
    ensures
        r is Some <==> valid_utf8(bytes@),
        r is Some ==> r->Some_0@ == decode_utf8(bytes@),
{
    String::from_utf8(bytes).ok()
}

/// Reads a UTF-8 string of exactly `len` bytes at `pos`.
pub fn read_string(buf: &[u8], pos: usize, len: usize) -> (r: Result<(String, usize), DecodeError>)
    ensures
        match r {
            Ok((s, next)) => text_at(buf@, pos as int, len as int) == Ok::<Seq<char>, DecodeError>(
                s@) && next == pos + len,
            Err(e) => text_at(buf@, pos as int, len as int) == Err::<Seq<char>, DecodeError>(e),
        },
{
    if !available(buf, pos, len) {
        return Err(DecodeError::UnexpectedEof);
    }
    let total = buf.len();
    assert(pos + len <= total);
    let bytes = vstd::slice::slice_to_vec(&buf[pos..pos + len]);
    assert(bytes@ == buf@.subrange(pos as int, pos + len));
    match string_from_utf8(bytes) {
        Some(s) => Ok((s, pos + len)),
        None => Err(DecodeError::InvalidUtf8),
    }
}

} // verus!
