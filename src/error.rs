use vstd::prelude::*;

verus! {

/// Every way in which decoding a container, a payload section or a record can fail.
#[derive(Debug, Clone, Copy, PartialEq, Eq, Structural)]
pub enum DecodeError {
    /// The input ended before a value could be read in full.
    UnexpectedEof,
    /// The bytes of a string are not valid UTF-8.
    InvalidUtf8,
    /// A metadata tag code outside the known set.
    UnknownMetaTag(u16),
    /// A value-kind code outside the known set.
    UnknownMetaKind(u8),
    /// A dependency-kind code outside the known set.
    UnknownDependency(u8),
    /// A declared length does not match the bytes that the value or section takes.
    LengthMismatch,
    /// The container header carries a version this decoder does not understand.
    UnsupportedVersion(u32),
    /// A payload section whose kind code is not known.
    UnknownPayloadKind(u8),
}

} // verus!
