//! The metadata payload: a run of records, each a context tag and a typed value.
use vstd::prelude::*;

use crate::error::DecodeError;
use crate::reader::{
    available, be_u16, be_u32, be_u64, has_bytes, read_string, read_u16, read_u32, read_u64,
    read_u8, text_at,
};

verus! {

/// What a dependency or a provider names.
#[derive(Debug, Clone, Copy, PartialEq, Eq, Structural)]
pub enum DependencyKind {
    /// Just the plain name of a package
    PackageName,
    /// A soname based dependency
    SharedLibary,
    /// A pkgconfig `.pc` based dependency
    PkgConfig,
    /// Special interpreter (PT_INTERP/etc) to run the binaries
    Interpreter,
    /// A CMake module
    CMake,
    /// A Python module
    Python,
    /// A binary in /usr/bin
    Binary,
    /// A binary in /usr/sbin
    SystemBinary,
    /// An emul32-compatible pkgconfig .pc dependency (lib32/*.pc)
    PkgConfig32,
}

/// The word that names a dependency kind in `kind(name)` strings.
pub open spec fn dependency_label(d: DependencyKind) -> Seq<char> {
    match d {
        DependencyKind::PackageName => "name"@,
        DependencyKind::SharedLibary => "soname"@,
        DependencyKind::PkgConfig => "pkgconfig"@,
        DependencyKind::Interpreter => "interpreter"@,
        DependencyKind::CMake => "cmake"@,
        DependencyKind::Python => "python"@,
        DependencyKind::Binary => "binary"@,
        DependencyKind::SystemBinary => "sysbinary"@,
        DependencyKind::PkgConfig32 => "pkgconfig32"@,
    }
}

impl DependencyKind {
    /// The word that names this kind, as in `pkgconfig32(zlib)`.
    pub fn as_str(&self) -> (r: &'static str)
        ensures
            r@ == dependency_label(*self),
    {
        match self {
            DependencyKind::PackageName => "name",
            DependencyKind::SharedLibary => "soname",
            DependencyKind::PkgConfig => "pkgconfig",
            DependencyKind::Interpreter => "interpreter",
            DependencyKind::CMake => "cmake",
            DependencyKind::Python => "python",
            DependencyKind::Binary => "binary",
            DependencyKind::SystemBinary => "sysbinary",
            DependencyKind::PkgConfig32 => "pkgconfig32",
        }
    }
}

/// The typed value of a metadata record.
#[derive(Debug, Clone, PartialEq, Eq)]
pub enum MetaKind {
    Int8(i8),
    Uint8(u8),
    Int16(i16),
    Uint16(u16),
    Int32(i32),
    Uint32(u32),
    Int64(i64),
    Uint64(u64),
    String(String),
    Dependency(DependencyKind, String),
    Provider(DependencyKind, String),
}

/// The context of a metadata record: which field of the package it fills.
#[derive(Debug, Clone, Copy, PartialEq, Eq, Structural)]
pub enum MetaTag {
    /// Name of the package
    Name,
    /// Architecture of the package
    Architecture,
    /// Version of the package
    Version,
    /// Summary of the package
    Summary,
    /// Description of the package
    Description,
    /// Homepage for the package
    Homepage,
    /// ID for the source package, used for grouping
    SourceID,
    /// Runtime dependencies
    Depends,
    /// Provides some capability or name
    Provides,
    /// Conflicts with some capability or name
    Conflicts,
    /// Release number for the package
    Release,
    /// SPDX license identifier
    License,
    /// Currently recorded build number
    BuildRelease,
    /// Repository index specific (relative URI)
    PackageURI,
    /// Repository index specific (Package hash)
    PackageHash,
    /// Repository index specific (size on disk)
    PackageSize,
    /// A Build Dependency
    BuildDepends,
    /// Upstream URI for the source
    SourceURI,
    /// Relative path for the source within the upstream URI
    SourcePath,
    /// Ref/commit of the upstream source
    SourceRef,
}

/// One metadata record: a tag and its typed value.
#[derive(Debug, Clone, PartialEq, Eq)]
pub struct Meta {
    pub tag: MetaTag,
    pub kind: MetaKind,
}

/// The mathematical value of a record, strings as character sequences.
pub enum MetaValue {
    Int8(i8),
    Uint8(u8),
    Int16(i16),
    Uint16(u16),
    Int32(i32),
    Uint32(u32),
    Int64(i64),
    Uint64(u64),
    String(Seq<char>),
    Dependency(DependencyKind, Seq<char>),
    Provider(DependencyKind, Seq<char>),
}

impl View for MetaKind {
    type V = MetaValue;

    open spec fn view(&self) -> MetaValue {
        match self {
            MetaKind::Int8(v) => MetaValue::Int8(*v),
            MetaKind::Uint8(v) => MetaValue::Uint8(*v),
            MetaKind::Int16(v) => MetaValue::Int16(*v),
            MetaKind::Uint16(v) => MetaValue::Uint16(*v),
            MetaKind::Int32(v) => MetaValue::Int32(*v),
            MetaKind::Uint32(v) => MetaValue::Uint32(*v),
            MetaKind::Int64(v) => MetaValue::Int64(*v),
            MetaKind::Uint64(v) => MetaValue::Uint64(*v),
            MetaKind::String(s) => MetaValue::String(s@),
            MetaKind::Dependency(d, s) => MetaValue::Dependency(*d, s@),
            MetaKind::Provider(d, s) => MetaValue::Provider(*d, s@),
        }
    }
}

impl View for Meta {
    type V = (MetaTag, MetaValue);

    open spec fn view(&self) -> (MetaTag, MetaValue) {
        (self.tag, self.kind@)
    }
}

/// The dependency kind that an on-disk code stands for, if any.
pub open spec fn dependency_of_code(c: u8) -> Option<DependencyKind> {
    if c == 0 {
        Some(DependencyKind::PackageName)
    } else if c == 1 {
        Some(DependencyKind::SharedLibary)
    } else if c == 2 {
        Some(DependencyKind::PkgConfig)
    } else if c == 3 {
        Some(DependencyKind::Interpreter)
    } else if c == 4 {
        Some(DependencyKind::CMake)
    } else if c == 5 {
        Some(DependencyKind::Python)
    } else if c == 6 {
        Some(DependencyKind::Binary)
    } else if c == 7 {
        Some(DependencyKind::SystemBinary)
    } else if c == 8 {
        Some(DependencyKind::PkgConfig32)
    } else {
        None
    }
}

/// The on-disk code of a dependency kind.
pub open spec fn dependency_code(d: DependencyKind) -> u8 {
    match d {
        DependencyKind::PackageName => 0,
        DependencyKind::SharedLibary => 1,
        DependencyKind::PkgConfig => 2,
        DependencyKind::Interpreter => 3,
        DependencyKind::CMake => 4,
        DependencyKind::Python => 5,
        DependencyKind::Binary => 6,
        DependencyKind::SystemBinary => 7,
        DependencyKind::PkgConfig32 => 8,
    }
}

/// The on-disk code of a metadata tag.
pub open spec fn tag_code(t: MetaTag) -> u16 {
    match t {
        MetaTag::Name => 1,
        MetaTag::Architecture => 2,
        MetaTag::Version => 3,
        MetaTag::Summary => 4,
        MetaTag::Description => 5,
        MetaTag::Homepage => 6,
        MetaTag::SourceID => 7,
        MetaTag::Depends => 8,
        MetaTag::Provides => 9,
        MetaTag::Conflicts => 10,
        MetaTag::Release => 11,
        MetaTag::License => 12,
        MetaTag::BuildRelease => 13,
        MetaTag::PackageURI => 14,
        MetaTag::PackageHash => 15,
        MetaTag::PackageSize => 16,
        MetaTag::BuildDepends => 17,
        MetaTag::SourceURI => 18,
        MetaTag::SourcePath => 19,
        MetaTag::SourceRef => 20,
    }
}

/// The metadata tag that an on-disk code stands for, if any.
pub open spec fn tag_of_code(c: u16) -> Option<MetaTag> {
    if c == 1 {
        Some(MetaTag::Name)
    } else if c == 2 {
        Some(MetaTag::Architecture)
    } else if c == 3 {
        Some(MetaTag::Version)
    } else if c == 4 {
        Some(MetaTag::Summary)
    } else if c == 5 {
        Some(MetaTag::Description)
    } else if c == 6 {
        Some(MetaTag::Homepage)
    } else if c == 7 {
        Some(MetaTag::SourceID)
    } else if c == 8 {
        Some(MetaTag::Depends)
    } else if c == 9 {
        Some(MetaTag::Provides)
    } else if c == 10 {
        Some(MetaTag::Conflicts)
    } else if c == 11 {
        Some(MetaTag::Release)
    } else if c == 12 {
        Some(MetaTag::License)
    } else if c == 13 {
        Some(MetaTag::BuildRelease)
    } else if c == 14 {
        Some(MetaTag::PackageURI)
    } else if c == 15 {
        Some(MetaTag::PackageHash)
    } else if c == 16 {
        Some(MetaTag::PackageSize)
    } else if c == 17 {
        Some(MetaTag::BuildDepends)
    } else if c == 18 {
        Some(MetaTag::SourceURI)
    } else if c == 19 {
        Some(MetaTag::SourcePath)
    } else if c == 20 {
        Some(MetaTag::SourceRef)
    } else {
        None
    }
}

/// Maps an on-disk dependency-kind code to its kind; any other code is refused.
pub fn decode_dependency(i: u8) -> (r: Result<DependencyKind, DecodeError>)
    ensures
        r == match dependency_of_code(i) {
            Some(d) => Ok(d),
            None => Err(DecodeError::UnknownDependency(i)),
        },
{
    let result = match i {
        0 => DependencyKind::PackageName,
        1 => DependencyKind::SharedLibary,
        2 => DependencyKind::PkgConfig,
        3 => DependencyKind::Interpreter,
        4 => DependencyKind::CMake,
        5 => DependencyKind::Python,
        6 => DependencyKind::Binary,
        7 => DependencyKind::SystemBinary,
        8 => DependencyKind::PkgConfig32,
        _ => return Err(DecodeError::UnknownDependency(i)),
    };
    Ok(result)
}

/// Maps an on-disk metadata tag code to its tag; any other code is refused.
pub fn decode_tag(code: u16) -> (r: Result<MetaTag, DecodeError>)
    ensures
        r == match tag_of_code(code) {
            Some(t) => Ok(t),
            None => Err(DecodeError::UnknownMetaTag(code)),
        },
{
    let tag = match code {
        1 => MetaTag::Name,
        2 => MetaTag::Architecture,
        3 => MetaTag::Version,
        4 => MetaTag::Summary,
        5 => MetaTag::Description,
        6 => MetaTag::Homepage,
        7 => MetaTag::SourceID,
        8 => MetaTag::Depends,
        9 => MetaTag::Provides,
        10 => MetaTag::Conflicts,
        11 => MetaTag::Release,
        12 => MetaTag::License,
        13 => MetaTag::BuildRelease,
        14 => MetaTag::PackageURI,
        15 => MetaTag::PackageHash,
        16 => MetaTag::PackageSize,
        17 => MetaTag::BuildDepends,
        18 => MetaTag::SourceURI,
        19 => MetaTag::SourcePath,
        20 => MetaTag::SourceRef,
        t => return Err(DecodeError::UnknownMetaTag(t)),
    };
    Ok(tag)
}

/// The dependency or provider body at `p`: one dependency-kind byte, then a
/// name of `len - 1` bytes.
pub open spec fn dependency_at(b: Seq<u8>, p: int, len: u32) -> Result<
    (DependencyKind, Seq<char>),
    DecodeError,
> {
    if !has_bytes(b, p, 1) {
        Err(DecodeError::UnexpectedEof)
    } else {
        match dependency_of_code(b[p]) {
            None => Err(DecodeError::UnknownDependency(b[p])),
            Some(d) => if len == 0 {
                Err(DecodeError::LengthMismatch)
            } else {
                match text_at(b, p + 1, len - 1) {
                    Ok(s) => Ok((d, s)),
                    Err(e) => Err(e),
                }
            },
        }
    }
}

/// The fixed width in bytes of an integer value kind.
pub open spec fn int_width(kind: u8) -> int {
    if kind <= 2 {
        1
    } else if kind <= 4 {
        2
    } else if kind <= 6 {
        4
    } else {
        8
    }
}

/// The integer value of kind code `kind` (one of 1 to 8) stored at `p`; the
/// signed kinds read the same bytes in two's complement.
pub open spec fn int_value(b: Seq<u8>, p: int, kind: u8) -> MetaValue {
    if kind == 1 {
        MetaValue::Int8(b[p] as i8)
    } else if kind == 2 {
        MetaValue::Uint8(b[p])
    } else if kind == 3 {
        MetaValue::Int16(be_u16(b, p) as i16)
    } else if kind == 4 {
        MetaValue::Uint16(be_u16(b, p))
    } else if kind == 5 {
        MetaValue::Int32(be_u32(b, p) as i32)
    } else if kind == 6 {
        MetaValue::Uint32(be_u32(b, p))
    } else if kind == 7 {
        MetaValue::Int64(be_u64(b, p) as i64)
    } else {
        MetaValue::Uint64(be_u64(b, p))
    }
}

/// The value of kind code `kind` stored at `p`, where `len` is the record's
/// declared length, with the position just past it.
pub open spec fn value_at(b: Seq<u8>, p: int, kind: u8, len: u32) -> Result<
    (MetaValue, int),
    DecodeError,
> {
    if 1 <= kind <= 8 {
        if has_bytes(b, p, int_width(kind)) {
            Ok((int_value(b, p, kind), p + int_width(kind)))
        } else {
            Err(DecodeError::UnexpectedEof)
        }
    } else if kind == 9 {
        match text_at(b, p, len as int) {
            Ok(s) => Ok((MetaValue::String(s), p + len)),
            Err(e) => Err(e),
        }
    } else if kind == 10 {
        match dependency_at(b, p, len) {
            Ok((d, s)) => Ok((MetaValue::Dependency(d, s), p + len)),
            Err(e) => Err(e),
        }
    } else if kind == 11 {
        match dependency_at(b, p, len) {
            Ok((d, s)) => Ok((MetaValue::Provider(d, s), p + len)),
            Err(e) => Err(e),
        }
    } else {
        Err(DecodeError::UnknownMetaKind(kind))
    }
}

/// The record stored at `p`, with the position just past it: a declared
/// length (`u32`), a tag code (`u16`), a kind code (`u8`), one padding byte,
/// then the value.
pub open spec fn record_at(b: Seq<u8>, p: int) -> Result<((MetaTag, MetaValue), int), DecodeError> {
    if !has_bytes(b, p, 6) {
        Err(DecodeError::UnexpectedEof)
    } else {
        match tag_of_code(be_u16(b, p + 4)) {
            None => Err(DecodeError::UnknownMetaTag(be_u16(b, p + 4))),
            Some(tag) => if !has_bytes(b, p, 8) {
                Err(DecodeError::UnexpectedEof)
            } else {
                match value_at(b, p + 8, b[p + 6], be_u32(b, p)) {
                    Ok((v, q)) => Ok(((tag, v), q)),
                    Err(e) => Err(e),
                }
            },
        }
    }
}

/// What a decoded record stands for, positions as integers.
pub open spec fn decoded_view(r: Result<(Meta, usize), DecodeError>) -> Result<
    ((MetaTag, MetaValue), int),
    DecodeError,
> {
    match r {
        Ok((m, next)) => Ok((m@, next as int)),
        Err(e) => Err(e),
    }
}

/// Reads the body of a dependency or provider value at `pos`: the
/// dependency-kind byte, then the name in the remaining `length - 1` bytes.
pub fn read_dependency(buf: &[u8], pos: usize, length: u32) -> (r: Result<
    (DependencyKind, String, usize),
    DecodeError,
>)
    ensures
        match r {
            Ok((d, s, next)) => dependency_at(buf@, pos as int, length) == Ok::<
                (DependencyKind, Seq<char>),
                DecodeError,
            >((d, s@)) && next == pos + length,
            Err(e) => dependency_at(buf@, pos as int, length) == Err::<
                (DependencyKind, Seq<char>),
                DecodeError,
            >(e),
        },
{
    let (code, p) = read_u8(buf, pos)?;
    let d = decode_dependency(code)?;
    if length == 0 {
        return Err(DecodeError::LengthMismatch);
    }
    let (s, next) = read_string(buf, p, (length - 1) as usize)?;
    Ok((d, s, next))
}

impl Meta {
    /// Decodes the one record stored at `pos`, and returns it with the
    /// position just past it.
    pub fn decode(buf: &[u8], pos: usize) -> (r: Result<(Meta, usize), DecodeError>)
        ensures
            decoded_view(r) == record_at(buf@, pos as int),
    {
        let (length, p) = read_u32(buf, pos)?;
        let (code, p) = read_u16(buf, p)?;
        let tag = decode_tag(code)?;
        let (kind, p) = read_u8(buf, p)?;
        let (_padding, p) = read_u8(buf, p)?;
        let kind = match kind {
            1 => {
                let (v, q) = read_u8(buf, p)?;
                (MetaKind::Int8(v as i8), q)
            },
            2 => {
                let (v, q) = read_u8(buf, p)?;
                (MetaKind::Uint8(v), q)
            },
            3 => {
                let (v, q) = read_u16(buf, p)?;
                (MetaKind::Int16(v as i16), q)
            },
            4 => {
                let (v, q) = read_u16(buf, p)?;
                (MetaKind::Uint16(v), q)
            },
            5 => {
                let (v, q) = read_u32(buf, p)?;
                (MetaKind::Int32(v as i32), q)
            },
            6 => {
                let (v, q) = read_u32(buf, p)?;
                (MetaKind::Uint32(v), q)
            },
            7 => {
                let (v, q) = read_u64(buf, p)?;
                (MetaKind::Int64(v as i64), q)
            },
            8 => {
                let (v, q) = read_u64(buf, p)?;
                (MetaKind::Uint64(v), q)
            },
            9 => {
                let (s, q) = read_string(buf, p, length as usize)?;
                (MetaKind::String(s), q)
            },
            10 => {
                let (d, s, q) = read_dependency(buf, p, length)?;
                (MetaKind::Dependency(d, s), q)
            },
            11 => {
                let (d, s, q) = read_dependency(buf, p, length)?;
                (MetaKind::Provider(d, s), q)
            },
            k => return Err(DecodeError::UnknownMetaKind(k)),
        };
        Ok((Meta { tag, kind: kind.0 }, kind.1))
    }
}

} // verus!
