use stone::error::DecodeError;
use stone::meta::{decode_dependency, decode_tag, DependencyKind, Meta, MetaKind, MetaTag};
use stone::reader::{read_string, read_u16, read_u32, read_u64, read_u8};

fn record(len: u32, tag: u16, kind: u8, body: &[u8]) -> Vec<u8> {
    let mut out = Vec::new();
    out.extend_from_slice(&len.to_be_bytes());
    out.extend_from_slice(&tag.to_be_bytes());
    out.push(kind);
    out.push(0);
    out.extend_from_slice(body);
    out
}

fn decode_all(bytes: &[u8]) -> Meta {
    let (meta, next) = Meta::decode(bytes, 0).expect("record decodes");
    assert_eq!(next, bytes.len());
    meta
}

#[test]
fn string_record_round_trip() {
    let bytes = record(7, 1, 9, b"boulder");
    let meta = decode_all(&bytes);
    assert_eq!(meta.tag, MetaTag::Name);
    assert_eq!(meta.kind, MetaKind::String("boulder".to_string()));
}

#[test]
fn integer_records_round_trip() {
    assert_eq!(decode_all(&record(1, 11, 1, &(-5i8).to_be_bytes())).kind, MetaKind::Int8(-5));
    assert_eq!(decode_all(&record(1, 11, 2, &[200])).kind, MetaKind::Uint8(200));
    assert_eq!(
        decode_all(&record(2, 11, 3, &(-1234i16).to_be_bytes())).kind,
        MetaKind::Int16(-1234)
    );
    assert_eq!(
        decode_all(&record(2, 11, 4, &0xBEEFu16.to_be_bytes())).kind,
        MetaKind::Uint16(0xBEEF)
    );
    assert_eq!(
        decode_all(&record(4, 13, 5, &i32::MIN.to_be_bytes())).kind,
        MetaKind::Int32(i32::MIN)
    );
    assert_eq!(
        decode_all(&record(4, 13, 6, &0xDEADBEEFu32.to_be_bytes())).kind,
        MetaKind::Uint32(0xDEADBEEF)
    );
    assert_eq!(
        decode_all(&record(8, 16, 7, &(-42i64).to_be_bytes())).kind,
        MetaKind::Int64(-42)
    );
    assert_eq!(
        decode_all(&record(8, 16, 8, &u64::MAX.to_be_bytes())).kind,
        MetaKind::Uint64(u64::MAX)
    );
}

#[test]
fn integer_width_ignores_declared_length() {
    let bytes = record(99, 16, 6, &7u32.to_be_bytes());
    let meta = decode_all(&bytes);
    assert_eq!(meta.tag, MetaTag::PackageSize);
    assert_eq!(meta.kind, MetaKind::Uint32(7));
}

#[test]
fn dependency_record_decodes() {
    let bytes = record(5, 8, 10, &[0, b'b', b'a', b's', b'h']);
    let meta = decode_all(&bytes);
    assert_eq!(meta.tag, MetaTag::Depends);
    assert_eq!(
        meta.kind,
        MetaKind::Dependency(DependencyKind::PackageName, "bash".to_string())
    );
}

#[test]
fn provider_record_decodes() {
    let mut body = vec![8u8];
    body.extend_from_slice(b"zlib");
    let meta = decode_all(&record(5, 9, 11, &body));
    assert_eq!(meta.tag, MetaTag::Provides);
    assert_eq!(
        meta.kind,
        MetaKind::Provider(DependencyKind::PkgConfig32, "zlib".to_string())
    );
}

#[test]
fn multibyte_string_decodes() {
    let text = "größe→";
    let bytes = record(text.len() as u32, 4, 9, text.as_bytes());
    assert_eq!(decode_all(&bytes).kind, MetaKind::String(text.to_string()));
}

#[test]
fn decode_at_position_returns_next() {
    let mut bytes = record(7, 1, 9, b"boulder");
    let second = record(2, 11, 4, &3u16.to_be_bytes());
    bytes.extend_from_slice(&second);
    let (first, next) = Meta::decode(&bytes, 0).unwrap();
    assert_eq!(first.tag, MetaTag::Name);
    assert_eq!(next, 15);
    let (meta, end) = Meta::decode(&bytes, next).unwrap();
    assert_eq!(meta.tag, MetaTag::Release);
    assert_eq!(meta.kind, MetaKind::Uint16(3));
    assert_eq!(end, bytes.len());
}

#[test]
fn unknown_tag_rejected() {
    let bytes = record(7, 99, 9, b"boulder");
    assert_eq!(Meta::decode(&bytes, 0), Err(DecodeError::UnknownMetaTag(99)));
    let bytes = record(1, 99, 2, &[1]);
    assert_eq!(Meta::decode(&bytes, 0), Err(DecodeError::UnknownMetaTag(99)));
    assert_eq!(Meta::decode(&record(0, 0, 2, &[1]), 0), Err(DecodeError::UnknownMetaTag(0)));
    assert_eq!(Meta::decode(&record(0, 21, 2, &[1]), 0), Err(DecodeError::UnknownMetaTag(21)));
}

#[test]
fn unknown_kind_rejected() {
    let bytes = record(4, 1, 200, b"abcd");
    assert_eq!(Meta::decode(&bytes, 0), Err(DecodeError::UnknownMetaKind(200)));
    assert_eq!(Meta::decode(&record(0, 1, 0, &[]), 0), Err(DecodeError::UnknownMetaKind(0)));
    assert_eq!(Meta::decode(&record(0, 1, 12, &[]), 0), Err(DecodeError::UnknownMetaKind(12)));
}

#[test]
fn unknown_dependency_kind_rejected() {
    let bytes = record(5, 8, 10, &[250, b'b', b'a', b's', b'h']);
    assert_eq!(Meta::decode(&bytes, 0), Err(DecodeError::UnknownDependency(250)));
    let bytes = record(3, 8, 11, &[250, 0xFF, 0xFE]);
    assert_eq!(Meta::decode(&bytes, 0), Err(DecodeError::UnknownDependency(250)));
    let bytes = record(40, 8, 10, &[250]);
    assert_eq!(Meta::decode(&bytes, 0), Err(DecodeError::UnknownDependency(250)));
}

#[test]
fn zero_length_dependency_fails_cleanly() {
    let bytes = record(0, 8, 10, &[1, b'x']);
    assert_eq!(Meta::decode(&bytes, 0), Err(DecodeError::LengthMismatch));
    let bytes = record(0, 9, 11, &[1]);
    assert_eq!(Meta::decode(&bytes, 0), Err(DecodeError::LengthMismatch));
}

#[test]
fn invalid_utf8_rejected() {
    let bytes = record(2, 1, 9, &[0xC3, 0x28]);
    assert_eq!(Meta::decode(&bytes, 0), Err(DecodeError::InvalidUtf8));
    let bytes = record(3, 8, 10, &[2, 0xFF, 0x41]);
    assert_eq!(Meta::decode(&bytes, 0), Err(DecodeError::InvalidUtf8));
}

#[test]
fn truncated_records_fail_with_short_read() {
    let records = vec![
        record(7, 1, 9, b"boulder"),
        record(5, 8, 10, &[0, b'b', b'a', b's', b'h']),
        record(8, 16, 8, &u64::MAX.to_be_bytes()),
        record(1, 11, 1, &[0x80]),
    ];
    for bytes in records {
        assert!(Meta::decode(&bytes, 0).is_ok());
        for cut in 0..bytes.len() {
            assert_eq!(Meta::decode(&bytes[..cut], 0), Err(DecodeError::UnexpectedEof), "cut {cut}");
        }
    }
}

#[test]
fn decode_past_end_is_short_read() {
    let bytes = record(7, 1, 9, b"boulder");
    assert_eq!(Meta::decode(&bytes, 15), Err(DecodeError::UnexpectedEof));
    assert_eq!(Meta::decode(&bytes, usize::MAX), Err(DecodeError::UnexpectedEof));
    assert_eq!(Meta::decode(&[], 0), Err(DecodeError::UnexpectedEof));
}

#[test]
fn record_decode_is_repeatable() {
    let bytes = record(5, 17, 10, &[3, b'l', b'd', b'-', b'x']);
    let first = Meta::decode(&bytes, 0);
    let second = Meta::decode(&bytes, 0);
    assert_eq!(first, second);
    assert_eq!(
        first.unwrap().0.kind,
        MetaKind::Dependency(DependencyKind::Interpreter, "ld-x".to_string())
    );
}

#[test]
fn dependency_codes_map_to_kinds() {
    let kinds = [
        DependencyKind::PackageName,
        DependencyKind::SharedLibary,
        DependencyKind::PkgConfig,
        DependencyKind::Interpreter,
        DependencyKind::CMake,
        DependencyKind::Python,
        DependencyKind::Binary,
        DependencyKind::SystemBinary,
        DependencyKind::PkgConfig32,
    ];
    for (code, kind) in kinds.iter().enumerate() {
        assert_eq!(decode_dependency(code as u8), Ok(*kind));
    }
    assert_eq!(decode_dependency(9), Err(DecodeError::UnknownDependency(9)));
    assert_eq!(decode_dependency(250), Err(DecodeError::UnknownDependency(250)));
}

#[test]
fn tag_codes_map_to_tags() {
    assert_eq!(decode_tag(1), Ok(MetaTag::Name));
    assert_eq!(decode_tag(8), Ok(MetaTag::Depends));
    assert_eq!(decode_tag(15), Ok(MetaTag::PackageHash));
    assert_eq!(decode_tag(20), Ok(MetaTag::SourceRef));
    assert_eq!(decode_tag(21), Err(DecodeError::UnknownMetaTag(21)));
}

#[test]
fn dependency_kind_labels() {
    assert_eq!(DependencyKind::PackageName.as_str(), "name");
    assert_eq!(DependencyKind::SharedLibary.as_str(), "soname");
    assert_eq!(DependencyKind::PkgConfig.as_str(), "pkgconfig");
    assert_eq!(DependencyKind::Interpreter.as_str(), "interpreter");
    assert_eq!(DependencyKind::CMake.as_str(), "cmake");
    assert_eq!(DependencyKind::Python.as_str(), "python");
    assert_eq!(DependencyKind::Binary.as_str(), "binary");
    assert_eq!(DependencyKind::SystemBinary.as_str(), "sysbinary");
    assert_eq!(DependencyKind::PkgConfig32.as_str(), "pkgconfig32");
}

#[test]
fn primitives_read_big_endian() {
    let bytes = [1u8, 2, 3, 4, 5, 6, 7, 8, 9];
    assert_eq!(read_u8(&bytes, 8), Ok((9, 9)));
    assert_eq!(read_u16(&bytes, 1), Ok((0x0203, 3)));
    assert_eq!(read_u32(&bytes, 0), Ok((0x01020304, 4)));
    assert_eq!(read_u64(&bytes, 1), Ok((0x0203040506070809, 9)));
    assert_eq!(read_u8(&bytes, 9), Err(DecodeError::UnexpectedEof));
    assert_eq!(read_u16(&bytes, 8), Err(DecodeError::UnexpectedEof));
    assert_eq!(read_u32(&bytes, 6), Err(DecodeError::UnexpectedEof));
    assert_eq!(read_u64(&bytes, 2), Err(DecodeError::UnexpectedEof));
}

#[test]
fn read_string_takes_exact_length() {
    let bytes = b"xxhello world";
    assert_eq!(read_string(bytes, 2, 5), Ok(("hello".to_string(), 7)));
    assert_eq!(read_string(bytes, 2, 0), Ok((String::new(), 2)));
    assert_eq!(read_string(bytes, 2, 12), Err(DecodeError::UnexpectedEof));
    assert_eq!(read_string(&[0x80], 0, 1), Err(DecodeError::InvalidUtf8));
}
