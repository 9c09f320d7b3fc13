//! The little-endian readers against an independent implementation, and the
//! path parsers.

use byteorder::{ByteOrder, LittleEndian};
use vfio_ioctls::bytes::{push_le32, read_le16, read_le32, read_le64};
use vfio_ioctls::errors::VfioError;
use vfio_ioctls::paths::{
    device_name_from_path, group_id_from_link, is_valid_utf8, parse_decimal_u32,
};

#[test]
fn little_endian_readers_agree_with_byteorder() {
    let buf: Vec<u8> = vec![0x01, 0x02, 0x03, 0x04, 0x05, 0x06, 0x07, 0x08, 0xff, 0x00, 0x80, 0x7f];
    for i in 0..buf.len() - 1 {
        assert_eq!(read_le16(&buf, i), LittleEndian::read_u16(&buf[i..i + 2]));
    }
    for i in 0..buf.len() - 3 {
        assert_eq!(read_le32(&buf, i), LittleEndian::read_u32(&buf[i..i + 4]));
    }
    for i in 0..buf.len() - 7 {
        assert_eq!(read_le64(&buf, i), LittleEndian::read_u64(&buf[i..i + 8]));
    }
}

#[test]
fn little_endian_writer_agrees_with_byteorder() {
    for v in [0u32, 1, 0xff, 0x1234_5678, u32::MAX] {
        let mut out: Vec<u8> = Vec::new();
        push_le32(&mut out, v);
        let mut expected = [0u8; 4];
        LittleEndian::write_u32(&mut expected, v);
        assert_eq!(out.as_slice(), &expected);
    }
}

#[test]
fn device_name_is_last_path_component() {
    let name = device_name_from_path(b"/sys/bus/pci/devices/0000:00:1f.6").unwrap();
    assert_eq!(name.as_slice(), b"0000:00:1f.6");
    let name = device_name_from_path(b"0000:00:1f.6").unwrap();
    assert_eq!(name.as_slice(), b"0000:00:1f.6");
}

#[test]
fn device_name_rejects_malformed_paths() {
    assert_eq!(device_name_from_path(b""), Err(VfioError::InvalidPath));
    assert_eq!(device_name_from_path(b"/sys/devices/"), Err(VfioError::InvalidPath));
    assert_eq!(device_name_from_path(b"/sys/dev\x00ices"), Err(VfioError::InvalidPath));
}

#[test]
fn device_name_must_be_well_formed_utf8() {
    assert_eq!(device_name_from_path(b"/sys/devices/\xff"), Err(VfioError::InvalidPath));
    assert_eq!(
        device_name_from_path(b"/sys/devices/ab\xc3"),
        Err(VfioError::InvalidPath),
        "a truncated multi-byte sequence is malformed"
    );
    // A well-formed multi-byte name passes through byte for byte.
    let name = device_name_from_path(b"/sys/devices/caf\xc3\xa9").unwrap();
    assert_eq!(name.as_slice(), b"caf\xc3\xa9");
}

#[test]
fn utf8_validation_agrees_with_std() {
    let cases: Vec<&[u8]> = vec![
        b"",
        b"abc",
        b"caf\xc3\xa9",
        b"\xff",
        b"\xc0\xaf",             // overlong two-byte form
        b"\xe0\x80\x80",         // overlong three-byte form
        b"\xed\xa0\x80",         // surrogate
        b"\xed\x9f\xbf",         // last scalar before the surrogates
        b"\xee\x80\x80",         // first scalar after the surrogates
        b"\xf4\x8f\xbf\xbf",     // largest scalar
        b"\xf4\x90\x80\x80",     // one past the largest scalar
        b"\xf0\x9f\x92\x96",     // an ordinary four-byte scalar
        b"\xf0\x80\x80\x80",     // overlong four-byte form
        b"\xc3",                 // truncated tail
        b"\xe2\x82",
        b"\xf0\x9f\x92",
        b"\x80",                 // stray continuation byte
        b"a\xc2\xa3b",
    ];
    for c in cases {
        assert_eq!(is_valid_utf8(c), std::str::from_utf8(c).is_ok(), "case {:?}", c);
    }
}

#[test]
fn group_id_parses_the_link_target() {
    assert_eq!(group_id_from_link(b"../../../kernel/iommu_groups/7"), Ok(7));
    assert_eq!(group_id_from_link(b"26"), Ok(26));
    assert_eq!(group_id_from_link(b"/a/4294967295"), Ok(u32::MAX));
}

#[test]
fn group_id_rejects_non_numeric_targets() {
    assert_eq!(group_id_from_link(b"../groups/abc"), Err(VfioError::InvalidPath));
    assert_eq!(group_id_from_link(b"../groups/\xff7"), Err(VfioError::InvalidPath));
    assert_eq!(group_id_from_link(b"../groups/"), Err(VfioError::InvalidPath));
    assert_eq!(group_id_from_link(b"/a/4294967296"), Err(VfioError::InvalidPath));
    assert_eq!(group_id_from_link(b"/a/12x"), Err(VfioError::InvalidPath));
}

#[test]
fn decimal_parser_handles_bounds() {
    assert_eq!(parse_decimal_u32(b"0"), Some(0));
    assert_eq!(parse_decimal_u32(b"007"), Some(7));
    assert_eq!(parse_decimal_u32(b"4294967295"), Some(u32::MAX));
    assert_eq!(parse_decimal_u32(b"4294967296"), None);
    assert_eq!(parse_decimal_u32(b"99999999999999999999"), None);
    assert_eq!(parse_decimal_u32(b""), None);
    assert_eq!(parse_decimal_u32(b"1 2"), None);
}
