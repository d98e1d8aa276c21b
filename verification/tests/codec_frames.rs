//! Decoding inbound frames and encoding outbound reply frames.

use fuse_wire::codec::{
    decode_request, encode_error_reply, encode_reply, encode_reply_for, fuse_in_header,
    DecodeError, RequestBody,
};
use fuse_wire::flags::GetattrFlags;
use fuse_wire::opcode::{fuse_opcode, has_reply, opcode_from_u32, request_body_len};
use fuse_wire::padding::Padding;
use fuse_wire::records::{fuse_attr_out, fuse_getattr_in, fuse_write_out, WireRecord};

fn header(opcode: fuse_opcode, frame_len: u32, unique: u64) -> fuse_in_header {
    fuse_in_header {
        len: frame_len,
        opcode,
        unique,
        nodeid: 1,
        uid: 1000,
        gid: 1000,
        pid: 4242,
        total_extlen: 0,
        padding: 0,
    }
}

fn getattr_frame() -> (Vec<u8>, fuse_in_header, fuse_getattr_in) {
    let payload = fuse_getattr_in {
        getattr_flags: GetattrFlags::from_bits(1),
        dummy: 0,
        fh: 77,
    };
    let h = header(fuse_opcode::FUSE_GETATTR, 56, 0x4242);
    let mut buf: Vec<u8> = Vec::new();
    h.append_to(&mut buf);
    payload.append_to(&mut buf);
    (buf, h, payload)
}

#[test]
fn decode_getattr_frame_matches_input_bytes() {
    let (buf, h, payload) = getattr_frame();
    assert_eq!(buf.len(), 56);
    let d = decode_request(buf.as_slice()).unwrap();
    assert_eq!(d.header, h);
    assert_eq!(d.body, RequestBody::Getattr(payload));
    assert!(d.tail.is_empty());
}

#[test]
fn decode_truncated_frame_reports_length_mismatch() {
    let (mut buf, _, _) = getattr_frame();
    buf.pop();
    let e = decode_request(buf.as_slice()).unwrap_err();
    assert_eq!(e, DecodeError::LengthMismatch);
}

#[test]
fn decode_short_header_reports_truncated() {
    let buf = vec![0u8; 39];
    assert_eq!(decode_request(buf.as_slice()).unwrap_err(), DecodeError::Truncated);
    let empty: Vec<u8> = Vec::new();
    assert_eq!(decode_request(empty.as_slice()).unwrap_err(), DecodeError::Truncated);
}

#[test]
fn decode_payload_shorter_than_catalog_size_reports_truncated() {
    // a 44-byte frame claiming get-attributes, whose payload needs 16 bytes
    let h = header(fuse_opcode::FUSE_GETATTR, 44, 1);
    let mut buf: Vec<u8> = Vec::new();
    h.append_to(&mut buf);
    buf.extend_from_slice(&[0u8; 4]);
    assert_eq!(buf.len(), 44);
    assert_eq!(decode_request(buf.as_slice()).unwrap_err(), DecodeError::Truncated);
}

#[test]
fn decode_wrong_length_field_reports_length_mismatch() {
    let (mut buf, _, _) = getattr_frame();
    // overstate the length field
    buf[0] = 57;
    assert_eq!(decode_request(buf.as_slice()).unwrap_err(), DecodeError::LengthMismatch);
}

fn frame_with_raw_opcode(raw: u32) -> Vec<u8> {
    let h = header(fuse_opcode::FUSE_GETATTR, 40, 9);
    let mut buf: Vec<u8> = Vec::new();
    h.append_to(&mut buf);
    buf[4..8].copy_from_slice(&raw.to_le_bytes());
    buf
}

#[test]
fn decode_gap_opcodes_fail() {
    for raw in [7u32, 19u32] {
        let buf = frame_with_raw_opcode(raw);
        assert_eq!(
            decode_request(buf.as_slice()).unwrap_err(),
            DecodeError::UnknownOpcode { value: raw }
        );
    }
}

#[test]
fn decode_out_of_catalog_opcodes_fail() {
    for raw in [0u32, 54, 100, u32::MAX] {
        let buf = frame_with_raw_opcode(raw);
        assert_eq!(
            decode_request(buf.as_slice()).unwrap_err(),
            DecodeError::UnknownOpcode { value: raw }
        );
    }
}

#[test]
fn decode_write_frame_returns_data_as_tail() {
    let payload = fuse_wire::records::fuse_write_in {
        fh: 5,
        offset: 0,
        size: 3,
        write_flags: fuse_wire::flags::WriteFlags::from_bits(0),
        lock_owner: 0,
        flags: 0,
        padding: 0,
    };
    let h = header(fuse_opcode::FUSE_WRITE, 40 + 40 + 3, 11);
    let mut buf: Vec<u8> = Vec::new();
    h.append_to(&mut buf);
    payload.append_to(&mut buf);
    buf.extend_from_slice(b"abc");
    let d = decode_request(buf.as_slice()).unwrap();
    assert_eq!(d.body, RequestBody::Write(payload));
    assert_eq!(d.tail, b"abc".to_vec());
}

#[test]
fn decode_lookup_frame_keeps_name_in_tail() {
    let h = header(fuse_opcode::FUSE_LOOKUP, 40 + 6, 12);
    let mut buf: Vec<u8> = Vec::new();
    h.append_to(&mut buf);
    buf.extend_from_slice(b"file\0x");
    let d = decode_request(buf.as_slice()).unwrap();
    assert_eq!(d.body, RequestBody::Empty);
    assert_eq!(d.tail, b"file\0x".to_vec());
}

#[test]
fn opcode_lookup_round_trips_and_rejects_gaps() {
    assert_eq!(opcode_from_u32(1), Some(fuse_opcode::FUSE_LOOKUP));
    assert_eq!(opcode_from_u32(26), Some(fuse_opcode::FUSE_INIT));
    assert_eq!(opcode_from_u32(53), Some(fuse_opcode::FUSE_COPY_FILE_RANGE_64));
    assert_eq!(opcode_from_u32(7), None);
    assert_eq!(opcode_from_u32(19), None);
    assert_eq!(opcode_from_u32(0), None);
    assert_eq!(opcode_from_u32(54), None);
}

#[test]
fn catalog_payload_sizes() {
    assert_eq!(request_body_len(fuse_opcode::FUSE_LOOKUP), 0);
    assert_eq!(request_body_len(fuse_opcode::FUSE_GETATTR), 16);
    assert_eq!(request_body_len(fuse_opcode::FUSE_SETATTR), 88);
    assert_eq!(request_body_len(fuse_opcode::FUSE_INIT), 64);
    assert_eq!(request_body_len(fuse_opcode::FUSE_OPENDIR), 8);
    assert_eq!(request_body_len(fuse_opcode::FUSE_COPY_FILE_RANGE_64), 56);
}

#[test]
fn forget_operations_expect_no_reply() {
    assert!(!has_reply(fuse_opcode::FUSE_FORGET));
    assert!(!has_reply(fuse_opcode::FUSE_BATCH_FORGET));
    assert!(!has_reply(fuse_opcode::FUSE_NOTIFY_REPLY));
    assert!(has_reply(fuse_opcode::FUSE_GETATTR));
    assert!(has_reply(fuse_opcode::FUSE_DESTROY));
}

#[test]
fn reply_length_field_counts_header_payload_and_tail() {
    let rec = fuse_write_out { size: 9, padding: Padding::new() };
    let out = encode_reply(0x77, 0, &rec, b"xy");
    assert_eq!(out.len(), 16 + 8 + 2);
    assert_eq!(u32::from_le_bytes(out[0..4].try_into().unwrap()), 26);
    assert_eq!(i32::from_le_bytes(out[4..8].try_into().unwrap()), 0);
    assert_eq!(u64::from_le_bytes(out[8..16].try_into().unwrap()), 0x77);
    assert_eq!(&out[24..26], b"xy");
}

#[test]
fn reply_echoes_request_correlation_id() {
    let (buf, _, _) = getattr_frame();
    let d = decode_request(buf.as_slice()).unwrap();
    let rec = fuse_attr_out {
        attr_valid: 1,
        attr_valid_nsec: 0,
        dummy: Padding::new(),
        attr: fuse_wire::records::fuse_attr {
            ino: 1,
            size: 0,
            blocks: 0,
            atime: 0,
            mtime: 0,
            ctime: 0,
            atimensec: 0,
            mtimensec: 0,
            ctimensec: 0,
            mode: 0o040755,
            nlink: 2,
            uid: 0,
            gid: 0,
            rdev: 0,
            blksize: 4096,
            flags: fuse_wire::flags::AttrFlags::from_bits(0),
        },
    };
    let out = encode_reply_for(&d.header, 0, &rec, &[]);
    assert_eq!(out.len(), 16 + 104);
    assert_eq!(u64::from_le_bytes(out[8..16].try_into().unwrap()), 0x4242);
}

#[test]
fn error_reply_is_header_only_with_negated_errno() {
    let out = encode_error_reply(0xabc, -5);
    assert_eq!(out.len(), 16);
    assert_eq!(u32::from_le_bytes(out[0..4].try_into().unwrap()), 16);
    assert_eq!(i32::from_le_bytes(out[4..8].try_into().unwrap()), -5);
    assert_eq!(u64::from_le_bytes(out[8..16].try_into().unwrap()), 0xabc);
}

#[test]
fn header_opcode_is_stored_decoded() {
    let (buf, _, _) = getattr_frame();
    let d = decode_request(buf.as_slice()).unwrap();
    assert_eq!(d.header.opcode, fuse_opcode::FUSE_GETATTR);
    assert_eq!(d.header.len as usize, buf.len());
}
