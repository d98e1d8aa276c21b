//! Encode/decode round trips for the fixed-layout record model.

use fuse_wire::flags::{AttrFlags, OpenOutFlags, SetattrValid};
use fuse_wire::padding::Padding;
use fuse_wire::records::{
    fuse_attr, fuse_entry_out, fuse_getattr_in, fuse_init_out, fuse_open_out, fuse_out_header,
    fuse_setattr_in, fuse_statx, fuse_statx_out, fuse_sx_time, fuse_write_out, WireRecord,
};

fn sample_attr() -> fuse_attr {
    fuse_attr {
        ino: 0xdead_beef_0123,
        size: 4096,
        blocks: 8,
        atime: 1_700_000_001,
        mtime: 1_700_000_002,
        ctime: 1_700_000_003,
        atimensec: 11,
        mtimensec: 22,
        ctimensec: 33,
        mode: 0o100644,
        nlink: 2,
        uid: 1000,
        gid: 1000,
        rdev: 0,
        blksize: 4096,
        flags: AttrFlags::from_bits(3),
    }
}

#[test]
fn getattr_in_round_trip() {
    let r = fuse_getattr_in {
        getattr_flags: fuse_wire::flags::GetattrFlags::from_bits(1),
        dummy: 77,
        fh: 0x1122_3344_5566_7788,
    };
    let bytes = r.encode();
    assert_eq!(bytes.len(), 16);
    let d = fuse_getattr_in::decode(bytes.as_slice(), 0);
    assert_eq!(d, r);
}

#[test]
fn entry_out_round_trip() {
    let r = fuse_entry_out {
        nodeid: 42,
        generation: 7,
        entry_valid: 1,
        attr_valid: 2,
        entry_valid_nsec: 3,
        attr_valid_nsec: 4,
        attr: sample_attr(),
    };
    let bytes = r.encode();
    assert_eq!(bytes.len(), 128);
    let d = fuse_entry_out::decode(bytes.as_slice(), 0);
    assert_eq!(d, r);
}

#[test]
fn setattr_in_round_trip_at_offset() {
    let r = fuse_setattr_in {
        valid: SetattrValid::from_bits(0b1011),
        padding: 0,
        fh: 9,
        size: 123456789,
        lock_owner: 55,
        atime: 1,
        mtime: 2,
        ctime: 3,
        atimensec: 4,
        mtimensec: 5,
        ctimensec: 6,
        mode: 0o644,
        unused4: 0,
        uid: 1,
        gid: 2,
        unused5: 0,
    };
    // place the record behind a three-byte prefix to exercise offsets
    let mut buf = vec![0xaau8, 0xbb, 0xcc];
    buf.extend_from_slice(r.encode().as_slice());
    let d = fuse_setattr_in::decode(buf.as_slice(), 3);
    assert_eq!(d, r);
}

#[test]
fn open_out_negative_backing_id_round_trip() {
    let r = fuse_open_out {
        fh: 3,
        open_flags: OpenOutFlags::from_bits(0b10_0001),
        backing_id: -5,
    };
    let bytes = r.encode();
    assert_eq!(bytes.len(), 16);
    let d = fuse_open_out::decode(bytes.as_slice(), 0);
    assert_eq!(d, r);
    assert_eq!(d.backing_id, -5);
}

#[test]
fn init_out_round_trip_with_padding() {
    let r = fuse_init_out {
        major: 7,
        minor: 45,
        max_readahead: 65536,
        flags: 0xdead,
        max_background: 12,
        congestion_threshold: 9,
        max_write: 131072,
        time_gran: 1,
        max_pages: 32,
        max_alignment: 0,
        flags2: 0xbeef,
        max_stack_depth: 0,
        request_timeout: 0,
        unused: Padding::new(),
    };
    let bytes = r.encode();
    assert_eq!(bytes.len(), 64);
    let d = fuse_init_out::decode(bytes.as_slice(), 0);
    assert_eq!(d, r);
}

#[test]
fn statx_out_round_trip() {
    let t = |s: u64, n: u32| fuse_sx_time { tv_sec: s, tv_nsec: n, __reserved: Padding::new() };
    let r = fuse_statx_out {
        attr_valid: 10,
        attr_valid_nsec: 20,
        flags: 1,
        spare: Padding::new(),
        stat: fuse_statx {
            mask: 0xfff,
            blksize: 4096,
            attributes: 0,
            nlink: 1,
            uid: 0,
            gid: 0,
            mode: 0o644,
            __spare0: Padding::new(),
            ino: 99,
            size: 1,
            blocks: 1,
            attributes_mask: 0,
            atime: t(1, 2),
            btime: t(3, 4),
            ctime: t(5, 6),
            mtime: t(7, 8),
            rdev_major: 0,
            rdev_minor: 0,
            dev_major: 8,
            dev_minor: 1,
            __spare2: Padding::new(),
        },
    };
    let bytes = r.encode();
    assert_eq!(bytes.len(), 288);
    let d = fuse_statx_out::decode(bytes.as_slice(), 0);
    assert_eq!(d, r);
}

#[test]
fn out_header_encodes_exact_layout() {
    let h = fuse_out_header { len: 24, error: -38, unique: 0x0102_0304_0506_0708 };
    let bytes = h.encode();
    assert_eq!(bytes.len(), 16);
    assert_eq!(u32::from_le_bytes(bytes[0..4].try_into().unwrap()), 24);
    assert_eq!(i32::from_le_bytes(bytes[4..8].try_into().unwrap()), -38);
    assert_eq!(
        u64::from_le_bytes(bytes[8..16].try_into().unwrap()),
        0x0102_0304_0506_0708
    );
}

#[test]
fn write_out_fields_sit_at_documented_offsets() {
    let r = fuse_write_out { size: 0x0a0b0c0d, padding: Padding::new() };
    let bytes = r.encode();
    assert_eq!(bytes.len(), 8);
    assert_eq!(u32::from_le_bytes(bytes[0..4].try_into().unwrap()), 0x0a0b0c0d);
    assert_eq!(&bytes[4..8], &[0, 0, 0, 0]);
}

#[test]
fn record_sizes_match_the_kernel_abi() {
    assert_eq!(fuse_getattr_in::size(), 16);
    assert_eq!(fuse_setattr_in::size(), 88);
    assert_eq!(fuse_entry_out::size(), 128);
    assert_eq!(fuse_attr::size(), 88);
    assert_eq!(fuse_statx::size(), 256);
    assert_eq!(fuse_statx_out::size(), 288);
    assert_eq!(fuse_init_out::size(), 64);
    assert_eq!(fuse_out_header::size(), 16);
}
