//! Flag-set behaviour (toggles, pass-through of unnamed bits) and the
//! zero-padding discipline of reserved regions.

use fuse_wire::flags::{
    GetattrFlags, InitFlags, OpenOutFlags, FOPEN_DIRECT_IO, FOPEN_KEEP_CACHE, FUSE_ASYNC_READ,
    FUSE_POSIX_LOCKS,
};
use fuse_wire::padding::Padding;
use fuse_wire::records::{fuse_getxattr_out, fuse_write_out, WireRecord};

#[test]
fn toggles_on_independent_bits_commute() {
    let a = OpenOutFlags::from_bits(FOPEN_DIRECT_IO);
    let b = OpenOutFlags::from_bits(FOPEN_KEEP_CACHE);
    for start in [0u32, FOPEN_DIRECT_IO, FOPEN_KEEP_CACHE, 0xffff_ffff] {
        let w = OpenOutFlags::from_bits(start);
        assert_eq!(w.clear(a).set(b), w.set(b).clear(a));
    }
}

#[test]
fn toggles_are_idempotent() {
    let a = InitFlags::from_bits(FUSE_ASYNC_READ);
    let w = InitFlags::from_bits(0b1010);
    assert_eq!(w.set(a).set(a), w.set(a));
    assert_eq!(w.clear(a).clear(a), w.clear(a));
}

#[test]
fn contains_checks_every_bit() {
    let w = InitFlags::from_bits(FUSE_ASYNC_READ | FUSE_POSIX_LOCKS);
    assert!(w.contains(InitFlags::from_bits(FUSE_ASYNC_READ)));
    assert!(w.contains(w));
    assert!(!w.contains(InitFlags::from_bits(FUSE_ASYNC_READ | 0x8000_0000)));
    assert!(InitFlags::empty().contains(InitFlags::empty()));
}

#[test]
fn unnamed_bits_survive_a_record_round_trip() {
    // bit 31 has no name in the get-attributes domain; it must be preserved
    let raw: u32 = 0x8000_0001;
    let r = fuse_wire::records::fuse_getattr_in {
        getattr_flags: GetattrFlags::from_bits(raw),
        dummy: 0,
        fh: 0,
    };
    let bytes = r.encode();
    let d = fuse_wire::records::fuse_getattr_in::decode(bytes.as_slice(), 0);
    assert_eq!(d.getattr_flags.bits, raw);
}

#[test]
fn intersect_keeps_common_bits_only() {
    let a = InitFlags::from_bits(0b1100);
    let b = InitFlags::from_bits(0b1010);
    assert_eq!(a.intersect(b).bits, 0b1000);
}

#[test]
fn default_padding_serializes_as_zero_bytes() {
    let r = fuse_getxattr_out { size: 0xff, padding: Padding::new() };
    let bytes = r.encode();
    assert_eq!(&bytes[4..8], &[0u8, 0, 0, 0]);
}

#[test]
fn padding_default_equals_new() {
    let a: Padding<4> = Padding::new();
    let b: Padding<4> = Padding::default();
    assert_eq!(a, b);
}

#[test]
fn nonzero_padding_needs_the_explicit_escape_hatch() {
    let r = fuse_write_out {
        size: 1,
        padding: Padding::with_nonzero(vec![9, 8, 7, 6]),
    };
    let bytes = r.encode();
    assert_eq!(&bytes[4..8], &[9u8, 8, 7, 6]);
}

#[test]
fn inbound_nonzero_padding_is_tolerated() {
    // decode a write reply whose reserved region is nonzero; nothing fails
    // and the bytes are carried as they came
    let raw = [1u8, 0, 0, 0, 0xde, 0xad, 0xbe, 0xef];
    let d = fuse_write_out::decode(&raw, 0);
    assert_eq!(d.size, 1);
    let re = d.encode();
    assert_eq!(re.as_slice(), &raw);
}
