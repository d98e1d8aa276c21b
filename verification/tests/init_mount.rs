//! Capability negotiation and mount-establishment decisions.

use fuse_wire::flags::{FUSE_ASYNC_READ, FUSE_POSIX_LOCKS};
use fuse_wire::init::{
    negotiate_init, InitError, DEFAULT_MAX_WRITE, SUPPORTED_INIT_FLAGS, SUPPORTED_INIT_FLAGS2,
};
use fuse_wire::mount::{
    device_not_found_hint, fuse_device_path, fuse_fs_type, on_device_open, on_mount_result,
    DeviceOpenOutcome, MountError,
};
use fuse_wire::padding::Padding;
use fuse_wire::records::fuse_init_in;
use fuse_wire::{FUSE_KERNEL_MINOR_VERSION, FUSE_KERNEL_VERSION};

fn init_request(major: u32, minor: u32, flags: u32, flags2: u32) -> fuse_init_in {
    fuse_init_in {
        major,
        minor,
        max_readahead: 65536,
        flags,
        flags2,
        unused: Padding::new(),
    }
}

#[test]
fn negotiation_returns_exactly_the_common_supported_flags() {
    // the kernel offers one supported flag, one unsupported flag, and a bit
    // with no name at all; the reply must carry exactly the supported one
    let req = init_request(
        FUSE_KERNEL_VERSION,
        FUSE_KERNEL_MINOR_VERSION,
        FUSE_ASYNC_READ | FUSE_POSIX_LOCKS | 0x8000_0000,
        0,
    );
    let out = negotiate_init(&req).unwrap();
    assert_eq!(out.flags, FUSE_ASYNC_READ);
    assert_eq!(out.flags2, 0);
}

#[test]
fn negotiated_flags_are_a_subset_of_the_request() {
    let req = init_request(FUSE_KERNEL_VERSION, 45, 0xffff_ffff, 0xffff_ffff);
    let out = negotiate_init(&req).unwrap();
    assert_eq!(out.flags & req.flags, out.flags);
    assert_eq!(out.flags2 & req.flags2, out.flags2);
    assert_eq!(out.flags, SUPPORTED_INIT_FLAGS);
    assert_eq!(out.flags2, SUPPORTED_INIT_FLAGS2);
}

#[test]
fn negotiated_minor_never_exceeds_either_offer() {
    let newer = negotiate_init(&init_request(FUSE_KERNEL_VERSION, 99, 0, 0)).unwrap();
    assert_eq!(newer.minor, FUSE_KERNEL_MINOR_VERSION);
    let older = negotiate_init(&init_request(FUSE_KERNEL_VERSION, 7, 0, 0)).unwrap();
    assert_eq!(older.minor, 7);
}

#[test]
fn major_mismatch_is_fatal() {
    let e = negotiate_init(&init_request(8, 45, 0, 0)).unwrap_err();
    assert_eq!(e, InitError::MajorMismatch { kernel_major: 8 });
    let e2 = negotiate_init(&init_request(6, 45, 0, 0)).unwrap_err();
    assert_eq!(e2, InitError::MajorMismatch { kernel_major: 6 });
}

#[test]
fn negotiation_echoes_readahead_and_sets_server_tunables() {
    let req = init_request(FUSE_KERNEL_VERSION, 45, 0, 0);
    let out = negotiate_init(&req).unwrap();
    assert_eq!(out.major, FUSE_KERNEL_VERSION);
    assert_eq!(out.max_readahead, 65536);
    assert_eq!(out.max_write, DEFAULT_MAX_WRITE);
    assert_eq!(out.time_gran, 1);
}

#[test]
fn absent_device_is_the_distinct_not_found_failure() {
    let r = on_device_open(DeviceOpenOutcome::NotFound);
    assert_eq!(r.unwrap_err(), MountError::DeviceNotFound);
}

#[test]
fn not_found_hint_names_the_module_remedy() {
    let hint = device_not_found_hint();
    assert!(hint.contains("modprobe fuse"));
    assert!(hint.contains(fuse_device_path()));
}

#[test]
fn opened_device_hands_back_its_descriptor() {
    let r = on_device_open(DeviceOpenOutcome::Opened { fd: 7 });
    assert_eq!(r.unwrap(), 7);
}

#[test]
fn other_open_failures_keep_their_errno() {
    let r = on_device_open(DeviceOpenOutcome::Failed { errno: 13 });
    assert_eq!(r.unwrap_err(), MountError::DeviceOpen { errno: 13 });
}

#[test]
fn mount_call_failure_is_classified_and_not_retried() {
    assert_eq!(on_mount_result(0, 0), Ok(()));
    assert_eq!(
        on_mount_result(-1, 22).unwrap_err(),
        MountError::MountCall { errno: 22 }
    );
}

#[test]
fn fs_type_literal_is_fixed() {
    assert_eq!(fuse_fs_type(), "fuse");
    assert_eq!(fuse_device_path(), "/dev/fuse");
}
