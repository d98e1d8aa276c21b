//! The mount-option builder: exact options strings, NUL validation, flag
//! toggles on the mount-flag word.

use fuse_wire::builder::{
    ConfigError, MountBuilder, MS_NOEXEC, MS_NOSUID, MS_RDONLY, MS_SYNCHRONOUS,
};

fn base() -> MountBuilder {
    MountBuilder::new(b"/mnt/test".to_vec(), b"myfs".to_vec()).unwrap()
}

#[test]
fn options_string_for_default_permissions_setup() {
    let b = base().default_permissions(true).allow_other(false);
    assert!(!b.has_root_mode());
    let opts = b.into_options(5, 0o40755, 1000, 1000);
    assert_eq!(
        opts.options,
        b"fd=5,rootmode=40755,user_id=1000,group_id=1000,fsname=myfs,default_permissions"
            .to_vec()
    );
    assert_eq!(opts.source, b"myfs".to_vec());
    assert_eq!(opts.target, b"/mnt/test".to_vec());
    assert_eq!(opts.mountpoint, b"/mnt/test".to_vec());
    assert_eq!(opts.flags, 0);
}

#[test]
fn options_string_with_every_optional_token() {
    let b = base()
        .subtype(b"inner".to_vec())
        .unwrap()
        .root_mode(0o755)
        .default_permissions(true)
        .allow_other(true)
        .max_read(4096);
    assert!(b.has_root_mode());
    // explicit root mode wins over the queried fallback
    let opts = b.into_options(3, 0o40777, 0, 0);
    assert_eq!(
        opts.options,
        b"fd=3,rootmode=755,user_id=0,group_id=0,fsname=myfs,subtype=inner,default_permissions,allow_other,max_read=4096"
            .to_vec()
    );
}

#[test]
fn options_string_never_contains_nul() {
    let opts = base().max_read(usize::MAX).into_options(i32::MAX, u16::MAX, u32::MAX, 0);
    assert!(opts.options.iter().all(|&b| b != 0));
}

#[test]
fn zero_values_render_as_single_digits() {
    let opts = base().into_options(0, 0, 0, 0);
    assert_eq!(
        opts.options,
        b"fd=0,rootmode=0,user_id=0,group_id=0,fsname=myfs".to_vec()
    );
}

#[test]
fn fsname_with_nul_is_a_recoverable_error() {
    let r = MountBuilder::new(b"/mnt".to_vec(), b"my\0fs".to_vec());
    assert_eq!(r.unwrap_err(), ConfigError::FsnameHasNul);
}

#[test]
fn mountpoint_with_nul_is_a_recoverable_error() {
    let r = MountBuilder::new(b"/mn\0t".to_vec(), b"myfs".to_vec());
    assert_eq!(r.unwrap_err(), ConfigError::MountpointHasNul);
}

#[test]
fn subtype_with_nul_is_a_recoverable_error() {
    let r = base().subtype(b"in\0ner".to_vec());
    assert_eq!(r.unwrap_err(), ConfigError::SubtypeHasNul);
}

#[test]
fn flag_setters_set_and_clear_single_bits() {
    let opts = base().rdonly(true).noexec(true).into_options(1, 0, 0, 0);
    assert_eq!(opts.flags, MS_RDONLY | MS_NOEXEC);
    let opts2 = base()
        .rdonly(true)
        .noexec(true)
        .rdonly(false)
        .into_options(1, 0, 0, 0);
    assert_eq!(opts2.flags, MS_NOEXEC);
}

#[test]
fn flag_setters_are_order_independent() {
    let a = base().nosuid(true).synchronous(true).into_options(1, 0, 0, 0).flags;
    let c = base().synchronous(true).nosuid(true).into_options(1, 0, 0, 0).flags;
    assert_eq!(a, c);
    assert_eq!(a, MS_NOSUID | MS_SYNCHRONOUS);
}

#[test]
fn max_read_unlimited_removes_the_cap() {
    let opts = base().max_read(512).max_read_unlimited().into_options(1, 0, 0, 0);
    assert_eq!(opts.options, b"fd=1,rootmode=0,user_id=0,group_id=0,fsname=myfs".to_vec());
}
