//! Wire-protocol model and mount-option core for a userspace filesystem
//! server speaking the kernel filesystem-in-userspace protocol over a
//! character device.
//!
//! The crate models the binary protocol exactly as the kernel lays it out:
//! fixed-offset records in the host's native byte order (this crate assumes a
//! little-endian host, the only platforms the protocol is exercised on here),
//! an enumerated operation catalog with deliberate numeric gaps, per-domain
//! flag words, and zero-filled reserved regions. Decoding of inbound buffers
//! is fallible and bounds-checked; encoding of outbound replies is total.
//!
//! Device I/O and the kernel mount call live outside this crate; the types
//! here hand plain values (byte vectors, integers) across that boundary.

#![allow(non_camel_case_types)]

use vstd::prelude::*;

pub mod builder;
pub mod codec;
pub mod flags;
pub mod init;
pub mod mount;
pub mod opcode;
pub mod padding;
pub mod records;
mod wire;

verus! {

/// Protocol major version this server implementation speaks.
pub const FUSE_KERNEL_VERSION: u32 = 7;

/// Protocol minor version this server implementation supports.
pub const FUSE_KERNEL_MINOR_VERSION: u32 = 45;

/// Node identifier of the filesystem root object.
pub const FUSE_ROOT_ID: u64 = 1;

/// Upper bound on the number of iovec entries in an ioctl retry reply.
pub const FUSE_IOCTL_MAX_IOV: u32 = 256;

} // verus!
