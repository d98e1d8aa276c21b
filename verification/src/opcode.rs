//! The operation catalog: the closed, non-contiguous enumeration of request
//! kinds, and the single source of truth mapping each operation to its fixed
//! request-payload size and to whether the kernel expects a reply.
//!
//! The numbering has deliberate gaps (for instance the historical slots 7 and
//! 19 were never assigned); an integer outside the catalog must fail to
//! decode rather than fall back to any default.

use vstd::prelude::*;

verus! {

/// One request kind, as named in the header of every inbound frame.
#[derive(Debug, Clone, Copy, PartialEq, Eq, Structural)]
pub enum fuse_opcode {
    /// Look up a directory entry by name; the name is the trailing bytes.
    FUSE_LOOKUP,
    /// Forget an inode; carries no reply.
    FUSE_FORGET,
    /// Get attributes of an object.
    FUSE_GETATTR,
    /// Set attributes of an object.
    FUSE_SETATTR,
    /// Read the target of a symbolic link.
    FUSE_READLINK,
    /// Create a symbolic link; both names are trailing bytes.
    FUSE_SYMLINK,
    /// Create a device or special node; the name follows.
    FUSE_MKNOD,
    /// Create a directory; the name follows.
    FUSE_MKDIR,
    /// Remove a file; the name is the trailing bytes.
    FUSE_UNLINK,
    /// Remove a directory; the name is the trailing bytes.
    FUSE_RMDIR,
    /// Rename an entry; the two names follow.
    FUSE_RENAME,
    /// Create a hard link; the new name follows.
    FUSE_LINK,
    /// Open a file.
    FUSE_OPEN,
    /// Read from an open file.
    FUSE_READ,
    /// Write to an open file; the data follows.
    FUSE_WRITE,
    /// Get filesystem statistics.
    FUSE_STATFS,
    /// Release an open file.
    FUSE_RELEASE,
    /// Synchronize file contents.
    FUSE_FSYNC,
    /// Set an extended attribute; name and value follow.
    FUSE_SETXATTR,
    /// Get an extended attribute; the name follows.
    FUSE_GETXATTR,
    /// List extended attribute names; shares the get-attribute payload.
    FUSE_LISTXATTR,
    /// Remove an extended attribute; the name is the trailing bytes.
    FUSE_REMOVEXATTR,
    /// Flush an open file at close time.
    FUSE_FLUSH,
    /// Initialization exchange opening the session.
    FUSE_INIT,
    /// Open a directory; shares the open payload.
    FUSE_OPENDIR,
    /// Read directory entries; shares the read payload.
    FUSE_READDIR,
    /// Release an open directory; shares the release payload.
    FUSE_RELEASEDIR,
    /// Synchronize a directory; shares the fsync payload.
    FUSE_FSYNCDIR,
    /// Test for an advisory lock.
    FUSE_GETLK,
    /// Acquire or release an advisory lock without waiting.
    FUSE_SETLK,
    /// Acquire or release an advisory lock, waiting if needed.
    FUSE_SETLKW,
    /// Check access permissions.
    FUSE_ACCESS,
    /// Create and open a file; the name follows.
    FUSE_CREATE,
    /// Cancel an in-flight request by its correlation id.
    FUSE_INTERRUPT,
    /// Map a file block to a device block.
    FUSE_BMAP,
    /// Tear the session down; no payload in either direction.
    FUSE_DESTROY,
    /// Pass an ioctl through; argument bytes follow.
    FUSE_IOCTL,
    /// Poll an open file for readiness.
    FUSE_POLL,
    /// Kernel answer to a server-initiated notification; carries no reply.
    FUSE_NOTIFY_REPLY,
    /// Forget many inodes at once; the entries follow; carries no reply.
    FUSE_BATCH_FORGET,
    /// Preallocate or punch file space.
    FUSE_FALLOCATE,
    /// Read directory entries with attributes; shares the read payload.
    FUSE_READDIRPLUS,
    /// Rename with flags; the two names follow.
    FUSE_RENAME2,
    /// Find the next data or hole offset.
    FUSE_LSEEK,
    /// Copy a byte range between open files.
    FUSE_COPY_FILE_RANGE,
    /// Set up a direct memory mapping.
    FUSE_SETUPMAPPING,
    /// Remove direct memory mappings; the entries follow.
    FUSE_REMOVEMAPPING,
    /// Synchronize the whole filesystem.
    FUSE_SYNCFS,
    /// Create an unnamed temporary file; shares the create payload.
    FUSE_TMPFILE,
    /// Extended stat of an object.
    FUSE_STATX,
    /// Copy a byte range, 64-bit variant; shares the copy payload.
    FUSE_COPY_FILE_RANGE_64,
}

/// The numeric code of an operation.
pub open spec fn spec_opcode_code(op: fuse_opcode) -> u32 {
    match op {
        fuse_opcode::FUSE_LOOKUP => 1,
        fuse_opcode::FUSE_FORGET => 2,
        fuse_opcode::FUSE_GETATTR => 3,
        fuse_opcode::FUSE_SETATTR => 4,
        fuse_opcode::FUSE_READLINK => 5,
        fuse_opcode::FUSE_SYMLINK => 6,
        fuse_opcode::FUSE_MKNOD => 8,
        fuse_opcode::FUSE_MKDIR => 9,
        fuse_opcode::FUSE_UNLINK => 10,
        fuse_opcode::FUSE_RMDIR => 11,
        fuse_opcode::FUSE_RENAME => 12,
        fuse_opcode::FUSE_LINK => 13,
        fuse_opcode::FUSE_OPEN => 14,
        fuse_opcode::FUSE_READ => 15,
        fuse_opcode::FUSE_WRITE => 16,
        fuse_opcode::FUSE_STATFS => 17,
        fuse_opcode::FUSE_RELEASE => 18,
        fuse_opcode::FUSE_FSYNC => 20,
        fuse_opcode::FUSE_SETXATTR => 21,
        fuse_opcode::FUSE_GETXATTR => 22,
        fuse_opcode::FUSE_LISTXATTR => 23,
        fuse_opcode::FUSE_REMOVEXATTR => 24,
        fuse_opcode::FUSE_FLUSH => 25,
        fuse_opcode::FUSE_INIT => 26,
        fuse_opcode::FUSE_OPENDIR => 27,
        fuse_opcode::FUSE_READDIR => 28,
        fuse_opcode::FUSE_RELEASEDIR => 29,
        fuse_opcode::FUSE_FSYNCDIR => 30,
        fuse_opcode::FUSE_GETLK => 31,
        fuse_opcode::FUSE_SETLK => 32,
        fuse_opcode::FUSE_SETLKW => 33,
        fuse_opcode::FUSE_ACCESS => 34,
        fuse_opcode::FUSE_CREATE => 35,
        fuse_opcode::FUSE_INTERRUPT => 36,
        fuse_opcode::FUSE_BMAP => 37,
        fuse_opcode::FUSE_DESTROY => 38,
        fuse_opcode::FUSE_IOCTL => 39,
        fuse_opcode::FUSE_POLL => 40,
        fuse_opcode::FUSE_NOTIFY_REPLY => 41,
        fuse_opcode::FUSE_BATCH_FORGET => 42,
        fuse_opcode::FUSE_FALLOCATE => 43,
        fuse_opcode::FUSE_READDIRPLUS => 44,
        fuse_opcode::FUSE_RENAME2 => 45,
        fuse_opcode::FUSE_LSEEK => 46,
        fuse_opcode::FUSE_COPY_FILE_RANGE => 47,
        fuse_opcode::FUSE_SETUPMAPPING => 48,
        fuse_opcode::FUSE_REMOVEMAPPING => 49,
        fuse_opcode::FUSE_SYNCFS => 50,
        fuse_opcode::FUSE_TMPFILE => 51,
        fuse_opcode::FUSE_STATX => 52,
        fuse_opcode::FUSE_COPY_FILE_RANGE_64 => 53,
    }
}

/// The catalog entry for a numeric code: its operation, or nothing when the
/// code lies outside the enumeration (gap slots included).
pub open spec fn spec_opcode_of(v: u32) -> Option<fuse_opcode> {
    if v == 1 {
        Some(fuse_opcode::FUSE_LOOKUP)
    } else if v == 2 {
        Some(fuse_opcode::FUSE_FORGET)
    } else if v == 3 {
        Some(fuse_opcode::FUSE_GETATTR)
    } else if v == 4 {
        Some(fuse_opcode::FUSE_SETATTR)
    } else if v == 5 {
        Some(fuse_opcode::FUSE_READLINK)
    } else if v == 6 {
        Some(fuse_opcode::FUSE_SYMLINK)
    } else if v == 8 {
        Some(fuse_opcode::FUSE_MKNOD)
    } else if v == 9 {
        Some(fuse_opcode::FUSE_MKDIR)
    } else if v == 10 {
        Some(fuse_opcode::FUSE_UNLINK)
    } else if v == 11 {
        Some(fuse_opcode::FUSE_RMDIR)
    } else if v == 12 {
        Some(fuse_opcode::FUSE_RENAME)
    } else if v == 13 {
        Some(fuse_opcode::FUSE_LINK)
    } else if v == 14 {
        Some(fuse_opcode::FUSE_OPEN)
    } else if v == 15 {
        Some(fuse_opcode::FUSE_READ)
    } else if v == 16 {
        Some(fuse_opcode::FUSE_WRITE)
    } else if v == 17 {
        Some(fuse_opcode::FUSE_STATFS)
    } else if v == 18 {
        Some(fuse_opcode::FUSE_RELEASE)
    } else if v == 20 {
        Some(fuse_opcode::FUSE_FSYNC)
    } else if v == 21 {
        Some(fuse_opcode::FUSE_SETXATTR)
    } else if v == 22 {
        Some(fuse_opcode::FUSE_GETXATTR)
    } else if v == 23 {
        Some(fuse_opcode::FUSE_LISTXATTR)
    } else if v == 24 {
        Some(fuse_opcode::FUSE_REMOVEXATTR)
    } else if v == 25 {
        Some(fuse_opcode::FUSE_FLUSH)
    } else if v == 26 {
        Some(fuse_opcode::FUSE_INIT)
    } else if v == 27 {
        Some(fuse_opcode::FUSE_OPENDIR)
    } else if v == 28 {
        Some(fuse_opcode::FUSE_READDIR)
    } else if v == 29 {
        Some(fuse_opcode::FUSE_RELEASEDIR)
    } else if v == 30 {
        Some(fuse_opcode::FUSE_FSYNCDIR)
    } else if v == 31 {
        Some(fuse_opcode::FUSE_GETLK)
    } else if v == 32 {
        Some(fuse_opcode::FUSE_SETLK)
    } else if v == 33 {
        Some(fuse_opcode::FUSE_SETLKW)
    } else if v == 34 {
        Some(fuse_opcode::FUSE_ACCESS)
    } else if v == 35 {
        Some(fuse_opcode::FUSE_CREATE)
    } else if v == 36 {
        Some(fuse_opcode::FUSE_INTERRUPT)
    } else if v == 37 {
        Some(fuse_opcode::FUSE_BMAP)
    } else if v == 38 {
        Some(fuse_opcode::FUSE_DESTROY)
    } else if v == 39 {
        Some(fuse_opcode::FUSE_IOCTL)
    } else if v == 40 {
        Some(fuse_opcode::FUSE_POLL)
    } else if v == 41 {
        Some(fuse_opcode::FUSE_NOTIFY_REPLY)
    } else if v == 42 {
        Some(fuse_opcode::FUSE_BATCH_FORGET)
    } else if v == 43 {
        Some(fuse_opcode::FUSE_FALLOCATE)
    } else if v == 44 {
        Some(fuse_opcode::FUSE_READDIRPLUS)
    } else if v == 45 {
        Some(fuse_opcode::FUSE_RENAME2)
    } else if v == 46 {
        Some(fuse_opcode::FUSE_LSEEK)
    } else if v == 47 {
        Some(fuse_opcode::FUSE_COPY_FILE_RANGE)
    } else if v == 48 {
        Some(fuse_opcode::FUSE_SETUPMAPPING)
    } else if v == 49 {
        Some(fuse_opcode::FUSE_REMOVEMAPPING)
    } else if v == 50 {
        Some(fuse_opcode::FUSE_SYNCFS)
    } else if v == 51 {
        Some(fuse_opcode::FUSE_TMPFILE)
    } else if v == 52 {
        Some(fuse_opcode::FUSE_STATX)
    } else if v == 53 {
        Some(fuse_opcode::FUSE_COPY_FILE_RANGE_64)
    } else {
        None
    }
}

/// Byte size of the fixed request payload that follows the header.
pub open spec fn spec_request_body_len(op: fuse_opcode) -> nat {
    match op {
        fuse_opcode::FUSE_LOOKUP => 0,
        fuse_opcode::FUSE_FORGET => 8,
        fuse_opcode::FUSE_GETATTR => 16,
        fuse_opcode::FUSE_SETATTR => 88,
        fuse_opcode::FUSE_READLINK => 0,
        fuse_opcode::FUSE_SYMLINK => 0,
        fuse_opcode::FUSE_MKNOD => 16,
        fuse_opcode::FUSE_MKDIR => 8,
        fuse_opcode::FUSE_UNLINK => 0,
        fuse_opcode::FUSE_RMDIR => 0,
        fuse_opcode::FUSE_RENAME => 8,
        fuse_opcode::FUSE_LINK => 8,
        fuse_opcode::FUSE_OPEN => 8,
        fuse_opcode::FUSE_READ => 40,
        fuse_opcode::FUSE_WRITE => 40,
        fuse_opcode::FUSE_STATFS => 0,
        fuse_opcode::FUSE_RELEASE => 24,
        fuse_opcode::FUSE_FSYNC => 16,
        fuse_opcode::FUSE_SETXATTR => 16,
        fuse_opcode::FUSE_GETXATTR => 8,
        fuse_opcode::FUSE_LISTXATTR => 8,
        fuse_opcode::FUSE_REMOVEXATTR => 0,
        fuse_opcode::FUSE_FLUSH => 24,
        fuse_opcode::FUSE_INIT => 64,
        fuse_opcode::FUSE_OPENDIR => 8,
        fuse_opcode::FUSE_READDIR => 40,
        fuse_opcode::FUSE_RELEASEDIR => 24,
        fuse_opcode::FUSE_FSYNCDIR => 16,
        fuse_opcode::FUSE_GETLK => 48,
        fuse_opcode::FUSE_SETLK => 48,
        fuse_opcode::FUSE_SETLKW => 48,
        fuse_opcode::FUSE_ACCESS => 8,
        fuse_opcode::FUSE_CREATE => 16,
        fuse_opcode::FUSE_INTERRUPT => 8,
        fuse_opcode::FUSE_BMAP => 16,
        fuse_opcode::FUSE_DESTROY => 0,
        fuse_opcode::FUSE_IOCTL => 32,
        fuse_opcode::FUSE_POLL => 24,
        fuse_opcode::FUSE_NOTIFY_REPLY => 0,
        fuse_opcode::FUSE_BATCH_FORGET => 8,
        fuse_opcode::FUSE_FALLOCATE => 32,
        fuse_opcode::FUSE_READDIRPLUS => 40,
        fuse_opcode::FUSE_RENAME2 => 16,
        fuse_opcode::FUSE_LSEEK => 24,
        fuse_opcode::FUSE_COPY_FILE_RANGE => 56,
        fuse_opcode::FUSE_SETUPMAPPING => 40,
        fuse_opcode::FUSE_REMOVEMAPPING => 4,
        fuse_opcode::FUSE_SYNCFS => 8,
        fuse_opcode::FUSE_TMPFILE => 16,
        fuse_opcode::FUSE_STATX => 24,
        fuse_opcode::FUSE_COPY_FILE_RANGE_64 => 56,
    }
}

/// Whether the kernel expects a reply frame for this operation.
pub open spec fn spec_has_reply(op: fuse_opcode) -> bool {
    match op {
        fuse_opcode::FUSE_LOOKUP => true,
        fuse_opcode::FUSE_FORGET => false,
        fuse_opcode::FUSE_GETATTR => true,
        fuse_opcode::FUSE_SETATTR => true,
        fuse_opcode::FUSE_READLINK => true,
        fuse_opcode::FUSE_SYMLINK => true,
        fuse_opcode::FUSE_MKNOD => true,
        fuse_opcode::FUSE_MKDIR => true,
        fuse_opcode::FUSE_UNLINK => true,
        fuse_opcode::FUSE_RMDIR => true,
        fuse_opcode::FUSE_RENAME => true,
        fuse_opcode::FUSE_LINK => true,
        fuse_opcode::FUSE_OPEN => true,
        fuse_opcode::FUSE_READ => true,
        fuse_opcode::FUSE_WRITE => true,
        fuse_opcode::FUSE_STATFS => true,
        fuse_opcode::FUSE_RELEASE => true,
        fuse_opcode::FUSE_FSYNC => true,
        fuse_opcode::FUSE_SETXATTR => true,
        fuse_opcode::FUSE_GETXATTR => true,
        fuse_opcode::FUSE_LISTXATTR => true,
        fuse_opcode::FUSE_REMOVEXATTR => true,
        fuse_opcode::FUSE_FLUSH => true,
        fuse_opcode::FUSE_INIT => true,
        fuse_opcode::FUSE_OPENDIR => true,
        fuse_opcode::FUSE_READDIR => true,
        fuse_opcode::FUSE_RELEASEDIR => true,
        fuse_opcode::FUSE_FSYNCDIR => true,
        fuse_opcode::FUSE_GETLK => true,
        fuse_opcode::FUSE_SETLK => true,
        fuse_opcode::FUSE_SETLKW => true,
        fuse_opcode::FUSE_ACCESS => true,
        fuse_opcode::FUSE_CREATE => true,
        fuse_opcode::FUSE_INTERRUPT => true,
        fuse_opcode::FUSE_BMAP => true,
        fuse_opcode::FUSE_DESTROY => true,
        fuse_opcode::FUSE_IOCTL => true,
        fuse_opcode::FUSE_POLL => true,
        fuse_opcode::FUSE_NOTIFY_REPLY => false,
        fuse_opcode::FUSE_BATCH_FORGET => false,
        fuse_opcode::FUSE_FALLOCATE => true,
        fuse_opcode::FUSE_READDIRPLUS => true,
        fuse_opcode::FUSE_RENAME2 => true,
        fuse_opcode::FUSE_LSEEK => true,
        fuse_opcode::FUSE_COPY_FILE_RANGE => true,
        fuse_opcode::FUSE_SETUPMAPPING => true,
        fuse_opcode::FUSE_REMOVEMAPPING => true,
        fuse_opcode::FUSE_SYNCFS => true,
        fuse_opcode::FUSE_TMPFILE => true,
        fuse_opcode::FUSE_STATX => true,
        fuse_opcode::FUSE_COPY_FILE_RANGE_64 => true,
    }
}

/// The numeric code of an operation.
pub fn opcode_code(op: fuse_opcode) -> (r: u32)
    ensures
        r == spec_opcode_code(op),
{
    match op {
        fuse_opcode::FUSE_LOOKUP => 1,
        fuse_opcode::FUSE_FORGET => 2,
        fuse_opcode::FUSE_GETATTR => 3,
        fuse_opcode::FUSE_SETATTR => 4,
        fuse_opcode::FUSE_READLINK => 5,
        fuse_opcode::FUSE_SYMLINK => 6,
        fuse_opcode::FUSE_MKNOD => 8,
        fuse_opcode::FUSE_MKDIR => 9,
        fuse_opcode::FUSE_UNLINK => 10,
        fuse_opcode::FUSE_RMDIR => 11,
        fuse_opcode::FUSE_RENAME => 12,
        fuse_opcode::FUSE_LINK => 13,
        fuse_opcode::FUSE_OPEN => 14,
        fuse_opcode::FUSE_READ => 15,
        fuse_opcode::FUSE_WRITE => 16,
        fuse_opcode::FUSE_STATFS => 17,
        fuse_opcode::FUSE_RELEASE => 18,
        fuse_opcode::FUSE_FSYNC => 20,
        fuse_opcode::FUSE_SETXATTR => 21,
        fuse_opcode::FUSE_GETXATTR => 22,
        fuse_opcode::FUSE_LISTXATTR => 23,
        fuse_opcode::FUSE_REMOVEXATTR => 24,
        fuse_opcode::FUSE_FLUSH => 25,
        fuse_opcode::FUSE_INIT => 26,
        fuse_opcode::FUSE_OPENDIR => 27,
        fuse_opcode::FUSE_READDIR => 28,
        fuse_opcode::FUSE_RELEASEDIR => 29,
        fuse_opcode::FUSE_FSYNCDIR => 30,
        fuse_opcode::FUSE_GETLK => 31,
        fuse_opcode::FUSE_SETLK => 32,
        fuse_opcode::FUSE_SETLKW => 33,
        fuse_opcode::FUSE_ACCESS => 34,
        fuse_opcode::FUSE_CREATE => 35,
        fuse_opcode::FUSE_INTERRUPT => 36,
        fuse_opcode::FUSE_BMAP => 37,
        fuse_opcode::FUSE_DESTROY => 38,
        fuse_opcode::FUSE_IOCTL => 39,
        fuse_opcode::FUSE_POLL => 40,
        fuse_opcode::FUSE_NOTIFY_REPLY => 41,
        fuse_opcode::FUSE_BATCH_FORGET => 42,
        fuse_opcode::FUSE_FALLOCATE => 43,
        fuse_opcode::FUSE_READDIRPLUS => 44,
        fuse_opcode::FUSE_RENAME2 => 45,
        fuse_opcode::FUSE_LSEEK => 46,
        fuse_opcode::FUSE_COPY_FILE_RANGE => 47,
        fuse_opcode::FUSE_SETUPMAPPING => 48,
        fuse_opcode::FUSE_REMOVEMAPPING => 49,
        fuse_opcode::FUSE_SYNCFS => 50,
        fuse_opcode::FUSE_TMPFILE => 51,
        fuse_opcode::FUSE_STATX => 52,
        fuse_opcode::FUSE_COPY_FILE_RANGE_64 => 53,
    }
}

/// Looks a numeric code up in the catalog. Codes outside the enumeration,
/// the never-assigned gap slots among them, yield `None`.
pub fn opcode_from_u32(v: u32) -> (r: Option<fuse_opcode>)
    ensures
        r == spec_opcode_of(v),
{
    if v == 1 {
        Some(fuse_opcode::FUSE_LOOKUP)
    } else if v == 2 {
        Some(fuse_opcode::FUSE_FORGET)
    } else if v == 3 {
        Some(fuse_opcode::FUSE_GETATTR)
    } else if v == 4 {
        Some(fuse_opcode::FUSE_SETATTR)
    } else if v == 5 {
        Some(fuse_opcode::FUSE_READLINK)
    } else if v == 6 {
        Some(fuse_opcode::FUSE_SYMLINK)
    } else if v == 8 {
        Some(fuse_opcode::FUSE_MKNOD)
    } else if v == 9 {
        Some(fuse_opcode::FUSE_MKDIR)
    } else if v == 10 {
        Some(fuse_opcode::FUSE_UNLINK)
    } else if v == 11 {
        Some(fuse_opcode::FUSE_RMDIR)
    } else if v == 12 {
        Some(fuse_opcode::FUSE_RENAME)
    } else if v == 13 {
        Some(fuse_opcode::FUSE_LINK)
    } else if v == 14 {
        Some(fuse_opcode::FUSE_OPEN)
    } else if v == 15 {
        Some(fuse_opcode::FUSE_READ)
    } else if v == 16 {
        Some(fuse_opcode::FUSE_WRITE)
    } else if v == 17 {
        Some(fuse_opcode::FUSE_STATFS)
    } else if v == 18 {
        Some(fuse_opcode::FUSE_RELEASE)
    } else if v == 20 {
        Some(fuse_opcode::FUSE_FSYNC)
    } else if v == 21 {
        Some(fuse_opcode::FUSE_SETXATTR)
    } else if v == 22 {
        Some(fuse_opcode::FUSE_GETXATTR)
    } else if v == 23 {
        Some(fuse_opcode::FUSE_LISTXATTR)
    } else if v == 24 {
        Some(fuse_opcode::FUSE_REMOVEXATTR)
    } else if v == 25 {
        Some(fuse_opcode::FUSE_FLUSH)
    } else if v == 26 {
        Some(fuse_opcode::FUSE_INIT)
    } else if v == 27 {
        Some(fuse_opcode::FUSE_OPENDIR)
    } else if v == 28 {
        Some(fuse_opcode::FUSE_READDIR)
    } else if v == 29 {
        Some(fuse_opcode::FUSE_RELEASEDIR)
    } else if v == 30 {
        Some(fuse_opcode::FUSE_FSYNCDIR)
    } else if v == 31 {
        Some(fuse_opcode::FUSE_GETLK)
    } else if v == 32 {
        Some(fuse_opcode::FUSE_SETLK)
    } else if v == 33 {
        Some(fuse_opcode::FUSE_SETLKW)
    } else if v == 34 {
        Some(fuse_opcode::FUSE_ACCESS)
    } else if v == 35 {
        Some(fuse_opcode::FUSE_CREATE)
    } else if v == 36 {
        Some(fuse_opcode::FUSE_INTERRUPT)
    } else if v == 37 {
        Some(fuse_opcode::FUSE_BMAP)
    } else if v == 38 {
        Some(fuse_opcode::FUSE_DESTROY)
    } else if v == 39 {
        Some(fuse_opcode::FUSE_IOCTL)
    } else if v == 40 {
        Some(fuse_opcode::FUSE_POLL)
    } else if v == 41 {
        Some(fuse_opcode::FUSE_NOTIFY_REPLY)
    } else if v == 42 {
        Some(fuse_opcode::FUSE_BATCH_FORGET)
    } else if v == 43 {
        Some(fuse_opcode::FUSE_FALLOCATE)
    } else if v == 44 {
        Some(fuse_opcode::FUSE_READDIRPLUS)
    } else if v == 45 {
        Some(fuse_opcode::FUSE_RENAME2)
    } else if v == 46 {
        Some(fuse_opcode::FUSE_LSEEK)
    } else if v == 47 {
        Some(fuse_opcode::FUSE_COPY_FILE_RANGE)
    } else if v == 48 {
        Some(fuse_opcode::FUSE_SETUPMAPPING)
    } else if v == 49 {
        Some(fuse_opcode::FUSE_REMOVEMAPPING)
    } else if v == 50 {
        Some(fuse_opcode::FUSE_SYNCFS)
    } else if v == 51 {
        Some(fuse_opcode::FUSE_TMPFILE)
    } else if v == 52 {
        Some(fuse_opcode::FUSE_STATX)
    } else if v == 53 {
        Some(fuse_opcode::FUSE_COPY_FILE_RANGE_64)
    } else {
        None
    }
}

/// Byte size of the fixed request payload that follows the header.
pub fn request_body_len(op: fuse_opcode) -> (r: usize)
    ensures
        r as nat == spec_request_body_len(op),
{
    match op {
        fuse_opcode::FUSE_LOOKUP => 0,
        fuse_opcode::FUSE_FORGET => 8,
        fuse_opcode::FUSE_GETATTR => 16,
        fuse_opcode::FUSE_SETATTR => 88,
        fuse_opcode::FUSE_READLINK => 0,
        fuse_opcode::FUSE_SYMLINK => 0,
        fuse_opcode::FUSE_MKNOD => 16,
        fuse_opcode::FUSE_MKDIR => 8,
        fuse_opcode::FUSE_UNLINK => 0,
        fuse_opcode::FUSE_RMDIR => 0,
        fuse_opcode::FUSE_RENAME => 8,
        fuse_opcode::FUSE_LINK => 8,
        fuse_opcode::FUSE_OPEN => 8,
        fuse_opcode::FUSE_READ => 40,
        fuse_opcode::FUSE_WRITE => 40,
        fuse_opcode::FUSE_STATFS => 0,
        fuse_opcode::FUSE_RELEASE => 24,
        fuse_opcode::FUSE_FSYNC => 16,
        fuse_opcode::FUSE_SETXATTR => 16,
        fuse_opcode::FUSE_GETXATTR => 8,
        fuse_opcode::FUSE_LISTXATTR => 8,
        fuse_opcode::FUSE_REMOVEXATTR => 0,
        fuse_opcode::FUSE_FLUSH => 24,
        fuse_opcode::FUSE_INIT => 64,
        fuse_opcode::FUSE_OPENDIR => 8,
        fuse_opcode::FUSE_READDIR => 40,
        fuse_opcode::FUSE_RELEASEDIR => 24,
        fuse_opcode::FUSE_FSYNCDIR => 16,
        fuse_opcode::FUSE_GETLK => 48,
        fuse_opcode::FUSE_SETLK => 48,
        fuse_opcode::FUSE_SETLKW => 48,
        fuse_opcode::FUSE_ACCESS => 8,
        fuse_opcode::FUSE_CREATE => 16,
        fuse_opcode::FUSE_INTERRUPT => 8,
        fuse_opcode::FUSE_BMAP => 16,
        fuse_opcode::FUSE_DESTROY => 0,
        fuse_opcode::FUSE_IOCTL => 32,
        fuse_opcode::FUSE_POLL => 24,
        fuse_opcode::FUSE_NOTIFY_REPLY => 0,
        fuse_opcode::FUSE_BATCH_FORGET => 8,
        fuse_opcode::FUSE_FALLOCATE => 32,
        fuse_opcode::FUSE_READDIRPLUS => 40,
        fuse_opcode::FUSE_RENAME2 => 16,
        fuse_opcode::FUSE_LSEEK => 24,
        fuse_opcode::FUSE_COPY_FILE_RANGE => 56,
        fuse_opcode::FUSE_SETUPMAPPING => 40,
        fuse_opcode::FUSE_REMOVEMAPPING => 4,
        fuse_opcode::FUSE_SYNCFS => 8,
        fuse_opcode::FUSE_TMPFILE => 16,
        fuse_opcode::FUSE_STATX => 24,
        fuse_opcode::FUSE_COPY_FILE_RANGE_64 => 56,
    }
}

/// Whether the kernel expects a reply frame for this operation.
pub fn has_reply(op: fuse_opcode) -> (r: bool)
    ensures
        r == spec_has_reply(op),
{
    !matches!(op, fuse_opcode::FUSE_FORGET | fuse_opcode::FUSE_NOTIFY_REPLY | fuse_opcode::FUSE_BATCH_FORGET)
}

/// Every operation's code looks itself up: the catalog has no duplicate
/// numeric codes and no operation outside its own slot.
pub proof fn lemma_opcode_round_trip(op: fuse_opcode)
    ensures
        spec_opcode_of(spec_opcode_code(op)) == Some(op),
{
}

} // verus!
