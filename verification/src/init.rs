//! Capability negotiation: the initialization exchange that fixes the
//! protocol version and feature subset for the rest of the session.
//!
//! The kernel offers its version and two capability words; the reply carries
//! the common minor version, the bitwise intersection of the offered and
//! server-supported capabilities, and server-chosen tunables. A feature is
//! never reported enabled unless both sides agree, and a word the server
//! does not recognize at all never appears enabled in the reply. A major
//! version mismatch is fatal to the mount: negotiation cannot proceed.

use crate::flags::{
    FUSE_ASYNC_READ, FUSE_ATOMIC_O_TRUNC, FUSE_BIG_WRITES, FUSE_DIRECT_IO_ALLOW_MMAP,
    FUSE_DO_READDIRPLUS, FUSE_INIT_EXT, FUSE_MAX_PAGES, FUSE_PARALLEL_DIROPS, FUSE_SECURITY_CTX,
};
use crate::padding::Padding;
use crate::records::{fuse_init_in, fuse_init_out, WireRecord};
use crate::wire::zero_seq;
use crate::{FUSE_KERNEL_MINOR_VERSION, FUSE_KERNEL_VERSION};
use vstd::prelude::*;

verus! {

/// First capability word this server implementation supports.
pub const SUPPORTED_INIT_FLAGS: u32 = FUSE_ASYNC_READ | FUSE_ATOMIC_O_TRUNC | FUSE_BIG_WRITES
    | FUSE_DO_READDIRPLUS | FUSE_PARALLEL_DIROPS | FUSE_MAX_PAGES | FUSE_INIT_EXT;

/// Second capability word this server implementation supports.
pub const SUPPORTED_INIT_FLAGS2: u32 = FUSE_SECURITY_CTX | FUSE_DIRECT_IO_ALLOW_MMAP;

/// Server-chosen bound on queued background requests.
pub const DEFAULT_MAX_BACKGROUND: u16 = 12;

/// Server-chosen congestion threshold on background requests.
pub const DEFAULT_CONGESTION_THRESHOLD: u16 = 9;

/// Server-chosen bound on the size of a single write.
pub const DEFAULT_MAX_WRITE: u32 = 131072;

/// Server-chosen timestamp granularity, in nanoseconds.
pub const DEFAULT_TIME_GRAN: u32 = 1;

/// Server-chosen bound on pages per request.
pub const DEFAULT_MAX_PAGES: u16 = 32;

/// Server-chosen mapping alignment answer.
pub const DEFAULT_MAX_ALIGNMENT: u16 = 0;

/// Server-chosen stack depth for passthrough backing files.
pub const DEFAULT_MAX_STACK_DEPTH: u32 = 0;

/// Server-chosen request timeout answer (zero: none enforced).
pub const DEFAULT_REQUEST_TIMEOUT: u16 = 0;

/// Why negotiation must fail the mount.
#[derive(Debug, Clone, Copy, PartialEq, Eq, Structural)]
pub enum InitError {
    /// The kernel speaks a different major protocol revision; there is no
    /// common dialect, and the condition is fatal rather than retryable.
    MajorMismatch { kernel_major: u32 },
}

/// The reply `out` is the negotiated session for the accepted request
/// `req`: common major, minimum minor, intersected capability words,
/// echoed read-ahead ceiling, server-chosen tunables, zeroed reserve.
pub open spec fn spec_init_ok(req: fuse_init_in, out: fuse_init_out) -> bool {
    &&& req.major == FUSE_KERNEL_VERSION
    &&& out.major == FUSE_KERNEL_VERSION
    &&& out.minor == if req.minor <= FUSE_KERNEL_MINOR_VERSION {
        req.minor
    } else {
        FUSE_KERNEL_MINOR_VERSION
    }
    &&& out.max_readahead == req.max_readahead
    &&& out.flags == req.flags & SUPPORTED_INIT_FLAGS
    &&& out.flags2 == req.flags2 & SUPPORTED_INIT_FLAGS2
    &&& out.max_background == DEFAULT_MAX_BACKGROUND
    &&& out.congestion_threshold == DEFAULT_CONGESTION_THRESHOLD
    &&& out.max_write == DEFAULT_MAX_WRITE
    &&& out.time_gran == DEFAULT_TIME_GRAN
    &&& out.max_pages == DEFAULT_MAX_PAGES
    &&& out.max_alignment == DEFAULT_MAX_ALIGNMENT
    &&& out.max_stack_depth == DEFAULT_MAX_STACK_DEPTH
    &&& out.request_timeout == DEFAULT_REQUEST_TIMEOUT
    &&& out.unused.spec_bytes() == zero_seq(22)
    &&& out.wf()
}

/// Negotiates the session parameters for an initialization request.
///
/// Succeeds exactly when the kernel's major version equals the server's;
/// the reply then satisfies `spec_init_ok`. Negotiation itself never fails
/// for any other reason: the inputs are all plain words.
pub fn negotiate_init(req: &fuse_init_in) -> (r: Result<fuse_init_out, InitError>)
    ensures
        r is Ok <==> req.major == FUSE_KERNEL_VERSION,
        match r {
            Ok(out) => spec_init_ok(*req, out),
            Err(e) => e == (InitError::MajorMismatch { kernel_major: req.major }),
        },
{
    if req.major != FUSE_KERNEL_VERSION {
        return Err(InitError::MajorMismatch { kernel_major: req.major });
    }
    let minor = if req.minor <= FUSE_KERNEL_MINOR_VERSION {
        req.minor
    } else {
        FUSE_KERNEL_MINOR_VERSION
    };
    Ok(
        fuse_init_out {
            major: FUSE_KERNEL_VERSION,
            minor,
            max_readahead: req.max_readahead,
            flags: req.flags & SUPPORTED_INIT_FLAGS,
            max_background: DEFAULT_MAX_BACKGROUND,
            congestion_threshold: DEFAULT_CONGESTION_THRESHOLD,
            max_write: DEFAULT_MAX_WRITE,
            time_gran: DEFAULT_TIME_GRAN,
            max_pages: DEFAULT_MAX_PAGES,
            max_alignment: DEFAULT_MAX_ALIGNMENT,
            flags2: req.flags2 & SUPPORTED_INIT_FLAGS2,
            max_stack_depth: DEFAULT_MAX_STACK_DEPTH,
            request_timeout: DEFAULT_REQUEST_TIMEOUT,
            unused: Padding::new(),
        },
    )
}

/// Negotiation law: each returned capability word is a bitwise subset both
/// of what the kernel requested and of what the server supports — so a bit
/// the server does not recognize never appears enabled — and the negotiated
/// minor version never exceeds either side's offer.
pub proof fn lemma_negotiation_subset(req: fuse_init_in, out: fuse_init_out)
    requires
        spec_init_ok(req, out),
    ensures
        out.flags & req.flags == out.flags,
        out.flags & SUPPORTED_INIT_FLAGS == out.flags,
        out.flags2 & req.flags2 == out.flags2,
        out.flags2 & SUPPORTED_INIT_FLAGS2 == out.flags2,
        out.minor <= req.minor,
        out.minor <= FUSE_KERNEL_MINOR_VERSION,
{
    let a = req.flags;
    let s = SUPPORTED_INIT_FLAGS;
    assert((a & s) & a == (a & s) && (a & s) & s == (a & s)) by (bit_vector);
    let a2 = req.flags2;
    let s2 = SUPPORTED_INIT_FLAGS2;
    assert((a2 & s2) & a2 == (a2 & s2) && (a2 & s2) & s2 == (a2 & s2)) by (bit_vector);
}

} // verus!
