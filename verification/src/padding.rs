//! Reserved regions of fixed-layout records.
//!
//! The kernel requires reserved fields of outbound records to be zero-filled.
//! `Padding::new` is the one ordinary constructor and yields exactly that;
//! `Padding::with_nonzero` is the deliberate, clearly marked escape hatch for
//! a reserved field whose meaning is later given by a newer protocol
//! revision. Inbound reserved bytes are carried as read, never rejected.

use crate::wire::{copy_bytes, push_slice, zero_bytes, zero_seq};
use vstd::prelude::*;

verus! {

/// A reserved region of `N` bytes inside a fixed-layout record.
#[derive(Debug, Clone, PartialEq, Eq)]
pub struct Padding<const N: usize> {
    bytes: Vec<u8>,
}

impl<const N: usize> Padding<N> {
    /// The bytes this region serializes as.
    pub closed spec fn spec_bytes(self) -> Seq<u8> {
        self.bytes@
    }

    /// The region carries exactly `N` bytes.
    pub open spec fn wf(self) -> bool {
        self.spec_bytes().len() == N
    }

    /// The all-zero reserved region: what every outbound record carries
    /// unless the escape hatch is used.
    pub fn new() -> (r: Self)
        ensures
            r.wf(),
            r.spec_bytes() == zero_seq(N as nat),
    {
        Padding { bytes: zero_bytes(N) }
    }

    /// Escape hatch: a reserved region with explicitly chosen contents, for a
    /// field whose reserved status a later protocol revision lifts. The
    /// caller takes responsibility for the value.
    pub fn with_nonzero(value: Vec<u8>) -> (r: Self)
        requires
            value@.len() == N,
        ensures
            r.wf(),
            r.spec_bytes() == value@,
    {
        Padding { bytes: value }
    }

    /// Reads the `N`-byte region at byte offset `off` of `b`, keeping the
    /// bytes exactly as they came (nonzero inbound padding is tolerated).
    pub fn decode(b: &[u8], off: usize) -> (r: Self)
        requires
            off + N <= b@.len(),
        ensures
            r.wf(),
            r.spec_bytes() == b@.subrange(off as int, off + N),
    {
        Padding { bytes: copy_bytes(b, off, N) }
    }

    /// Appends the region's bytes to `out`.
    pub fn append_to(&self, out: &mut Vec<u8>)
        ensures
            final(out)@ == old(out)@ + self.spec_bytes(),
    {
        push_slice(out, self.bytes.as_slice());
    }
}

/// The zero-padding law: a reserved region whose bytes are the all-zero run
/// — what `new` and `default` yield, and the only contents reachable
/// without the `with_nonzero` escape hatch — serializes every one of its
/// bytes as zero.
pub proof fn lemma_zero_padding_serializes_zero<const N: usize>(p: Padding<N>)
    requires
        p.spec_bytes() == zero_seq(N as nat),
    ensures
        forall|i: int| 0 <= i < p.spec_bytes().len() ==> p.spec_bytes()[i] == 0,
{
}

impl<const N: usize> Default for Padding<N> {
    /// Defaults to the all-zero region, like `new`.
    fn default() -> (r: Self)
        ensures
            r.wf(),
            r.spec_bytes() == zero_seq(N as nat),
    {
        Padding::new()
    }
}

} // verus!
