//! Byte-level primitives shared by every record codec: little-endian reads
//! out of a borrowed buffer and little-endian appends onto an output vector.
//!
//! The protocol is exchanged in the host's native byte order; this crate
//! assumes a little-endian host, stated once here as a platform assumption.

pub use vstd::bytes::{
    spec_u16_from_le_bytes, spec_u16_to_le_bytes, spec_u32_from_le_bytes, spec_u32_to_le_bytes,
    spec_u64_from_le_bytes, spec_u64_to_le_bytes,
};

use vstd::bytes::{
    u16_from_le_bytes, u16_to_le_bytes, u32_from_le_bytes, u32_to_le_bytes, u64_from_le_bytes,
    u64_to_le_bytes,
};
use vstd::bytes::{
    lemma_auto_spec_u16_to_from_le_bytes, lemma_auto_spec_u32_to_from_le_bytes,
    lemma_auto_spec_u64_to_from_le_bytes,
};
use vstd::prelude::*;
use vstd::slice::{slice_subrange, slice_to_vec};

verus! {

/// A run of `n` zero bytes.
pub open spec fn zero_seq(n: nat) -> Seq<u8> {
    Seq::new(n, |i: int| 0u8)
}

/// Little-endian image of a signed 32-bit value: the image of its bit pattern.
pub open spec fn spec_i32_to_le_bytes(x: i32) -> Seq<u8> {
    spec_u32_to_le_bytes(x as u32)
}

/// Signed 32-bit value read back from its little-endian bit pattern.
pub open spec fn spec_i32_from_le_bytes(s: Seq<u8>) -> i32
    recommends
        s.len() == 4,
{
    spec_u32_from_le_bytes(s) as i32
}

/// Gathers the two-directional round-trip facts for every width used on the
/// wire, so record proofs can pull them all in with one call.
pub proof fn le_bytes_facts()
    ensures
        forall|x: u16|
            {
                &&& (#[trigger] spec_u16_to_le_bytes(x)).len() == 2
                &&& spec_u16_from_le_bytes(spec_u16_to_le_bytes(x)) == x
            },
        forall|s: Seq<u8>|
            s.len() == 2 ==> #[trigger] spec_u16_to_le_bytes(spec_u16_from_le_bytes(s)) == s,
        forall|x: u32|
            {
                &&& (#[trigger] spec_u32_to_le_bytes(x)).len() == 4
                &&& spec_u32_from_le_bytes(spec_u32_to_le_bytes(x)) == x
            },
        forall|s: Seq<u8>|
            s.len() == 4 ==> #[trigger] spec_u32_to_le_bytes(spec_u32_from_le_bytes(s)) == s,
        forall|x: u64|
            {
                &&& (#[trigger] spec_u64_to_le_bytes(x)).len() == 8
                &&& spec_u64_from_le_bytes(spec_u64_to_le_bytes(x)) == x
            },
        forall|s: Seq<u8>|
            s.len() == 8 ==> #[trigger] spec_u64_to_le_bytes(spec_u64_from_le_bytes(s)) == s,
        forall|x: i32| spec_i32_from_le_bytes(#[trigger] spec_i32_to_le_bytes(x)) == x,
{
    lemma_auto_spec_u16_to_from_le_bytes();
    lemma_auto_spec_u32_to_from_le_bytes();
    lemma_auto_spec_u64_to_from_le_bytes();
    assert forall|x: i32| spec_i32_from_le_bytes(#[trigger] spec_i32_to_le_bytes(x)) == x by {
        lemma_auto_spec_u32_to_from_le_bytes();
        let y: u32 = x as u32;
        assert(spec_u32_to_le_bytes(y).len() == 4);
        assert(spec_u32_from_le_bytes(spec_u32_to_le_bytes(y)) == y);
        assert(y as i32 == x) by (bit_vector)
            requires
                y == x as u32,
        ;
    }
}

/// Reads the 16-bit little-endian value at byte offset `off`.
pub fn read_u16(b: &[u8], off: usize) -> (r: u16)
    requires
        off + 2 <= b@.len(),
    ensures
        r == spec_u16_from_le_bytes(b@.subrange(off as int, off + 2)),
{
    let _n: usize = b.len();
    u16_from_le_bytes(slice_subrange(b, off, off + 2))
}

/// Reads the 32-bit little-endian value at byte offset `off`.
pub fn read_u32(b: &[u8], off: usize) -> (r: u32)
    requires
        off + 4 <= b@.len(),
    ensures
        r == spec_u32_from_le_bytes(b@.subrange(off as int, off + 4)),
{
    let _n: usize = b.len();
    u32_from_le_bytes(slice_subrange(b, off, off + 4))
}

/// Reads the 64-bit little-endian value at byte offset `off`.
pub fn read_u64(b: &[u8], off: usize) -> (r: u64)
    requires
        off + 8 <= b@.len(),
    ensures
        r == spec_u64_from_le_bytes(b@.subrange(off as int, off + 8)),
{
    let _n: usize = b.len();
    u64_from_le_bytes(slice_subrange(b, off, off + 8))
}

/// Reads the signed 32-bit value at byte offset `off`.
pub fn read_i32(b: &[u8], off: usize) -> (r: i32)
    requires
        off + 4 <= b@.len(),
    ensures
        r == spec_i32_from_le_bytes(b@.subrange(off as int, off + 4)),
{
    let _n: usize = b.len();
    let v = u32_from_le_bytes(slice_subrange(b, off, off + 4));
    #[verifier::truncate] (v as i32)
}

/// Appends the two little-endian bytes of `v`.
pub fn push_u16(out: &mut Vec<u8>, v: u16)
    ensures
        final(out)@ == old(out)@ + spec_u16_to_le_bytes(v),
{
    let mut t = u16_to_le_bytes(v);
    out.append(&mut t);
}

/// Appends the four little-endian bytes of `v`.
pub fn push_u32(out: &mut Vec<u8>, v: u32)
    ensures
        final(out)@ == old(out)@ + spec_u32_to_le_bytes(v),
{
    let mut t = u32_to_le_bytes(v);
    out.append(&mut t);
}

/// Appends the eight little-endian bytes of `v`.
pub fn push_u64(out: &mut Vec<u8>, v: u64)
    ensures
        final(out)@ == old(out)@ + spec_u64_to_le_bytes(v),
{
    let mut t = u64_to_le_bytes(v);
    out.append(&mut t);
}

/// Appends the four little-endian bytes of the bit pattern of `v`.
pub fn push_i32(out: &mut Vec<u8>, v: i32)
    ensures
        final(out)@ == old(out)@ + spec_i32_to_le_bytes(v),
{
    let mut t = u32_to_le_bytes(v as u32);
    out.append(&mut t);
}

/// Appends a copy of the whole slice.
pub fn push_slice(out: &mut Vec<u8>, b: &[u8])
    ensures
        final(out)@ == old(out)@ + b@,
{
    let mut t = slice_to_vec(b);
    out.append(&mut t);
}

/// Copies `len` bytes starting at offset `off` into a fresh vector.
pub fn copy_bytes(b: &[u8], off: usize, len: usize) -> (r: Vec<u8>)
    requires
        off + len <= b@.len(),
    ensures
        r@ == b@.subrange(off as int, off + len),
{
    let _n: usize = b.len();
    slice_to_vec(slice_subrange(b, off, off + len))
}

/// A fresh vector of `n` zero bytes.
pub fn zero_bytes(n: usize) -> (r: Vec<u8>)
    ensures
        r@ == zero_seq(n as nat),
{
    let mut r: Vec<u8> = Vec::new();
    let mut i: usize = 0;
    while i < n
        invariant
            i <= n,
            r@.len() == i,
            forall|j: int| 0 <= j < i ==> r@[j] == 0u8,
        decreases n - i,
    {
        r.push(0u8);
        i = i + 1;
    }
    assert(r@ =~= zero_seq(n as nat));
    r
}

} // verus!
