//! One flag-set type per protocol domain: a bit word whose type identity
//! pins it to that domain, with the named bits the kernel documents for it.
//!
//! A flag set carries its whole word verbatim. Bits without a name here are
//! kept, never masked away, so a newer kernel's bits survive a round trip
//! through this model (forward compatibility).

use vstd::prelude::*;

verus! {

/// On a 32-bit word, clearing one group of bits and setting a disjoint group
/// commute: the result does not depend on the order of the two toggles.
pub proof fn lemma_word_toggle_commutes_u32(w: u32, a: u32, b: u32)
    requires
        a & b == 0,
    ensures
        (w & !a) | b == (w | b) & !a,
{
    assert((w & !a) | b == (w | b) & !a) by (bit_vector)
        requires
            a & b == 0,
    ;
}

/// On a 64-bit word, clearing one group of bits and setting a disjoint group
/// commute: the result does not depend on the order of the two toggles.
pub proof fn lemma_word_toggle_commutes_u64(w: u64, a: u64, b: u64)
    requires
        a & b == 0,
    ensures
        (w & !a) | b == (w | b) & !a,
{
    assert((w & !a) | b == (w | b) & !a) by (bit_vector)
        requires
            a & b == 0,
    ;
}
pub const FUSE_GETATTR_FH: u32 = 0x1;

/// Flags qualifying a get-attributes request.
///
/// The word is carried verbatim; unnamed bits are preserved.
#[derive(Debug, Clone, Copy, PartialEq, Eq, Structural)]
pub struct GetattrFlags {
    pub bits: u32,
}

impl GetattrFlags {
    /// The word with the bits of `o` also set.
    pub open spec fn spec_set(self, o: Self) -> Self {
        GetattrFlags { bits: self.bits | o.bits }
    }

    /// The word with the bits of `o` cleared.
    pub open spec fn spec_clear(self, o: Self) -> Self {
        GetattrFlags { bits: self.bits & !o.bits }
    }

    /// Whether every bit of `o` is set in the word.
    pub open spec fn spec_contains(self, o: Self) -> bool {
        self.bits & o.bits == o.bits
    }

    /// The empty flag set.
    pub fn empty() -> (r: Self)
        ensures
            r.bits == 0,
    {
        GetattrFlags { bits: 0 }
    }

    /// Wraps a raw word, keeping every bit, named or not.
    pub fn from_bits(bits: u32) -> (r: Self)
        ensures
            r.bits == bits,
    {
        GetattrFlags { bits }
    }

    /// Whether every bit of `o` is set.
    pub fn contains(&self, o: Self) -> (r: bool)
        ensures
            r == self.spec_contains(o),
    {
        self.bits & o.bits == o.bits
    }

    /// Sets the bits of `o`.
    pub fn set(self, o: Self) -> (r: Self)
        ensures
            r == self.spec_set(o),
    {
        GetattrFlags { bits: self.bits | o.bits }
    }

    /// Clears the bits of `o`.
    pub fn clear(self, o: Self) -> (r: Self)
        ensures
            r == self.spec_clear(o),
    {
        GetattrFlags { bits: self.bits & !o.bits }
    }

    /// Keeps exactly the bits present in both words.
    pub fn intersect(self, o: Self) -> (r: Self)
        ensures
            r.bits == self.bits & o.bits,
    {
        GetattrFlags { bits: self.bits & o.bits }
    }

    /// Toggles of independent bit groups commute: clearing `a` then setting a
    /// disjoint `b` equals setting `b` then clearing `a`.
    pub proof fn lemma_toggle_commutes(self, a: Self, b: Self)
        requires
            a.bits & b.bits == 0,
        ensures
            self.spec_clear(a).spec_set(b) == self.spec_set(b).spec_clear(a),
    {
        lemma_word_toggle_commutes_u32(self.bits, a.bits, b.bits);
    }
}
pub const FUSE_ATTR_SUBMOUNT: u32 = 0x1;
pub const FUSE_ATTR_DAX: u32 = 0x2;

/// Flags attached to a returned attribute record.
///
/// The word is carried verbatim; unnamed bits are preserved.
#[derive(Debug, Clone, Copy, PartialEq, Eq, Structural)]
pub struct AttrFlags {
    pub bits: u32,
}

impl AttrFlags {
    /// The word with the bits of `o` also set.
    pub open spec fn spec_set(self, o: Self) -> Self {
        AttrFlags { bits: self.bits | o.bits }
    }

    /// The word with the bits of `o` cleared.
    pub open spec fn spec_clear(self, o: Self) -> Self {
        AttrFlags { bits: self.bits & !o.bits }
    }

    /// Whether every bit of `o` is set in the word.
    pub open spec fn spec_contains(self, o: Self) -> bool {
        self.bits & o.bits == o.bits
    }

    /// The empty flag set.
    pub fn empty() -> (r: Self)
        ensures
            r.bits == 0,
    {
        AttrFlags { bits: 0 }
    }

    /// Wraps a raw word, keeping every bit, named or not.
    pub fn from_bits(bits: u32) -> (r: Self)
        ensures
            r.bits == bits,
    {
        AttrFlags { bits }
    }

    /// Whether every bit of `o` is set.
    pub fn contains(&self, o: Self) -> (r: bool)
        ensures
            r == self.spec_contains(o),
    {
        self.bits & o.bits == o.bits
    }

    /// Sets the bits of `o`.
    pub fn set(self, o: Self) -> (r: Self)
        ensures
            r == self.spec_set(o),
    {
        AttrFlags { bits: self.bits | o.bits }
    }

    /// Clears the bits of `o`.
    pub fn clear(self, o: Self) -> (r: Self)
        ensures
            r == self.spec_clear(o),
    {
        AttrFlags { bits: self.bits & !o.bits }
    }

    /// Keeps exactly the bits present in both words.
    pub fn intersect(self, o: Self) -> (r: Self)
        ensures
            r.bits == self.bits & o.bits,
    {
        AttrFlags { bits: self.bits & o.bits }
    }

    /// Toggles of independent bit groups commute: clearing `a` then setting a
    /// disjoint `b` equals setting `b` then clearing `a`.
    pub proof fn lemma_toggle_commutes(self, a: Self, b: Self)
        requires
            a.bits & b.bits == 0,
        ensures
            self.spec_clear(a).spec_set(b) == self.spec_set(b).spec_clear(a),
    {
        lemma_word_toggle_commutes_u32(self.bits, a.bits, b.bits);
    }
}
pub const FATTR_MODE: u32 = 0x1;
pub const FATTR_UID: u32 = 0x2;
pub const FATTR_GID: u32 = 0x4;
pub const FATTR_SIZE: u32 = 0x8;
pub const FATTR_ATIME: u32 = 0x10;
pub const FATTR_MTIME: u32 = 0x20;
pub const FATTR_FH: u32 = 0x40;
pub const FATTR_ATIME_NOW: u32 = 0x80;
pub const FATTR_MTIME_NOW: u32 = 0x100;
pub const FATTR_LOCKOWNER: u32 = 0x200;
pub const FATTR_CTIME: u32 = 0x400;
pub const FATTR_KILL_SUIDGID: u32 = 0x800;

/// Which fields of a set-attributes request are meaningful.
///
/// The word is carried verbatim; unnamed bits are preserved.
#[derive(Debug, Clone, Copy, PartialEq, Eq, Structural)]
pub struct SetattrValid {
    pub bits: u32,
}

impl SetattrValid {
    /// The word with the bits of `o` also set.
    pub open spec fn spec_set(self, o: Self) -> Self {
        SetattrValid { bits: self.bits | o.bits }
    }

    /// The word with the bits of `o` cleared.
    pub open spec fn spec_clear(self, o: Self) -> Self {
        SetattrValid { bits: self.bits & !o.bits }
    }

    /// Whether every bit of `o` is set in the word.
    pub open spec fn spec_contains(self, o: Self) -> bool {
        self.bits & o.bits == o.bits
    }

    /// The empty flag set.
    pub fn empty() -> (r: Self)
        ensures
            r.bits == 0,
    {
        SetattrValid { bits: 0 }
    }

    /// Wraps a raw word, keeping every bit, named or not.
    pub fn from_bits(bits: u32) -> (r: Self)
        ensures
            r.bits == bits,
    {
        SetattrValid { bits }
    }

    /// Whether every bit of `o` is set.
    pub fn contains(&self, o: Self) -> (r: bool)
        ensures
            r == self.spec_contains(o),
    {
        self.bits & o.bits == o.bits
    }

    /// Sets the bits of `o`.
    pub fn set(self, o: Self) -> (r: Self)
        ensures
            r == self.spec_set(o),
    {
        SetattrValid { bits: self.bits | o.bits }
    }

    /// Clears the bits of `o`.
    pub fn clear(self, o: Self) -> (r: Self)
        ensures
            r == self.spec_clear(o),
    {
        SetattrValid { bits: self.bits & !o.bits }
    }

    /// Keeps exactly the bits present in both words.
    pub fn intersect(self, o: Self) -> (r: Self)
        ensures
            r.bits == self.bits & o.bits,
    {
        SetattrValid { bits: self.bits & o.bits }
    }

    /// Toggles of independent bit groups commute: clearing `a` then setting a
    /// disjoint `b` equals setting `b` then clearing `a`.
    pub proof fn lemma_toggle_commutes(self, a: Self, b: Self)
        requires
            a.bits & b.bits == 0,
        ensures
            self.spec_clear(a).spec_set(b) == self.spec_set(b).spec_clear(a),
    {
        lemma_word_toggle_commutes_u32(self.bits, a.bits, b.bits);
    }
}
pub const FUSE_OPEN_KILL_SUIDGID: u32 = 0x1;

/// Flags the kernel attaches to an open request.
///
/// The word is carried verbatim; unnamed bits are preserved.
#[derive(Debug, Clone, Copy, PartialEq, Eq, Structural)]
pub struct OpenInFlags {
    pub bits: u32,
}

impl OpenInFlags {
    /// The word with the bits of `o` also set.
    pub open spec fn spec_set(self, o: Self) -> Self {
        OpenInFlags { bits: self.bits | o.bits }
    }

    /// The word with the bits of `o` cleared.
    pub open spec fn spec_clear(self, o: Self) -> Self {
        OpenInFlags { bits: self.bits & !o.bits }
    }

    /// Whether every bit of `o` is set in the word.
    pub open spec fn spec_contains(self, o: Self) -> bool {
        self.bits & o.bits == o.bits
    }

    /// The empty flag set.
    pub fn empty() -> (r: Self)
        ensures
            r.bits == 0,
    {
        OpenInFlags { bits: 0 }
    }

    /// Wraps a raw word, keeping every bit, named or not.
    pub fn from_bits(bits: u32) -> (r: Self)
        ensures
            r.bits == bits,
    {
        OpenInFlags { bits }
    }

    /// Whether every bit of `o` is set.
    pub fn contains(&self, o: Self) -> (r: bool)
        ensures
            r == self.spec_contains(o),
    {
        self.bits & o.bits == o.bits
    }

    /// Sets the bits of `o`.
    pub fn set(self, o: Self) -> (r: Self)
        ensures
            r == self.spec_set(o),
    {
        OpenInFlags { bits: self.bits | o.bits }
    }

    /// Clears the bits of `o`.
    pub fn clear(self, o: Self) -> (r: Self)
        ensures
            r == self.spec_clear(o),
    {
        OpenInFlags { bits: self.bits & !o.bits }
    }

    /// Keeps exactly the bits present in both words.
    pub fn intersect(self, o: Self) -> (r: Self)
        ensures
            r.bits == self.bits & o.bits,
    {
        OpenInFlags { bits: self.bits & o.bits }
    }

    /// Toggles of independent bit groups commute: clearing `a` then setting a
    /// disjoint `b` equals setting `b` then clearing `a`.
    pub proof fn lemma_toggle_commutes(self, a: Self, b: Self)
        requires
            a.bits & b.bits == 0,
        ensures
            self.spec_clear(a).spec_set(b) == self.spec_set(b).spec_clear(a),
    {
        lemma_word_toggle_commutes_u32(self.bits, a.bits, b.bits);
    }
}
pub const FOPEN_DIRECT_IO: u32 = 0x1;
pub const FOPEN_KEEP_CACHE: u32 = 0x2;
pub const FOPEN_NONSEEKABLE: u32 = 0x4;
pub const FOPEN_CACHE_DIR: u32 = 0x8;
pub const FOPEN_STREAM: u32 = 0x10;
pub const FOPEN_NOFLUSH: u32 = 0x20;
pub const FOPEN_PARALLEL_DIRECT_WRITES: u32 = 0x40;
pub const FOPEN_PASSTHROUGH: u32 = 0x80;

/// Flags the server attaches to an open reply.
///
/// The word is carried verbatim; unnamed bits are preserved.
#[derive(Debug, Clone, Copy, PartialEq, Eq, Structural)]
pub struct OpenOutFlags {
    pub bits: u32,
}

impl OpenOutFlags {
    /// The word with the bits of `o` also set.
    pub open spec fn spec_set(self, o: Self) -> Self {
        OpenOutFlags { bits: self.bits | o.bits }
    }

    /// The word with the bits of `o` cleared.
    pub open spec fn spec_clear(self, o: Self) -> Self {
        OpenOutFlags { bits: self.bits & !o.bits }
    }

    /// Whether every bit of `o` is set in the word.
    pub open spec fn spec_contains(self, o: Self) -> bool {
        self.bits & o.bits == o.bits
    }

    /// The empty flag set.
    pub fn empty() -> (r: Self)
        ensures
            r.bits == 0,
    {
        OpenOutFlags { bits: 0 }
    }

    /// Wraps a raw word, keeping every bit, named or not.
    pub fn from_bits(bits: u32) -> (r: Self)
        ensures
            r.bits == bits,
    {
        OpenOutFlags { bits }
    }

    /// Whether every bit of `o` is set.
    pub fn contains(&self, o: Self) -> (r: bool)
        ensures
            r == self.spec_contains(o),
    {
        self.bits & o.bits == o.bits
    }

    /// Sets the bits of `o`.
    pub fn set(self, o: Self) -> (r: Self)
        ensures
            r == self.spec_set(o),
    {
        OpenOutFlags { bits: self.bits | o.bits }
    }

    /// Clears the bits of `o`.
    pub fn clear(self, o: Self) -> (r: Self)
        ensures
            r == self.spec_clear(o),
    {
        OpenOutFlags { bits: self.bits & !o.bits }
    }

    /// Keeps exactly the bits present in both words.
    pub fn intersect(self, o: Self) -> (r: Self)
        ensures
            r.bits == self.bits & o.bits,
    {
        OpenOutFlags { bits: self.bits & o.bits }
    }

    /// Toggles of independent bit groups commute: clearing `a` then setting a
    /// disjoint `b` equals setting `b` then clearing `a`.
    pub proof fn lemma_toggle_commutes(self, a: Self, b: Self)
        requires
            a.bits & b.bits == 0,
        ensures
            self.spec_clear(a).spec_set(b) == self.spec_set(b).spec_clear(a),
    {
        lemma_word_toggle_commutes_u32(self.bits, a.bits, b.bits);
    }
}
pub const FUSE_READ_LOCKOWNER: u32 = 0x2;

/// Flags qualifying a read request.
///
/// The word is carried verbatim; unnamed bits are preserved.
#[derive(Debug, Clone, Copy, PartialEq, Eq, Structural)]
pub struct ReadFlags {
    pub bits: u32,
}

impl ReadFlags {
    /// The word with the bits of `o` also set.
    pub open spec fn spec_set(self, o: Self) -> Self {
        ReadFlags { bits: self.bits | o.bits }
    }

    /// The word with the bits of `o` cleared.
    pub open spec fn spec_clear(self, o: Self) -> Self {
        ReadFlags { bits: self.bits & !o.bits }
    }

    /// Whether every bit of `o` is set in the word.
    pub open spec fn spec_contains(self, o: Self) -> bool {
        self.bits & o.bits == o.bits
    }

    /// The empty flag set.
    pub fn empty() -> (r: Self)
        ensures
            r.bits == 0,
    {
        ReadFlags { bits: 0 }
    }

    /// Wraps a raw word, keeping every bit, named or not.
    pub fn from_bits(bits: u32) -> (r: Self)
        ensures
            r.bits == bits,
    {
        ReadFlags { bits }
    }

    /// Whether every bit of `o` is set.
    pub fn contains(&self, o: Self) -> (r: bool)
        ensures
            r == self.spec_contains(o),
    {
        self.bits & o.bits == o.bits
    }

    /// Sets the bits of `o`.
    pub fn set(self, o: Self) -> (r: Self)
        ensures
            r == self.spec_set(o),
    {
        ReadFlags { bits: self.bits | o.bits }
    }

    /// Clears the bits of `o`.
    pub fn clear(self, o: Self) -> (r: Self)
        ensures
            r == self.spec_clear(o),
    {
        ReadFlags { bits: self.bits & !o.bits }
    }

    /// Keeps exactly the bits present in both words.
    pub fn intersect(self, o: Self) -> (r: Self)
        ensures
            r.bits == self.bits & o.bits,
    {
        ReadFlags { bits: self.bits & o.bits }
    }

    /// Toggles of independent bit groups commute: clearing `a` then setting a
    /// disjoint `b` equals setting `b` then clearing `a`.
    pub proof fn lemma_toggle_commutes(self, a: Self, b: Self)
        requires
            a.bits & b.bits == 0,
        ensures
            self.spec_clear(a).spec_set(b) == self.spec_set(b).spec_clear(a),
    {
        lemma_word_toggle_commutes_u32(self.bits, a.bits, b.bits);
    }
}
pub const FUSE_WRITE_CACHE: u32 = 0x1;
pub const FUSE_WRITE_LOCKOWNER: u32 = 0x2;
pub const FUSE_WRITE_KILL_SUIDGID: u32 = 0x4;

/// Flags qualifying a write request.
///
/// The word is carried verbatim; unnamed bits are preserved.
#[derive(Debug, Clone, Copy, PartialEq, Eq, Structural)]
pub struct WriteFlags {
    pub bits: u32,
}

impl WriteFlags {
    /// The word with the bits of `o` also set.
    pub open spec fn spec_set(self, o: Self) -> Self {
        WriteFlags { bits: self.bits | o.bits }
    }

    /// The word with the bits of `o` cleared.
    pub open spec fn spec_clear(self, o: Self) -> Self {
        WriteFlags { bits: self.bits & !o.bits }
    }

    /// Whether every bit of `o` is set in the word.
    pub open spec fn spec_contains(self, o: Self) -> bool {
        self.bits & o.bits == o.bits
    }

    /// The empty flag set.
    pub fn empty() -> (r: Self)
        ensures
            r.bits == 0,
    {
        WriteFlags { bits: 0 }
    }

    /// Wraps a raw word, keeping every bit, named or not.
    pub fn from_bits(bits: u32) -> (r: Self)
        ensures
            r.bits == bits,
    {
        WriteFlags { bits }
    }

    /// Whether every bit of `o` is set.
    pub fn contains(&self, o: Self) -> (r: bool)
        ensures
            r == self.spec_contains(o),
    {
        self.bits & o.bits == o.bits
    }

    /// Sets the bits of `o`.
    pub fn set(self, o: Self) -> (r: Self)
        ensures
            r == self.spec_set(o),
    {
        WriteFlags { bits: self.bits | o.bits }
    }

    /// Clears the bits of `o`.
    pub fn clear(self, o: Self) -> (r: Self)
        ensures
            r == self.spec_clear(o),
    {
        WriteFlags { bits: self.bits & !o.bits }
    }

    /// Keeps exactly the bits present in both words.
    pub fn intersect(self, o: Self) -> (r: Self)
        ensures
            r.bits == self.bits & o.bits,
    {
        WriteFlags { bits: self.bits & o.bits }
    }

    /// Toggles of independent bit groups commute: clearing `a` then setting a
    /// disjoint `b` equals setting `b` then clearing `a`.
    pub proof fn lemma_toggle_commutes(self, a: Self, b: Self)
        requires
            a.bits & b.bits == 0,
        ensures
            self.spec_clear(a).spec_set(b) == self.spec_set(b).spec_clear(a),
    {
        lemma_word_toggle_commutes_u32(self.bits, a.bits, b.bits);
    }
}
pub const FUSE_RELEASE_FLUSH: u32 = 0x1;
pub const FUSE_RELEASE_FLOCK_UNLOCK: u32 = 0x2;

/// Flags qualifying a file-release request.
///
/// The word is carried verbatim; unnamed bits are preserved.
#[derive(Debug, Clone, Copy, PartialEq, Eq, Structural)]
pub struct ReleaseFlags {
    pub bits: u32,
}

impl ReleaseFlags {
    /// The word with the bits of `o` also set.
    pub open spec fn spec_set(self, o: Self) -> Self {
        ReleaseFlags { bits: self.bits | o.bits }
    }

    /// The word with the bits of `o` cleared.
    pub open spec fn spec_clear(self, o: Self) -> Self {
        ReleaseFlags { bits: self.bits & !o.bits }
    }

    /// Whether every bit of `o` is set in the word.
    pub open spec fn spec_contains(self, o: Self) -> bool {
        self.bits & o.bits == o.bits
    }

    /// The empty flag set.
    pub fn empty() -> (r: Self)
        ensures
            r.bits == 0,
    {
        ReleaseFlags { bits: 0 }
    }

    /// Wraps a raw word, keeping every bit, named or not.
    pub fn from_bits(bits: u32) -> (r: Self)
        ensures
            r.bits == bits,
    {
        ReleaseFlags { bits }
    }

    /// Whether every bit of `o` is set.
    pub fn contains(&self, o: Self) -> (r: bool)
        ensures
            r == self.spec_contains(o),
    {
        self.bits & o.bits == o.bits
    }

    /// Sets the bits of `o`.
    pub fn set(self, o: Self) -> (r: Self)
        ensures
            r == self.spec_set(o),
    {
        ReleaseFlags { bits: self.bits | o.bits }
    }

    /// Clears the bits of `o`.
    pub fn clear(self, o: Self) -> (r: Self)
        ensures
            r == self.spec_clear(o),
    {
        ReleaseFlags { bits: self.bits & !o.bits }
    }

    /// Keeps exactly the bits present in both words.
    pub fn intersect(self, o: Self) -> (r: Self)
        ensures
            r.bits == self.bits & o.bits,
    {
        ReleaseFlags { bits: self.bits & o.bits }
    }

    /// Toggles of independent bit groups commute: clearing `a` then setting a
    /// disjoint `b` equals setting `b` then clearing `a`.
    pub proof fn lemma_toggle_commutes(self, a: Self, b: Self)
        requires
            a.bits & b.bits == 0,
        ensures
            self.spec_clear(a).spec_set(b) == self.spec_set(b).spec_clear(a),
    {
        lemma_word_toggle_commutes_u32(self.bits, a.bits, b.bits);
    }
}
pub const FUSE_FSYNC_FDATASYNC: u32 = 0x1;

/// Flags qualifying an fsync request.
///
/// The word is carried verbatim; unnamed bits are preserved.
#[derive(Debug, Clone, Copy, PartialEq, Eq, Structural)]
pub struct FsyncFlags {
    pub bits: u32,
}

impl FsyncFlags {
    /// The word with the bits of `o` also set.
    pub open spec fn spec_set(self, o: Self) -> Self {
        FsyncFlags { bits: self.bits | o.bits }
    }

    /// The word with the bits of `o` cleared.
    pub open spec fn spec_clear(self, o: Self) -> Self {
        FsyncFlags { bits: self.bits & !o.bits }
    }

    /// Whether every bit of `o` is set in the word.
    pub open spec fn spec_contains(self, o: Self) -> bool {
        self.bits & o.bits == o.bits
    }

    /// The empty flag set.
    pub fn empty() -> (r: Self)
        ensures
            r.bits == 0,
    {
        FsyncFlags { bits: 0 }
    }

    /// Wraps a raw word, keeping every bit, named or not.
    pub fn from_bits(bits: u32) -> (r: Self)
        ensures
            r.bits == bits,
    {
        FsyncFlags { bits }
    }

    /// Whether every bit of `o` is set.
    pub fn contains(&self, o: Self) -> (r: bool)
        ensures
            r == self.spec_contains(o),
    {
        self.bits & o.bits == o.bits
    }

    /// Sets the bits of `o`.
    pub fn set(self, o: Self) -> (r: Self)
        ensures
            r == self.spec_set(o),
    {
        FsyncFlags { bits: self.bits | o.bits }
    }

    /// Clears the bits of `o`.
    pub fn clear(self, o: Self) -> (r: Self)
        ensures
            r == self.spec_clear(o),
    {
        FsyncFlags { bits: self.bits & !o.bits }
    }

    /// Keeps exactly the bits present in both words.
    pub fn intersect(self, o: Self) -> (r: Self)
        ensures
            r.bits == self.bits & o.bits,
    {
        FsyncFlags { bits: self.bits & o.bits }
    }

    /// Toggles of independent bit groups commute: clearing `a` then setting a
    /// disjoint `b` equals setting `b` then clearing `a`.
    pub proof fn lemma_toggle_commutes(self, a: Self, b: Self)
        requires
            a.bits & b.bits == 0,
        ensures
            self.spec_clear(a).spec_set(b) == self.spec_set(b).spec_clear(a),
    {
        lemma_word_toggle_commutes_u32(self.bits, a.bits, b.bits);
    }
}
pub const FUSE_SETXATTR_ACL_KILL_SGID: u32 = 0x1;

/// Flags qualifying a set-extended-attribute request.
///
/// The word is carried verbatim; unnamed bits are preserved.
#[derive(Debug, Clone, Copy, PartialEq, Eq, Structural)]
pub struct SetxattrFlags {
    pub bits: u32,
}

impl SetxattrFlags {
    /// The word with the bits of `o` also set.
    pub open spec fn spec_set(self, o: Self) -> Self {
        SetxattrFlags { bits: self.bits | o.bits }
    }

    /// The word with the bits of `o` cleared.
    pub open spec fn spec_clear(self, o: Self) -> Self {
        SetxattrFlags { bits: self.bits & !o.bits }
    }

    /// Whether every bit of `o` is set in the word.
    pub open spec fn spec_contains(self, o: Self) -> bool {
        self.bits & o.bits == o.bits
    }

    /// The empty flag set.
    pub fn empty() -> (r: Self)
        ensures
            r.bits == 0,
    {
        SetxattrFlags { bits: 0 }
    }

    /// Wraps a raw word, keeping every bit, named or not.
    pub fn from_bits(bits: u32) -> (r: Self)
        ensures
            r.bits == bits,
    {
        SetxattrFlags { bits }
    }

    /// Whether every bit of `o` is set.
    pub fn contains(&self, o: Self) -> (r: bool)
        ensures
            r == self.spec_contains(o),
    {
        self.bits & o.bits == o.bits
    }

    /// Sets the bits of `o`.
    pub fn set(self, o: Self) -> (r: Self)
        ensures
            r == self.spec_set(o),
    {
        SetxattrFlags { bits: self.bits | o.bits }
    }

    /// Clears the bits of `o`.
    pub fn clear(self, o: Self) -> (r: Self)
        ensures
            r == self.spec_clear(o),
    {
        SetxattrFlags { bits: self.bits & !o.bits }
    }

    /// Keeps exactly the bits present in both words.
    pub fn intersect(self, o: Self) -> (r: Self)
        ensures
            r.bits == self.bits & o.bits,
    {
        SetxattrFlags { bits: self.bits & o.bits }
    }

    /// Toggles of independent bit groups commute: clearing `a` then setting a
    /// disjoint `b` equals setting `b` then clearing `a`.
    pub proof fn lemma_toggle_commutes(self, a: Self, b: Self)
        requires
            a.bits & b.bits == 0,
        ensures
            self.spec_clear(a).spec_set(b) == self.spec_set(b).spec_clear(a),
    {
        lemma_word_toggle_commutes_u32(self.bits, a.bits, b.bits);
    }
}
pub const FUSE_ASYNC_READ: u32 = 0x1;
pub const FUSE_POSIX_LOCKS: u32 = 0x2;
pub const FUSE_FILE_OPS: u32 = 0x4;
pub const FUSE_ATOMIC_O_TRUNC: u32 = 0x8;
pub const FUSE_EXPORT_SUPPORT: u32 = 0x10;
pub const FUSE_BIG_WRITES: u32 = 0x20;
pub const FUSE_DONT_MASK: u32 = 0x40;
pub const FUSE_SPLICE_WRITE: u32 = 0x80;
pub const FUSE_SPLICE_MOVE: u32 = 0x100;
pub const FUSE_SPLICE_READ: u32 = 0x200;
pub const FUSE_FLOCK_LOCKS: u32 = 0x400;
pub const FUSE_HAS_IOCTL_DIR: u32 = 0x800;
pub const FUSE_AUTO_INVAL_DATA: u32 = 0x1000;
pub const FUSE_DO_READDIRPLUS: u32 = 0x2000;
pub const FUSE_READDIRPLUS_AUTO: u32 = 0x4000;
pub const FUSE_ASYNC_DIO: u32 = 0x8000;
pub const FUSE_WRITEBACK_CACHE: u32 = 0x10000;
pub const FUSE_NO_OPEN_SUPPORT: u32 = 0x20000;
pub const FUSE_PARALLEL_DIROPS: u32 = 0x40000;
pub const FUSE_HANDLE_KILLPRIV: u32 = 0x80000;
pub const FUSE_POSIX_ACL: u32 = 0x100000;
pub const FUSE_ABORT_ERROR: u32 = 0x200000;
pub const FUSE_MAX_PAGES: u32 = 0x400000;
pub const FUSE_CACHE_SYMLINKS: u32 = 0x800000;
pub const FUSE_NO_OPENDIR_SUPPORT: u32 = 0x1000000;
pub const FUSE_EXPLICIT_INVAL_DATA: u32 = 0x2000000;
pub const FUSE_MAP_ALIGNMENT: u32 = 0x4000000;
pub const FUSE_SUBMOUNTS: u32 = 0x8000000;
pub const FUSE_HANDLE_KILLPRIV_V2: u32 = 0x10000000;
pub const FUSE_SETXATTR_EXT: u32 = 0x20000000;
pub const FUSE_INIT_EXT: u32 = 0x40000000;

/// First capability word of the initialization exchange.
///
/// The word is carried verbatim; unnamed bits are preserved.
#[derive(Debug, Clone, Copy, PartialEq, Eq, Structural)]
pub struct InitFlags {
    pub bits: u32,
}

impl InitFlags {
    /// The word with the bits of `o` also set.
    pub open spec fn spec_set(self, o: Self) -> Self {
        InitFlags { bits: self.bits | o.bits }
    }

    /// The word with the bits of `o` cleared.
    pub open spec fn spec_clear(self, o: Self) -> Self {
        InitFlags { bits: self.bits & !o.bits }
    }

    /// Whether every bit of `o` is set in the word.
    pub open spec fn spec_contains(self, o: Self) -> bool {
        self.bits & o.bits == o.bits
    }

    /// The empty flag set.
    pub fn empty() -> (r: Self)
        ensures
            r.bits == 0,
    {
        InitFlags { bits: 0 }
    }

    /// Wraps a raw word, keeping every bit, named or not.
    pub fn from_bits(bits: u32) -> (r: Self)
        ensures
            r.bits == bits,
    {
        InitFlags { bits }
    }

    /// Whether every bit of `o` is set.
    pub fn contains(&self, o: Self) -> (r: bool)
        ensures
            r == self.spec_contains(o),
    {
        self.bits & o.bits == o.bits
    }

    /// Sets the bits of `o`.
    pub fn set(self, o: Self) -> (r: Self)
        ensures
            r == self.spec_set(o),
    {
        InitFlags { bits: self.bits | o.bits }
    }

    /// Clears the bits of `o`.
    pub fn clear(self, o: Self) -> (r: Self)
        ensures
            r == self.spec_clear(o),
    {
        InitFlags { bits: self.bits & !o.bits }
    }

    /// Keeps exactly the bits present in both words.
    pub fn intersect(self, o: Self) -> (r: Self)
        ensures
            r.bits == self.bits & o.bits,
    {
        InitFlags { bits: self.bits & o.bits }
    }

    /// Toggles of independent bit groups commute: clearing `a` then setting a
    /// disjoint `b` equals setting `b` then clearing `a`.
    pub proof fn lemma_toggle_commutes(self, a: Self, b: Self)
        requires
            a.bits & b.bits == 0,
        ensures
            self.spec_clear(a).spec_set(b) == self.spec_set(b).spec_clear(a),
    {
        lemma_word_toggle_commutes_u32(self.bits, a.bits, b.bits);
    }
}
pub const FUSE_SECURITY_CTX: u32 = 0x1;
pub const FUSE_HAS_INODE_DAX: u32 = 0x2;
pub const FUSE_CREATE_SUPP_GROUP: u32 = 0x4;
pub const FUSE_HAS_EXPIRE_ONLY: u32 = 0x8;
pub const FUSE_DIRECT_IO_ALLOW_MMAP: u32 = 0x10;
pub const FUSE_PASSTHROUGH: u32 = 0x20;
pub const FUSE_NO_EXPORT_SUPPORT: u32 = 0x40;
pub const FUSE_HAS_RESEND: u32 = 0x80;
pub const FUSE_ALLOW_IDMAP: u32 = 0x100;
pub const FUSE_OVER_IO_URING: u32 = 0x200;
pub const FUSE_REQUEST_TIMEOUT: u32 = 0x400;

/// Second capability word of the initialization exchange.
///
/// The word is carried verbatim; unnamed bits are preserved.
#[derive(Debug, Clone, Copy, PartialEq, Eq, Structural)]
pub struct InitFlags2 {
    pub bits: u32,
}

impl InitFlags2 {
    /// The word with the bits of `o` also set.
    pub open spec fn spec_set(self, o: Self) -> Self {
        InitFlags2 { bits: self.bits | o.bits }
    }

    /// The word with the bits of `o` cleared.
    pub open spec fn spec_clear(self, o: Self) -> Self {
        InitFlags2 { bits: self.bits & !o.bits }
    }

    /// Whether every bit of `o` is set in the word.
    pub open spec fn spec_contains(self, o: Self) -> bool {
        self.bits & o.bits == o.bits
    }

    /// The empty flag set.
    pub fn empty() -> (r: Self)
        ensures
            r.bits == 0,
    {
        InitFlags2 { bits: 0 }
    }

    /// Wraps a raw word, keeping every bit, named or not.
    pub fn from_bits(bits: u32) -> (r: Self)
        ensures
            r.bits == bits,
    {
        InitFlags2 { bits }
    }

    /// Whether every bit of `o` is set.
    pub fn contains(&self, o: Self) -> (r: bool)
        ensures
            r == self.spec_contains(o),
    {
        self.bits & o.bits == o.bits
    }

    /// Sets the bits of `o`.
    pub fn set(self, o: Self) -> (r: Self)
        ensures
            r == self.spec_set(o),
    {
        InitFlags2 { bits: self.bits | o.bits }
    }

    /// Clears the bits of `o`.
    pub fn clear(self, o: Self) -> (r: Self)
        ensures
            r == self.spec_clear(o),
    {
        InitFlags2 { bits: self.bits & !o.bits }
    }

    /// Keeps exactly the bits present in both words.
    pub fn intersect(self, o: Self) -> (r: Self)
        ensures
            r.bits == self.bits & o.bits,
    {
        InitFlags2 { bits: self.bits & o.bits }
    }

    /// Toggles of independent bit groups commute: clearing `a` then setting a
    /// disjoint `b` equals setting `b` then clearing `a`.
    pub proof fn lemma_toggle_commutes(self, a: Self, b: Self)
        requires
            a.bits & b.bits == 0,
        ensures
            self.spec_clear(a).spec_set(b) == self.spec_set(b).spec_clear(a),
    {
        lemma_word_toggle_commutes_u32(self.bits, a.bits, b.bits);
    }
}
pub const FUSE_LK_FLOCK: u32 = 0x1;

/// Flags qualifying a lock request.
///
/// The word is carried verbatim; unnamed bits are preserved.
#[derive(Debug, Clone, Copy, PartialEq, Eq, Structural)]
pub struct LockFlags {
    pub bits: u32,
}

impl LockFlags {
    /// The word with the bits of `o` also set.
    pub open spec fn spec_set(self, o: Self) -> Self {
        LockFlags { bits: self.bits | o.bits }
    }

    /// The word with the bits of `o` cleared.
    pub open spec fn spec_clear(self, o: Self) -> Self {
        LockFlags { bits: self.bits & !o.bits }
    }

    /// Whether every bit of `o` is set in the word.
    pub open spec fn spec_contains(self, o: Self) -> bool {
        self.bits & o.bits == o.bits
    }

    /// The empty flag set.
    pub fn empty() -> (r: Self)
        ensures
            r.bits == 0,
    {
        LockFlags { bits: 0 }
    }

    /// Wraps a raw word, keeping every bit, named or not.
    pub fn from_bits(bits: u32) -> (r: Self)
        ensures
            r.bits == bits,
    {
        LockFlags { bits }
    }

    /// Whether every bit of `o` is set.
    pub fn contains(&self, o: Self) -> (r: bool)
        ensures
            r == self.spec_contains(o),
    {
        self.bits & o.bits == o.bits
    }

    /// Sets the bits of `o`.
    pub fn set(self, o: Self) -> (r: Self)
        ensures
            r == self.spec_set(o),
    {
        LockFlags { bits: self.bits | o.bits }
    }

    /// Clears the bits of `o`.
    pub fn clear(self, o: Self) -> (r: Self)
        ensures
            r == self.spec_clear(o),
    {
        LockFlags { bits: self.bits & !o.bits }
    }

    /// Keeps exactly the bits present in both words.
    pub fn intersect(self, o: Self) -> (r: Self)
        ensures
            r.bits == self.bits & o.bits,
    {
        LockFlags { bits: self.bits & o.bits }
    }

    /// Toggles of independent bit groups commute: clearing `a` then setting a
    /// disjoint `b` equals setting `b` then clearing `a`.
    pub proof fn lemma_toggle_commutes(self, a: Self, b: Self)
        requires
            a.bits & b.bits == 0,
        ensures
            self.spec_clear(a).spec_set(b) == self.spec_set(b).spec_clear(a),
    {
        lemma_word_toggle_commutes_u32(self.bits, a.bits, b.bits);
    }
}
pub const FUSE_IOCTL_COMPAT: u32 = 0x1;
pub const FUSE_IOCTL_UNRESTRICTED: u32 = 0x2;
pub const FUSE_IOCTL_RETRY: u32 = 0x4;
pub const FUSE_IOCTL_32BIT: u32 = 0x8;
pub const FUSE_IOCTL_DIR: u32 = 0x10;
pub const FUSE_IOCTL_COMPAT_X32: u32 = 0x20;

/// Flags qualifying an ioctl request or reply.
///
/// The word is carried verbatim; unnamed bits are preserved.
#[derive(Debug, Clone, Copy, PartialEq, Eq, Structural)]
pub struct IoctlFlags {
    pub bits: u32,
}

impl IoctlFlags {
    /// The word with the bits of `o` also set.
    pub open spec fn spec_set(self, o: Self) -> Self {
        IoctlFlags { bits: self.bits | o.bits }
    }

    /// The word with the bits of `o` cleared.
    pub open spec fn spec_clear(self, o: Self) -> Self {
        IoctlFlags { bits: self.bits & !o.bits }
    }

    /// Whether every bit of `o` is set in the word.
    pub open spec fn spec_contains(self, o: Self) -> bool {
        self.bits & o.bits == o.bits
    }

    /// The empty flag set.
    pub fn empty() -> (r: Self)
        ensures
            r.bits == 0,
    {
        IoctlFlags { bits: 0 }
    }

    /// Wraps a raw word, keeping every bit, named or not.
    pub fn from_bits(bits: u32) -> (r: Self)
        ensures
            r.bits == bits,
    {
        IoctlFlags { bits }
    }

    /// Whether every bit of `o` is set.
    pub fn contains(&self, o: Self) -> (r: bool)
        ensures
            r == self.spec_contains(o),
    {
        self.bits & o.bits == o.bits
    }

    /// Sets the bits of `o`.
    pub fn set(self, o: Self) -> (r: Self)
        ensures
            r == self.spec_set(o),
    {
        IoctlFlags { bits: self.bits | o.bits }
    }

    /// Clears the bits of `o`.
    pub fn clear(self, o: Self) -> (r: Self)
        ensures
            r == self.spec_clear(o),
    {
        IoctlFlags { bits: self.bits & !o.bits }
    }

    /// Keeps exactly the bits present in both words.
    pub fn intersect(self, o: Self) -> (r: Self)
        ensures
            r.bits == self.bits & o.bits,
    {
        IoctlFlags { bits: self.bits & o.bits }
    }

    /// Toggles of independent bit groups commute: clearing `a` then setting a
    /// disjoint `b` equals setting `b` then clearing `a`.
    pub proof fn lemma_toggle_commutes(self, a: Self, b: Self)
        requires
            a.bits & b.bits == 0,
        ensures
            self.spec_clear(a).spec_set(b) == self.spec_set(b).spec_clear(a),
    {
        lemma_word_toggle_commutes_u32(self.bits, a.bits, b.bits);
    }
}
pub const FUSE_POLL_SCHEDULE_NOTIFY: u32 = 0x1;

/// Flags qualifying a poll request.
///
/// The word is carried verbatim; unnamed bits are preserved.
#[derive(Debug, Clone, Copy, PartialEq, Eq, Structural)]
pub struct PollFlags {
    pub bits: u32,
}

impl PollFlags {
    /// The word with the bits of `o` also set.
    pub open spec fn spec_set(self, o: Self) -> Self {
        PollFlags { bits: self.bits | o.bits }
    }

    /// The word with the bits of `o` cleared.
    pub open spec fn spec_clear(self, o: Self) -> Self {
        PollFlags { bits: self.bits & !o.bits }
    }

    /// Whether every bit of `o` is set in the word.
    pub open spec fn spec_contains(self, o: Self) -> bool {
        self.bits & o.bits == o.bits
    }

    /// The empty flag set.
    pub fn empty() -> (r: Self)
        ensures
            r.bits == 0,
    {
        PollFlags { bits: 0 }
    }

    /// Wraps a raw word, keeping every bit, named or not.
    pub fn from_bits(bits: u32) -> (r: Self)
        ensures
            r.bits == bits,
    {
        PollFlags { bits }
    }

    /// Whether every bit of `o` is set.
    pub fn contains(&self, o: Self) -> (r: bool)
        ensures
            r == self.spec_contains(o),
    {
        self.bits & o.bits == o.bits
    }

    /// Sets the bits of `o`.
    pub fn set(self, o: Self) -> (r: Self)
        ensures
            r == self.spec_set(o),
    {
        PollFlags { bits: self.bits | o.bits }
    }

    /// Clears the bits of `o`.
    pub fn clear(self, o: Self) -> (r: Self)
        ensures
            r == self.spec_clear(o),
    {
        PollFlags { bits: self.bits & !o.bits }
    }

    /// Keeps exactly the bits present in both words.
    pub fn intersect(self, o: Self) -> (r: Self)
        ensures
            r.bits == self.bits & o.bits,
    {
        PollFlags { bits: self.bits & o.bits }
    }

    /// Toggles of independent bit groups commute: clearing `a` then setting a
    /// disjoint `b` equals setting `b` then clearing `a`.
    pub proof fn lemma_toggle_commutes(self, a: Self, b: Self)
        requires
            a.bits & b.bits == 0,
        ensures
            self.spec_clear(a).spec_set(b) == self.spec_set(b).spec_clear(a),
    {
        lemma_word_toggle_commutes_u32(self.bits, a.bits, b.bits);
    }
}
pub const FUSE_SETUPMAPPING_FLAG_WRITE: u64 = 0x1;
pub const FUSE_SETUPMAPPING_FLAG_READ: u64 = 0x1;

/// Flags qualifying a mapping-setup request.
///
/// The word is carried verbatim; unnamed bits are preserved.
#[derive(Debug, Clone, Copy, PartialEq, Eq, Structural)]
pub struct SetupMappingFlags {
    pub bits: u64,
}

impl SetupMappingFlags {
    /// The word with the bits of `o` also set.
    pub open spec fn spec_set(self, o: Self) -> Self {
        SetupMappingFlags { bits: self.bits | o.bits }
    }

    /// The word with the bits of `o` cleared.
    pub open spec fn spec_clear(self, o: Self) -> Self {
        SetupMappingFlags { bits: self.bits & !o.bits }
    }

    /// Whether every bit of `o` is set in the word.
    pub open spec fn spec_contains(self, o: Self) -> bool {
        self.bits & o.bits == o.bits
    }

    /// The empty flag set.
    pub fn empty() -> (r: Self)
        ensures
            r.bits == 0,
    {
        SetupMappingFlags { bits: 0 }
    }

    /// Wraps a raw word, keeping every bit, named or not.
    pub fn from_bits(bits: u64) -> (r: Self)
        ensures
            r.bits == bits,
    {
        SetupMappingFlags { bits }
    }

    /// Whether every bit of `o` is set.
    pub fn contains(&self, o: Self) -> (r: bool)
        ensures
            r == self.spec_contains(o),
    {
        self.bits & o.bits == o.bits
    }

    /// Sets the bits of `o`.
    pub fn set(self, o: Self) -> (r: Self)
        ensures
            r == self.spec_set(o),
    {
        SetupMappingFlags { bits: self.bits | o.bits }
    }

    /// Clears the bits of `o`.
    pub fn clear(self, o: Self) -> (r: Self)
        ensures
            r == self.spec_clear(o),
    {
        SetupMappingFlags { bits: self.bits & !o.bits }
    }

    /// Keeps exactly the bits present in both words.
    pub fn intersect(self, o: Self) -> (r: Self)
        ensures
            r.bits == self.bits & o.bits,
    {
        SetupMappingFlags { bits: self.bits & o.bits }
    }

    /// Toggles of independent bit groups commute: clearing `a` then setting a
    /// disjoint `b` equals setting `b` then clearing `a`.
    pub proof fn lemma_toggle_commutes(self, a: Self, b: Self)
        requires
            a.bits & b.bits == 0,
        ensures
            self.spec_clear(a).spec_set(b) == self.spec_set(b).spec_clear(a),
    {
        lemma_word_toggle_commutes_u64(self.bits, a.bits, b.bits);
    }
}
} // verus!
