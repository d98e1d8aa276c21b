//! The fixed-layout record model: one struct per protocol payload, each with
//! its exact wire image (`spec_enc`), a bounds-checked reader (`decode`), an
//! appending writer (`append_to`), and a proof that decoding the encoding
//! reproduces every field.
//!
//! Offsets are byte-exact and little-endian; see the crate root for the
//! platform assumption.

use crate::flags::{
    AttrFlags, FsyncFlags, GetattrFlags, IoctlFlags, LockFlags, OpenInFlags, OpenOutFlags,
    ReadFlags, SetattrValid, WriteFlags,
};
use crate::padding::Padding;
use crate::wire::{
    le_bytes_facts, push_i32, push_u16, push_u32, push_u64, read_i32, read_u16, read_u32,
    read_u64, spec_i32_from_le_bytes, spec_i32_to_le_bytes, spec_u16_from_le_bytes,
    spec_u16_to_le_bytes, spec_u32_from_le_bytes, spec_u32_to_le_bytes, spec_u64_from_le_bytes,
    spec_u64_to_le_bytes,
};
use vstd::prelude::*;

verus! {

/// A fixed-layout wire record: it knows its byte size, its exact image, and
/// how to append that image to an outbound buffer.
pub trait WireRecord: Sized {
    /// Structural well-formedness: every reserved region carries its full width.
    spec fn wf(&self) -> bool;

    /// Byte size of the fixed layout.
    spec fn spec_size() -> nat;

    /// The exact wire image: every field at its documented byte offset.
    spec fn spec_enc(&self) -> Seq<u8>;

    /// The wire image of a well-formed record fills exactly `spec_size` bytes.
    proof fn lemma_enc_len(&self)
        requires
            self.wf(),
        ensures
            self.spec_enc().len() == Self::spec_size(),
    ;

    /// Byte size of the fixed layout, as a runtime value.
    fn size() -> (r: usize)
        ensures
            r as nat == Self::spec_size(),
    ;

    /// Appends the wire image to `out`.
    fn append_to(&self, out: &mut Vec<u8>)
        requires
            self.wf(),
        ensures
            final(out)@ == old(out)@ + self.spec_enc(),
    ;
}
/// Attributes of one filesystem object, as carried in entry and attribute replies.
#[derive(Debug, Clone, PartialEq, Eq)]
pub struct fuse_attr {
    pub ino: u64,
    pub size: u64,
    pub blocks: u64,
    pub atime: u64,
    pub mtime: u64,
    pub ctime: u64,
    pub atimensec: u32,
    pub mtimensec: u32,
    pub ctimensec: u32,
    pub mode: u32,
    pub nlink: u32,
    pub uid: u32,
    pub gid: u32,
    pub rdev: u32,
    pub blksize: u32,
    pub flags: AttrFlags,
}

impl fuse_attr {
    /// `self` holds exactly the fields laid out in `s`.
    pub open spec fn dec_from(self, s: Seq<u8>) -> bool
        recommends
            s.len() == 88,
    {
        &&& self.ino == spec_u64_from_le_bytes(s.subrange(0, 8))
        &&& self.size == spec_u64_from_le_bytes(s.subrange(8, 16))
        &&& self.blocks == spec_u64_from_le_bytes(s.subrange(16, 24))
        &&& self.atime == spec_u64_from_le_bytes(s.subrange(24, 32))
        &&& self.mtime == spec_u64_from_le_bytes(s.subrange(32, 40))
        &&& self.ctime == spec_u64_from_le_bytes(s.subrange(40, 48))
        &&& self.atimensec == spec_u32_from_le_bytes(s.subrange(48, 52))
        &&& self.mtimensec == spec_u32_from_le_bytes(s.subrange(52, 56))
        &&& self.ctimensec == spec_u32_from_le_bytes(s.subrange(56, 60))
        &&& self.mode == spec_u32_from_le_bytes(s.subrange(60, 64))
        &&& self.nlink == spec_u32_from_le_bytes(s.subrange(64, 68))
        &&& self.uid == spec_u32_from_le_bytes(s.subrange(68, 72))
        &&& self.gid == spec_u32_from_le_bytes(s.subrange(72, 76))
        &&& self.rdev == spec_u32_from_le_bytes(s.subrange(76, 80))
        &&& self.blksize == spec_u32_from_le_bytes(s.subrange(80, 84))
        &&& self.flags.bits == spec_u32_from_le_bytes(s.subrange(84, 88))
    }

    /// Reads the fixed layout at byte offset `off` of `b`.
    #[verifier::rlimit(50)]
    pub fn decode(b: &[u8], off: usize) -> (r: Self)
        requires
            off + 88 <= b@.len(),
        ensures
            r.wf(),
            r.dec_from(b@.subrange(off as int, off + 88)),
    {
        let _n: usize = b.len();
        let r = fuse_attr {
            ino: read_u64(b, off),
            size: read_u64(b, off + 8),
            blocks: read_u64(b, off + 16),
            atime: read_u64(b, off + 24),
            mtime: read_u64(b, off + 32),
            ctime: read_u64(b, off + 40),
            atimensec: read_u32(b, off + 48),
            mtimensec: read_u32(b, off + 52),
            ctimensec: read_u32(b, off + 56),
            mode: read_u32(b, off + 60),
            nlink: read_u32(b, off + 64),
            uid: read_u32(b, off + 68),
            gid: read_u32(b, off + 72),
            rdev: read_u32(b, off + 76),
            blksize: read_u32(b, off + 80),
            flags: AttrFlags { bits: read_u32(b, off + 84) },
        };
        proof {
            let s = b@.subrange(off as int, off as int + 88);
            assert(s.subrange(0, 8) =~= b@.subrange(off as int + 0, off as int + 8));
            assert(s.subrange(8, 16) =~= b@.subrange(off as int + 8, off as int + 16));
            assert(s.subrange(16, 24) =~= b@.subrange(off as int + 16, off as int + 24));
            assert(s.subrange(24, 32) =~= b@.subrange(off as int + 24, off as int + 32));
            assert(s.subrange(32, 40) =~= b@.subrange(off as int + 32, off as int + 40));
            assert(s.subrange(40, 48) =~= b@.subrange(off as int + 40, off as int + 48));
            assert(s.subrange(48, 52) =~= b@.subrange(off as int + 48, off as int + 52));
            assert(s.subrange(52, 56) =~= b@.subrange(off as int + 52, off as int + 56));
            assert(s.subrange(56, 60) =~= b@.subrange(off as int + 56, off as int + 60));
            assert(s.subrange(60, 64) =~= b@.subrange(off as int + 60, off as int + 64));
            assert(s.subrange(64, 68) =~= b@.subrange(off as int + 64, off as int + 68));
            assert(s.subrange(68, 72) =~= b@.subrange(off as int + 68, off as int + 72));
            assert(s.subrange(72, 76) =~= b@.subrange(off as int + 72, off as int + 76));
            assert(s.subrange(76, 80) =~= b@.subrange(off as int + 76, off as int + 80));
            assert(s.subrange(80, 84) =~= b@.subrange(off as int + 80, off as int + 84));
            assert(s.subrange(84, 88) =~= b@.subrange(off as int + 84, off as int + 88));
        }
        r
    }

    /// The wire image as a fresh buffer.
    pub fn encode(&self) -> (r: Vec<u8>)
        requires
            self.wf(),
        ensures
            r@ == self.spec_enc(),
    {
        let mut v: Vec<u8> = Vec::new();
        self.append_to(&mut v);
        v
    }

    /// Decoding the encoding of a well-formed record reproduces every field.
    #[verifier::rlimit(50)]
    pub proof fn lemma_round_trip(r: Self, d: Self)
        requires
            r.wf(),
            d.dec_from(r.spec_enc()),
        ensures
            d == r,
    {
        le_bytes_facts();
        let s = r.spec_enc();
        assert(s.subrange(0, 8) =~= spec_u64_to_le_bytes(r.ino));
        assert(s.subrange(8, 16) =~= spec_u64_to_le_bytes(r.size));
        assert(s.subrange(16, 24) =~= spec_u64_to_le_bytes(r.blocks));
        assert(s.subrange(24, 32) =~= spec_u64_to_le_bytes(r.atime));
        assert(s.subrange(32, 40) =~= spec_u64_to_le_bytes(r.mtime));
        assert(s.subrange(40, 48) =~= spec_u64_to_le_bytes(r.ctime));
        assert(s.subrange(48, 52) =~= spec_u32_to_le_bytes(r.atimensec));
        assert(s.subrange(52, 56) =~= spec_u32_to_le_bytes(r.mtimensec));
        assert(s.subrange(56, 60) =~= spec_u32_to_le_bytes(r.ctimensec));
        assert(s.subrange(60, 64) =~= spec_u32_to_le_bytes(r.mode));
        assert(s.subrange(64, 68) =~= spec_u32_to_le_bytes(r.nlink));
        assert(s.subrange(68, 72) =~= spec_u32_to_le_bytes(r.uid));
        assert(s.subrange(72, 76) =~= spec_u32_to_le_bytes(r.gid));
        assert(s.subrange(76, 80) =~= spec_u32_to_le_bytes(r.rdev));
        assert(s.subrange(80, 84) =~= spec_u32_to_le_bytes(r.blksize));
        assert(s.subrange(84, 88) =~= spec_u32_to_le_bytes(r.flags.bits));
    }
}

impl WireRecord for fuse_attr {
    open spec fn wf(&self) -> bool {
        true
    }

    open spec fn spec_size() -> nat {
        88
    }

    open spec fn spec_enc(&self) -> Seq<u8> {
        spec_u64_to_le_bytes(self.ino) + spec_u64_to_le_bytes(self.size) + spec_u64_to_le_bytes(self.blocks) + spec_u64_to_le_bytes(self.atime) + spec_u64_to_le_bytes(self.mtime) + spec_u64_to_le_bytes(self.ctime) + spec_u32_to_le_bytes(self.atimensec) + spec_u32_to_le_bytes(self.mtimensec) + spec_u32_to_le_bytes(self.ctimensec) + spec_u32_to_le_bytes(self.mode) + spec_u32_to_le_bytes(self.nlink) + spec_u32_to_le_bytes(self.uid) + spec_u32_to_le_bytes(self.gid) + spec_u32_to_le_bytes(self.rdev) + spec_u32_to_le_bytes(self.blksize) + spec_u32_to_le_bytes(self.flags.bits)
    }

    proof fn lemma_enc_len(&self) {
        le_bytes_facts();
    }

    fn size() -> (r: usize) {
        88
    }

    #[verifier::rlimit(50)]
    fn append_to(&self, out: &mut Vec<u8>) {
        push_u64(out, self.ino);
        push_u64(out, self.size);
        push_u64(out, self.blocks);
        push_u64(out, self.atime);
        push_u64(out, self.mtime);
        push_u64(out, self.ctime);
        push_u32(out, self.atimensec);
        push_u32(out, self.mtimensec);
        push_u32(out, self.ctimensec);
        push_u32(out, self.mode);
        push_u32(out, self.nlink);
        push_u32(out, self.uid);
        push_u32(out, self.gid);
        push_u32(out, self.rdev);
        push_u32(out, self.blksize);
        push_u32(out, self.flags.bits);
        proof {
            le_bytes_facts();
            assert(out@ =~= old(out)@ + self.spec_enc());
        }
    }
}

/// A timestamp inside an extended-stat reply.
#[derive(Debug, Clone, PartialEq, Eq)]
pub struct fuse_sx_time {
    pub tv_sec: u64,
    pub tv_nsec: u32,
    pub __reserved: Padding<4>,
}

impl fuse_sx_time {
    /// Field-for-field equality; reserved regions compare by their bytes.
    pub open spec fn same_fields(self, other: Self) -> bool {
        &&& self.tv_sec == other.tv_sec
        &&& self.tv_nsec == other.tv_nsec
        &&& self.__reserved.spec_bytes() == other.__reserved.spec_bytes()
    }

    /// `self` holds exactly the fields laid out in `s`.
    pub open spec fn dec_from(self, s: Seq<u8>) -> bool
        recommends
            s.len() == 16,
    {
        &&& self.tv_sec == spec_u64_from_le_bytes(s.subrange(0, 8))
        &&& self.tv_nsec == spec_u32_from_le_bytes(s.subrange(8, 12))
        &&& self.__reserved.spec_bytes() == s.subrange(12, 16)
    }

    /// Reads the fixed layout at byte offset `off` of `b`.
    pub fn decode(b: &[u8], off: usize) -> (r: Self)
        requires
            off + 16 <= b@.len(),
        ensures
            r.wf(),
            r.dec_from(b@.subrange(off as int, off + 16)),
    {
        let _n: usize = b.len();
        let r = fuse_sx_time {
            tv_sec: read_u64(b, off),
            tv_nsec: read_u32(b, off + 8),
            __reserved: Padding::decode(b, off + 12),
        };
        proof {
            let s = b@.subrange(off as int, off as int + 16);
            assert(s.subrange(0, 8) =~= b@.subrange(off as int + 0, off as int + 8));
            assert(s.subrange(8, 12) =~= b@.subrange(off as int + 8, off as int + 12));
            assert(s.subrange(12, 16) =~= b@.subrange(off as int + 12, off as int + 16));
        }
        r
    }

    /// The wire image as a fresh buffer.
    pub fn encode(&self) -> (r: Vec<u8>)
        requires
            self.wf(),
        ensures
            r@ == self.spec_enc(),
    {
        let mut v: Vec<u8> = Vec::new();
        self.append_to(&mut v);
        v
    }

    /// Decoding the encoding of a well-formed record reproduces every field (reserved regions by their bytes).
    pub proof fn lemma_round_trip(r: Self, d: Self)
        requires
            r.wf(),
            d.dec_from(r.spec_enc()),
        ensures
            d.same_fields(r),
    {
        le_bytes_facts();
        let s = r.spec_enc();
        assert(s.subrange(0, 8) =~= spec_u64_to_le_bytes(r.tv_sec));
        assert(s.subrange(8, 12) =~= spec_u32_to_le_bytes(r.tv_nsec));
        assert(s.subrange(12, 16) =~= r.__reserved.spec_bytes());
    }
}

impl WireRecord for fuse_sx_time {
    open spec fn wf(&self) -> bool {
        &&& self.__reserved.wf()
    }

    open spec fn spec_size() -> nat {
        16
    }

    open spec fn spec_enc(&self) -> Seq<u8> {
        spec_u64_to_le_bytes(self.tv_sec) + spec_u32_to_le_bytes(self.tv_nsec) + self.__reserved.spec_bytes()
    }

    proof fn lemma_enc_len(&self) {
        le_bytes_facts();
    }

    fn size() -> (r: usize) {
        16
    }

    fn append_to(&self, out: &mut Vec<u8>) {
        push_u64(out, self.tv_sec);
        push_u32(out, self.tv_nsec);
        self.__reserved.append_to(out);
        proof {
            le_bytes_facts();
            assert(out@ =~= old(out)@ + self.spec_enc());
        }
    }
}

/// Extended stat data, mirroring the statx system-call layout.
#[derive(Debug, Clone, PartialEq, Eq)]
pub struct fuse_statx {
    pub mask: u32,
    pub blksize: u32,
    pub attributes: u64,
    pub nlink: u32,
    pub uid: u32,
    pub gid: u32,
    pub mode: u16,
    pub __spare0: Padding<2>,
    pub ino: u64,
    pub size: u64,
    pub blocks: u64,
    pub attributes_mask: u64,
    pub atime: fuse_sx_time,
    pub btime: fuse_sx_time,
    pub ctime: fuse_sx_time,
    pub mtime: fuse_sx_time,
    pub rdev_major: u32,
    pub rdev_minor: u32,
    pub dev_major: u32,
    pub dev_minor: u32,
    pub __spare2: Padding<112>,
}

impl fuse_statx {
    /// Field-for-field equality; reserved regions compare by their bytes.
    pub open spec fn same_fields(self, other: Self) -> bool {
        &&& self.mask == other.mask
        &&& self.blksize == other.blksize
        &&& self.attributes == other.attributes
        &&& self.nlink == other.nlink
        &&& self.uid == other.uid
        &&& self.gid == other.gid
        &&& self.mode == other.mode
        &&& self.__spare0.spec_bytes() == other.__spare0.spec_bytes()
        &&& self.ino == other.ino
        &&& self.size == other.size
        &&& self.blocks == other.blocks
        &&& self.attributes_mask == other.attributes_mask
        &&& self.atime.same_fields(other.atime)
        &&& self.btime.same_fields(other.btime)
        &&& self.ctime.same_fields(other.ctime)
        &&& self.mtime.same_fields(other.mtime)
        &&& self.rdev_major == other.rdev_major
        &&& self.rdev_minor == other.rdev_minor
        &&& self.dev_major == other.dev_major
        &&& self.dev_minor == other.dev_minor
        &&& self.__spare2.spec_bytes() == other.__spare2.spec_bytes()
    }

    /// `self` holds exactly the fields laid out in `s`.
    pub open spec fn dec_from(self, s: Seq<u8>) -> bool
        recommends
            s.len() == 256,
    {
        &&& self.mask == spec_u32_from_le_bytes(s.subrange(0, 4))
        &&& self.blksize == spec_u32_from_le_bytes(s.subrange(4, 8))
        &&& self.attributes == spec_u64_from_le_bytes(s.subrange(8, 16))
        &&& self.nlink == spec_u32_from_le_bytes(s.subrange(16, 20))
        &&& self.uid == spec_u32_from_le_bytes(s.subrange(20, 24))
        &&& self.gid == spec_u32_from_le_bytes(s.subrange(24, 28))
        &&& self.mode == spec_u16_from_le_bytes(s.subrange(28, 30))
        &&& self.__spare0.spec_bytes() == s.subrange(30, 32)
        &&& self.ino == spec_u64_from_le_bytes(s.subrange(32, 40))
        &&& self.size == spec_u64_from_le_bytes(s.subrange(40, 48))
        &&& self.blocks == spec_u64_from_le_bytes(s.subrange(48, 56))
        &&& self.attributes_mask == spec_u64_from_le_bytes(s.subrange(56, 64))
        &&& self.atime.dec_from(s.subrange(64, 80))
        &&& self.btime.dec_from(s.subrange(80, 96))
        &&& self.ctime.dec_from(s.subrange(96, 112))
        &&& self.mtime.dec_from(s.subrange(112, 128))
        &&& self.rdev_major == spec_u32_from_le_bytes(s.subrange(128, 132))
        &&& self.rdev_minor == spec_u32_from_le_bytes(s.subrange(132, 136))
        &&& self.dev_major == spec_u32_from_le_bytes(s.subrange(136, 140))
        &&& self.dev_minor == spec_u32_from_le_bytes(s.subrange(140, 144))
        &&& self.__spare2.spec_bytes() == s.subrange(144, 256)
    }

    /// Reads the fixed layout at byte offset `off` of `b`.
    #[verifier::rlimit(50)]
    pub fn decode(b: &[u8], off: usize) -> (r: Self)
        requires
            off + 256 <= b@.len(),
        ensures
            r.wf(),
            r.dec_from(b@.subrange(off as int, off + 256)),
    {
        let _n: usize = b.len();
        let r = fuse_statx {
            mask: read_u32(b, off),
            blksize: read_u32(b, off + 4),
            attributes: read_u64(b, off + 8),
            nlink: read_u32(b, off + 16),
            uid: read_u32(b, off + 20),
            gid: read_u32(b, off + 24),
            mode: read_u16(b, off + 28),
            __spare0: Padding::decode(b, off + 30),
            ino: read_u64(b, off + 32),
            size: read_u64(b, off + 40),
            blocks: read_u64(b, off + 48),
            attributes_mask: read_u64(b, off + 56),
            atime: fuse_sx_time::decode(b, off + 64),
            btime: fuse_sx_time::decode(b, off + 80),
            ctime: fuse_sx_time::decode(b, off + 96),
            mtime: fuse_sx_time::decode(b, off + 112),
            rdev_major: read_u32(b, off + 128),
            rdev_minor: read_u32(b, off + 132),
            dev_major: read_u32(b, off + 136),
            dev_minor: read_u32(b, off + 140),
            __spare2: Padding::decode(b, off + 144),
        };
        proof {
            let s = b@.subrange(off as int, off as int + 256);
            assert(s.subrange(0, 4) =~= b@.subrange(off as int + 0, off as int + 4));
            assert(s.subrange(4, 8) =~= b@.subrange(off as int + 4, off as int + 8));
            assert(s.subrange(8, 16) =~= b@.subrange(off as int + 8, off as int + 16));
            assert(s.subrange(16, 20) =~= b@.subrange(off as int + 16, off as int + 20));
            assert(s.subrange(20, 24) =~= b@.subrange(off as int + 20, off as int + 24));
            assert(s.subrange(24, 28) =~= b@.subrange(off as int + 24, off as int + 28));
            assert(s.subrange(28, 30) =~= b@.subrange(off as int + 28, off as int + 30));
            assert(s.subrange(30, 32) =~= b@.subrange(off as int + 30, off as int + 32));
            assert(s.subrange(32, 40) =~= b@.subrange(off as int + 32, off as int + 40));
            assert(s.subrange(40, 48) =~= b@.subrange(off as int + 40, off as int + 48));
            assert(s.subrange(48, 56) =~= b@.subrange(off as int + 48, off as int + 56));
            assert(s.subrange(56, 64) =~= b@.subrange(off as int + 56, off as int + 64));
            assert(s.subrange(64, 80) =~= b@.subrange(off as int + 64, off as int + 80));
            assert(s.subrange(80, 96) =~= b@.subrange(off as int + 80, off as int + 96));
            assert(s.subrange(96, 112) =~= b@.subrange(off as int + 96, off as int + 112));
            assert(s.subrange(112, 128) =~= b@.subrange(off as int + 112, off as int + 128));
            assert(s.subrange(128, 132) =~= b@.subrange(off as int + 128, off as int + 132));
            assert(s.subrange(132, 136) =~= b@.subrange(off as int + 132, off as int + 136));
            assert(s.subrange(136, 140) =~= b@.subrange(off as int + 136, off as int + 140));
            assert(s.subrange(140, 144) =~= b@.subrange(off as int + 140, off as int + 144));
            assert(s.subrange(144, 256) =~= b@.subrange(off as int + 144, off as int + 256));
        }
        r
    }

    /// The wire image as a fresh buffer.
    pub fn encode(&self) -> (r: Vec<u8>)
        requires
            self.wf(),
        ensures
            r@ == self.spec_enc(),
    {
        let mut v: Vec<u8> = Vec::new();
        self.append_to(&mut v);
        v
    }

    /// Decoding the encoding of a well-formed record reproduces every field (reserved regions by their bytes).
    #[verifier::rlimit(50)]
    pub proof fn lemma_round_trip(r: Self, d: Self)
        requires
            r.wf(),
            d.dec_from(r.spec_enc()),
        ensures
            d.same_fields(r),
    {
        le_bytes_facts();
        r.atime.lemma_enc_len();
        r.btime.lemma_enc_len();
        r.ctime.lemma_enc_len();
        r.mtime.lemma_enc_len();
        let s = r.spec_enc();
        assert(s.subrange(0, 4) =~= spec_u32_to_le_bytes(r.mask));
        assert(s.subrange(4, 8) =~= spec_u32_to_le_bytes(r.blksize));
        assert(s.subrange(8, 16) =~= spec_u64_to_le_bytes(r.attributes));
        assert(s.subrange(16, 20) =~= spec_u32_to_le_bytes(r.nlink));
        assert(s.subrange(20, 24) =~= spec_u32_to_le_bytes(r.uid));
        assert(s.subrange(24, 28) =~= spec_u32_to_le_bytes(r.gid));
        assert(s.subrange(28, 30) =~= spec_u16_to_le_bytes(r.mode));
        assert(s.subrange(30, 32) =~= r.__spare0.spec_bytes());
        assert(s.subrange(32, 40) =~= spec_u64_to_le_bytes(r.ino));
        assert(s.subrange(40, 48) =~= spec_u64_to_le_bytes(r.size));
        assert(s.subrange(48, 56) =~= spec_u64_to_le_bytes(r.blocks));
        assert(s.subrange(56, 64) =~= spec_u64_to_le_bytes(r.attributes_mask));
        assert(s.subrange(64, 80) =~= r.atime.spec_enc());
        assert(s.subrange(80, 96) =~= r.btime.spec_enc());
        assert(s.subrange(96, 112) =~= r.ctime.spec_enc());
        assert(s.subrange(112, 128) =~= r.mtime.spec_enc());
        assert(s.subrange(128, 132) =~= spec_u32_to_le_bytes(r.rdev_major));
        assert(s.subrange(132, 136) =~= spec_u32_to_le_bytes(r.rdev_minor));
        assert(s.subrange(136, 140) =~= spec_u32_to_le_bytes(r.dev_major));
        assert(s.subrange(140, 144) =~= spec_u32_to_le_bytes(r.dev_minor));
        assert(s.subrange(144, 256) =~= r.__spare2.spec_bytes());
        fuse_sx_time::lemma_round_trip(r.atime, d.atime);
        fuse_sx_time::lemma_round_trip(r.btime, d.btime);
        fuse_sx_time::lemma_round_trip(r.ctime, d.ctime);
        fuse_sx_time::lemma_round_trip(r.mtime, d.mtime);
    }
}

impl WireRecord for fuse_statx {
    open spec fn wf(&self) -> bool {
        &&& self.__spare0.wf()
        &&& self.atime.wf()
        &&& self.btime.wf()
        &&& self.ctime.wf()
        &&& self.mtime.wf()
        &&& self.__spare2.wf()
    }

    open spec fn spec_size() -> nat {
        256
    }

    open spec fn spec_enc(&self) -> Seq<u8> {
        spec_u32_to_le_bytes(self.mask) + spec_u32_to_le_bytes(self.blksize) + spec_u64_to_le_bytes(self.attributes) + spec_u32_to_le_bytes(self.nlink) + spec_u32_to_le_bytes(self.uid) + spec_u32_to_le_bytes(self.gid) + spec_u16_to_le_bytes(self.mode) + self.__spare0.spec_bytes() + spec_u64_to_le_bytes(self.ino) + spec_u64_to_le_bytes(self.size) + spec_u64_to_le_bytes(self.blocks) + spec_u64_to_le_bytes(self.attributes_mask) + self.atime.spec_enc() + self.btime.spec_enc() + self.ctime.spec_enc() + self.mtime.spec_enc() + spec_u32_to_le_bytes(self.rdev_major) + spec_u32_to_le_bytes(self.rdev_minor) + spec_u32_to_le_bytes(self.dev_major) + spec_u32_to_le_bytes(self.dev_minor) + self.__spare2.spec_bytes()
    }

    proof fn lemma_enc_len(&self) {
        le_bytes_facts();
        self.atime.lemma_enc_len();
        self.btime.lemma_enc_len();
        self.ctime.lemma_enc_len();
        self.mtime.lemma_enc_len();
    }

    fn size() -> (r: usize) {
        256
    }

    #[verifier::rlimit(50)]
    fn append_to(&self, out: &mut Vec<u8>) {
        push_u32(out, self.mask);
        push_u32(out, self.blksize);
        push_u64(out, self.attributes);
        push_u32(out, self.nlink);
        push_u32(out, self.uid);
        push_u32(out, self.gid);
        push_u16(out, self.mode);
        self.__spare0.append_to(out);
        push_u64(out, self.ino);
        push_u64(out, self.size);
        push_u64(out, self.blocks);
        push_u64(out, self.attributes_mask);
        self.atime.append_to(out);
        self.btime.append_to(out);
        self.ctime.append_to(out);
        self.mtime.append_to(out);
        push_u32(out, self.rdev_major);
        push_u32(out, self.rdev_minor);
        push_u32(out, self.dev_major);
        push_u32(out, self.dev_minor);
        self.__spare2.append_to(out);
        proof {
            le_bytes_facts();
            self.atime.lemma_enc_len();
            self.btime.lemma_enc_len();
            self.ctime.lemma_enc_len();
            self.mtime.lemma_enc_len();
            assert(out@ =~= old(out)@ + self.spec_enc());
        }
    }
}

/// Filesystem statistics carried in a statfs reply.
#[derive(Debug, Clone, PartialEq, Eq)]
pub struct fuse_kstatfs {
    pub blocks: u64,
    pub bfree: u64,
    pub bavail: u64,
    pub files: u64,
    pub ffree: u64,
    pub bsize: u32,
    pub namelen: u32,
    pub frsize: u32,
    pub padding: Padding<4>,
    pub spare: Padding<24>,
}

impl fuse_kstatfs {
    /// Field-for-field equality; reserved regions compare by their bytes.
    pub open spec fn same_fields(self, other: Self) -> bool {
        &&& self.blocks == other.blocks
        &&& self.bfree == other.bfree
        &&& self.bavail == other.bavail
        &&& self.files == other.files
        &&& self.ffree == other.ffree
        &&& self.bsize == other.bsize
        &&& self.namelen == other.namelen
        &&& self.frsize == other.frsize
        &&& self.padding.spec_bytes() == other.padding.spec_bytes()
        &&& self.spare.spec_bytes() == other.spare.spec_bytes()
    }

    /// `self` holds exactly the fields laid out in `s`.
    pub open spec fn dec_from(self, s: Seq<u8>) -> bool
        recommends
            s.len() == 80,
    {
        &&& self.blocks == spec_u64_from_le_bytes(s.subrange(0, 8))
        &&& self.bfree == spec_u64_from_le_bytes(s.subrange(8, 16))
        &&& self.bavail == spec_u64_from_le_bytes(s.subrange(16, 24))
        &&& self.files == spec_u64_from_le_bytes(s.subrange(24, 32))
        &&& self.ffree == spec_u64_from_le_bytes(s.subrange(32, 40))
        &&& self.bsize == spec_u32_from_le_bytes(s.subrange(40, 44))
        &&& self.namelen == spec_u32_from_le_bytes(s.subrange(44, 48))
        &&& self.frsize == spec_u32_from_le_bytes(s.subrange(48, 52))
        &&& self.padding.spec_bytes() == s.subrange(52, 56)
        &&& self.spare.spec_bytes() == s.subrange(56, 80)
    }

    /// Reads the fixed layout at byte offset `off` of `b`.
    #[verifier::rlimit(50)]
    pub fn decode(b: &[u8], off: usize) -> (r: Self)
        requires
            off + 80 <= b@.len(),
        ensures
            r.wf(),
            r.dec_from(b@.subrange(off as int, off + 80)),
    {
        let _n: usize = b.len();
        let r = fuse_kstatfs {
            blocks: read_u64(b, off),
            bfree: read_u64(b, off + 8),
            bavail: read_u64(b, off + 16),
            files: read_u64(b, off + 24),
            ffree: read_u64(b, off + 32),
            bsize: read_u32(b, off + 40),
            namelen: read_u32(b, off + 44),
            frsize: read_u32(b, off + 48),
            padding: Padding::decode(b, off + 52),
            spare: Padding::decode(b, off + 56),
        };
        proof {
            let s = b@.subrange(off as int, off as int + 80);
            assert(s.subrange(0, 8) =~= b@.subrange(off as int + 0, off as int + 8));
            assert(s.subrange(8, 16) =~= b@.subrange(off as int + 8, off as int + 16));
            assert(s.subrange(16, 24) =~= b@.subrange(off as int + 16, off as int + 24));
            assert(s.subrange(24, 32) =~= b@.subrange(off as int + 24, off as int + 32));
            assert(s.subrange(32, 40) =~= b@.subrange(off as int + 32, off as int + 40));
            assert(s.subrange(40, 44) =~= b@.subrange(off as int + 40, off as int + 44));
            assert(s.subrange(44, 48) =~= b@.subrange(off as int + 44, off as int + 48));
            assert(s.subrange(48, 52) =~= b@.subrange(off as int + 48, off as int + 52));
            assert(s.subrange(52, 56) =~= b@.subrange(off as int + 52, off as int + 56));
            assert(s.subrange(56, 80) =~= b@.subrange(off as int + 56, off as int + 80));
        }
        r
    }

    /// The wire image as a fresh buffer.
    pub fn encode(&self) -> (r: Vec<u8>)
        requires
            self.wf(),
        ensures
            r@ == self.spec_enc(),
    {
        let mut v: Vec<u8> = Vec::new();
        self.append_to(&mut v);
        v
    }

    /// Decoding the encoding of a well-formed record reproduces every field (reserved regions by their bytes).
    #[verifier::rlimit(50)]
    pub proof fn lemma_round_trip(r: Self, d: Self)
        requires
            r.wf(),
            d.dec_from(r.spec_enc()),
        ensures
            d.same_fields(r),
    {
        le_bytes_facts();
        let s = r.spec_enc();
        assert(s.subrange(0, 8) =~= spec_u64_to_le_bytes(r.blocks));
        assert(s.subrange(8, 16) =~= spec_u64_to_le_bytes(r.bfree));
        assert(s.subrange(16, 24) =~= spec_u64_to_le_bytes(r.bavail));
        assert(s.subrange(24, 32) =~= spec_u64_to_le_bytes(r.files));
        assert(s.subrange(32, 40) =~= spec_u64_to_le_bytes(r.ffree));
        assert(s.subrange(40, 44) =~= spec_u32_to_le_bytes(r.bsize));
        assert(s.subrange(44, 48) =~= spec_u32_to_le_bytes(r.namelen));
        assert(s.subrange(48, 52) =~= spec_u32_to_le_bytes(r.frsize));
        assert(s.subrange(52, 56) =~= r.padding.spec_bytes());
        assert(s.subrange(56, 80) =~= r.spare.spec_bytes());
    }
}

impl WireRecord for fuse_kstatfs {
    open spec fn wf(&self) -> bool {
        &&& self.padding.wf()
        &&& self.spare.wf()
    }

    open spec fn spec_size() -> nat {
        80
    }

    open spec fn spec_enc(&self) -> Seq<u8> {
        spec_u64_to_le_bytes(self.blocks) + spec_u64_to_le_bytes(self.bfree) + spec_u64_to_le_bytes(self.bavail) + spec_u64_to_le_bytes(self.files) + spec_u64_to_le_bytes(self.ffree) + spec_u32_to_le_bytes(self.bsize) + spec_u32_to_le_bytes(self.namelen) + spec_u32_to_le_bytes(self.frsize) + self.padding.spec_bytes() + self.spare.spec_bytes()
    }

    proof fn lemma_enc_len(&self) {
        le_bytes_facts();
    }

    fn size() -> (r: usize) {
        80
    }

    #[verifier::rlimit(50)]
    fn append_to(&self, out: &mut Vec<u8>) {
        push_u64(out, self.blocks);
        push_u64(out, self.bfree);
        push_u64(out, self.bavail);
        push_u64(out, self.files);
        push_u64(out, self.ffree);
        push_u32(out, self.bsize);
        push_u32(out, self.namelen);
        push_u32(out, self.frsize);
        self.padding.append_to(out);
        self.spare.append_to(out);
        proof {
            le_bytes_facts();
            assert(out@ =~= old(out)@ + self.spec_enc());
        }
    }
}

/// One advisory file lock, in lock requests and replies.
#[derive(Debug, Clone, PartialEq, Eq)]
pub struct fuse_file_lock {
    pub start: u64,
    pub end: u64,
    pub lock_type: u32,
    pub pid: u32,
}

impl fuse_file_lock {
    /// `self` holds exactly the fields laid out in `s`.
    pub open spec fn dec_from(self, s: Seq<u8>) -> bool
        recommends
            s.len() == 24,
    {
        &&& self.start == spec_u64_from_le_bytes(s.subrange(0, 8))
        &&& self.end == spec_u64_from_le_bytes(s.subrange(8, 16))
        &&& self.lock_type == spec_u32_from_le_bytes(s.subrange(16, 20))
        &&& self.pid == spec_u32_from_le_bytes(s.subrange(20, 24))
    }

    /// Reads the fixed layout at byte offset `off` of `b`.
    pub fn decode(b: &[u8], off: usize) -> (r: Self)
        requires
            off + 24 <= b@.len(),
        ensures
            r.wf(),
            r.dec_from(b@.subrange(off as int, off + 24)),
    {
        let _n: usize = b.len();
        let r = fuse_file_lock {
            start: read_u64(b, off),
            end: read_u64(b, off + 8),
            lock_type: read_u32(b, off + 16),
            pid: read_u32(b, off + 20),
        };
        proof {
            let s = b@.subrange(off as int, off as int + 24);
            assert(s.subrange(0, 8) =~= b@.subrange(off as int + 0, off as int + 8));
            assert(s.subrange(8, 16) =~= b@.subrange(off as int + 8, off as int + 16));
            assert(s.subrange(16, 20) =~= b@.subrange(off as int + 16, off as int + 20));
            assert(s.subrange(20, 24) =~= b@.subrange(off as int + 20, off as int + 24));
        }
        r
    }

    /// The wire image as a fresh buffer.
    pub fn encode(&self) -> (r: Vec<u8>)
        requires
            self.wf(),
        ensures
            r@ == self.spec_enc(),
    {
        let mut v: Vec<u8> = Vec::new();
        self.append_to(&mut v);
        v
    }

    /// Decoding the encoding of a well-formed record reproduces every field.
    pub proof fn lemma_round_trip(r: Self, d: Self)
        requires
            r.wf(),
            d.dec_from(r.spec_enc()),
        ensures
            d == r,
    {
        le_bytes_facts();
        let s = r.spec_enc();
        assert(s.subrange(0, 8) =~= spec_u64_to_le_bytes(r.start));
        assert(s.subrange(8, 16) =~= spec_u64_to_le_bytes(r.end));
        assert(s.subrange(16, 20) =~= spec_u32_to_le_bytes(r.lock_type));
        assert(s.subrange(20, 24) =~= spec_u32_to_le_bytes(r.pid));
    }
}

impl WireRecord for fuse_file_lock {
    open spec fn wf(&self) -> bool {
        true
    }

    open spec fn spec_size() -> nat {
        24
    }

    open spec fn spec_enc(&self) -> Seq<u8> {
        spec_u64_to_le_bytes(self.start) + spec_u64_to_le_bytes(self.end) + spec_u32_to_le_bytes(self.lock_type) + spec_u32_to_le_bytes(self.pid)
    }

    proof fn lemma_enc_len(&self) {
        le_bytes_facts();
    }

    fn size() -> (r: usize) {
        24
    }

    fn append_to(&self, out: &mut Vec<u8>) {
        push_u64(out, self.start);
        push_u64(out, self.end);
        push_u32(out, self.lock_type);
        push_u32(out, self.pid);
        proof {
            le_bytes_facts();
            assert(out@ =~= old(out)@ + self.spec_enc());
        }
    }
}

/// Reply payload of a lookup or entry-creating request: the resolved entry.
#[derive(Debug, Clone, PartialEq, Eq)]
pub struct fuse_entry_out {
    pub nodeid: u64,
    pub generation: u64,
    pub entry_valid: u64,
    pub attr_valid: u64,
    pub entry_valid_nsec: u32,
    pub attr_valid_nsec: u32,
    pub attr: fuse_attr,
}

impl fuse_entry_out {
    /// `self` holds exactly the fields laid out in `s`.
    pub open spec fn dec_from(self, s: Seq<u8>) -> bool
        recommends
            s.len() == 128,
    {
        &&& self.nodeid == spec_u64_from_le_bytes(s.subrange(0, 8))
        &&& self.generation == spec_u64_from_le_bytes(s.subrange(8, 16))
        &&& self.entry_valid == spec_u64_from_le_bytes(s.subrange(16, 24))
        &&& self.attr_valid == spec_u64_from_le_bytes(s.subrange(24, 32))
        &&& self.entry_valid_nsec == spec_u32_from_le_bytes(s.subrange(32, 36))
        &&& self.attr_valid_nsec == spec_u32_from_le_bytes(s.subrange(36, 40))
        &&& self.attr.dec_from(s.subrange(40, 128))
    }

    /// Reads the fixed layout at byte offset `off` of `b`.
    #[verifier::rlimit(50)]
    pub fn decode(b: &[u8], off: usize) -> (r: Self)
        requires
            off + 128 <= b@.len(),
        ensures
            r.wf(),
            r.dec_from(b@.subrange(off as int, off + 128)),
    {
        let _n: usize = b.len();
        let r = fuse_entry_out {
            nodeid: read_u64(b, off),
            generation: read_u64(b, off + 8),
            entry_valid: read_u64(b, off + 16),
            attr_valid: read_u64(b, off + 24),
            entry_valid_nsec: read_u32(b, off + 32),
            attr_valid_nsec: read_u32(b, off + 36),
            attr: fuse_attr::decode(b, off + 40),
        };
        proof {
            let s = b@.subrange(off as int, off as int + 128);
            assert(s.subrange(0, 8) =~= b@.subrange(off as int + 0, off as int + 8));
            assert(s.subrange(8, 16) =~= b@.subrange(off as int + 8, off as int + 16));
            assert(s.subrange(16, 24) =~= b@.subrange(off as int + 16, off as int + 24));
            assert(s.subrange(24, 32) =~= b@.subrange(off as int + 24, off as int + 32));
            assert(s.subrange(32, 36) =~= b@.subrange(off as int + 32, off as int + 36));
            assert(s.subrange(36, 40) =~= b@.subrange(off as int + 36, off as int + 40));
            assert(s.subrange(40, 128) =~= b@.subrange(off as int + 40, off as int + 128));
        }
        r
    }

    /// The wire image as a fresh buffer.
    pub fn encode(&self) -> (r: Vec<u8>)
        requires
            self.wf(),
        ensures
            r@ == self.spec_enc(),
    {
        let mut v: Vec<u8> = Vec::new();
        self.append_to(&mut v);
        v
    }

    /// Decoding the encoding of a well-formed record reproduces every field.
    #[verifier::rlimit(50)]
    pub proof fn lemma_round_trip(r: Self, d: Self)
        requires
            r.wf(),
            d.dec_from(r.spec_enc()),
        ensures
            d == r,
    {
        le_bytes_facts();
        r.attr.lemma_enc_len();
        let s = r.spec_enc();
        assert(s.subrange(0, 8) =~= spec_u64_to_le_bytes(r.nodeid));
        assert(s.subrange(8, 16) =~= spec_u64_to_le_bytes(r.generation));
        assert(s.subrange(16, 24) =~= spec_u64_to_le_bytes(r.entry_valid));
        assert(s.subrange(24, 32) =~= spec_u64_to_le_bytes(r.attr_valid));
        assert(s.subrange(32, 36) =~= spec_u32_to_le_bytes(r.entry_valid_nsec));
        assert(s.subrange(36, 40) =~= spec_u32_to_le_bytes(r.attr_valid_nsec));
        assert(s.subrange(40, 128) =~= r.attr.spec_enc());
        fuse_attr::lemma_round_trip(r.attr, d.attr);
    }
}

impl WireRecord for fuse_entry_out {
    open spec fn wf(&self) -> bool {
        &&& self.attr.wf()
    }

    open spec fn spec_size() -> nat {
        128
    }

    open spec fn spec_enc(&self) -> Seq<u8> {
        spec_u64_to_le_bytes(self.nodeid) + spec_u64_to_le_bytes(self.generation) + spec_u64_to_le_bytes(self.entry_valid) + spec_u64_to_le_bytes(self.attr_valid) + spec_u32_to_le_bytes(self.entry_valid_nsec) + spec_u32_to_le_bytes(self.attr_valid_nsec) + self.attr.spec_enc()
    }

    proof fn lemma_enc_len(&self) {
        le_bytes_facts();
        self.attr.lemma_enc_len();
    }

    fn size() -> (r: usize) {
        128
    }

    #[verifier::rlimit(50)]
    fn append_to(&self, out: &mut Vec<u8>) {
        push_u64(out, self.nodeid);
        push_u64(out, self.generation);
        push_u64(out, self.entry_valid);
        push_u64(out, self.attr_valid);
        push_u32(out, self.entry_valid_nsec);
        push_u32(out, self.attr_valid_nsec);
        self.attr.append_to(out);
        proof {
            le_bytes_facts();
            self.attr.lemma_enc_len();
            assert(out@ =~= old(out)@ + self.spec_enc());
        }
    }
}

/// Reply payload of a get-attributes request.
#[derive(Debug, Clone, PartialEq, Eq)]
pub struct fuse_attr_out {
    pub attr_valid: u64,
    pub attr_valid_nsec: u32,
    pub dummy: Padding<4>,
    pub attr: fuse_attr,
}

impl fuse_attr_out {
    /// Field-for-field equality; reserved regions compare by their bytes.
    pub open spec fn same_fields(self, other: Self) -> bool {
        &&& self.attr_valid == other.attr_valid
        &&& self.attr_valid_nsec == other.attr_valid_nsec
        &&& self.dummy.spec_bytes() == other.dummy.spec_bytes()
        &&& self.attr == other.attr
    }

    /// `self` holds exactly the fields laid out in `s`.
    pub open spec fn dec_from(self, s: Seq<u8>) -> bool
        recommends
            s.len() == 104,
    {
        &&& self.attr_valid == spec_u64_from_le_bytes(s.subrange(0, 8))
        &&& self.attr_valid_nsec == spec_u32_from_le_bytes(s.subrange(8, 12))
        &&& self.dummy.spec_bytes() == s.subrange(12, 16)
        &&& self.attr.dec_from(s.subrange(16, 104))
    }

    /// Reads the fixed layout at byte offset `off` of `b`.
    #[verifier::rlimit(50)]
    pub fn decode(b: &[u8], off: usize) -> (r: Self)
        requires
            off + 104 <= b@.len(),
        ensures
            r.wf(),
            r.dec_from(b@.subrange(off as int, off + 104)),
    {
        let _n: usize = b.len();
        let r = fuse_attr_out {
            attr_valid: read_u64(b, off),
            attr_valid_nsec: read_u32(b, off + 8),
            dummy: Padding::decode(b, off + 12),
            attr: fuse_attr::decode(b, off + 16),
        };
        proof {
            let s = b@.subrange(off as int, off as int + 104);
            assert(s.subrange(0, 8) =~= b@.subrange(off as int + 0, off as int + 8));
            assert(s.subrange(8, 12) =~= b@.subrange(off as int + 8, off as int + 12));
            assert(s.subrange(12, 16) =~= b@.subrange(off as int + 12, off as int + 16));
            assert(s.subrange(16, 104) =~= b@.subrange(off as int + 16, off as int + 104));
        }
        r
    }

    /// The wire image as a fresh buffer.
    pub fn encode(&self) -> (r: Vec<u8>)
        requires
            self.wf(),
        ensures
            r@ == self.spec_enc(),
    {
        let mut v: Vec<u8> = Vec::new();
        self.append_to(&mut v);
        v
    }

    /// Decoding the encoding of a well-formed record reproduces every field (reserved regions by their bytes).
    #[verifier::rlimit(50)]
    pub proof fn lemma_round_trip(r: Self, d: Self)
        requires
            r.wf(),
            d.dec_from(r.spec_enc()),
        ensures
            d.same_fields(r),
    {
        le_bytes_facts();
        r.attr.lemma_enc_len();
        let s = r.spec_enc();
        assert(s.subrange(0, 8) =~= spec_u64_to_le_bytes(r.attr_valid));
        assert(s.subrange(8, 12) =~= spec_u32_to_le_bytes(r.attr_valid_nsec));
        assert(s.subrange(12, 16) =~= r.dummy.spec_bytes());
        assert(s.subrange(16, 104) =~= r.attr.spec_enc());
        fuse_attr::lemma_round_trip(r.attr, d.attr);
    }
}

impl WireRecord for fuse_attr_out {
    open spec fn wf(&self) -> bool {
        &&& self.dummy.wf()
        &&& self.attr.wf()
    }

    open spec fn spec_size() -> nat {
        104
    }

    open spec fn spec_enc(&self) -> Seq<u8> {
        spec_u64_to_le_bytes(self.attr_valid) + spec_u32_to_le_bytes(self.attr_valid_nsec) + self.dummy.spec_bytes() + self.attr.spec_enc()
    }

    proof fn lemma_enc_len(&self) {
        le_bytes_facts();
        self.attr.lemma_enc_len();
    }

    fn size() -> (r: usize) {
        104
    }

    #[verifier::rlimit(50)]
    fn append_to(&self, out: &mut Vec<u8>) {
        push_u64(out, self.attr_valid);
        push_u32(out, self.attr_valid_nsec);
        self.dummy.append_to(out);
        self.attr.append_to(out);
        proof {
            le_bytes_facts();
            self.attr.lemma_enc_len();
            assert(out@ =~= old(out)@ + self.spec_enc());
        }
    }
}

/// Payload of a forget request: drop this many lookups of the node.
#[derive(Debug, Clone, PartialEq, Eq)]
pub struct fuse_forget_in {
    pub nlookup: u64,
}

impl fuse_forget_in {
    /// `self` holds exactly the fields laid out in `s`.
    pub open spec fn dec_from(self, s: Seq<u8>) -> bool
        recommends
            s.len() == 8,
    {
        &&& self.nlookup == spec_u64_from_le_bytes(s.subrange(0, 8))
    }

    /// Reads the fixed layout at byte offset `off` of `b`.
    pub fn decode(b: &[u8], off: usize) -> (r: Self)
        requires
            off + 8 <= b@.len(),
        ensures
            r.wf(),
            r.dec_from(b@.subrange(off as int, off + 8)),
    {
        let _n: usize = b.len();
        let r = fuse_forget_in {
            nlookup: read_u64(b, off),
        };
        proof {
            let s = b@.subrange(off as int, off as int + 8);
            assert(s.subrange(0, 8) =~= b@.subrange(off as int + 0, off as int + 8));
        }
        r
    }

    /// The wire image as a fresh buffer.
    pub fn encode(&self) -> (r: Vec<u8>)
        requires
            self.wf(),
        ensures
            r@ == self.spec_enc(),
    {
        let mut v: Vec<u8> = Vec::new();
        self.append_to(&mut v);
        v
    }

    /// Decoding the encoding of a well-formed record reproduces every field.
    pub proof fn lemma_round_trip(r: Self, d: Self)
        requires
            r.wf(),
            d.dec_from(r.spec_enc()),
        ensures
            d == r,
    {
        le_bytes_facts();
        let s = r.spec_enc();
        assert(s.subrange(0, 8) =~= spec_u64_to_le_bytes(r.nlookup));
    }
}

impl WireRecord for fuse_forget_in {
    open spec fn wf(&self) -> bool {
        true
    }

    open spec fn spec_size() -> nat {
        8
    }

    open spec fn spec_enc(&self) -> Seq<u8> {
        spec_u64_to_le_bytes(self.nlookup)
    }

    proof fn lemma_enc_len(&self) {
        le_bytes_facts();
    }

    fn size() -> (r: usize) {
        8
    }

    fn append_to(&self, out: &mut Vec<u8>) {
        push_u64(out, self.nlookup);
        proof {
            le_bytes_facts();
            assert(out@ =~= old(out)@ + self.spec_enc());
        }
    }
}

/// Payload of a get-attributes request.
#[derive(Debug, Clone, PartialEq, Eq)]
pub struct fuse_getattr_in {
    pub getattr_flags: GetattrFlags,
    pub dummy: u32,
    pub fh: u64,
}

impl fuse_getattr_in {
    /// `self` holds exactly the fields laid out in `s`.
    pub open spec fn dec_from(self, s: Seq<u8>) -> bool
        recommends
            s.len() == 16,
    {
        &&& self.getattr_flags.bits == spec_u32_from_le_bytes(s.subrange(0, 4))
        &&& self.dummy == spec_u32_from_le_bytes(s.subrange(4, 8))
        &&& self.fh == spec_u64_from_le_bytes(s.subrange(8, 16))
    }

    /// Reads the fixed layout at byte offset `off` of `b`.
    pub fn decode(b: &[u8], off: usize) -> (r: Self)
        requires
            off + 16 <= b@.len(),
        ensures
            r.wf(),
            r.dec_from(b@.subrange(off as int, off + 16)),
    {
        let _n: usize = b.len();
        let r = fuse_getattr_in {
            getattr_flags: GetattrFlags { bits: read_u32(b, off) },
            dummy: read_u32(b, off + 4),
            fh: read_u64(b, off + 8),
        };
        proof {
            let s = b@.subrange(off as int, off as int + 16);
            assert(s.subrange(0, 4) =~= b@.subrange(off as int + 0, off as int + 4));
            assert(s.subrange(4, 8) =~= b@.subrange(off as int + 4, off as int + 8));
            assert(s.subrange(8, 16) =~= b@.subrange(off as int + 8, off as int + 16));
        }
        r
    }

    /// The wire image as a fresh buffer.
    pub fn encode(&self) -> (r: Vec<u8>)
        requires
            self.wf(),
        ensures
            r@ == self.spec_enc(),
    {
        let mut v: Vec<u8> = Vec::new();
        self.append_to(&mut v);
        v
    }

    /// Decoding the encoding of a well-formed record reproduces every field.
    pub proof fn lemma_round_trip(r: Self, d: Self)
        requires
            r.wf(),
            d.dec_from(r.spec_enc()),
        ensures
            d == r,
    {
        le_bytes_facts();
        let s = r.spec_enc();
        assert(s.subrange(0, 4) =~= spec_u32_to_le_bytes(r.getattr_flags.bits));
        assert(s.subrange(4, 8) =~= spec_u32_to_le_bytes(r.dummy));
        assert(s.subrange(8, 16) =~= spec_u64_to_le_bytes(r.fh));
    }
}

impl WireRecord for fuse_getattr_in {
    open spec fn wf(&self) -> bool {
        true
    }

    open spec fn spec_size() -> nat {
        16
    }

    open spec fn spec_enc(&self) -> Seq<u8> {
        spec_u32_to_le_bytes(self.getattr_flags.bits) + spec_u32_to_le_bytes(self.dummy) + spec_u64_to_le_bytes(self.fh)
    }

    proof fn lemma_enc_len(&self) {
        le_bytes_facts();
    }

    fn size() -> (r: usize) {
        16
    }

    fn append_to(&self, out: &mut Vec<u8>) {
        push_u32(out, self.getattr_flags.bits);
        push_u32(out, self.dummy);
        push_u64(out, self.fh);
        proof {
            le_bytes_facts();
            assert(out@ =~= old(out)@ + self.spec_enc());
        }
    }
}

/// Payload of a set-attributes request; `valid` marks the meaningful fields.
#[derive(Debug, Clone, PartialEq, Eq)]
pub struct fuse_setattr_in {
    pub valid: SetattrValid,
    pub padding: u32,
    pub fh: u64,
    pub size: u64,
    pub lock_owner: u64,
    pub atime: u64,
    pub mtime: u64,
    pub ctime: u64,
    pub atimensec: u32,
    pub mtimensec: u32,
    pub ctimensec: u32,
    pub mode: u32,
    pub unused4: u32,
    pub uid: u32,
    pub gid: u32,
    pub unused5: u32,
}

impl fuse_setattr_in {
    /// `self` holds exactly the fields laid out in `s`.
    pub open spec fn dec_from(self, s: Seq<u8>) -> bool
        recommends
            s.len() == 88,
    {
        &&& self.valid.bits == spec_u32_from_le_bytes(s.subrange(0, 4))
        &&& self.padding == spec_u32_from_le_bytes(s.subrange(4, 8))
        &&& self.fh == spec_u64_from_le_bytes(s.subrange(8, 16))
        &&& self.size == spec_u64_from_le_bytes(s.subrange(16, 24))
        &&& self.lock_owner == spec_u64_from_le_bytes(s.subrange(24, 32))
        &&& self.atime == spec_u64_from_le_bytes(s.subrange(32, 40))
        &&& self.mtime == spec_u64_from_le_bytes(s.subrange(40, 48))
        &&& self.ctime == spec_u64_from_le_bytes(s.subrange(48, 56))
        &&& self.atimensec == spec_u32_from_le_bytes(s.subrange(56, 60))
        &&& self.mtimensec == spec_u32_from_le_bytes(s.subrange(60, 64))
        &&& self.ctimensec == spec_u32_from_le_bytes(s.subrange(64, 68))
        &&& self.mode == spec_u32_from_le_bytes(s.subrange(68, 72))
        &&& self.unused4 == spec_u32_from_le_bytes(s.subrange(72, 76))
        &&& self.uid == spec_u32_from_le_bytes(s.subrange(76, 80))
        &&& self.gid == spec_u32_from_le_bytes(s.subrange(80, 84))
        &&& self.unused5 == spec_u32_from_le_bytes(s.subrange(84, 88))
    }

    /// Reads the fixed layout at byte offset `off` of `b`.
    #[verifier::rlimit(50)]
    pub fn decode(b: &[u8], off: usize) -> (r: Self)
        requires
            off + 88 <= b@.len(),
        ensures
            r.wf(),
            r.dec_from(b@.subrange(off as int, off + 88)),
    {
        let _n: usize = b.len();
        let r = fuse_setattr_in {
            valid: SetattrValid { bits: read_u32(b, off) },
            padding: read_u32(b, off + 4),
            fh: read_u64(b, off + 8),
            size: read_u64(b, off + 16),
            lock_owner: read_u64(b, off + 24),
            atime: read_u64(b, off + 32),
            mtime: read_u64(b, off + 40),
            ctime: read_u64(b, off + 48),
            atimensec: read_u32(b, off + 56),
            mtimensec: read_u32(b, off + 60),
            ctimensec: read_u32(b, off + 64),
            mode: read_u32(b, off + 68),
            unused4: read_u32(b, off + 72),
            uid: read_u32(b, off + 76),
            gid: read_u32(b, off + 80),
            unused5: read_u32(b, off + 84),
        };
        proof {
            let s = b@.subrange(off as int, off as int + 88);
            assert(s.subrange(0, 4) =~= b@.subrange(off as int + 0, off as int + 4));
            assert(s.subrange(4, 8) =~= b@.subrange(off as int + 4, off as int + 8));
            assert(s.subrange(8, 16) =~= b@.subrange(off as int + 8, off as int + 16));
            assert(s.subrange(16, 24) =~= b@.subrange(off as int + 16, off as int + 24));
            assert(s.subrange(24, 32) =~= b@.subrange(off as int + 24, off as int + 32));
            assert(s.subrange(32, 40) =~= b@.subrange(off as int + 32, off as int + 40));
            assert(s.subrange(40, 48) =~= b@.subrange(off as int + 40, off as int + 48));
            assert(s.subrange(48, 56) =~= b@.subrange(off as int + 48, off as int + 56));
            assert(s.subrange(56, 60) =~= b@.subrange(off as int + 56, off as int + 60));
            assert(s.subrange(60, 64) =~= b@.subrange(off as int + 60, off as int + 64));
            assert(s.subrange(64, 68) =~= b@.subrange(off as int + 64, off as int + 68));
            assert(s.subrange(68, 72) =~= b@.subrange(off as int + 68, off as int + 72));
            assert(s.subrange(72, 76) =~= b@.subrange(off as int + 72, off as int + 76));
            assert(s.subrange(76, 80) =~= b@.subrange(off as int + 76, off as int + 80));
            assert(s.subrange(80, 84) =~= b@.subrange(off as int + 80, off as int + 84));
            assert(s.subrange(84, 88) =~= b@.subrange(off as int + 84, off as int + 88));
        }
        r
    }

    /// The wire image as a fresh buffer.
    pub fn encode(&self) -> (r: Vec<u8>)
        requires
            self.wf(),
        ensures
            r@ == self.spec_enc(),
    {
        let mut v: Vec<u8> = Vec::new();
        self.append_to(&mut v);
        v
    }

    /// Decoding the encoding of a well-formed record reproduces every field.
    #[verifier::rlimit(50)]
    pub proof fn lemma_round_trip(r: Self, d: Self)
        requires
            r.wf(),
            d.dec_from(r.spec_enc()),
        ensures
            d == r,
    {
        le_bytes_facts();
        let s = r.spec_enc();
        assert(s.subrange(0, 4) =~= spec_u32_to_le_bytes(r.valid.bits));
        assert(s.subrange(4, 8) =~= spec_u32_to_le_bytes(r.padding));
        assert(s.subrange(8, 16) =~= spec_u64_to_le_bytes(r.fh));
        assert(s.subrange(16, 24) =~= spec_u64_to_le_bytes(r.size));
        assert(s.subrange(24, 32) =~= spec_u64_to_le_bytes(r.lock_owner));
        assert(s.subrange(32, 40) =~= spec_u64_to_le_bytes(r.atime));
        assert(s.subrange(40, 48) =~= spec_u64_to_le_bytes(r.mtime));
        assert(s.subrange(48, 56) =~= spec_u64_to_le_bytes(r.ctime));
        assert(s.subrange(56, 60) =~= spec_u32_to_le_bytes(r.atimensec));
        assert(s.subrange(60, 64) =~= spec_u32_to_le_bytes(r.mtimensec));
        assert(s.subrange(64, 68) =~= spec_u32_to_le_bytes(r.ctimensec));
        assert(s.subrange(68, 72) =~= spec_u32_to_le_bytes(r.mode));
        assert(s.subrange(72, 76) =~= spec_u32_to_le_bytes(r.unused4));
        assert(s.subrange(76, 80) =~= spec_u32_to_le_bytes(r.uid));
        assert(s.subrange(80, 84) =~= spec_u32_to_le_bytes(r.gid));
        assert(s.subrange(84, 88) =~= spec_u32_to_le_bytes(r.unused5));
    }
}

impl WireRecord for fuse_setattr_in {
    open spec fn wf(&self) -> bool {
        true
    }

    open spec fn spec_size() -> nat {
        88
    }

    open spec fn spec_enc(&self) -> Seq<u8> {
        spec_u32_to_le_bytes(self.valid.bits) + spec_u32_to_le_bytes(self.padding) + spec_u64_to_le_bytes(self.fh) + spec_u64_to_le_bytes(self.size) + spec_u64_to_le_bytes(self.lock_owner) + spec_u64_to_le_bytes(self.atime) + spec_u64_to_le_bytes(self.mtime) + spec_u64_to_le_bytes(self.ctime) + spec_u32_to_le_bytes(self.atimensec) + spec_u32_to_le_bytes(self.mtimensec) + spec_u32_to_le_bytes(self.ctimensec) + spec_u32_to_le_bytes(self.mode) + spec_u32_to_le_bytes(self.unused4) + spec_u32_to_le_bytes(self.uid) + spec_u32_to_le_bytes(self.gid) + spec_u32_to_le_bytes(self.unused5)
    }

    proof fn lemma_enc_len(&self) {
        le_bytes_facts();
    }

    fn size() -> (r: usize) {
        88
    }

    #[verifier::rlimit(50)]
    fn append_to(&self, out: &mut Vec<u8>) {
        push_u32(out, self.valid.bits);
        push_u32(out, self.padding);
        push_u64(out, self.fh);
        push_u64(out, self.size);
        push_u64(out, self.lock_owner);
        push_u64(out, self.atime);
        push_u64(out, self.mtime);
        push_u64(out, self.ctime);
        push_u32(out, self.atimensec);
        push_u32(out, self.mtimensec);
        push_u32(out, self.ctimensec);
        push_u32(out, self.mode);
        push_u32(out, self.unused4);
        push_u32(out, self.uid);
        push_u32(out, self.gid);
        push_u32(out, self.unused5);
        proof {
            le_bytes_facts();
            assert(out@ =~= old(out)@ + self.spec_enc());
        }
    }
}

/// Payload of a make-node request; the new name follows as trailing bytes.
#[derive(Debug, Clone, PartialEq, Eq)]
pub struct fuse_mknod_in {
    pub mode: u32,
    pub rdev: u32,
    pub umask: u32,
    pub padding: u32,
}

impl fuse_mknod_in {
    /// `self` holds exactly the fields laid out in `s`.
    pub open spec fn dec_from(self, s: Seq<u8>) -> bool
        recommends
            s.len() == 16,
    {
        &&& self.mode == spec_u32_from_le_bytes(s.subrange(0, 4))
        &&& self.rdev == spec_u32_from_le_bytes(s.subrange(4, 8))
        &&& self.umask == spec_u32_from_le_bytes(s.subrange(8, 12))
        &&& self.padding == spec_u32_from_le_bytes(s.subrange(12, 16))
    }

    /// Reads the fixed layout at byte offset `off` of `b`.
    pub fn decode(b: &[u8], off: usize) -> (r: Self)
        requires
            off + 16 <= b@.len(),
        ensures
            r.wf(),
            r.dec_from(b@.subrange(off as int, off + 16)),
    {
        let _n: usize = b.len();
        let r = fuse_mknod_in {
            mode: read_u32(b, off),
            rdev: read_u32(b, off + 4),
            umask: read_u32(b, off + 8),
            padding: read_u32(b, off + 12),
        };
        proof {
            let s = b@.subrange(off as int, off as int + 16);
            assert(s.subrange(0, 4) =~= b@.subrange(off as int + 0, off as int + 4));
            assert(s.subrange(4, 8) =~= b@.subrange(off as int + 4, off as int + 8));
            assert(s.subrange(8, 12) =~= b@.subrange(off as int + 8, off as int + 12));
            assert(s.subrange(12, 16) =~= b@.subrange(off as int + 12, off as int + 16));
        }
        r
    }

    /// The wire image as a fresh buffer.
    pub fn encode(&self) -> (r: Vec<u8>)
        requires
            self.wf(),
        ensures
            r@ == self.spec_enc(),
    {
        let mut v: Vec<u8> = Vec::new();
        self.append_to(&mut v);
        v
    }

    /// Decoding the encoding of a well-formed record reproduces every field.
    pub proof fn lemma_round_trip(r: Self, d: Self)
        requires
            r.wf(),
            d.dec_from(r.spec_enc()),
        ensures
            d == r,
    {
        le_bytes_facts();
        let s = r.spec_enc();
        assert(s.subrange(0, 4) =~= spec_u32_to_le_bytes(r.mode));
        assert(s.subrange(4, 8) =~= spec_u32_to_le_bytes(r.rdev));
        assert(s.subrange(8, 12) =~= spec_u32_to_le_bytes(r.umask));
        assert(s.subrange(12, 16) =~= spec_u32_to_le_bytes(r.padding));
    }
}

impl WireRecord for fuse_mknod_in {
    open spec fn wf(&self) -> bool {
        true
    }

    open spec fn spec_size() -> nat {
        16
    }

    open spec fn spec_enc(&self) -> Seq<u8> {
        spec_u32_to_le_bytes(self.mode) + spec_u32_to_le_bytes(self.rdev) + spec_u32_to_le_bytes(self.umask) + spec_u32_to_le_bytes(self.padding)
    }

    proof fn lemma_enc_len(&self) {
        le_bytes_facts();
    }

    fn size() -> (r: usize) {
        16
    }

    fn append_to(&self, out: &mut Vec<u8>) {
        push_u32(out, self.mode);
        push_u32(out, self.rdev);
        push_u32(out, self.umask);
        push_u32(out, self.padding);
        proof {
            le_bytes_facts();
            assert(out@ =~= old(out)@ + self.spec_enc());
        }
    }
}

/// Payload of a make-directory request; the new name follows as trailing bytes.
#[derive(Debug, Clone, PartialEq, Eq)]
pub struct fuse_mkdir_in {
    pub mode: u32,
    pub umask: u32,
}

impl fuse_mkdir_in {
    /// `self` holds exactly the fields laid out in `s`.
    pub open spec fn dec_from(self, s: Seq<u8>) -> bool
        recommends
            s.len() == 8,
    {
        &&& self.mode == spec_u32_from_le_bytes(s.subrange(0, 4))
        &&& self.umask == spec_u32_from_le_bytes(s.subrange(4, 8))
    }

    /// Reads the fixed layout at byte offset `off` of `b`.
    pub fn decode(b: &[u8], off: usize) -> (r: Self)
        requires
            off + 8 <= b@.len(),
        ensures
            r.wf(),
            r.dec_from(b@.subrange(off as int, off + 8)),
    {
        let _n: usize = b.len();
        let r = fuse_mkdir_in {
            mode: read_u32(b, off),
            umask: read_u32(b, off + 4),
        };
        proof {
            let s = b@.subrange(off as int, off as int + 8);
            assert(s.subrange(0, 4) =~= b@.subrange(off as int + 0, off as int + 4));
            assert(s.subrange(4, 8) =~= b@.subrange(off as int + 4, off as int + 8));
        }
        r
    }

    /// The wire image as a fresh buffer.
    pub fn encode(&self) -> (r: Vec<u8>)
        requires
            self.wf(),
        ensures
            r@ == self.spec_enc(),
    {
        let mut v: Vec<u8> = Vec::new();
        self.append_to(&mut v);
        v
    }

    /// Decoding the encoding of a well-formed record reproduces every field.
    pub proof fn lemma_round_trip(r: Self, d: Self)
        requires
            r.wf(),
            d.dec_from(r.spec_enc()),
        ensures
            d == r,
    {
        le_bytes_facts();
        let s = r.spec_enc();
        assert(s.subrange(0, 4) =~= spec_u32_to_le_bytes(r.mode));
        assert(s.subrange(4, 8) =~= spec_u32_to_le_bytes(r.umask));
    }
}

impl WireRecord for fuse_mkdir_in {
    open spec fn wf(&self) -> bool {
        true
    }

    open spec fn spec_size() -> nat {
        8
    }

    open spec fn spec_enc(&self) -> Seq<u8> {
        spec_u32_to_le_bytes(self.mode) + spec_u32_to_le_bytes(self.umask)
    }

    proof fn lemma_enc_len(&self) {
        le_bytes_facts();
    }

    fn size() -> (r: usize) {
        8
    }

    fn append_to(&self, out: &mut Vec<u8>) {
        push_u32(out, self.mode);
        push_u32(out, self.umask);
        proof {
            le_bytes_facts();
            assert(out@ =~= old(out)@ + self.spec_enc());
        }
    }
}

/// Payload of a rename request; the two names follow as trailing bytes.
#[derive(Debug, Clone, PartialEq, Eq)]
pub struct fuse_rename_in {
    pub newdir: u64,
}

impl fuse_rename_in {
    /// `self` holds exactly the fields laid out in `s`.
    pub open spec fn dec_from(self, s: Seq<u8>) -> bool
        recommends
            s.len() == 8,
    {
        &&& self.newdir == spec_u64_from_le_bytes(s.subrange(0, 8))
    }

    /// Reads the fixed layout at byte offset `off` of `b`.
    pub fn decode(b: &[u8], off: usize) -> (r: Self)
        requires
            off + 8 <= b@.len(),
        ensures
            r.wf(),
            r.dec_from(b@.subrange(off as int, off + 8)),
    {
        let _n: usize = b.len();
        let r = fuse_rename_in {
            newdir: read_u64(b, off),
        };
        proof {
            let s = b@.subrange(off as int, off as int + 8);
            assert(s.subrange(0, 8) =~= b@.subrange(off as int + 0, off as int + 8));
        }
        r
    }

    /// The wire image as a fresh buffer.
    pub fn encode(&self) -> (r: Vec<u8>)
        requires
            self.wf(),
        ensures
            r@ == self.spec_enc(),
    {
        let mut v: Vec<u8> = Vec::new();
        self.append_to(&mut v);
        v
    }

    /// Decoding the encoding of a well-formed record reproduces every field.
    pub proof fn lemma_round_trip(r: Self, d: Self)
        requires
            r.wf(),
            d.dec_from(r.spec_enc()),
        ensures
            d == r,
    {
        le_bytes_facts();
        let s = r.spec_enc();
        assert(s.subrange(0, 8) =~= spec_u64_to_le_bytes(r.newdir));
    }
}

impl WireRecord for fuse_rename_in {
    open spec fn wf(&self) -> bool {
        true
    }

    open spec fn spec_size() -> nat {
        8
    }

    open spec fn spec_enc(&self) -> Seq<u8> {
        spec_u64_to_le_bytes(self.newdir)
    }

    proof fn lemma_enc_len(&self) {
        le_bytes_facts();
    }

    fn size() -> (r: usize) {
        8
    }

    fn append_to(&self, out: &mut Vec<u8>) {
        push_u64(out, self.newdir);
        proof {
            le_bytes_facts();
            assert(out@ =~= old(out)@ + self.spec_enc());
        }
    }
}

/// Payload of a hard-link request; the new name follows as trailing bytes.
#[derive(Debug, Clone, PartialEq, Eq)]
pub struct fuse_link_in {
    pub oldnodeid: u64,
}

impl fuse_link_in {
    /// `self` holds exactly the fields laid out in `s`.
    pub open spec fn dec_from(self, s: Seq<u8>) -> bool
        recommends
            s.len() == 8,
    {
        &&& self.oldnodeid == spec_u64_from_le_bytes(s.subrange(0, 8))
    }

    /// Reads the fixed layout at byte offset `off` of `b`.
    pub fn decode(b: &[u8], off: usize) -> (r: Self)
        requires
            off + 8 <= b@.len(),
        ensures
            r.wf(),
            r.dec_from(b@.subrange(off as int, off + 8)),
    {
        let _n: usize = b.len();
        let r = fuse_link_in {
            oldnodeid: read_u64(b, off),
        };
        proof {
            let s = b@.subrange(off as int, off as int + 8);
            assert(s.subrange(0, 8) =~= b@.subrange(off as int + 0, off as int + 8));
        }
        r
    }

    /// The wire image as a fresh buffer.
    pub fn encode(&self) -> (r: Vec<u8>)
        requires
            self.wf(),
        ensures
            r@ == self.spec_enc(),
    {
        let mut v: Vec<u8> = Vec::new();
        self.append_to(&mut v);
        v
    }

    /// Decoding the encoding of a well-formed record reproduces every field.
    pub proof fn lemma_round_trip(r: Self, d: Self)
        requires
            r.wf(),
            d.dec_from(r.spec_enc()),
        ensures
            d == r,
    {
        le_bytes_facts();
        let s = r.spec_enc();
        assert(s.subrange(0, 8) =~= spec_u64_to_le_bytes(r.oldnodeid));
    }
}

impl WireRecord for fuse_link_in {
    open spec fn wf(&self) -> bool {
        true
    }

    open spec fn spec_size() -> nat {
        8
    }

    open spec fn spec_enc(&self) -> Seq<u8> {
        spec_u64_to_le_bytes(self.oldnodeid)
    }

    proof fn lemma_enc_len(&self) {
        le_bytes_facts();
    }

    fn size() -> (r: usize) {
        8
    }

    fn append_to(&self, out: &mut Vec<u8>) {
        push_u64(out, self.oldnodeid);
        proof {
            le_bytes_facts();
            assert(out@ =~= old(out)@ + self.spec_enc());
        }
    }
}

/// Payload of an open or open-directory request.
#[derive(Debug, Clone, PartialEq, Eq)]
pub struct fuse_open_in {
    pub flags: u32,
    pub open_flags: OpenInFlags,
}

impl fuse_open_in {
    /// `self` holds exactly the fields laid out in `s`.
    pub open spec fn dec_from(self, s: Seq<u8>) -> bool
        recommends
            s.len() == 8,
    {
        &&& self.flags == spec_u32_from_le_bytes(s.subrange(0, 4))
        &&& self.open_flags.bits == spec_u32_from_le_bytes(s.subrange(4, 8))
    }

    /// Reads the fixed layout at byte offset `off` of `b`.
    pub fn decode(b: &[u8], off: usize) -> (r: Self)
        requires
            off + 8 <= b@.len(),
        ensures
            r.wf(),
            r.dec_from(b@.subrange(off as int, off + 8)),
    {
        let _n: usize = b.len();
        let r = fuse_open_in {
            flags: read_u32(b, off),
            open_flags: OpenInFlags { bits: read_u32(b, off + 4) },
        };
        proof {
            let s = b@.subrange(off as int, off as int + 8);
            assert(s.subrange(0, 4) =~= b@.subrange(off as int + 0, off as int + 4));
            assert(s.subrange(4, 8) =~= b@.subrange(off as int + 4, off as int + 8));
        }
        r
    }

    /// The wire image as a fresh buffer.
    pub fn encode(&self) -> (r: Vec<u8>)
        requires
            self.wf(),
        ensures
            r@ == self.spec_enc(),
    {
        let mut v: Vec<u8> = Vec::new();
        self.append_to(&mut v);
        v
    }

    /// Decoding the encoding of a well-formed record reproduces every field.
    pub proof fn lemma_round_trip(r: Self, d: Self)
        requires
            r.wf(),
            d.dec_from(r.spec_enc()),
        ensures
            d == r,
    {
        le_bytes_facts();
        let s = r.spec_enc();
        assert(s.subrange(0, 4) =~= spec_u32_to_le_bytes(r.flags));
        assert(s.subrange(4, 8) =~= spec_u32_to_le_bytes(r.open_flags.bits));
    }
}

impl WireRecord for fuse_open_in {
    open spec fn wf(&self) -> bool {
        true
    }

    open spec fn spec_size() -> nat {
        8
    }

    open spec fn spec_enc(&self) -> Seq<u8> {
        spec_u32_to_le_bytes(self.flags) + spec_u32_to_le_bytes(self.open_flags.bits)
    }

    proof fn lemma_enc_len(&self) {
        le_bytes_facts();
    }

    fn size() -> (r: usize) {
        8
    }

    fn append_to(&self, out: &mut Vec<u8>) {
        push_u32(out, self.flags);
        push_u32(out, self.open_flags.bits);
        proof {
            le_bytes_facts();
            assert(out@ =~= old(out)@ + self.spec_enc());
        }
    }
}

/// Reply payload of an open or create: the server-chosen file handle.
#[derive(Debug, Clone, PartialEq, Eq)]
pub struct fuse_open_out {
    pub fh: u64,
    pub open_flags: OpenOutFlags,
    pub backing_id: i32,
}

impl fuse_open_out {
    /// `self` holds exactly the fields laid out in `s`.
    pub open spec fn dec_from(self, s: Seq<u8>) -> bool
        recommends
            s.len() == 16,
    {
        &&& self.fh == spec_u64_from_le_bytes(s.subrange(0, 8))
        &&& self.open_flags.bits == spec_u32_from_le_bytes(s.subrange(8, 12))
        &&& self.backing_id == spec_i32_from_le_bytes(s.subrange(12, 16))
    }

    /// Reads the fixed layout at byte offset `off` of `b`.
    pub fn decode(b: &[u8], off: usize) -> (r: Self)
        requires
            off + 16 <= b@.len(),
        ensures
            r.wf(),
            r.dec_from(b@.subrange(off as int, off + 16)),
    {
        let _n: usize = b.len();
        let r = fuse_open_out {
            fh: read_u64(b, off),
            open_flags: OpenOutFlags { bits: read_u32(b, off + 8) },
            backing_id: read_i32(b, off + 12),
        };
        proof {
            let s = b@.subrange(off as int, off as int + 16);
            assert(s.subrange(0, 8) =~= b@.subrange(off as int + 0, off as int + 8));
            assert(s.subrange(8, 12) =~= b@.subrange(off as int + 8, off as int + 12));
            assert(s.subrange(12, 16) =~= b@.subrange(off as int + 12, off as int + 16));
        }
        r
    }

    /// The wire image as a fresh buffer.
    pub fn encode(&self) -> (r: Vec<u8>)
        requires
            self.wf(),
        ensures
            r@ == self.spec_enc(),
    {
        let mut v: Vec<u8> = Vec::new();
        self.append_to(&mut v);
        v
    }

    /// Decoding the encoding of a well-formed record reproduces every field.
    pub proof fn lemma_round_trip(r: Self, d: Self)
        requires
            r.wf(),
            d.dec_from(r.spec_enc()),
        ensures
            d == r,
    {
        le_bytes_facts();
        let s = r.spec_enc();
        assert(s.subrange(0, 8) =~= spec_u64_to_le_bytes(r.fh));
        assert(s.subrange(8, 12) =~= spec_u32_to_le_bytes(r.open_flags.bits));
        assert(s.subrange(12, 16) =~= spec_i32_to_le_bytes(r.backing_id));
    }
}

impl WireRecord for fuse_open_out {
    open spec fn wf(&self) -> bool {
        true
    }

    open spec fn spec_size() -> nat {
        16
    }

    open spec fn spec_enc(&self) -> Seq<u8> {
        spec_u64_to_le_bytes(self.fh) + spec_u32_to_le_bytes(self.open_flags.bits) + spec_i32_to_le_bytes(self.backing_id)
    }

    proof fn lemma_enc_len(&self) {
        le_bytes_facts();
    }

    fn size() -> (r: usize) {
        16
    }

    fn append_to(&self, out: &mut Vec<u8>) {
        push_u64(out, self.fh);
        push_u32(out, self.open_flags.bits);
        push_i32(out, self.backing_id);
        proof {
            le_bytes_facts();
            assert(out@ =~= old(out)@ + self.spec_enc());
        }
    }
}

/// Payload of a read or read-directory request.
#[derive(Debug, Clone, PartialEq, Eq)]
pub struct fuse_read_in {
    pub fh: u64,
    pub offset: u64,
    pub size: u32,
    pub read_flags: ReadFlags,
    pub lock_owner: u64,
    pub flags: u32,
    pub padding: u32,
}

impl fuse_read_in {
    /// `self` holds exactly the fields laid out in `s`.
    pub open spec fn dec_from(self, s: Seq<u8>) -> bool
        recommends
            s.len() == 40,
    {
        &&& self.fh == spec_u64_from_le_bytes(s.subrange(0, 8))
        &&& self.offset == spec_u64_from_le_bytes(s.subrange(8, 16))
        &&& self.size == spec_u32_from_le_bytes(s.subrange(16, 20))
        &&& self.read_flags.bits == spec_u32_from_le_bytes(s.subrange(20, 24))
        &&& self.lock_owner == spec_u64_from_le_bytes(s.subrange(24, 32))
        &&& self.flags == spec_u32_from_le_bytes(s.subrange(32, 36))
        &&& self.padding == spec_u32_from_le_bytes(s.subrange(36, 40))
    }

    /// Reads the fixed layout at byte offset `off` of `b`.
    pub fn decode(b: &[u8], off: usize) -> (r: Self)
        requires
            off + 40 <= b@.len(),
        ensures
            r.wf(),
            r.dec_from(b@.subrange(off as int, off + 40)),
    {
        let _n: usize = b.len();
        let r = fuse_read_in {
            fh: read_u64(b, off),
            offset: read_u64(b, off + 8),
            size: read_u32(b, off + 16),
            read_flags: ReadFlags { bits: read_u32(b, off + 20) },
            lock_owner: read_u64(b, off + 24),
            flags: read_u32(b, off + 32),
            padding: read_u32(b, off + 36),
        };
        proof {
            let s = b@.subrange(off as int, off as int + 40);
            assert(s.subrange(0, 8) =~= b@.subrange(off as int + 0, off as int + 8));
            assert(s.subrange(8, 16) =~= b@.subrange(off as int + 8, off as int + 16));
            assert(s.subrange(16, 20) =~= b@.subrange(off as int + 16, off as int + 20));
            assert(s.subrange(20, 24) =~= b@.subrange(off as int + 20, off as int + 24));
            assert(s.subrange(24, 32) =~= b@.subrange(off as int + 24, off as int + 32));
            assert(s.subrange(32, 36) =~= b@.subrange(off as int + 32, off as int + 36));
            assert(s.subrange(36, 40) =~= b@.subrange(off as int + 36, off as int + 40));
        }
        r
    }

    /// The wire image as a fresh buffer.
    pub fn encode(&self) -> (r: Vec<u8>)
        requires
            self.wf(),
        ensures
            r@ == self.spec_enc(),
    {
        let mut v: Vec<u8> = Vec::new();
        self.append_to(&mut v);
        v
    }

    /// Decoding the encoding of a well-formed record reproduces every field.
    pub proof fn lemma_round_trip(r: Self, d: Self)
        requires
            r.wf(),
            d.dec_from(r.spec_enc()),
        ensures
            d == r,
    {
        le_bytes_facts();
        let s = r.spec_enc();
        assert(s.subrange(0, 8) =~= spec_u64_to_le_bytes(r.fh));
        assert(s.subrange(8, 16) =~= spec_u64_to_le_bytes(r.offset));
        assert(s.subrange(16, 20) =~= spec_u32_to_le_bytes(r.size));
        assert(s.subrange(20, 24) =~= spec_u32_to_le_bytes(r.read_flags.bits));
        assert(s.subrange(24, 32) =~= spec_u64_to_le_bytes(r.lock_owner));
        assert(s.subrange(32, 36) =~= spec_u32_to_le_bytes(r.flags));
        assert(s.subrange(36, 40) =~= spec_u32_to_le_bytes(r.padding));
    }
}

impl WireRecord for fuse_read_in {
    open spec fn wf(&self) -> bool {
        true
    }

    open spec fn spec_size() -> nat {
        40
    }

    open spec fn spec_enc(&self) -> Seq<u8> {
        spec_u64_to_le_bytes(self.fh) + spec_u64_to_le_bytes(self.offset) + spec_u32_to_le_bytes(self.size) + spec_u32_to_le_bytes(self.read_flags.bits) + spec_u64_to_le_bytes(self.lock_owner) + spec_u32_to_le_bytes(self.flags) + spec_u32_to_le_bytes(self.padding)
    }

    proof fn lemma_enc_len(&self) {
        le_bytes_facts();
    }

    fn size() -> (r: usize) {
        40
    }

    fn append_to(&self, out: &mut Vec<u8>) {
        push_u64(out, self.fh);
        push_u64(out, self.offset);
        push_u32(out, self.size);
        push_u32(out, self.read_flags.bits);
        push_u64(out, self.lock_owner);
        push_u32(out, self.flags);
        push_u32(out, self.padding);
        proof {
            le_bytes_facts();
            assert(out@ =~= old(out)@ + self.spec_enc());
        }
    }
}

/// Payload of a write request; the data follows as trailing bytes.
#[derive(Debug, Clone, PartialEq, Eq)]
pub struct fuse_write_in {
    pub fh: u64,
    pub offset: u64,
    pub size: u32,
    pub write_flags: WriteFlags,
    pub lock_owner: u64,
    pub flags: u32,
    pub padding: u32,
}

impl fuse_write_in {
    /// `self` holds exactly the fields laid out in `s`.
    pub open spec fn dec_from(self, s: Seq<u8>) -> bool
        recommends
            s.len() == 40,
    {
        &&& self.fh == spec_u64_from_le_bytes(s.subrange(0, 8))
        &&& self.offset == spec_u64_from_le_bytes(s.subrange(8, 16))
        &&& self.size == spec_u32_from_le_bytes(s.subrange(16, 20))
        &&& self.write_flags.bits == spec_u32_from_le_bytes(s.subrange(20, 24))
        &&& self.lock_owner == spec_u64_from_le_bytes(s.subrange(24, 32))
        &&& self.flags == spec_u32_from_le_bytes(s.subrange(32, 36))
        &&& self.padding == spec_u32_from_le_bytes(s.subrange(36, 40))
    }

    /// Reads the fixed layout at byte offset `off` of `b`.
    pub fn decode(b: &[u8], off: usize) -> (r: Self)
        requires
            off + 40 <= b@.len(),
        ensures
            r.wf(),
            r.dec_from(b@.subrange(off as int, off + 40)),
    {
        let _n: usize = b.len();
        let r = fuse_write_in {
            fh: read_u64(b, off),
            offset: read_u64(b, off + 8),
            size: read_u32(b, off + 16),
            write_flags: WriteFlags { bits: read_u32(b, off + 20) },
            lock_owner: read_u64(b, off + 24),
            flags: read_u32(b, off + 32),
            padding: read_u32(b, off + 36),
        };
        proof {
            let s = b@.subrange(off as int, off as int + 40);
            assert(s.subrange(0, 8) =~= b@.subrange(off as int + 0, off as int + 8));
            assert(s.subrange(8, 16) =~= b@.subrange(off as int + 8, off as int + 16));
            assert(s.subrange(16, 20) =~= b@.subrange(off as int + 16, off as int + 20));
            assert(s.subrange(20, 24) =~= b@.subrange(off as int + 20, off as int + 24));
            assert(s.subrange(24, 32) =~= b@.subrange(off as int + 24, off as int + 32));
            assert(s.subrange(32, 36) =~= b@.subrange(off as int + 32, off as int + 36));
            assert(s.subrange(36, 40) =~= b@.subrange(off as int + 36, off as int + 40));
        }
        r
    }

    /// The wire image as a fresh buffer.
    pub fn encode(&self) -> (r: Vec<u8>)
        requires
            self.wf(),
        ensures
            r@ == self.spec_enc(),
    {
        let mut v: Vec<u8> = Vec::new();
        self.append_to(&mut v);
        v
    }

    /// Decoding the encoding of a well-formed record reproduces every field.
    pub proof fn lemma_round_trip(r: Self, d: Self)
        requires
            r.wf(),
            d.dec_from(r.spec_enc()),
        ensures
            d == r,
    {
        le_bytes_facts();
        let s = r.spec_enc();
        assert(s.subrange(0, 8) =~= spec_u64_to_le_bytes(r.fh));
        assert(s.subrange(8, 16) =~= spec_u64_to_le_bytes(r.offset));
        assert(s.subrange(16, 20) =~= spec_u32_to_le_bytes(r.size));
        assert(s.subrange(20, 24) =~= spec_u32_to_le_bytes(r.write_flags.bits));
        assert(s.subrange(24, 32) =~= spec_u64_to_le_bytes(r.lock_owner));
        assert(s.subrange(32, 36) =~= spec_u32_to_le_bytes(r.flags));
        assert(s.subrange(36, 40) =~= spec_u32_to_le_bytes(r.padding));
    }
}

impl WireRecord for fuse_write_in {
    open spec fn wf(&self) -> bool {
        true
    }

    open spec fn spec_size() -> nat {
        40
    }

    open spec fn spec_enc(&self) -> Seq<u8> {
        spec_u64_to_le_bytes(self.fh) + spec_u64_to_le_bytes(self.offset) + spec_u32_to_le_bytes(self.size) + spec_u32_to_le_bytes(self.write_flags.bits) + spec_u64_to_le_bytes(self.lock_owner) + spec_u32_to_le_bytes(self.flags) + spec_u32_to_le_bytes(self.padding)
    }

    proof fn lemma_enc_len(&self) {
        le_bytes_facts();
    }

    fn size() -> (r: usize) {
        40
    }

    fn append_to(&self, out: &mut Vec<u8>) {
        push_u64(out, self.fh);
        push_u64(out, self.offset);
        push_u32(out, self.size);
        push_u32(out, self.write_flags.bits);
        push_u64(out, self.lock_owner);
        push_u32(out, self.flags);
        push_u32(out, self.padding);
        proof {
            le_bytes_facts();
            assert(out@ =~= old(out)@ + self.spec_enc());
        }
    }
}

/// Reply payload of a write: how many bytes were accepted.
#[derive(Debug, Clone, PartialEq, Eq)]
pub struct fuse_write_out {
    pub size: u32,
    pub padding: Padding<4>,
}

impl fuse_write_out {
    /// Field-for-field equality; reserved regions compare by their bytes.
    pub open spec fn same_fields(self, other: Self) -> bool {
        &&& self.size == other.size
        &&& self.padding.spec_bytes() == other.padding.spec_bytes()
    }

    /// `self` holds exactly the fields laid out in `s`.
    pub open spec fn dec_from(self, s: Seq<u8>) -> bool
        recommends
            s.len() == 8,
    {
        &&& self.size == spec_u32_from_le_bytes(s.subrange(0, 4))
        &&& self.padding.spec_bytes() == s.subrange(4, 8)
    }

    /// Reads the fixed layout at byte offset `off` of `b`.
    pub fn decode(b: &[u8], off: usize) -> (r: Self)
        requires
            off + 8 <= b@.len(),
        ensures
            r.wf(),
            r.dec_from(b@.subrange(off as int, off + 8)),
    {
        let _n: usize = b.len();
        let r = fuse_write_out {
            size: read_u32(b, off),
            padding: Padding::decode(b, off + 4),
        };
        proof {
            let s = b@.subrange(off as int, off as int + 8);
            assert(s.subrange(0, 4) =~= b@.subrange(off as int + 0, off as int + 4));
            assert(s.subrange(4, 8) =~= b@.subrange(off as int + 4, off as int + 8));
        }
        r
    }

    /// The wire image as a fresh buffer.
    pub fn encode(&self) -> (r: Vec<u8>)
        requires
            self.wf(),
        ensures
            r@ == self.spec_enc(),
    {
        let mut v: Vec<u8> = Vec::new();
        self.append_to(&mut v);
        v
    }

    /// Decoding the encoding of a well-formed record reproduces every field (reserved regions by their bytes).
    pub proof fn lemma_round_trip(r: Self, d: Self)
        requires
            r.wf(),
            d.dec_from(r.spec_enc()),
        ensures
            d.same_fields(r),
    {
        le_bytes_facts();
        let s = r.spec_enc();
        assert(s.subrange(0, 4) =~= spec_u32_to_le_bytes(r.size));
        assert(s.subrange(4, 8) =~= r.padding.spec_bytes());
    }
}

impl WireRecord for fuse_write_out {
    open spec fn wf(&self) -> bool {
        &&& self.padding.wf()
    }

    open spec fn spec_size() -> nat {
        8
    }

    open spec fn spec_enc(&self) -> Seq<u8> {
        spec_u32_to_le_bytes(self.size) + self.padding.spec_bytes()
    }

    proof fn lemma_enc_len(&self) {
        le_bytes_facts();
    }

    fn size() -> (r: usize) {
        8
    }

    fn append_to(&self, out: &mut Vec<u8>) {
        push_u32(out, self.size);
        self.padding.append_to(out);
        proof {
            le_bytes_facts();
            assert(out@ =~= old(out)@ + self.spec_enc());
        }
    }
}

/// Reply payload of a statfs request.
#[derive(Debug, Clone, PartialEq, Eq)]
pub struct fuse_statfs_out {
    pub st: fuse_kstatfs,
}

impl fuse_statfs_out {
    /// Field-for-field equality; reserved regions compare by their bytes.
    pub open spec fn same_fields(self, other: Self) -> bool {
        &&& self.st.same_fields(other.st)
    }

    /// `self` holds exactly the fields laid out in `s`.
    pub open spec fn dec_from(self, s: Seq<u8>) -> bool
        recommends
            s.len() == 80,
    {
        &&& self.st.dec_from(s.subrange(0, 80))
    }

    /// Reads the fixed layout at byte offset `off` of `b`.
    #[verifier::rlimit(50)]
    pub fn decode(b: &[u8], off: usize) -> (r: Self)
        requires
            off + 80 <= b@.len(),
        ensures
            r.wf(),
            r.dec_from(b@.subrange(off as int, off + 80)),
    {
        let _n: usize = b.len();
        let r = fuse_statfs_out {
            st: fuse_kstatfs::decode(b, off),
        };
        proof {
            let s = b@.subrange(off as int, off as int + 80);
            assert(s.subrange(0, 80) =~= b@.subrange(off as int + 0, off as int + 80));
        }
        r
    }

    /// The wire image as a fresh buffer.
    pub fn encode(&self) -> (r: Vec<u8>)
        requires
            self.wf(),
        ensures
            r@ == self.spec_enc(),
    {
        let mut v: Vec<u8> = Vec::new();
        self.append_to(&mut v);
        v
    }

    /// Decoding the encoding of a well-formed record reproduces every field (reserved regions by their bytes).
    #[verifier::rlimit(50)]
    pub proof fn lemma_round_trip(r: Self, d: Self)
        requires
            r.wf(),
            d.dec_from(r.spec_enc()),
        ensures
            d.same_fields(r),
    {
        le_bytes_facts();
        r.st.lemma_enc_len();
        let s = r.spec_enc();
        assert(s.subrange(0, 80) =~= r.st.spec_enc());
        fuse_kstatfs::lemma_round_trip(r.st, d.st);
    }
}

impl WireRecord for fuse_statfs_out {
    open spec fn wf(&self) -> bool {
        &&& self.st.wf()
    }

    open spec fn spec_size() -> nat {
        80
    }

    open spec fn spec_enc(&self) -> Seq<u8> {
        self.st.spec_enc()
    }

    proof fn lemma_enc_len(&self) {
        le_bytes_facts();
        self.st.lemma_enc_len();
    }

    fn size() -> (r: usize) {
        80
    }

    #[verifier::rlimit(50)]
    fn append_to(&self, out: &mut Vec<u8>) {
        self.st.append_to(out);
        proof {
            le_bytes_facts();
            self.st.lemma_enc_len();
            assert(out@ =~= old(out)@ + self.spec_enc());
        }
    }
}

/// Payload of a release or release-directory request.
#[derive(Debug, Clone, PartialEq, Eq)]
pub struct fuse_release_in {
    pub fh: u64,
    pub flags: u32,
    pub release_flags: u32,
    pub lock_owner: u64,
}

impl fuse_release_in {
    /// `self` holds exactly the fields laid out in `s`.
    pub open spec fn dec_from(self, s: Seq<u8>) -> bool
        recommends
            s.len() == 24,
    {
        &&& self.fh == spec_u64_from_le_bytes(s.subrange(0, 8))
        &&& self.flags == spec_u32_from_le_bytes(s.subrange(8, 12))
        &&& self.release_flags == spec_u32_from_le_bytes(s.subrange(12, 16))
        &&& self.lock_owner == spec_u64_from_le_bytes(s.subrange(16, 24))
    }

    /// Reads the fixed layout at byte offset `off` of `b`.
    pub fn decode(b: &[u8], off: usize) -> (r: Self)
        requires
            off + 24 <= b@.len(),
        ensures
            r.wf(),
            r.dec_from(b@.subrange(off as int, off + 24)),
    {
        let _n: usize = b.len();
        let r = fuse_release_in {
            fh: read_u64(b, off),
            flags: read_u32(b, off + 8),
            release_flags: read_u32(b, off + 12),
            lock_owner: read_u64(b, off + 16),
        };
        proof {
            let s = b@.subrange(off as int, off as int + 24);
            assert(s.subrange(0, 8) =~= b@.subrange(off as int + 0, off as int + 8));
            assert(s.subrange(8, 12) =~= b@.subrange(off as int + 8, off as int + 12));
            assert(s.subrange(12, 16) =~= b@.subrange(off as int + 12, off as int + 16));
            assert(s.subrange(16, 24) =~= b@.subrange(off as int + 16, off as int + 24));
        }
        r
    }

    /// The wire image as a fresh buffer.
    pub fn encode(&self) -> (r: Vec<u8>)
        requires
            self.wf(),
        ensures
            r@ == self.spec_enc(),
    {
        let mut v: Vec<u8> = Vec::new();
        self.append_to(&mut v);
        v
    }

    /// Decoding the encoding of a well-formed record reproduces every field.
    pub proof fn lemma_round_trip(r: Self, d: Self)
        requires
            r.wf(),
            d.dec_from(r.spec_enc()),
        ensures
            d == r,
    {
        le_bytes_facts();
        let s = r.spec_enc();
        assert(s.subrange(0, 8) =~= spec_u64_to_le_bytes(r.fh));
        assert(s.subrange(8, 12) =~= spec_u32_to_le_bytes(r.flags));
        assert(s.subrange(12, 16) =~= spec_u32_to_le_bytes(r.release_flags));
        assert(s.subrange(16, 24) =~= spec_u64_to_le_bytes(r.lock_owner));
    }
}

impl WireRecord for fuse_release_in {
    open spec fn wf(&self) -> bool {
        true
    }

    open spec fn spec_size() -> nat {
        24
    }

    open spec fn spec_enc(&self) -> Seq<u8> {
        spec_u64_to_le_bytes(self.fh) + spec_u32_to_le_bytes(self.flags) + spec_u32_to_le_bytes(self.release_flags) + spec_u64_to_le_bytes(self.lock_owner)
    }

    proof fn lemma_enc_len(&self) {
        le_bytes_facts();
    }

    fn size() -> (r: usize) {
        24
    }

    fn append_to(&self, out: &mut Vec<u8>) {
        push_u64(out, self.fh);
        push_u32(out, self.flags);
        push_u32(out, self.release_flags);
        push_u64(out, self.lock_owner);
        proof {
            le_bytes_facts();
            assert(out@ =~= old(out)@ + self.spec_enc());
        }
    }
}

/// Payload of an fsync or fsync-directory request.
#[derive(Debug, Clone, PartialEq, Eq)]
pub struct fuse_fsync_in {
    pub fh: u64,
    pub fsync_flags: FsyncFlags,
    pub padding: u32,
}

impl fuse_fsync_in {
    /// `self` holds exactly the fields laid out in `s`.
    pub open spec fn dec_from(self, s: Seq<u8>) -> bool
        recommends
            s.len() == 16,
    {
        &&& self.fh == spec_u64_from_le_bytes(s.subrange(0, 8))
        &&& self.fsync_flags.bits == spec_u32_from_le_bytes(s.subrange(8, 12))
        &&& self.padding == spec_u32_from_le_bytes(s.subrange(12, 16))
    }

    /// Reads the fixed layout at byte offset `off` of `b`.
    pub fn decode(b: &[u8], off: usize) -> (r: Self)
        requires
            off + 16 <= b@.len(),
        ensures
            r.wf(),
            r.dec_from(b@.subrange(off as int, off + 16)),
    {
        let _n: usize = b.len();
        let r = fuse_fsync_in {
            fh: read_u64(b, off),
            fsync_flags: FsyncFlags { bits: read_u32(b, off + 8) },
            padding: read_u32(b, off + 12),
        };
        proof {
            let s = b@.subrange(off as int, off as int + 16);
            assert(s.subrange(0, 8) =~= b@.subrange(off as int + 0, off as int + 8));
            assert(s.subrange(8, 12) =~= b@.subrange(off as int + 8, off as int + 12));
            assert(s.subrange(12, 16) =~= b@.subrange(off as int + 12, off as int + 16));
        }
        r
    }

    /// The wire image as a fresh buffer.
    pub fn encode(&self) -> (r: Vec<u8>)
        requires
            self.wf(),
        ensures
            r@ == self.spec_enc(),
    {
        let mut v: Vec<u8> = Vec::new();
        self.append_to(&mut v);
        v
    }

    /// Decoding the encoding of a well-formed record reproduces every field.
    pub proof fn lemma_round_trip(r: Self, d: Self)
        requires
            r.wf(),
            d.dec_from(r.spec_enc()),
        ensures
            d == r,
    {
        le_bytes_facts();
        let s = r.spec_enc();
        assert(s.subrange(0, 8) =~= spec_u64_to_le_bytes(r.fh));
        assert(s.subrange(8, 12) =~= spec_u32_to_le_bytes(r.fsync_flags.bits));
        assert(s.subrange(12, 16) =~= spec_u32_to_le_bytes(r.padding));
    }
}

impl WireRecord for fuse_fsync_in {
    open spec fn wf(&self) -> bool {
        true
    }

    open spec fn spec_size() -> nat {
        16
    }

    open spec fn spec_enc(&self) -> Seq<u8> {
        spec_u64_to_le_bytes(self.fh) + spec_u32_to_le_bytes(self.fsync_flags.bits) + spec_u32_to_le_bytes(self.padding)
    }

    proof fn lemma_enc_len(&self) {
        le_bytes_facts();
    }

    fn size() -> (r: usize) {
        16
    }

    fn append_to(&self, out: &mut Vec<u8>) {
        push_u64(out, self.fh);
        push_u32(out, self.fsync_flags.bits);
        push_u32(out, self.padding);
        proof {
            le_bytes_facts();
            assert(out@ =~= old(out)@ + self.spec_enc());
        }
    }
}

/// Payload of a set-extended-attribute request; name and value follow.
#[derive(Debug, Clone, PartialEq, Eq)]
pub struct fuse_setxattr_in {
    pub size: u32,
    pub flags: u32,
    pub setxattr_flags: u32,
    pub padding: u32,
}

impl fuse_setxattr_in {
    /// `self` holds exactly the fields laid out in `s`.
    pub open spec fn dec_from(self, s: Seq<u8>) -> bool
        recommends
            s.len() == 16,
    {
        &&& self.size == spec_u32_from_le_bytes(s.subrange(0, 4))
        &&& self.flags == spec_u32_from_le_bytes(s.subrange(4, 8))
        &&& self.setxattr_flags == spec_u32_from_le_bytes(s.subrange(8, 12))
        &&& self.padding == spec_u32_from_le_bytes(s.subrange(12, 16))
    }

    /// Reads the fixed layout at byte offset `off` of `b`.
    pub fn decode(b: &[u8], off: usize) -> (r: Self)
        requires
            off + 16 <= b@.len(),
        ensures
            r.wf(),
            r.dec_from(b@.subrange(off as int, off + 16)),
    {
        let _n: usize = b.len();
        let r = fuse_setxattr_in {
            size: read_u32(b, off),
            flags: read_u32(b, off + 4),
            setxattr_flags: read_u32(b, off + 8),
            padding: read_u32(b, off + 12),
        };
        proof {
            let s = b@.subrange(off as int, off as int + 16);
            assert(s.subrange(0, 4) =~= b@.subrange(off as int + 0, off as int + 4));
            assert(s.subrange(4, 8) =~= b@.subrange(off as int + 4, off as int + 8));
            assert(s.subrange(8, 12) =~= b@.subrange(off as int + 8, off as int + 12));
            assert(s.subrange(12, 16) =~= b@.subrange(off as int + 12, off as int + 16));
        }
        r
    }

    /// The wire image as a fresh buffer.
    pub fn encode(&self) -> (r: Vec<u8>)
        requires
            self.wf(),
        ensures
            r@ == self.spec_enc(),
    {
        let mut v: Vec<u8> = Vec::new();
        self.append_to(&mut v);
        v
    }

    /// Decoding the encoding of a well-formed record reproduces every field.
    pub proof fn lemma_round_trip(r: Self, d: Self)
        requires
            r.wf(),
            d.dec_from(r.spec_enc()),
        ensures
            d == r,
    {
        le_bytes_facts();
        let s = r.spec_enc();
        assert(s.subrange(0, 4) =~= spec_u32_to_le_bytes(r.size));
        assert(s.subrange(4, 8) =~= spec_u32_to_le_bytes(r.flags));
        assert(s.subrange(8, 12) =~= spec_u32_to_le_bytes(r.setxattr_flags));
        assert(s.subrange(12, 16) =~= spec_u32_to_le_bytes(r.padding));
    }
}

impl WireRecord for fuse_setxattr_in {
    open spec fn wf(&self) -> bool {
        true
    }

    open spec fn spec_size() -> nat {
        16
    }

    open spec fn spec_enc(&self) -> Seq<u8> {
        spec_u32_to_le_bytes(self.size) + spec_u32_to_le_bytes(self.flags) + spec_u32_to_le_bytes(self.setxattr_flags) + spec_u32_to_le_bytes(self.padding)
    }

    proof fn lemma_enc_len(&self) {
        le_bytes_facts();
    }

    fn size() -> (r: usize) {
        16
    }

    fn append_to(&self, out: &mut Vec<u8>) {
        push_u32(out, self.size);
        push_u32(out, self.flags);
        push_u32(out, self.setxattr_flags);
        push_u32(out, self.padding);
        proof {
            le_bytes_facts();
            assert(out@ =~= old(out)@ + self.spec_enc());
        }
    }
}

/// Payload of a get- or list-extended-attribute request.
#[derive(Debug, Clone, PartialEq, Eq)]
pub struct fuse_getxattr_in {
    pub size: u32,
    pub padding: u32,
}

impl fuse_getxattr_in {
    /// `self` holds exactly the fields laid out in `s`.
    pub open spec fn dec_from(self, s: Seq<u8>) -> bool
        recommends
            s.len() == 8,
    {
        &&& self.size == spec_u32_from_le_bytes(s.subrange(0, 4))
        &&& self.padding == spec_u32_from_le_bytes(s.subrange(4, 8))
    }

    /// Reads the fixed layout at byte offset `off` of `b`.
    pub fn decode(b: &[u8], off: usize) -> (r: Self)
        requires
            off + 8 <= b@.len(),
        ensures
            r.wf(),
            r.dec_from(b@.subrange(off as int, off + 8)),
    {
        let _n: usize = b.len();
        let r = fuse_getxattr_in {
            size: read_u32(b, off),
            padding: read_u32(b, off + 4),
        };
        proof {
            let s = b@.subrange(off as int, off as int + 8);
            assert(s.subrange(0, 4) =~= b@.subrange(off as int + 0, off as int + 4));
            assert(s.subrange(4, 8) =~= b@.subrange(off as int + 4, off as int + 8));
        }
        r
    }

    /// The wire image as a fresh buffer.
    pub fn encode(&self) -> (r: Vec<u8>)
        requires
            self.wf(),
        ensures
            r@ == self.spec_enc(),
    {
        let mut v: Vec<u8> = Vec::new();
        self.append_to(&mut v);
        v
    }

    /// Decoding the encoding of a well-formed record reproduces every field.
    pub proof fn lemma_round_trip(r: Self, d: Self)
        requires
            r.wf(),
            d.dec_from(r.spec_enc()),
        ensures
            d == r,
    {
        le_bytes_facts();
        let s = r.spec_enc();
        assert(s.subrange(0, 4) =~= spec_u32_to_le_bytes(r.size));
        assert(s.subrange(4, 8) =~= spec_u32_to_le_bytes(r.padding));
    }
}

impl WireRecord for fuse_getxattr_in {
    open spec fn wf(&self) -> bool {
        true
    }

    open spec fn spec_size() -> nat {
        8
    }

    open spec fn spec_enc(&self) -> Seq<u8> {
        spec_u32_to_le_bytes(self.size) + spec_u32_to_le_bytes(self.padding)
    }

    proof fn lemma_enc_len(&self) {
        le_bytes_facts();
    }

    fn size() -> (r: usize) {
        8
    }

    fn append_to(&self, out: &mut Vec<u8>) {
        push_u32(out, self.size);
        push_u32(out, self.padding);
        proof {
            le_bytes_facts();
            assert(out@ =~= old(out)@ + self.spec_enc());
        }
    }
}

/// Reply payload announcing the size of an extended-attribute value.
#[derive(Debug, Clone, PartialEq, Eq)]
pub struct fuse_getxattr_out {
    pub size: u32,
    pub padding: Padding<4>,
}

impl fuse_getxattr_out {
    /// Field-for-field equality; reserved regions compare by their bytes.
    pub open spec fn same_fields(self, other: Self) -> bool {
        &&& self.size == other.size
        &&& self.padding.spec_bytes() == other.padding.spec_bytes()
    }

    /// `self` holds exactly the fields laid out in `s`.
    pub open spec fn dec_from(self, s: Seq<u8>) -> bool
        recommends
            s.len() == 8,
    {
        &&& self.size == spec_u32_from_le_bytes(s.subrange(0, 4))
        &&& self.padding.spec_bytes() == s.subrange(4, 8)
    }

    /// Reads the fixed layout at byte offset `off` of `b`.
    pub fn decode(b: &[u8], off: usize) -> (r: Self)
        requires
            off + 8 <= b@.len(),
        ensures
            r.wf(),
            r.dec_from(b@.subrange(off as int, off + 8)),
    {
        let _n: usize = b.len();
        let r = fuse_getxattr_out {
            size: read_u32(b, off),
            padding: Padding::decode(b, off + 4),
        };
        proof {
            let s = b@.subrange(off as int, off as int + 8);
            assert(s.subrange(0, 4) =~= b@.subrange(off as int + 0, off as int + 4));
            assert(s.subrange(4, 8) =~= b@.subrange(off as int + 4, off as int + 8));
        }
        r
    }

    /// The wire image as a fresh buffer.
    pub fn encode(&self) -> (r: Vec<u8>)
        requires
            self.wf(),
        ensures
            r@ == self.spec_enc(),
    {
        let mut v: Vec<u8> = Vec::new();
        self.append_to(&mut v);
        v
    }

    /// Decoding the encoding of a well-formed record reproduces every field (reserved regions by their bytes).
    pub proof fn lemma_round_trip(r: Self, d: Self)
        requires
            r.wf(),
            d.dec_from(r.spec_enc()),
        ensures
            d.same_fields(r),
    {
        le_bytes_facts();
        let s = r.spec_enc();
        assert(s.subrange(0, 4) =~= spec_u32_to_le_bytes(r.size));
        assert(s.subrange(4, 8) =~= r.padding.spec_bytes());
    }
}

impl WireRecord for fuse_getxattr_out {
    open spec fn wf(&self) -> bool {
        &&& self.padding.wf()
    }

    open spec fn spec_size() -> nat {
        8
    }

    open spec fn spec_enc(&self) -> Seq<u8> {
        spec_u32_to_le_bytes(self.size) + self.padding.spec_bytes()
    }

    proof fn lemma_enc_len(&self) {
        le_bytes_facts();
    }

    fn size() -> (r: usize) {
        8
    }

    fn append_to(&self, out: &mut Vec<u8>) {
        push_u32(out, self.size);
        self.padding.append_to(out);
        proof {
            le_bytes_facts();
            assert(out@ =~= old(out)@ + self.spec_enc());
        }
    }
}

/// Payload of a flush request.
#[derive(Debug, Clone, PartialEq, Eq)]
pub struct fuse_flush_in {
    pub fh: u64,
    pub unused: u32,
    pub padding: u32,
    pub lock_owner: u64,
}

impl fuse_flush_in {
    /// `self` holds exactly the fields laid out in `s`.
    pub open spec fn dec_from(self, s: Seq<u8>) -> bool
        recommends
            s.len() == 24,
    {
        &&& self.fh == spec_u64_from_le_bytes(s.subrange(0, 8))
        &&& self.unused == spec_u32_from_le_bytes(s.subrange(8, 12))
        &&& self.padding == spec_u32_from_le_bytes(s.subrange(12, 16))
        &&& self.lock_owner == spec_u64_from_le_bytes(s.subrange(16, 24))
    }

    /// Reads the fixed layout at byte offset `off` of `b`.
    pub fn decode(b: &[u8], off: usize) -> (r: Self)
        requires
            off + 24 <= b@.len(),
        ensures
            r.wf(),
            r.dec_from(b@.subrange(off as int, off + 24)),
    {
        let _n: usize = b.len();
        let r = fuse_flush_in {
            fh: read_u64(b, off),
            unused: read_u32(b, off + 8),
            padding: read_u32(b, off + 12),
            lock_owner: read_u64(b, off + 16),
        };
        proof {
            let s = b@.subrange(off as int, off as int + 24);
            assert(s.subrange(0, 8) =~= b@.subrange(off as int + 0, off as int + 8));
            assert(s.subrange(8, 12) =~= b@.subrange(off as int + 8, off as int + 12));
            assert(s.subrange(12, 16) =~= b@.subrange(off as int + 12, off as int + 16));
            assert(s.subrange(16, 24) =~= b@.subrange(off as int + 16, off as int + 24));
        }
        r
    }

    /// The wire image as a fresh buffer.
    pub fn encode(&self) -> (r: Vec<u8>)
        requires
            self.wf(),
        ensures
            r@ == self.spec_enc(),
    {
        let mut v: Vec<u8> = Vec::new();
        self.append_to(&mut v);
        v
    }

    /// Decoding the encoding of a well-formed record reproduces every field.
    pub proof fn lemma_round_trip(r: Self, d: Self)
        requires
            r.wf(),
            d.dec_from(r.spec_enc()),
        ensures
            d == r,
    {
        le_bytes_facts();
        let s = r.spec_enc();
        assert(s.subrange(0, 8) =~= spec_u64_to_le_bytes(r.fh));
        assert(s.subrange(8, 12) =~= spec_u32_to_le_bytes(r.unused));
        assert(s.subrange(12, 16) =~= spec_u32_to_le_bytes(r.padding));
        assert(s.subrange(16, 24) =~= spec_u64_to_le_bytes(r.lock_owner));
    }
}

impl WireRecord for fuse_flush_in {
    open spec fn wf(&self) -> bool {
        true
    }

    open spec fn spec_size() -> nat {
        24
    }

    open spec fn spec_enc(&self) -> Seq<u8> {
        spec_u64_to_le_bytes(self.fh) + spec_u32_to_le_bytes(self.unused) + spec_u32_to_le_bytes(self.padding) + spec_u64_to_le_bytes(self.lock_owner)
    }

    proof fn lemma_enc_len(&self) {
        le_bytes_facts();
    }

    fn size() -> (r: usize) {
        24
    }

    fn append_to(&self, out: &mut Vec<u8>) {
        push_u64(out, self.fh);
        push_u32(out, self.unused);
        push_u32(out, self.padding);
        push_u64(out, self.lock_owner);
        proof {
            le_bytes_facts();
            assert(out@ =~= old(out)@ + self.spec_enc());
        }
    }
}

/// Payload of the initialization request the kernel opens a session with.
#[derive(Debug, Clone, PartialEq, Eq)]
pub struct fuse_init_in {
    pub major: u32,
    pub minor: u32,
    pub max_readahead: u32,
    pub flags: u32,
    pub flags2: u32,
    pub unused: Padding<44>,
}

impl fuse_init_in {
    /// Field-for-field equality; reserved regions compare by their bytes.
    pub open spec fn same_fields(self, other: Self) -> bool {
        &&& self.major == other.major
        &&& self.minor == other.minor
        &&& self.max_readahead == other.max_readahead
        &&& self.flags == other.flags
        &&& self.flags2 == other.flags2
        &&& self.unused.spec_bytes() == other.unused.spec_bytes()
    }

    /// `self` holds exactly the fields laid out in `s`.
    pub open spec fn dec_from(self, s: Seq<u8>) -> bool
        recommends
            s.len() == 64,
    {
        &&& self.major == spec_u32_from_le_bytes(s.subrange(0, 4))
        &&& self.minor == spec_u32_from_le_bytes(s.subrange(4, 8))
        &&& self.max_readahead == spec_u32_from_le_bytes(s.subrange(8, 12))
        &&& self.flags == spec_u32_from_le_bytes(s.subrange(12, 16))
        &&& self.flags2 == spec_u32_from_le_bytes(s.subrange(16, 20))
        &&& self.unused.spec_bytes() == s.subrange(20, 64)
    }

    /// Reads the fixed layout at byte offset `off` of `b`.
    #[verifier::rlimit(50)]
    pub fn decode(b: &[u8], off: usize) -> (r: Self)
        requires
            off + 64 <= b@.len(),
        ensures
            r.wf(),
            r.dec_from(b@.subrange(off as int, off + 64)),
    {
        let _n: usize = b.len();
        let r = fuse_init_in {
            major: read_u32(b, off),
            minor: read_u32(b, off + 4),
            max_readahead: read_u32(b, off + 8),
            flags: read_u32(b, off + 12),
            flags2: read_u32(b, off + 16),
            unused: Padding::decode(b, off + 20),
        };
        proof {
            let s = b@.subrange(off as int, off as int + 64);
            assert(s.subrange(0, 4) =~= b@.subrange(off as int + 0, off as int + 4));
            assert(s.subrange(4, 8) =~= b@.subrange(off as int + 4, off as int + 8));
            assert(s.subrange(8, 12) =~= b@.subrange(off as int + 8, off as int + 12));
            assert(s.subrange(12, 16) =~= b@.subrange(off as int + 12, off as int + 16));
            assert(s.subrange(16, 20) =~= b@.subrange(off as int + 16, off as int + 20));
            assert(s.subrange(20, 64) =~= b@.subrange(off as int + 20, off as int + 64));
        }
        r
    }

    /// The wire image as a fresh buffer.
    pub fn encode(&self) -> (r: Vec<u8>)
        requires
            self.wf(),
        ensures
            r@ == self.spec_enc(),
    {
        let mut v: Vec<u8> = Vec::new();
        self.append_to(&mut v);
        v
    }

    /// Decoding the encoding of a well-formed record reproduces every field (reserved regions by their bytes).
    #[verifier::rlimit(50)]
    pub proof fn lemma_round_trip(r: Self, d: Self)
        requires
            r.wf(),
            d.dec_from(r.spec_enc()),
        ensures
            d.same_fields(r),
    {
        le_bytes_facts();
        let s = r.spec_enc();
        assert(s.subrange(0, 4) =~= spec_u32_to_le_bytes(r.major));
        assert(s.subrange(4, 8) =~= spec_u32_to_le_bytes(r.minor));
        assert(s.subrange(8, 12) =~= spec_u32_to_le_bytes(r.max_readahead));
        assert(s.subrange(12, 16) =~= spec_u32_to_le_bytes(r.flags));
        assert(s.subrange(16, 20) =~= spec_u32_to_le_bytes(r.flags2));
        assert(s.subrange(20, 64) =~= r.unused.spec_bytes());
    }
}

impl WireRecord for fuse_init_in {
    open spec fn wf(&self) -> bool {
        &&& self.unused.wf()
    }

    open spec fn spec_size() -> nat {
        64
    }

    open spec fn spec_enc(&self) -> Seq<u8> {
        spec_u32_to_le_bytes(self.major) + spec_u32_to_le_bytes(self.minor) + spec_u32_to_le_bytes(self.max_readahead) + spec_u32_to_le_bytes(self.flags) + spec_u32_to_le_bytes(self.flags2) + self.unused.spec_bytes()
    }

    proof fn lemma_enc_len(&self) {
        le_bytes_facts();
    }

    fn size() -> (r: usize) {
        64
    }

    #[verifier::rlimit(50)]
    fn append_to(&self, out: &mut Vec<u8>) {
        push_u32(out, self.major);
        push_u32(out, self.minor);
        push_u32(out, self.max_readahead);
        push_u32(out, self.flags);
        push_u32(out, self.flags2);
        self.unused.append_to(out);
        proof {
            le_bytes_facts();
            assert(out@ =~= old(out)@ + self.spec_enc());
        }
    }
}

/// Reply payload of the initialization exchange: the negotiated session.
#[derive(Debug, Clone, PartialEq, Eq)]
pub struct fuse_init_out {
    pub major: u32,
    pub minor: u32,
    pub max_readahead: u32,
    pub flags: u32,
    pub max_background: u16,
    pub congestion_threshold: u16,
    pub max_write: u32,
    pub time_gran: u32,
    pub max_pages: u16,
    pub max_alignment: u16,
    pub flags2: u32,
    pub max_stack_depth: u32,
    pub request_timeout: u16,
    pub unused: Padding<22>,
}

impl fuse_init_out {
    /// Field-for-field equality; reserved regions compare by their bytes.
    pub open spec fn same_fields(self, other: Self) -> bool {
        &&& self.major == other.major
        &&& self.minor == other.minor
        &&& self.max_readahead == other.max_readahead
        &&& self.flags == other.flags
        &&& self.max_background == other.max_background
        &&& self.congestion_threshold == other.congestion_threshold
        &&& self.max_write == other.max_write
        &&& self.time_gran == other.time_gran
        &&& self.max_pages == other.max_pages
        &&& self.max_alignment == other.max_alignment
        &&& self.flags2 == other.flags2
        &&& self.max_stack_depth == other.max_stack_depth
        &&& self.request_timeout == other.request_timeout
        &&& self.unused.spec_bytes() == other.unused.spec_bytes()
    }

    /// `self` holds exactly the fields laid out in `s`.
    pub open spec fn dec_from(self, s: Seq<u8>) -> bool
        recommends
            s.len() == 64,
    {
        &&& self.major == spec_u32_from_le_bytes(s.subrange(0, 4))
        &&& self.minor == spec_u32_from_le_bytes(s.subrange(4, 8))
        &&& self.max_readahead == spec_u32_from_le_bytes(s.subrange(8, 12))
        &&& self.flags == spec_u32_from_le_bytes(s.subrange(12, 16))
        &&& self.max_background == spec_u16_from_le_bytes(s.subrange(16, 18))
        &&& self.congestion_threshold == spec_u16_from_le_bytes(s.subrange(18, 20))
        &&& self.max_write == spec_u32_from_le_bytes(s.subrange(20, 24))
        &&& self.time_gran == spec_u32_from_le_bytes(s.subrange(24, 28))
        &&& self.max_pages == spec_u16_from_le_bytes(s.subrange(28, 30))
        &&& self.max_alignment == spec_u16_from_le_bytes(s.subrange(30, 32))
        &&& self.flags2 == spec_u32_from_le_bytes(s.subrange(32, 36))
        &&& self.max_stack_depth == spec_u32_from_le_bytes(s.subrange(36, 40))
        &&& self.request_timeout == spec_u16_from_le_bytes(s.subrange(40, 42))
        &&& self.unused.spec_bytes() == s.subrange(42, 64)
    }

    /// Reads the fixed layout at byte offset `off` of `b`.
    #[verifier::rlimit(50)]
    pub fn decode(b: &[u8], off: usize) -> (r: Self)
        requires
            off + 64 <= b@.len(),
        ensures
            r.wf(),
            r.dec_from(b@.subrange(off as int, off + 64)),
    {
        let _n: usize = b.len();
        let r = fuse_init_out {
            major: read_u32(b, off),
            minor: read_u32(b, off + 4),
            max_readahead: read_u32(b, off + 8),
            flags: read_u32(b, off + 12),
            max_background: read_u16(b, off + 16),
            congestion_threshold: read_u16(b, off + 18),
            max_write: read_u32(b, off + 20),
            time_gran: read_u32(b, off + 24),
            max_pages: read_u16(b, off + 28),
            max_alignment: read_u16(b, off + 30),
            flags2: read_u32(b, off + 32),
            max_stack_depth: read_u32(b, off + 36),
            request_timeout: read_u16(b, off + 40),
            unused: Padding::decode(b, off + 42),
        };
        proof {
            let s = b@.subrange(off as int, off as int + 64);
            assert(s.subrange(0, 4) =~= b@.subrange(off as int + 0, off as int + 4));
            assert(s.subrange(4, 8) =~= b@.subrange(off as int + 4, off as int + 8));
            assert(s.subrange(8, 12) =~= b@.subrange(off as int + 8, off as int + 12));
            assert(s.subrange(12, 16) =~= b@.subrange(off as int + 12, off as int + 16));
            assert(s.subrange(16, 18) =~= b@.subrange(off as int + 16, off as int + 18));
            assert(s.subrange(18, 20) =~= b@.subrange(off as int + 18, off as int + 20));
            assert(s.subrange(20, 24) =~= b@.subrange(off as int + 20, off as int + 24));
            assert(s.subrange(24, 28) =~= b@.subrange(off as int + 24, off as int + 28));
            assert(s.subrange(28, 30) =~= b@.subrange(off as int + 28, off as int + 30));
            assert(s.subrange(30, 32) =~= b@.subrange(off as int + 30, off as int + 32));
            assert(s.subrange(32, 36) =~= b@.subrange(off as int + 32, off as int + 36));
            assert(s.subrange(36, 40) =~= b@.subrange(off as int + 36, off as int + 40));
            assert(s.subrange(40, 42) =~= b@.subrange(off as int + 40, off as int + 42));
            assert(s.subrange(42, 64) =~= b@.subrange(off as int + 42, off as int + 64));
        }
        r
    }

    /// The wire image as a fresh buffer.
    pub fn encode(&self) -> (r: Vec<u8>)
        requires
            self.wf(),
        ensures
            r@ == self.spec_enc(),
    {
        let mut v: Vec<u8> = Vec::new();
        self.append_to(&mut v);
        v
    }

    /// Decoding the encoding of a well-formed record reproduces every field (reserved regions by their bytes).
    #[verifier::rlimit(50)]
    pub proof fn lemma_round_trip(r: Self, d: Self)
        requires
            r.wf(),
            d.dec_from(r.spec_enc()),
        ensures
            d.same_fields(r),
    {
        le_bytes_facts();
        let s = r.spec_enc();
        assert(s.subrange(0, 4) =~= spec_u32_to_le_bytes(r.major));
        assert(s.subrange(4, 8) =~= spec_u32_to_le_bytes(r.minor));
        assert(s.subrange(8, 12) =~= spec_u32_to_le_bytes(r.max_readahead));
        assert(s.subrange(12, 16) =~= spec_u32_to_le_bytes(r.flags));
        assert(s.subrange(16, 18) =~= spec_u16_to_le_bytes(r.max_background));
        assert(s.subrange(18, 20) =~= spec_u16_to_le_bytes(r.congestion_threshold));
        assert(s.subrange(20, 24) =~= spec_u32_to_le_bytes(r.max_write));
        assert(s.subrange(24, 28) =~= spec_u32_to_le_bytes(r.time_gran));
        assert(s.subrange(28, 30) =~= spec_u16_to_le_bytes(r.max_pages));
        assert(s.subrange(30, 32) =~= spec_u16_to_le_bytes(r.max_alignment));
        assert(s.subrange(32, 36) =~= spec_u32_to_le_bytes(r.flags2));
        assert(s.subrange(36, 40) =~= spec_u32_to_le_bytes(r.max_stack_depth));
        assert(s.subrange(40, 42) =~= spec_u16_to_le_bytes(r.request_timeout));
        assert(s.subrange(42, 64) =~= r.unused.spec_bytes());
    }
}

impl WireRecord for fuse_init_out {
    open spec fn wf(&self) -> bool {
        &&& self.unused.wf()
    }

    open spec fn spec_size() -> nat {
        64
    }

    open spec fn spec_enc(&self) -> Seq<u8> {
        spec_u32_to_le_bytes(self.major) + spec_u32_to_le_bytes(self.minor) + spec_u32_to_le_bytes(self.max_readahead) + spec_u32_to_le_bytes(self.flags) + spec_u16_to_le_bytes(self.max_background) + spec_u16_to_le_bytes(self.congestion_threshold) + spec_u32_to_le_bytes(self.max_write) + spec_u32_to_le_bytes(self.time_gran) + spec_u16_to_le_bytes(self.max_pages) + spec_u16_to_le_bytes(self.max_alignment) + spec_u32_to_le_bytes(self.flags2) + spec_u32_to_le_bytes(self.max_stack_depth) + spec_u16_to_le_bytes(self.request_timeout) + self.unused.spec_bytes()
    }

    proof fn lemma_enc_len(&self) {
        le_bytes_facts();
    }

    fn size() -> (r: usize) {
        64
    }

    #[verifier::rlimit(50)]
    fn append_to(&self, out: &mut Vec<u8>) {
        push_u32(out, self.major);
        push_u32(out, self.minor);
        push_u32(out, self.max_readahead);
        push_u32(out, self.flags);
        push_u16(out, self.max_background);
        push_u16(out, self.congestion_threshold);
        push_u32(out, self.max_write);
        push_u32(out, self.time_gran);
        push_u16(out, self.max_pages);
        push_u16(out, self.max_alignment);
        push_u32(out, self.flags2);
        push_u32(out, self.max_stack_depth);
        push_u16(out, self.request_timeout);
        self.unused.append_to(out);
        proof {
            le_bytes_facts();
            assert(out@ =~= old(out)@ + self.spec_enc());
        }
    }
}

/// Payload of a get-lock or set-lock request.
#[derive(Debug, Clone, PartialEq, Eq)]
pub struct fuse_lk_in {
    pub fh: u64,
    pub owner: u64,
    pub lk: fuse_file_lock,
    pub lk_flags: LockFlags,
    pub padding: u32,
}

impl fuse_lk_in {
    /// `self` holds exactly the fields laid out in `s`.
    pub open spec fn dec_from(self, s: Seq<u8>) -> bool
        recommends
            s.len() == 48,
    {
        &&& self.fh == spec_u64_from_le_bytes(s.subrange(0, 8))
        &&& self.owner == spec_u64_from_le_bytes(s.subrange(8, 16))
        &&& self.lk.dec_from(s.subrange(16, 40))
        &&& self.lk_flags.bits == spec_u32_from_le_bytes(s.subrange(40, 44))
        &&& self.padding == spec_u32_from_le_bytes(s.subrange(44, 48))
    }

    /// Reads the fixed layout at byte offset `off` of `b`.
    pub fn decode(b: &[u8], off: usize) -> (r: Self)
        requires
            off + 48 <= b@.len(),
        ensures
            r.wf(),
            r.dec_from(b@.subrange(off as int, off + 48)),
    {
        let _n: usize = b.len();
        let r = fuse_lk_in {
            fh: read_u64(b, off),
            owner: read_u64(b, off + 8),
            lk: fuse_file_lock::decode(b, off + 16),
            lk_flags: LockFlags { bits: read_u32(b, off + 40) },
            padding: read_u32(b, off + 44),
        };
        proof {
            let s = b@.subrange(off as int, off as int + 48);
            assert(s.subrange(0, 8) =~= b@.subrange(off as int + 0, off as int + 8));
            assert(s.subrange(8, 16) =~= b@.subrange(off as int + 8, off as int + 16));
            assert(s.subrange(16, 40) =~= b@.subrange(off as int + 16, off as int + 40));
            assert(s.subrange(40, 44) =~= b@.subrange(off as int + 40, off as int + 44));
            assert(s.subrange(44, 48) =~= b@.subrange(off as int + 44, off as int + 48));
        }
        r
    }

    /// The wire image as a fresh buffer.
    pub fn encode(&self) -> (r: Vec<u8>)
        requires
            self.wf(),
        ensures
            r@ == self.spec_enc(),
    {
        let mut v: Vec<u8> = Vec::new();
        self.append_to(&mut v);
        v
    }

    /// Decoding the encoding of a well-formed record reproduces every field.
    pub proof fn lemma_round_trip(r: Self, d: Self)
        requires
            r.wf(),
            d.dec_from(r.spec_enc()),
        ensures
            d == r,
    {
        le_bytes_facts();
        r.lk.lemma_enc_len();
        let s = r.spec_enc();
        assert(s.subrange(0, 8) =~= spec_u64_to_le_bytes(r.fh));
        assert(s.subrange(8, 16) =~= spec_u64_to_le_bytes(r.owner));
        assert(s.subrange(16, 40) =~= r.lk.spec_enc());
        assert(s.subrange(40, 44) =~= spec_u32_to_le_bytes(r.lk_flags.bits));
        assert(s.subrange(44, 48) =~= spec_u32_to_le_bytes(r.padding));
        fuse_file_lock::lemma_round_trip(r.lk, d.lk);
    }
}

impl WireRecord for fuse_lk_in {
    open spec fn wf(&self) -> bool {
        &&& self.lk.wf()
    }

    open spec fn spec_size() -> nat {
        48
    }

    open spec fn spec_enc(&self) -> Seq<u8> {
        spec_u64_to_le_bytes(self.fh) + spec_u64_to_le_bytes(self.owner) + self.lk.spec_enc() + spec_u32_to_le_bytes(self.lk_flags.bits) + spec_u32_to_le_bytes(self.padding)
    }

    proof fn lemma_enc_len(&self) {
        le_bytes_facts();
        self.lk.lemma_enc_len();
    }

    fn size() -> (r: usize) {
        48
    }

    fn append_to(&self, out: &mut Vec<u8>) {
        push_u64(out, self.fh);
        push_u64(out, self.owner);
        self.lk.append_to(out);
        push_u32(out, self.lk_flags.bits);
        push_u32(out, self.padding);
        proof {
            le_bytes_facts();
            self.lk.lemma_enc_len();
            assert(out@ =~= old(out)@ + self.spec_enc());
        }
    }
}

/// Reply payload of a get-lock request.
#[derive(Debug, Clone, PartialEq, Eq)]
pub struct fuse_lk_out {
    pub lk: fuse_file_lock,
}

impl fuse_lk_out {
    /// `self` holds exactly the fields laid out in `s`.
    pub open spec fn dec_from(self, s: Seq<u8>) -> bool
        recommends
            s.len() == 24,
    {
        &&& self.lk.dec_from(s.subrange(0, 24))
    }

    /// Reads the fixed layout at byte offset `off` of `b`.
    pub fn decode(b: &[u8], off: usize) -> (r: Self)
        requires
            off + 24 <= b@.len(),
        ensures
            r.wf(),
            r.dec_from(b@.subrange(off as int, off + 24)),
    {
        let _n: usize = b.len();
        let r = fuse_lk_out {
            lk: fuse_file_lock::decode(b, off),
        };
        proof {
            let s = b@.subrange(off as int, off as int + 24);
            assert(s.subrange(0, 24) =~= b@.subrange(off as int + 0, off as int + 24));
        }
        r
    }

    /// The wire image as a fresh buffer.
    pub fn encode(&self) -> (r: Vec<u8>)
        requires
            self.wf(),
        ensures
            r@ == self.spec_enc(),
    {
        let mut v: Vec<u8> = Vec::new();
        self.append_to(&mut v);
        v
    }

    /// Decoding the encoding of a well-formed record reproduces every field.
    pub proof fn lemma_round_trip(r: Self, d: Self)
        requires
            r.wf(),
            d.dec_from(r.spec_enc()),
        ensures
            d == r,
    {
        le_bytes_facts();
        r.lk.lemma_enc_len();
        let s = r.spec_enc();
        assert(s.subrange(0, 24) =~= r.lk.spec_enc());
        fuse_file_lock::lemma_round_trip(r.lk, d.lk);
    }
}

impl WireRecord for fuse_lk_out {
    open spec fn wf(&self) -> bool {
        &&& self.lk.wf()
    }

    open spec fn spec_size() -> nat {
        24
    }

    open spec fn spec_enc(&self) -> Seq<u8> {
        self.lk.spec_enc()
    }

    proof fn lemma_enc_len(&self) {
        le_bytes_facts();
        self.lk.lemma_enc_len();
    }

    fn size() -> (r: usize) {
        24
    }

    fn append_to(&self, out: &mut Vec<u8>) {
        self.lk.append_to(out);
        proof {
            le_bytes_facts();
            self.lk.lemma_enc_len();
            assert(out@ =~= old(out)@ + self.spec_enc());
        }
    }
}

/// Payload of an access-check request.
#[derive(Debug, Clone, PartialEq, Eq)]
pub struct fuse_access_in {
    pub mask: u32,
    pub padding: u32,
}

impl fuse_access_in {
    /// `self` holds exactly the fields laid out in `s`.
    pub open spec fn dec_from(self, s: Seq<u8>) -> bool
        recommends
            s.len() == 8,
    {
        &&& self.mask == spec_u32_from_le_bytes(s.subrange(0, 4))
        &&& self.padding == spec_u32_from_le_bytes(s.subrange(4, 8))
    }

    /// Reads the fixed layout at byte offset `off` of `b`.
    pub fn decode(b: &[u8], off: usize) -> (r: Self)
        requires
            off + 8 <= b@.len(),
        ensures
            r.wf(),
            r.dec_from(b@.subrange(off as int, off + 8)),
    {
        let _n: usize = b.len();
        let r = fuse_access_in {
            mask: read_u32(b, off),
            padding: read_u32(b, off + 4),
        };
        proof {
            let s = b@.subrange(off as int, off as int + 8);
            assert(s.subrange(0, 4) =~= b@.subrange(off as int + 0, off as int + 4));
            assert(s.subrange(4, 8) =~= b@.subrange(off as int + 4, off as int + 8));
        }
        r
    }

    /// The wire image as a fresh buffer.
    pub fn encode(&self) -> (r: Vec<u8>)
        requires
            self.wf(),
        ensures
            r@ == self.spec_enc(),
    {
        let mut v: Vec<u8> = Vec::new();
        self.append_to(&mut v);
        v
    }

    /// Decoding the encoding of a well-formed record reproduces every field.
    pub proof fn lemma_round_trip(r: Self, d: Self)
        requires
            r.wf(),
            d.dec_from(r.spec_enc()),
        ensures
            d == r,
    {
        le_bytes_facts();
        let s = r.spec_enc();
        assert(s.subrange(0, 4) =~= spec_u32_to_le_bytes(r.mask));
        assert(s.subrange(4, 8) =~= spec_u32_to_le_bytes(r.padding));
    }
}

impl WireRecord for fuse_access_in {
    open spec fn wf(&self) -> bool {
        true
    }

    open spec fn spec_size() -> nat {
        8
    }

    open spec fn spec_enc(&self) -> Seq<u8> {
        spec_u32_to_le_bytes(self.mask) + spec_u32_to_le_bytes(self.padding)
    }

    proof fn lemma_enc_len(&self) {
        le_bytes_facts();
    }

    fn size() -> (r: usize) {
        8
    }

    fn append_to(&self, out: &mut Vec<u8>) {
        push_u32(out, self.mask);
        push_u32(out, self.padding);
        proof {
            le_bytes_facts();
            assert(out@ =~= old(out)@ + self.spec_enc());
        }
    }
}

/// Payload of a create or temporary-file request; the name follows.
#[derive(Debug, Clone, PartialEq, Eq)]
pub struct fuse_create_in {
    pub flags: u32,
    pub mode: u32,
    pub umask: u32,
    pub open_flags: OpenInFlags,
}

impl fuse_create_in {
    /// `self` holds exactly the fields laid out in `s`.
    pub open spec fn dec_from(self, s: Seq<u8>) -> bool
        recommends
            s.len() == 16,
    {
        &&& self.flags == spec_u32_from_le_bytes(s.subrange(0, 4))
        &&& self.mode == spec_u32_from_le_bytes(s.subrange(4, 8))
        &&& self.umask == spec_u32_from_le_bytes(s.subrange(8, 12))
        &&& self.open_flags.bits == spec_u32_from_le_bytes(s.subrange(12, 16))
    }

    /// Reads the fixed layout at byte offset `off` of `b`.
    pub fn decode(b: &[u8], off: usize) -> (r: Self)
        requires
            off + 16 <= b@.len(),
        ensures
            r.wf(),
            r.dec_from(b@.subrange(off as int, off + 16)),
    {
        let _n: usize = b.len();
        let r = fuse_create_in {
            flags: read_u32(b, off),
            mode: read_u32(b, off + 4),
            umask: read_u32(b, off + 8),
            open_flags: OpenInFlags { bits: read_u32(b, off + 12) },
        };
        proof {
            let s = b@.subrange(off as int, off as int + 16);
            assert(s.subrange(0, 4) =~= b@.subrange(off as int + 0, off as int + 4));
            assert(s.subrange(4, 8) =~= b@.subrange(off as int + 4, off as int + 8));
            assert(s.subrange(8, 12) =~= b@.subrange(off as int + 8, off as int + 12));
            assert(s.subrange(12, 16) =~= b@.subrange(off as int + 12, off as int + 16));
        }
        r
    }

    /// The wire image as a fresh buffer.
    pub fn encode(&self) -> (r: Vec<u8>)
        requires
            self.wf(),
        ensures
            r@ == self.spec_enc(),
    {
        let mut v: Vec<u8> = Vec::new();
        self.append_to(&mut v);
        v
    }

    /// Decoding the encoding of a well-formed record reproduces every field.
    pub proof fn lemma_round_trip(r: Self, d: Self)
        requires
            r.wf(),
            d.dec_from(r.spec_enc()),
        ensures
            d == r,
    {
        le_bytes_facts();
        let s = r.spec_enc();
        assert(s.subrange(0, 4) =~= spec_u32_to_le_bytes(r.flags));
        assert(s.subrange(4, 8) =~= spec_u32_to_le_bytes(r.mode));
        assert(s.subrange(8, 12) =~= spec_u32_to_le_bytes(r.umask));
        assert(s.subrange(12, 16) =~= spec_u32_to_le_bytes(r.open_flags.bits));
    }
}

impl WireRecord for fuse_create_in {
    open spec fn wf(&self) -> bool {
        true
    }

    open spec fn spec_size() -> nat {
        16
    }

    open spec fn spec_enc(&self) -> Seq<u8> {
        spec_u32_to_le_bytes(self.flags) + spec_u32_to_le_bytes(self.mode) + spec_u32_to_le_bytes(self.umask) + spec_u32_to_le_bytes(self.open_flags.bits)
    }

    proof fn lemma_enc_len(&self) {
        le_bytes_facts();
    }

    fn size() -> (r: usize) {
        16
    }

    fn append_to(&self, out: &mut Vec<u8>) {
        push_u32(out, self.flags);
        push_u32(out, self.mode);
        push_u32(out, self.umask);
        push_u32(out, self.open_flags.bits);
        proof {
            le_bytes_facts();
            assert(out@ =~= old(out)@ + self.spec_enc());
        }
    }
}

/// Payload of an interrupt request: the correlation id to cancel.
#[derive(Debug, Clone, PartialEq, Eq)]
pub struct fuse_interrupt_in {
    pub unique: u64,
}

impl fuse_interrupt_in {
    /// `self` holds exactly the fields laid out in `s`.
    pub open spec fn dec_from(self, s: Seq<u8>) -> bool
        recommends
            s.len() == 8,
    {
        &&& self.unique == spec_u64_from_le_bytes(s.subrange(0, 8))
    }

    /// Reads the fixed layout at byte offset `off` of `b`.
    pub fn decode(b: &[u8], off: usize) -> (r: Self)
        requires
            off + 8 <= b@.len(),
        ensures
            r.wf(),
            r.dec_from(b@.subrange(off as int, off + 8)),
    {
        let _n: usize = b.len();
        let r = fuse_interrupt_in {
            unique: read_u64(b, off),
        };
        proof {
            let s = b@.subrange(off as int, off as int + 8);
            assert(s.subrange(0, 8) =~= b@.subrange(off as int + 0, off as int + 8));
        }
        r
    }

    /// The wire image as a fresh buffer.
    pub fn encode(&self) -> (r: Vec<u8>)
        requires
            self.wf(),
        ensures
            r@ == self.spec_enc(),
    {
        let mut v: Vec<u8> = Vec::new();
        self.append_to(&mut v);
        v
    }

    /// Decoding the encoding of a well-formed record reproduces every field.
    pub proof fn lemma_round_trip(r: Self, d: Self)
        requires
            r.wf(),
            d.dec_from(r.spec_enc()),
        ensures
            d == r,
    {
        le_bytes_facts();
        let s = r.spec_enc();
        assert(s.subrange(0, 8) =~= spec_u64_to_le_bytes(r.unique));
    }
}

impl WireRecord for fuse_interrupt_in {
    open spec fn wf(&self) -> bool {
        true
    }

    open spec fn spec_size() -> nat {
        8
    }

    open spec fn spec_enc(&self) -> Seq<u8> {
        spec_u64_to_le_bytes(self.unique)
    }

    proof fn lemma_enc_len(&self) {
        le_bytes_facts();
    }

    fn size() -> (r: usize) {
        8
    }

    fn append_to(&self, out: &mut Vec<u8>) {
        push_u64(out, self.unique);
        proof {
            le_bytes_facts();
            assert(out@ =~= old(out)@ + self.spec_enc());
        }
    }
}

/// Payload of a block-map request.
#[derive(Debug, Clone, PartialEq, Eq)]
pub struct fuse_bmap_in {
    pub block: u64,
    pub blocksize: u32,
    pub padding: u32,
}

impl fuse_bmap_in {
    /// `self` holds exactly the fields laid out in `s`.
    pub open spec fn dec_from(self, s: Seq<u8>) -> bool
        recommends
            s.len() == 16,
    {
        &&& self.block == spec_u64_from_le_bytes(s.subrange(0, 8))
        &&& self.blocksize == spec_u32_from_le_bytes(s.subrange(8, 12))
        &&& self.padding == spec_u32_from_le_bytes(s.subrange(12, 16))
    }

    /// Reads the fixed layout at byte offset `off` of `b`.
    pub fn decode(b: &[u8], off: usize) -> (r: Self)
        requires
            off + 16 <= b@.len(),
        ensures
            r.wf(),
            r.dec_from(b@.subrange(off as int, off + 16)),
    {
        let _n: usize = b.len();
        let r = fuse_bmap_in {
            block: read_u64(b, off),
            blocksize: read_u32(b, off + 8),
            padding: read_u32(b, off + 12),
        };
        proof {
            let s = b@.subrange(off as int, off as int + 16);
            assert(s.subrange(0, 8) =~= b@.subrange(off as int + 0, off as int + 8));
            assert(s.subrange(8, 12) =~= b@.subrange(off as int + 8, off as int + 12));
            assert(s.subrange(12, 16) =~= b@.subrange(off as int + 12, off as int + 16));
        }
        r
    }

    /// The wire image as a fresh buffer.
    pub fn encode(&self) -> (r: Vec<u8>)
        requires
            self.wf(),
        ensures
            r@ == self.spec_enc(),
    {
        let mut v: Vec<u8> = Vec::new();
        self.append_to(&mut v);
        v
    }

    /// Decoding the encoding of a well-formed record reproduces every field.
    pub proof fn lemma_round_trip(r: Self, d: Self)
        requires
            r.wf(),
            d.dec_from(r.spec_enc()),
        ensures
            d == r,
    {
        le_bytes_facts();
        let s = r.spec_enc();
        assert(s.subrange(0, 8) =~= spec_u64_to_le_bytes(r.block));
        assert(s.subrange(8, 12) =~= spec_u32_to_le_bytes(r.blocksize));
        assert(s.subrange(12, 16) =~= spec_u32_to_le_bytes(r.padding));
    }
}

impl WireRecord for fuse_bmap_in {
    open spec fn wf(&self) -> bool {
        true
    }

    open spec fn spec_size() -> nat {
        16
    }

    open spec fn spec_enc(&self) -> Seq<u8> {
        spec_u64_to_le_bytes(self.block) + spec_u32_to_le_bytes(self.blocksize) + spec_u32_to_le_bytes(self.padding)
    }

    proof fn lemma_enc_len(&self) {
        le_bytes_facts();
    }

    fn size() -> (r: usize) {
        16
    }

    fn append_to(&self, out: &mut Vec<u8>) {
        push_u64(out, self.block);
        push_u32(out, self.blocksize);
        push_u32(out, self.padding);
        proof {
            le_bytes_facts();
            assert(out@ =~= old(out)@ + self.spec_enc());
        }
    }
}

/// Reply payload of a block-map request.
#[derive(Debug, Clone, PartialEq, Eq)]
pub struct fuse_bmap_out {
    pub block: u64,
}

impl fuse_bmap_out {
    /// `self` holds exactly the fields laid out in `s`.
    pub open spec fn dec_from(self, s: Seq<u8>) -> bool
        recommends
            s.len() == 8,
    {
        &&& self.block == spec_u64_from_le_bytes(s.subrange(0, 8))
    }

    /// Reads the fixed layout at byte offset `off` of `b`.
    pub fn decode(b: &[u8], off: usize) -> (r: Self)
        requires
            off + 8 <= b@.len(),
        ensures
            r.wf(),
            r.dec_from(b@.subrange(off as int, off + 8)),
    {
        let _n: usize = b.len();
        let r = fuse_bmap_out {
            block: read_u64(b, off),
        };
        proof {
            let s = b@.subrange(off as int, off as int + 8);
            assert(s.subrange(0, 8) =~= b@.subrange(off as int + 0, off as int + 8));
        }
        r
    }

    /// The wire image as a fresh buffer.
    pub fn encode(&self) -> (r: Vec<u8>)
        requires
            self.wf(),
        ensures
            r@ == self.spec_enc(),
    {
        let mut v: Vec<u8> = Vec::new();
        self.append_to(&mut v);
        v
    }

    /// Decoding the encoding of a well-formed record reproduces every field.
    pub proof fn lemma_round_trip(r: Self, d: Self)
        requires
            r.wf(),
            d.dec_from(r.spec_enc()),
        ensures
            d == r,
    {
        le_bytes_facts();
        let s = r.spec_enc();
        assert(s.subrange(0, 8) =~= spec_u64_to_le_bytes(r.block));
    }
}

impl WireRecord for fuse_bmap_out {
    open spec fn wf(&self) -> bool {
        true
    }

    open spec fn spec_size() -> nat {
        8
    }

    open spec fn spec_enc(&self) -> Seq<u8> {
        spec_u64_to_le_bytes(self.block)
    }

    proof fn lemma_enc_len(&self) {
        le_bytes_facts();
    }

    fn size() -> (r: usize) {
        8
    }

    fn append_to(&self, out: &mut Vec<u8>) {
        push_u64(out, self.block);
        proof {
            le_bytes_facts();
            assert(out@ =~= old(out)@ + self.spec_enc());
        }
    }
}

/// Payload of an ioctl request; argument bytes follow as trailing data.
#[derive(Debug, Clone, PartialEq, Eq)]
pub struct fuse_ioctl_in {
    pub fh: u64,
    pub flags: IoctlFlags,
    pub cmd: u32,
    pub arg: u64,
    pub in_size: u32,
    pub out_size: u32,
}

impl fuse_ioctl_in {
    /// `self` holds exactly the fields laid out in `s`.
    pub open spec fn dec_from(self, s: Seq<u8>) -> bool
        recommends
            s.len() == 32,
    {
        &&& self.fh == spec_u64_from_le_bytes(s.subrange(0, 8))
        &&& self.flags.bits == spec_u32_from_le_bytes(s.subrange(8, 12))
        &&& self.cmd == spec_u32_from_le_bytes(s.subrange(12, 16))
        &&& self.arg == spec_u64_from_le_bytes(s.subrange(16, 24))
        &&& self.in_size == spec_u32_from_le_bytes(s.subrange(24, 28))
        &&& self.out_size == spec_u32_from_le_bytes(s.subrange(28, 32))
    }

    /// Reads the fixed layout at byte offset `off` of `b`.
    pub fn decode(b: &[u8], off: usize) -> (r: Self)
        requires
            off + 32 <= b@.len(),
        ensures
            r.wf(),
            r.dec_from(b@.subrange(off as int, off + 32)),
    {
        let _n: usize = b.len();
        let r = fuse_ioctl_in {
            fh: read_u64(b, off),
            flags: IoctlFlags { bits: read_u32(b, off + 8) },
            cmd: read_u32(b, off + 12),
            arg: read_u64(b, off + 16),
            in_size: read_u32(b, off + 24),
            out_size: read_u32(b, off + 28),
        };
        proof {
            let s = b@.subrange(off as int, off as int + 32);
            assert(s.subrange(0, 8) =~= b@.subrange(off as int + 0, off as int + 8));
            assert(s.subrange(8, 12) =~= b@.subrange(off as int + 8, off as int + 12));
            assert(s.subrange(12, 16) =~= b@.subrange(off as int + 12, off as int + 16));
            assert(s.subrange(16, 24) =~= b@.subrange(off as int + 16, off as int + 24));
            assert(s.subrange(24, 28) =~= b@.subrange(off as int + 24, off as int + 28));
            assert(s.subrange(28, 32) =~= b@.subrange(off as int + 28, off as int + 32));
        }
        r
    }

    /// The wire image as a fresh buffer.
    pub fn encode(&self) -> (r: Vec<u8>)
        requires
            self.wf(),
        ensures
            r@ == self.spec_enc(),
    {
        let mut v: Vec<u8> = Vec::new();
        self.append_to(&mut v);
        v
    }

    /// Decoding the encoding of a well-formed record reproduces every field.
    pub proof fn lemma_round_trip(r: Self, d: Self)
        requires
            r.wf(),
            d.dec_from(r.spec_enc()),
        ensures
            d == r,
    {
        le_bytes_facts();
        let s = r.spec_enc();
        assert(s.subrange(0, 8) =~= spec_u64_to_le_bytes(r.fh));
        assert(s.subrange(8, 12) =~= spec_u32_to_le_bytes(r.flags.bits));
        assert(s.subrange(12, 16) =~= spec_u32_to_le_bytes(r.cmd));
        assert(s.subrange(16, 24) =~= spec_u64_to_le_bytes(r.arg));
        assert(s.subrange(24, 28) =~= spec_u32_to_le_bytes(r.in_size));
        assert(s.subrange(28, 32) =~= spec_u32_to_le_bytes(r.out_size));
    }
}

impl WireRecord for fuse_ioctl_in {
    open spec fn wf(&self) -> bool {
        true
    }

    open spec fn spec_size() -> nat {
        32
    }

    open spec fn spec_enc(&self) -> Seq<u8> {
        spec_u64_to_le_bytes(self.fh) + spec_u32_to_le_bytes(self.flags.bits) + spec_u32_to_le_bytes(self.cmd) + spec_u64_to_le_bytes(self.arg) + spec_u32_to_le_bytes(self.in_size) + spec_u32_to_le_bytes(self.out_size)
    }

    proof fn lemma_enc_len(&self) {
        le_bytes_facts();
    }

    fn size() -> (r: usize) {
        32
    }

    fn append_to(&self, out: &mut Vec<u8>) {
        push_u64(out, self.fh);
        push_u32(out, self.flags.bits);
        push_u32(out, self.cmd);
        push_u64(out, self.arg);
        push_u32(out, self.in_size);
        push_u32(out, self.out_size);
        proof {
            le_bytes_facts();
            assert(out@ =~= old(out)@ + self.spec_enc());
        }
    }
}

/// Reply payload of an ioctl request; iovec entries may follow.
#[derive(Debug, Clone, PartialEq, Eq)]
pub struct fuse_ioctl_out {
    pub result: i32,
    pub flags: IoctlFlags,
    pub in_iovs: u32,
    pub out_iovs: u32,
}

impl fuse_ioctl_out {
    /// `self` holds exactly the fields laid out in `s`.
    pub open spec fn dec_from(self, s: Seq<u8>) -> bool
        recommends
            s.len() == 16,
    {
        &&& self.result == spec_i32_from_le_bytes(s.subrange(0, 4))
        &&& self.flags.bits == spec_u32_from_le_bytes(s.subrange(4, 8))
        &&& self.in_iovs == spec_u32_from_le_bytes(s.subrange(8, 12))
        &&& self.out_iovs == spec_u32_from_le_bytes(s.subrange(12, 16))
    }

    /// Reads the fixed layout at byte offset `off` of `b`.
    pub fn decode(b: &[u8], off: usize) -> (r: Self)
        requires
            off + 16 <= b@.len(),
        ensures
            r.wf(),
            r.dec_from(b@.subrange(off as int, off + 16)),
    {
        let _n: usize = b.len();
        let r = fuse_ioctl_out {
            result: read_i32(b, off),
            flags: IoctlFlags { bits: read_u32(b, off + 4) },
            in_iovs: read_u32(b, off + 8),
            out_iovs: read_u32(b, off + 12),
        };
        proof {
            let s = b@.subrange(off as int, off as int + 16);
            assert(s.subrange(0, 4) =~= b@.subrange(off as int + 0, off as int + 4));
            assert(s.subrange(4, 8) =~= b@.subrange(off as int + 4, off as int + 8));
            assert(s.subrange(8, 12) =~= b@.subrange(off as int + 8, off as int + 12));
            assert(s.subrange(12, 16) =~= b@.subrange(off as int + 12, off as int + 16));
        }
        r
    }

    /// The wire image as a fresh buffer.
    pub fn encode(&self) -> (r: Vec<u8>)
        requires
            self.wf(),
        ensures
            r@ == self.spec_enc(),
    {
        let mut v: Vec<u8> = Vec::new();
        self.append_to(&mut v);
        v
    }

    /// Decoding the encoding of a well-formed record reproduces every field.
    pub proof fn lemma_round_trip(r: Self, d: Self)
        requires
            r.wf(),
            d.dec_from(r.spec_enc()),
        ensures
            d == r,
    {
        le_bytes_facts();
        let s = r.spec_enc();
        assert(s.subrange(0, 4) =~= spec_i32_to_le_bytes(r.result));
        assert(s.subrange(4, 8) =~= spec_u32_to_le_bytes(r.flags.bits));
        assert(s.subrange(8, 12) =~= spec_u32_to_le_bytes(r.in_iovs));
        assert(s.subrange(12, 16) =~= spec_u32_to_le_bytes(r.out_iovs));
    }
}

impl WireRecord for fuse_ioctl_out {
    open spec fn wf(&self) -> bool {
        true
    }

    open spec fn spec_size() -> nat {
        16
    }

    open spec fn spec_enc(&self) -> Seq<u8> {
        spec_i32_to_le_bytes(self.result) + spec_u32_to_le_bytes(self.flags.bits) + spec_u32_to_le_bytes(self.in_iovs) + spec_u32_to_le_bytes(self.out_iovs)
    }

    proof fn lemma_enc_len(&self) {
        le_bytes_facts();
    }

    fn size() -> (r: usize) {
        16
    }

    fn append_to(&self, out: &mut Vec<u8>) {
        push_i32(out, self.result);
        push_u32(out, self.flags.bits);
        push_u32(out, self.in_iovs);
        push_u32(out, self.out_iovs);
        proof {
            le_bytes_facts();
            assert(out@ =~= old(out)@ + self.spec_enc());
        }
    }
}

/// One scatter-gather entry of an ioctl retry reply.
#[derive(Debug, Clone, PartialEq, Eq)]
pub struct fuse_ioctl_iovec {
    pub base: u64,
    pub len: u64,
}

impl fuse_ioctl_iovec {
    /// `self` holds exactly the fields laid out in `s`.
    pub open spec fn dec_from(self, s: Seq<u8>) -> bool
        recommends
            s.len() == 16,
    {
        &&& self.base == spec_u64_from_le_bytes(s.subrange(0, 8))
        &&& self.len == spec_u64_from_le_bytes(s.subrange(8, 16))
    }

    /// Reads the fixed layout at byte offset `off` of `b`.
    pub fn decode(b: &[u8], off: usize) -> (r: Self)
        requires
            off + 16 <= b@.len(),
        ensures
            r.wf(),
            r.dec_from(b@.subrange(off as int, off + 16)),
    {
        let _n: usize = b.len();
        let r = fuse_ioctl_iovec {
            base: read_u64(b, off),
            len: read_u64(b, off + 8),
        };
        proof {
            let s = b@.subrange(off as int, off as int + 16);
            assert(s.subrange(0, 8) =~= b@.subrange(off as int + 0, off as int + 8));
            assert(s.subrange(8, 16) =~= b@.subrange(off as int + 8, off as int + 16));
        }
        r
    }

    /// The wire image as a fresh buffer.
    pub fn encode(&self) -> (r: Vec<u8>)
        requires
            self.wf(),
        ensures
            r@ == self.spec_enc(),
    {
        let mut v: Vec<u8> = Vec::new();
        self.append_to(&mut v);
        v
    }

    /// Decoding the encoding of a well-formed record reproduces every field.
    pub proof fn lemma_round_trip(r: Self, d: Self)
        requires
            r.wf(),
            d.dec_from(r.spec_enc()),
        ensures
            d == r,
    {
        le_bytes_facts();
        let s = r.spec_enc();
        assert(s.subrange(0, 8) =~= spec_u64_to_le_bytes(r.base));
        assert(s.subrange(8, 16) =~= spec_u64_to_le_bytes(r.len));
    }
}

impl WireRecord for fuse_ioctl_iovec {
    open spec fn wf(&self) -> bool {
        true
    }

    open spec fn spec_size() -> nat {
        16
    }

    open spec fn spec_enc(&self) -> Seq<u8> {
        spec_u64_to_le_bytes(self.base) + spec_u64_to_le_bytes(self.len)
    }

    proof fn lemma_enc_len(&self) {
        le_bytes_facts();
    }

    fn size() -> (r: usize) {
        16
    }

    fn append_to(&self, out: &mut Vec<u8>) {
        push_u64(out, self.base);
        push_u64(out, self.len);
        proof {
            le_bytes_facts();
            assert(out@ =~= old(out)@ + self.spec_enc());
        }
    }
}

/// Payload of a poll request.
#[derive(Debug, Clone, PartialEq, Eq)]
pub struct fuse_poll_in {
    pub fh: u64,
    pub kh: u64,
    pub flags: u32,
    pub events: u32,
}

impl fuse_poll_in {
    /// `self` holds exactly the fields laid out in `s`.
    pub open spec fn dec_from(self, s: Seq<u8>) -> bool
        recommends
            s.len() == 24,
    {
        &&& self.fh == spec_u64_from_le_bytes(s.subrange(0, 8))
        &&& self.kh == spec_u64_from_le_bytes(s.subrange(8, 16))
        &&& self.flags == spec_u32_from_le_bytes(s.subrange(16, 20))
        &&& self.events == spec_u32_from_le_bytes(s.subrange(20, 24))
    }

    /// Reads the fixed layout at byte offset `off` of `b`.
    pub fn decode(b: &[u8], off: usize) -> (r: Self)
        requires
            off + 24 <= b@.len(),
        ensures
            r.wf(),
            r.dec_from(b@.subrange(off as int, off + 24)),
    {
        let _n: usize = b.len();
        let r = fuse_poll_in {
            fh: read_u64(b, off),
            kh: read_u64(b, off + 8),
            flags: read_u32(b, off + 16),
            events: read_u32(b, off + 20),
        };
        proof {
            let s = b@.subrange(off as int, off as int + 24);
            assert(s.subrange(0, 8) =~= b@.subrange(off as int + 0, off as int + 8));
            assert(s.subrange(8, 16) =~= b@.subrange(off as int + 8, off as int + 16));
            assert(s.subrange(16, 20) =~= b@.subrange(off as int + 16, off as int + 20));
            assert(s.subrange(20, 24) =~= b@.subrange(off as int + 20, off as int + 24));
        }
        r
    }

    /// The wire image as a fresh buffer.
    pub fn encode(&self) -> (r: Vec<u8>)
        requires
            self.wf(),
        ensures
            r@ == self.spec_enc(),
    {
        let mut v: Vec<u8> = Vec::new();
        self.append_to(&mut v);
        v
    }

    /// Decoding the encoding of a well-formed record reproduces every field.
    pub proof fn lemma_round_trip(r: Self, d: Self)
        requires
            r.wf(),
            d.dec_from(r.spec_enc()),
        ensures
            d == r,
    {
        le_bytes_facts();
        let s = r.spec_enc();
        assert(s.subrange(0, 8) =~= spec_u64_to_le_bytes(r.fh));
        assert(s.subrange(8, 16) =~= spec_u64_to_le_bytes(r.kh));
        assert(s.subrange(16, 20) =~= spec_u32_to_le_bytes(r.flags));
        assert(s.subrange(20, 24) =~= spec_u32_to_le_bytes(r.events));
    }
}

impl WireRecord for fuse_poll_in {
    open spec fn wf(&self) -> bool {
        true
    }

    open spec fn spec_size() -> nat {
        24
    }

    open spec fn spec_enc(&self) -> Seq<u8> {
        spec_u64_to_le_bytes(self.fh) + spec_u64_to_le_bytes(self.kh) + spec_u32_to_le_bytes(self.flags) + spec_u32_to_le_bytes(self.events)
    }

    proof fn lemma_enc_len(&self) {
        le_bytes_facts();
    }

    fn size() -> (r: usize) {
        24
    }

    fn append_to(&self, out: &mut Vec<u8>) {
        push_u64(out, self.fh);
        push_u64(out, self.kh);
        push_u32(out, self.flags);
        push_u32(out, self.events);
        proof {
            le_bytes_facts();
            assert(out@ =~= old(out)@ + self.spec_enc());
        }
    }
}

/// Reply payload of a poll request.
#[derive(Debug, Clone, PartialEq, Eq)]
pub struct fuse_poll_out {
    pub revents: u32,
    pub padding: Padding<4>,
}

impl fuse_poll_out {
    /// Field-for-field equality; reserved regions compare by their bytes.
    pub open spec fn same_fields(self, other: Self) -> bool {
        &&& self.revents == other.revents
        &&& self.padding.spec_bytes() == other.padding.spec_bytes()
    }

    /// `self` holds exactly the fields laid out in `s`.
    pub open spec fn dec_from(self, s: Seq<u8>) -> bool
        recommends
            s.len() == 8,
    {
        &&& self.revents == spec_u32_from_le_bytes(s.subrange(0, 4))
        &&& self.padding.spec_bytes() == s.subrange(4, 8)
    }

    /// Reads the fixed layout at byte offset `off` of `b`.
    pub fn decode(b: &[u8], off: usize) -> (r: Self)
        requires
            off + 8 <= b@.len(),
        ensures
            r.wf(),
            r.dec_from(b@.subrange(off as int, off + 8)),
    {
        let _n: usize = b.len();
        let r = fuse_poll_out {
            revents: read_u32(b, off),
            padding: Padding::decode(b, off + 4),
        };
        proof {
            let s = b@.subrange(off as int, off as int + 8);
            assert(s.subrange(0, 4) =~= b@.subrange(off as int + 0, off as int + 4));
            assert(s.subrange(4, 8) =~= b@.subrange(off as int + 4, off as int + 8));
        }
        r
    }

    /// The wire image as a fresh buffer.
    pub fn encode(&self) -> (r: Vec<u8>)
        requires
            self.wf(),
        ensures
            r@ == self.spec_enc(),
    {
        let mut v: Vec<u8> = Vec::new();
        self.append_to(&mut v);
        v
    }

    /// Decoding the encoding of a well-formed record reproduces every field (reserved regions by their bytes).
    pub proof fn lemma_round_trip(r: Self, d: Self)
        requires
            r.wf(),
            d.dec_from(r.spec_enc()),
        ensures
            d.same_fields(r),
    {
        le_bytes_facts();
        let s = r.spec_enc();
        assert(s.subrange(0, 4) =~= spec_u32_to_le_bytes(r.revents));
        assert(s.subrange(4, 8) =~= r.padding.spec_bytes());
    }
}

impl WireRecord for fuse_poll_out {
    open spec fn wf(&self) -> bool {
        &&& self.padding.wf()
    }

    open spec fn spec_size() -> nat {
        8
    }

    open spec fn spec_enc(&self) -> Seq<u8> {
        spec_u32_to_le_bytes(self.revents) + self.padding.spec_bytes()
    }

    proof fn lemma_enc_len(&self) {
        le_bytes_facts();
    }

    fn size() -> (r: usize) {
        8
    }

    fn append_to(&self, out: &mut Vec<u8>) {
        push_u32(out, self.revents);
        self.padding.append_to(out);
        proof {
            le_bytes_facts();
            assert(out@ =~= old(out)@ + self.spec_enc());
        }
    }
}

/// Payload of a batched forget; the per-node entries follow.
#[derive(Debug, Clone, PartialEq, Eq)]
pub struct fuse_batch_forget_in {
    pub count: u32,
    pub dummy: u32,
}

impl fuse_batch_forget_in {
    /// `self` holds exactly the fields laid out in `s`.
    pub open spec fn dec_from(self, s: Seq<u8>) -> bool
        recommends
            s.len() == 8,
    {
        &&& self.count == spec_u32_from_le_bytes(s.subrange(0, 4))
        &&& self.dummy == spec_u32_from_le_bytes(s.subrange(4, 8))
    }

    /// Reads the fixed layout at byte offset `off` of `b`.
    pub fn decode(b: &[u8], off: usize) -> (r: Self)
        requires
            off + 8 <= b@.len(),
        ensures
            r.wf(),
            r.dec_from(b@.subrange(off as int, off + 8)),
    {
        let _n: usize = b.len();
        let r = fuse_batch_forget_in {
            count: read_u32(b, off),
            dummy: read_u32(b, off + 4),
        };
        proof {
            let s = b@.subrange(off as int, off as int + 8);
            assert(s.subrange(0, 4) =~= b@.subrange(off as int + 0, off as int + 4));
            assert(s.subrange(4, 8) =~= b@.subrange(off as int + 4, off as int + 8));
        }
        r
    }

    /// The wire image as a fresh buffer.
    pub fn encode(&self) -> (r: Vec<u8>)
        requires
            self.wf(),
        ensures
            r@ == self.spec_enc(),
    {
        let mut v: Vec<u8> = Vec::new();
        self.append_to(&mut v);
        v
    }

    /// Decoding the encoding of a well-formed record reproduces every field.
    pub proof fn lemma_round_trip(r: Self, d: Self)
        requires
            r.wf(),
            d.dec_from(r.spec_enc()),
        ensures
            d == r,
    {
        le_bytes_facts();
        let s = r.spec_enc();
        assert(s.subrange(0, 4) =~= spec_u32_to_le_bytes(r.count));
        assert(s.subrange(4, 8) =~= spec_u32_to_le_bytes(r.dummy));
    }
}

impl WireRecord for fuse_batch_forget_in {
    open spec fn wf(&self) -> bool {
        true
    }

    open spec fn spec_size() -> nat {
        8
    }

    open spec fn spec_enc(&self) -> Seq<u8> {
        spec_u32_to_le_bytes(self.count) + spec_u32_to_le_bytes(self.dummy)
    }

    proof fn lemma_enc_len(&self) {
        le_bytes_facts();
    }

    fn size() -> (r: usize) {
        8
    }

    fn append_to(&self, out: &mut Vec<u8>) {
        push_u32(out, self.count);
        push_u32(out, self.dummy);
        proof {
            le_bytes_facts();
            assert(out@ =~= old(out)@ + self.spec_enc());
        }
    }
}

/// One entry of a batched forget request.
#[derive(Debug, Clone, PartialEq, Eq)]
pub struct fuse_forget_one {
    pub nodeid: u64,
    pub nlookup: u64,
}

impl fuse_forget_one {
    /// `self` holds exactly the fields laid out in `s`.
    pub open spec fn dec_from(self, s: Seq<u8>) -> bool
        recommends
            s.len() == 16,
    {
        &&& self.nodeid == spec_u64_from_le_bytes(s.subrange(0, 8))
        &&& self.nlookup == spec_u64_from_le_bytes(s.subrange(8, 16))
    }

    /// Reads the fixed layout at byte offset `off` of `b`.
    pub fn decode(b: &[u8], off: usize) -> (r: Self)
        requires
            off + 16 <= b@.len(),
        ensures
            r.wf(),
            r.dec_from(b@.subrange(off as int, off + 16)),
    {
        let _n: usize = b.len();
        let r = fuse_forget_one {
            nodeid: read_u64(b, off),
            nlookup: read_u64(b, off + 8),
        };
        proof {
            let s = b@.subrange(off as int, off as int + 16);
            assert(s.subrange(0, 8) =~= b@.subrange(off as int + 0, off as int + 8));
            assert(s.subrange(8, 16) =~= b@.subrange(off as int + 8, off as int + 16));
        }
        r
    }

    /// The wire image as a fresh buffer.
    pub fn encode(&self) -> (r: Vec<u8>)
        requires
            self.wf(),
        ensures
            r@ == self.spec_enc(),
    {
        let mut v: Vec<u8> = Vec::new();
        self.append_to(&mut v);
        v
    }

    /// Decoding the encoding of a well-formed record reproduces every field.
    pub proof fn lemma_round_trip(r: Self, d: Self)
        requires
            r.wf(),
            d.dec_from(r.spec_enc()),
        ensures
            d == r,
    {
        le_bytes_facts();
        let s = r.spec_enc();
        assert(s.subrange(0, 8) =~= spec_u64_to_le_bytes(r.nodeid));
        assert(s.subrange(8, 16) =~= spec_u64_to_le_bytes(r.nlookup));
    }
}

impl WireRecord for fuse_forget_one {
    open spec fn wf(&self) -> bool {
        true
    }

    open spec fn spec_size() -> nat {
        16
    }

    open spec fn spec_enc(&self) -> Seq<u8> {
        spec_u64_to_le_bytes(self.nodeid) + spec_u64_to_le_bytes(self.nlookup)
    }

    proof fn lemma_enc_len(&self) {
        le_bytes_facts();
    }

    fn size() -> (r: usize) {
        16
    }

    fn append_to(&self, out: &mut Vec<u8>) {
        push_u64(out, self.nodeid);
        push_u64(out, self.nlookup);
        proof {
            le_bytes_facts();
            assert(out@ =~= old(out)@ + self.spec_enc());
        }
    }
}

/// Payload of a file-allocation request.
#[derive(Debug, Clone, PartialEq, Eq)]
pub struct fuse_fallocate_in {
    pub fh: u64,
    pub offset: u64,
    pub length: u64,
    pub mode: u32,
    pub padding: u32,
}

impl fuse_fallocate_in {
    /// `self` holds exactly the fields laid out in `s`.
    pub open spec fn dec_from(self, s: Seq<u8>) -> bool
        recommends
            s.len() == 32,
    {
        &&& self.fh == spec_u64_from_le_bytes(s.subrange(0, 8))
        &&& self.offset == spec_u64_from_le_bytes(s.subrange(8, 16))
        &&& self.length == spec_u64_from_le_bytes(s.subrange(16, 24))
        &&& self.mode == spec_u32_from_le_bytes(s.subrange(24, 28))
        &&& self.padding == spec_u32_from_le_bytes(s.subrange(28, 32))
    }

    /// Reads the fixed layout at byte offset `off` of `b`.
    pub fn decode(b: &[u8], off: usize) -> (r: Self)
        requires
            off + 32 <= b@.len(),
        ensures
            r.wf(),
            r.dec_from(b@.subrange(off as int, off + 32)),
    {
        let _n: usize = b.len();
        let r = fuse_fallocate_in {
            fh: read_u64(b, off),
            offset: read_u64(b, off + 8),
            length: read_u64(b, off + 16),
            mode: read_u32(b, off + 24),
            padding: read_u32(b, off + 28),
        };
        proof {
            let s = b@.subrange(off as int, off as int + 32);
            assert(s.subrange(0, 8) =~= b@.subrange(off as int + 0, off as int + 8));
            assert(s.subrange(8, 16) =~= b@.subrange(off as int + 8, off as int + 16));
            assert(s.subrange(16, 24) =~= b@.subrange(off as int + 16, off as int + 24));
            assert(s.subrange(24, 28) =~= b@.subrange(off as int + 24, off as int + 28));
            assert(s.subrange(28, 32) =~= b@.subrange(off as int + 28, off as int + 32));
        }
        r
    }

    /// The wire image as a fresh buffer.
    pub fn encode(&self) -> (r: Vec<u8>)
        requires
            self.wf(),
        ensures
            r@ == self.spec_enc(),
    {
        let mut v: Vec<u8> = Vec::new();
        self.append_to(&mut v);
        v
    }

    /// Decoding the encoding of a well-formed record reproduces every field.
    pub proof fn lemma_round_trip(r: Self, d: Self)
        requires
            r.wf(),
            d.dec_from(r.spec_enc()),
        ensures
            d == r,
    {
        le_bytes_facts();
        let s = r.spec_enc();
        assert(s.subrange(0, 8) =~= spec_u64_to_le_bytes(r.fh));
        assert(s.subrange(8, 16) =~= spec_u64_to_le_bytes(r.offset));
        assert(s.subrange(16, 24) =~= spec_u64_to_le_bytes(r.length));
        assert(s.subrange(24, 28) =~= spec_u32_to_le_bytes(r.mode));
        assert(s.subrange(28, 32) =~= spec_u32_to_le_bytes(r.padding));
    }
}

impl WireRecord for fuse_fallocate_in {
    open spec fn wf(&self) -> bool {
        true
    }

    open spec fn spec_size() -> nat {
        32
    }

    open spec fn spec_enc(&self) -> Seq<u8> {
        spec_u64_to_le_bytes(self.fh) + spec_u64_to_le_bytes(self.offset) + spec_u64_to_le_bytes(self.length) + spec_u32_to_le_bytes(self.mode) + spec_u32_to_le_bytes(self.padding)
    }

    proof fn lemma_enc_len(&self) {
        le_bytes_facts();
    }

    fn size() -> (r: usize) {
        32
    }

    fn append_to(&self, out: &mut Vec<u8>) {
        push_u64(out, self.fh);
        push_u64(out, self.offset);
        push_u64(out, self.length);
        push_u32(out, self.mode);
        push_u32(out, self.padding);
        proof {
            le_bytes_facts();
            assert(out@ =~= old(out)@ + self.spec_enc());
        }
    }
}

/// Payload of the two-flag rename variant; the two names follow.
#[derive(Debug, Clone, PartialEq, Eq)]
pub struct fuse_rename2_in {
    pub newdir: u64,
    pub flags: u32,
    pub padding: u32,
}

impl fuse_rename2_in {
    /// `self` holds exactly the fields laid out in `s`.
    pub open spec fn dec_from(self, s: Seq<u8>) -> bool
        recommends
            s.len() == 16,
    {
        &&& self.newdir == spec_u64_from_le_bytes(s.subrange(0, 8))
        &&& self.flags == spec_u32_from_le_bytes(s.subrange(8, 12))
        &&& self.padding == spec_u32_from_le_bytes(s.subrange(12, 16))
    }

    /// Reads the fixed layout at byte offset `off` of `b`.
    pub fn decode(b: &[u8], off: usize) -> (r: Self)
        requires
            off + 16 <= b@.len(),
        ensures
            r.wf(),
            r.dec_from(b@.subrange(off as int, off + 16)),
    {
        let _n: usize = b.len();
        let r = fuse_rename2_in {
            newdir: read_u64(b, off),
            flags: read_u32(b, off + 8),
            padding: read_u32(b, off + 12),
        };
        proof {
            let s = b@.subrange(off as int, off as int + 16);
            assert(s.subrange(0, 8) =~= b@.subrange(off as int + 0, off as int + 8));
            assert(s.subrange(8, 12) =~= b@.subrange(off as int + 8, off as int + 12));
            assert(s.subrange(12, 16) =~= b@.subrange(off as int + 12, off as int + 16));
        }
        r
    }

    /// The wire image as a fresh buffer.
    pub fn encode(&self) -> (r: Vec<u8>)
        requires
            self.wf(),
        ensures
            r@ == self.spec_enc(),
    {
        let mut v: Vec<u8> = Vec::new();
        self.append_to(&mut v);
        v
    }

    /// Decoding the encoding of a well-formed record reproduces every field.
    pub proof fn lemma_round_trip(r: Self, d: Self)
        requires
            r.wf(),
            d.dec_from(r.spec_enc()),
        ensures
            d == r,
    {
        le_bytes_facts();
        let s = r.spec_enc();
        assert(s.subrange(0, 8) =~= spec_u64_to_le_bytes(r.newdir));
        assert(s.subrange(8, 12) =~= spec_u32_to_le_bytes(r.flags));
        assert(s.subrange(12, 16) =~= spec_u32_to_le_bytes(r.padding));
    }
}

impl WireRecord for fuse_rename2_in {
    open spec fn wf(&self) -> bool {
        true
    }

    open spec fn spec_size() -> nat {
        16
    }

    open spec fn spec_enc(&self) -> Seq<u8> {
        spec_u64_to_le_bytes(self.newdir) + spec_u32_to_le_bytes(self.flags) + spec_u32_to_le_bytes(self.padding)
    }

    proof fn lemma_enc_len(&self) {
        le_bytes_facts();
    }

    fn size() -> (r: usize) {
        16
    }

    fn append_to(&self, out: &mut Vec<u8>) {
        push_u64(out, self.newdir);
        push_u32(out, self.flags);
        push_u32(out, self.padding);
        proof {
            le_bytes_facts();
            assert(out@ =~= old(out)@ + self.spec_enc());
        }
    }
}

/// Payload of a seek request.
#[derive(Debug, Clone, PartialEq, Eq)]
pub struct fuse_lseek_in {
    pub fh: u64,
    pub offset: u64,
    pub whence: u32,
    pub padding: u32,
}

impl fuse_lseek_in {
    /// `self` holds exactly the fields laid out in `s`.
    pub open spec fn dec_from(self, s: Seq<u8>) -> bool
        recommends
            s.len() == 24,
    {
        &&& self.fh == spec_u64_from_le_bytes(s.subrange(0, 8))
        &&& self.offset == spec_u64_from_le_bytes(s.subrange(8, 16))
        &&& self.whence == spec_u32_from_le_bytes(s.subrange(16, 20))
        &&& self.padding == spec_u32_from_le_bytes(s.subrange(20, 24))
    }

    /// Reads the fixed layout at byte offset `off` of `b`.
    pub fn decode(b: &[u8], off: usize) -> (r: Self)
        requires
            off + 24 <= b@.len(),
        ensures
            r.wf(),
            r.dec_from(b@.subrange(off as int, off + 24)),
    {
        let _n: usize = b.len();
        let r = fuse_lseek_in {
            fh: read_u64(b, off),
            offset: read_u64(b, off + 8),
            whence: read_u32(b, off + 16),
            padding: read_u32(b, off + 20),
        };
        proof {
            let s = b@.subrange(off as int, off as int + 24);
            assert(s.subrange(0, 8) =~= b@.subrange(off as int + 0, off as int + 8));
            assert(s.subrange(8, 16) =~= b@.subrange(off as int + 8, off as int + 16));
            assert(s.subrange(16, 20) =~= b@.subrange(off as int + 16, off as int + 20));
            assert(s.subrange(20, 24) =~= b@.subrange(off as int + 20, off as int + 24));
        }
        r
    }

    /// The wire image as a fresh buffer.
    pub fn encode(&self) -> (r: Vec<u8>)
        requires
            self.wf(),
        ensures
            r@ == self.spec_enc(),
    {
        let mut v: Vec<u8> = Vec::new();
        self.append_to(&mut v);
        v
    }

    /// Decoding the encoding of a well-formed record reproduces every field.
    pub proof fn lemma_round_trip(r: Self, d: Self)
        requires
            r.wf(),
            d.dec_from(r.spec_enc()),
        ensures
            d == r,
    {
        le_bytes_facts();
        let s = r.spec_enc();
        assert(s.subrange(0, 8) =~= spec_u64_to_le_bytes(r.fh));
        assert(s.subrange(8, 16) =~= spec_u64_to_le_bytes(r.offset));
        assert(s.subrange(16, 20) =~= spec_u32_to_le_bytes(r.whence));
        assert(s.subrange(20, 24) =~= spec_u32_to_le_bytes(r.padding));
    }
}

impl WireRecord for fuse_lseek_in {
    open spec fn wf(&self) -> bool {
        true
    }

    open spec fn spec_size() -> nat {
        24
    }

    open spec fn spec_enc(&self) -> Seq<u8> {
        spec_u64_to_le_bytes(self.fh) + spec_u64_to_le_bytes(self.offset) + spec_u32_to_le_bytes(self.whence) + spec_u32_to_le_bytes(self.padding)
    }

    proof fn lemma_enc_len(&self) {
        le_bytes_facts();
    }

    fn size() -> (r: usize) {
        24
    }

    fn append_to(&self, out: &mut Vec<u8>) {
        push_u64(out, self.fh);
        push_u64(out, self.offset);
        push_u32(out, self.whence);
        push_u32(out, self.padding);
        proof {
            le_bytes_facts();
            assert(out@ =~= old(out)@ + self.spec_enc());
        }
    }
}

/// Reply payload of a seek request.
#[derive(Debug, Clone, PartialEq, Eq)]
pub struct fuse_lseek_out {
    pub offset: u64,
}

impl fuse_lseek_out {
    /// `self` holds exactly the fields laid out in `s`.
    pub open spec fn dec_from(self, s: Seq<u8>) -> bool
        recommends
            s.len() == 8,
    {
        &&& self.offset == spec_u64_from_le_bytes(s.subrange(0, 8))
    }

    /// Reads the fixed layout at byte offset `off` of `b`.
    pub fn decode(b: &[u8], off: usize) -> (r: Self)
        requires
            off + 8 <= b@.len(),
        ensures
            r.wf(),
            r.dec_from(b@.subrange(off as int, off + 8)),
    {
        let _n: usize = b.len();
        let r = fuse_lseek_out {
            offset: read_u64(b, off),
        };
        proof {
            let s = b@.subrange(off as int, off as int + 8);
            assert(s.subrange(0, 8) =~= b@.subrange(off as int + 0, off as int + 8));
        }
        r
    }

    /// The wire image as a fresh buffer.
    pub fn encode(&self) -> (r: Vec<u8>)
        requires
            self.wf(),
        ensures
            r@ == self.spec_enc(),
    {
        let mut v: Vec<u8> = Vec::new();
        self.append_to(&mut v);
        v
    }

    /// Decoding the encoding of a well-formed record reproduces every field.
    pub proof fn lemma_round_trip(r: Self, d: Self)
        requires
            r.wf(),
            d.dec_from(r.spec_enc()),
        ensures
            d == r,
    {
        le_bytes_facts();
        let s = r.spec_enc();
        assert(s.subrange(0, 8) =~= spec_u64_to_le_bytes(r.offset));
    }
}

impl WireRecord for fuse_lseek_out {
    open spec fn wf(&self) -> bool {
        true
    }

    open spec fn spec_size() -> nat {
        8
    }

    open spec fn spec_enc(&self) -> Seq<u8> {
        spec_u64_to_le_bytes(self.offset)
    }

    proof fn lemma_enc_len(&self) {
        le_bytes_facts();
    }

    fn size() -> (r: usize) {
        8
    }

    fn append_to(&self, out: &mut Vec<u8>) {
        push_u64(out, self.offset);
        proof {
            le_bytes_facts();
            assert(out@ =~= old(out)@ + self.spec_enc());
        }
    }
}

/// Payload of a copy-file-range request.
#[derive(Debug, Clone, PartialEq, Eq)]
pub struct fuse_copy_file_range_in {
    pub fh_in: u64,
    pub off_in: u64,
    pub nodeid_out: u64,
    pub fh_out: u64,
    pub off_out: u64,
    pub len: u64,
    pub flags: u64,
}

impl fuse_copy_file_range_in {
    /// `self` holds exactly the fields laid out in `s`.
    pub open spec fn dec_from(self, s: Seq<u8>) -> bool
        recommends
            s.len() == 56,
    {
        &&& self.fh_in == spec_u64_from_le_bytes(s.subrange(0, 8))
        &&& self.off_in == spec_u64_from_le_bytes(s.subrange(8, 16))
        &&& self.nodeid_out == spec_u64_from_le_bytes(s.subrange(16, 24))
        &&& self.fh_out == spec_u64_from_le_bytes(s.subrange(24, 32))
        &&& self.off_out == spec_u64_from_le_bytes(s.subrange(32, 40))
        &&& self.len == spec_u64_from_le_bytes(s.subrange(40, 48))
        &&& self.flags == spec_u64_from_le_bytes(s.subrange(48, 56))
    }

    /// Reads the fixed layout at byte offset `off` of `b`.
    pub fn decode(b: &[u8], off: usize) -> (r: Self)
        requires
            off + 56 <= b@.len(),
        ensures
            r.wf(),
            r.dec_from(b@.subrange(off as int, off + 56)),
    {
        let _n: usize = b.len();
        let r = fuse_copy_file_range_in {
            fh_in: read_u64(b, off),
            off_in: read_u64(b, off + 8),
            nodeid_out: read_u64(b, off + 16),
            fh_out: read_u64(b, off + 24),
            off_out: read_u64(b, off + 32),
            len: read_u64(b, off + 40),
            flags: read_u64(b, off + 48),
        };
        proof {
            let s = b@.subrange(off as int, off as int + 56);
            assert(s.subrange(0, 8) =~= b@.subrange(off as int + 0, off as int + 8));
            assert(s.subrange(8, 16) =~= b@.subrange(off as int + 8, off as int + 16));
            assert(s.subrange(16, 24) =~= b@.subrange(off as int + 16, off as int + 24));
            assert(s.subrange(24, 32) =~= b@.subrange(off as int + 24, off as int + 32));
            assert(s.subrange(32, 40) =~= b@.subrange(off as int + 32, off as int + 40));
            assert(s.subrange(40, 48) =~= b@.subrange(off as int + 40, off as int + 48));
            assert(s.subrange(48, 56) =~= b@.subrange(off as int + 48, off as int + 56));
        }
        r
    }

    /// The wire image as a fresh buffer.
    pub fn encode(&self) -> (r: Vec<u8>)
        requires
            self.wf(),
        ensures
            r@ == self.spec_enc(),
    {
        let mut v: Vec<u8> = Vec::new();
        self.append_to(&mut v);
        v
    }

    /// Decoding the encoding of a well-formed record reproduces every field.
    pub proof fn lemma_round_trip(r: Self, d: Self)
        requires
            r.wf(),
            d.dec_from(r.spec_enc()),
        ensures
            d == r,
    {
        le_bytes_facts();
        let s = r.spec_enc();
        assert(s.subrange(0, 8) =~= spec_u64_to_le_bytes(r.fh_in));
        assert(s.subrange(8, 16) =~= spec_u64_to_le_bytes(r.off_in));
        assert(s.subrange(16, 24) =~= spec_u64_to_le_bytes(r.nodeid_out));
        assert(s.subrange(24, 32) =~= spec_u64_to_le_bytes(r.fh_out));
        assert(s.subrange(32, 40) =~= spec_u64_to_le_bytes(r.off_out));
        assert(s.subrange(40, 48) =~= spec_u64_to_le_bytes(r.len));
        assert(s.subrange(48, 56) =~= spec_u64_to_le_bytes(r.flags));
    }
}

impl WireRecord for fuse_copy_file_range_in {
    open spec fn wf(&self) -> bool {
        true
    }

    open spec fn spec_size() -> nat {
        56
    }

    open spec fn spec_enc(&self) -> Seq<u8> {
        spec_u64_to_le_bytes(self.fh_in) + spec_u64_to_le_bytes(self.off_in) + spec_u64_to_le_bytes(self.nodeid_out) + spec_u64_to_le_bytes(self.fh_out) + spec_u64_to_le_bytes(self.off_out) + spec_u64_to_le_bytes(self.len) + spec_u64_to_le_bytes(self.flags)
    }

    proof fn lemma_enc_len(&self) {
        le_bytes_facts();
    }

    fn size() -> (r: usize) {
        56
    }

    fn append_to(&self, out: &mut Vec<u8>) {
        push_u64(out, self.fh_in);
        push_u64(out, self.off_in);
        push_u64(out, self.nodeid_out);
        push_u64(out, self.fh_out);
        push_u64(out, self.off_out);
        push_u64(out, self.len);
        push_u64(out, self.flags);
        proof {
            le_bytes_facts();
            assert(out@ =~= old(out)@ + self.spec_enc());
        }
    }
}

/// Payload of a mapping-setup request.
#[derive(Debug, Clone, PartialEq, Eq)]
pub struct fuse_setupmapping_in {
    pub fh: u64,
    pub foffset: u64,
    pub len: u64,
    pub flags: u64,
    pub moffset: u64,
}

impl fuse_setupmapping_in {
    /// `self` holds exactly the fields laid out in `s`.
    pub open spec fn dec_from(self, s: Seq<u8>) -> bool
        recommends
            s.len() == 40,
    {
        &&& self.fh == spec_u64_from_le_bytes(s.subrange(0, 8))
        &&& self.foffset == spec_u64_from_le_bytes(s.subrange(8, 16))
        &&& self.len == spec_u64_from_le_bytes(s.subrange(16, 24))
        &&& self.flags == spec_u64_from_le_bytes(s.subrange(24, 32))
        &&& self.moffset == spec_u64_from_le_bytes(s.subrange(32, 40))
    }

    /// Reads the fixed layout at byte offset `off` of `b`.
    pub fn decode(b: &[u8], off: usize) -> (r: Self)
        requires
            off + 40 <= b@.len(),
        ensures
            r.wf(),
            r.dec_from(b@.subrange(off as int, off + 40)),
    {
        let _n: usize = b.len();
        let r = fuse_setupmapping_in {
            fh: read_u64(b, off),
            foffset: read_u64(b, off + 8),
            len: read_u64(b, off + 16),
            flags: read_u64(b, off + 24),
            moffset: read_u64(b, off + 32),
        };
        proof {
            let s = b@.subrange(off as int, off as int + 40);
            assert(s.subrange(0, 8) =~= b@.subrange(off as int + 0, off as int + 8));
            assert(s.subrange(8, 16) =~= b@.subrange(off as int + 8, off as int + 16));
            assert(s.subrange(16, 24) =~= b@.subrange(off as int + 16, off as int + 24));
            assert(s.subrange(24, 32) =~= b@.subrange(off as int + 24, off as int + 32));
            assert(s.subrange(32, 40) =~= b@.subrange(off as int + 32, off as int + 40));
        }
        r
    }

    /// The wire image as a fresh buffer.
    pub fn encode(&self) -> (r: Vec<u8>)
        requires
            self.wf(),
        ensures
            r@ == self.spec_enc(),
    {
        let mut v: Vec<u8> = Vec::new();
        self.append_to(&mut v);
        v
    }

    /// Decoding the encoding of a well-formed record reproduces every field.
    pub proof fn lemma_round_trip(r: Self, d: Self)
        requires
            r.wf(),
            d.dec_from(r.spec_enc()),
        ensures
            d == r,
    {
        le_bytes_facts();
        let s = r.spec_enc();
        assert(s.subrange(0, 8) =~= spec_u64_to_le_bytes(r.fh));
        assert(s.subrange(8, 16) =~= spec_u64_to_le_bytes(r.foffset));
        assert(s.subrange(16, 24) =~= spec_u64_to_le_bytes(r.len));
        assert(s.subrange(24, 32) =~= spec_u64_to_le_bytes(r.flags));
        assert(s.subrange(32, 40) =~= spec_u64_to_le_bytes(r.moffset));
    }
}

impl WireRecord for fuse_setupmapping_in {
    open spec fn wf(&self) -> bool {
        true
    }

    open spec fn spec_size() -> nat {
        40
    }

    open spec fn spec_enc(&self) -> Seq<u8> {
        spec_u64_to_le_bytes(self.fh) + spec_u64_to_le_bytes(self.foffset) + spec_u64_to_le_bytes(self.len) + spec_u64_to_le_bytes(self.flags) + spec_u64_to_le_bytes(self.moffset)
    }

    proof fn lemma_enc_len(&self) {
        le_bytes_facts();
    }

    fn size() -> (r: usize) {
        40
    }

    fn append_to(&self, out: &mut Vec<u8>) {
        push_u64(out, self.fh);
        push_u64(out, self.foffset);
        push_u64(out, self.len);
        push_u64(out, self.flags);
        push_u64(out, self.moffset);
        proof {
            le_bytes_facts();
            assert(out@ =~= old(out)@ + self.spec_enc());
        }
    }
}

/// Payload of a mapping-removal request; the entries follow.
#[derive(Debug, Clone, PartialEq, Eq)]
pub struct fuse_removemapping_in {
    pub count: u32,
}

impl fuse_removemapping_in {
    /// `self` holds exactly the fields laid out in `s`.
    pub open spec fn dec_from(self, s: Seq<u8>) -> bool
        recommends
            s.len() == 4,
    {
        &&& self.count == spec_u32_from_le_bytes(s.subrange(0, 4))
    }

    /// Reads the fixed layout at byte offset `off` of `b`.
    pub fn decode(b: &[u8], off: usize) -> (r: Self)
        requires
            off + 4 <= b@.len(),
        ensures
            r.wf(),
            r.dec_from(b@.subrange(off as int, off + 4)),
    {
        let _n: usize = b.len();
        let r = fuse_removemapping_in {
            count: read_u32(b, off),
        };
        proof {
            let s = b@.subrange(off as int, off as int + 4);
            assert(s.subrange(0, 4) =~= b@.subrange(off as int + 0, off as int + 4));
        }
        r
    }

    /// The wire image as a fresh buffer.
    pub fn encode(&self) -> (r: Vec<u8>)
        requires
            self.wf(),
        ensures
            r@ == self.spec_enc(),
    {
        let mut v: Vec<u8> = Vec::new();
        self.append_to(&mut v);
        v
    }

    /// Decoding the encoding of a well-formed record reproduces every field.
    pub proof fn lemma_round_trip(r: Self, d: Self)
        requires
            r.wf(),
            d.dec_from(r.spec_enc()),
        ensures
            d == r,
    {
        le_bytes_facts();
        let s = r.spec_enc();
        assert(s.subrange(0, 4) =~= spec_u32_to_le_bytes(r.count));
    }
}

impl WireRecord for fuse_removemapping_in {
    open spec fn wf(&self) -> bool {
        true
    }

    open spec fn spec_size() -> nat {
        4
    }

    open spec fn spec_enc(&self) -> Seq<u8> {
        spec_u32_to_le_bytes(self.count)
    }

    proof fn lemma_enc_len(&self) {
        le_bytes_facts();
    }

    fn size() -> (r: usize) {
        4
    }

    fn append_to(&self, out: &mut Vec<u8>) {
        push_u32(out, self.count);
        proof {
            le_bytes_facts();
            assert(out@ =~= old(out)@ + self.spec_enc());
        }
    }
}

/// One entry of a mapping-removal request.
#[derive(Debug, Clone, PartialEq, Eq)]
pub struct fuse_removemapping_one {
    pub moffset: u64,
    pub len: u64,
}

impl fuse_removemapping_one {
    /// `self` holds exactly the fields laid out in `s`.
    pub open spec fn dec_from(self, s: Seq<u8>) -> bool
        recommends
            s.len() == 16,
    {
        &&& self.moffset == spec_u64_from_le_bytes(s.subrange(0, 8))
        &&& self.len == spec_u64_from_le_bytes(s.subrange(8, 16))
    }

    /// Reads the fixed layout at byte offset `off` of `b`.
    pub fn decode(b: &[u8], off: usize) -> (r: Self)
        requires
            off + 16 <= b@.len(),
        ensures
            r.wf(),
            r.dec_from(b@.subrange(off as int, off + 16)),
    {
        let _n: usize = b.len();
        let r = fuse_removemapping_one {
            moffset: read_u64(b, off),
            len: read_u64(b, off + 8),
        };
        proof {
            let s = b@.subrange(off as int, off as int + 16);
            assert(s.subrange(0, 8) =~= b@.subrange(off as int + 0, off as int + 8));
            assert(s.subrange(8, 16) =~= b@.subrange(off as int + 8, off as int + 16));
        }
        r
    }

    /// The wire image as a fresh buffer.
    pub fn encode(&self) -> (r: Vec<u8>)
        requires
            self.wf(),
        ensures
            r@ == self.spec_enc(),
    {
        let mut v: Vec<u8> = Vec::new();
        self.append_to(&mut v);
        v
    }

    /// Decoding the encoding of a well-formed record reproduces every field.
    pub proof fn lemma_round_trip(r: Self, d: Self)
        requires
            r.wf(),
            d.dec_from(r.spec_enc()),
        ensures
            d == r,
    {
        le_bytes_facts();
        let s = r.spec_enc();
        assert(s.subrange(0, 8) =~= spec_u64_to_le_bytes(r.moffset));
        assert(s.subrange(8, 16) =~= spec_u64_to_le_bytes(r.len));
    }
}

impl WireRecord for fuse_removemapping_one {
    open spec fn wf(&self) -> bool {
        true
    }

    open spec fn spec_size() -> nat {
        16
    }

    open spec fn spec_enc(&self) -> Seq<u8> {
        spec_u64_to_le_bytes(self.moffset) + spec_u64_to_le_bytes(self.len)
    }

    proof fn lemma_enc_len(&self) {
        le_bytes_facts();
    }

    fn size() -> (r: usize) {
        16
    }

    fn append_to(&self, out: &mut Vec<u8>) {
        push_u64(out, self.moffset);
        push_u64(out, self.len);
        proof {
            le_bytes_facts();
            assert(out@ =~= old(out)@ + self.spec_enc());
        }
    }
}

/// Payload of a filesystem-sync request.
#[derive(Debug, Clone, PartialEq, Eq)]
pub struct fuse_syncfs_in {
    pub padding: u64,
}

impl fuse_syncfs_in {
    /// `self` holds exactly the fields laid out in `s`.
    pub open spec fn dec_from(self, s: Seq<u8>) -> bool
        recommends
            s.len() == 8,
    {
        &&& self.padding == spec_u64_from_le_bytes(s.subrange(0, 8))
    }

    /// Reads the fixed layout at byte offset `off` of `b`.
    pub fn decode(b: &[u8], off: usize) -> (r: Self)
        requires
            off + 8 <= b@.len(),
        ensures
            r.wf(),
            r.dec_from(b@.subrange(off as int, off + 8)),
    {
        let _n: usize = b.len();
        let r = fuse_syncfs_in {
            padding: read_u64(b, off),
        };
        proof {
            let s = b@.subrange(off as int, off as int + 8);
            assert(s.subrange(0, 8) =~= b@.subrange(off as int + 0, off as int + 8));
        }
        r
    }

    /// The wire image as a fresh buffer.
    pub fn encode(&self) -> (r: Vec<u8>)
        requires
            self.wf(),
        ensures
            r@ == self.spec_enc(),
    {
        let mut v: Vec<u8> = Vec::new();
        self.append_to(&mut v);
        v
    }

    /// Decoding the encoding of a well-formed record reproduces every field.
    pub proof fn lemma_round_trip(r: Self, d: Self)
        requires
            r.wf(),
            d.dec_from(r.spec_enc()),
        ensures
            d == r,
    {
        le_bytes_facts();
        let s = r.spec_enc();
        assert(s.subrange(0, 8) =~= spec_u64_to_le_bytes(r.padding));
    }
}

impl WireRecord for fuse_syncfs_in {
    open spec fn wf(&self) -> bool {
        true
    }

    open spec fn spec_size() -> nat {
        8
    }

    open spec fn spec_enc(&self) -> Seq<u8> {
        spec_u64_to_le_bytes(self.padding)
    }

    proof fn lemma_enc_len(&self) {
        le_bytes_facts();
    }

    fn size() -> (r: usize) {
        8
    }

    fn append_to(&self, out: &mut Vec<u8>) {
        push_u64(out, self.padding);
        proof {
            le_bytes_facts();
            assert(out@ =~= old(out)@ + self.spec_enc());
        }
    }
}

/// Payload of an extended-stat request.
#[derive(Debug, Clone, PartialEq, Eq)]
pub struct fuse_statx_in {
    pub getattr_flags: GetattrFlags,
    pub reserved: u32,
    pub fh: u64,
    pub sx_flags: u32,
    pub sx_mask: u32,
}

impl fuse_statx_in {
    /// `self` holds exactly the fields laid out in `s`.
    pub open spec fn dec_from(self, s: Seq<u8>) -> bool
        recommends
            s.len() == 24,
    {
        &&& self.getattr_flags.bits == spec_u32_from_le_bytes(s.subrange(0, 4))
        &&& self.reserved == spec_u32_from_le_bytes(s.subrange(4, 8))
        &&& self.fh == spec_u64_from_le_bytes(s.subrange(8, 16))
        &&& self.sx_flags == spec_u32_from_le_bytes(s.subrange(16, 20))
        &&& self.sx_mask == spec_u32_from_le_bytes(s.subrange(20, 24))
    }

    /// Reads the fixed layout at byte offset `off` of `b`.
    pub fn decode(b: &[u8], off: usize) -> (r: Self)
        requires
            off + 24 <= b@.len(),
        ensures
            r.wf(),
            r.dec_from(b@.subrange(off as int, off + 24)),
    {
        let _n: usize = b.len();
        let r = fuse_statx_in {
            getattr_flags: GetattrFlags { bits: read_u32(b, off) },
            reserved: read_u32(b, off + 4),
            fh: read_u64(b, off + 8),
            sx_flags: read_u32(b, off + 16),
            sx_mask: read_u32(b, off + 20),
        };
        proof {
            let s = b@.subrange(off as int, off as int + 24);
            assert(s.subrange(0, 4) =~= b@.subrange(off as int + 0, off as int + 4));
            assert(s.subrange(4, 8) =~= b@.subrange(off as int + 4, off as int + 8));
            assert(s.subrange(8, 16) =~= b@.subrange(off as int + 8, off as int + 16));
            assert(s.subrange(16, 20) =~= b@.subrange(off as int + 16, off as int + 20));
            assert(s.subrange(20, 24) =~= b@.subrange(off as int + 20, off as int + 24));
        }
        r
    }

    /// The wire image as a fresh buffer.
    pub fn encode(&self) -> (r: Vec<u8>)
        requires
            self.wf(),
        ensures
            r@ == self.spec_enc(),
    {
        let mut v: Vec<u8> = Vec::new();
        self.append_to(&mut v);
        v
    }

    /// Decoding the encoding of a well-formed record reproduces every field.
    pub proof fn lemma_round_trip(r: Self, d: Self)
        requires
            r.wf(),
            d.dec_from(r.spec_enc()),
        ensures
            d == r,
    {
        le_bytes_facts();
        let s = r.spec_enc();
        assert(s.subrange(0, 4) =~= spec_u32_to_le_bytes(r.getattr_flags.bits));
        assert(s.subrange(4, 8) =~= spec_u32_to_le_bytes(r.reserved));
        assert(s.subrange(8, 16) =~= spec_u64_to_le_bytes(r.fh));
        assert(s.subrange(16, 20) =~= spec_u32_to_le_bytes(r.sx_flags));
        assert(s.subrange(20, 24) =~= spec_u32_to_le_bytes(r.sx_mask));
    }
}

impl WireRecord for fuse_statx_in {
    open spec fn wf(&self) -> bool {
        true
    }

    open spec fn spec_size() -> nat {
        24
    }

    open spec fn spec_enc(&self) -> Seq<u8> {
        spec_u32_to_le_bytes(self.getattr_flags.bits) + spec_u32_to_le_bytes(self.reserved) + spec_u64_to_le_bytes(self.fh) + spec_u32_to_le_bytes(self.sx_flags) + spec_u32_to_le_bytes(self.sx_mask)
    }

    proof fn lemma_enc_len(&self) {
        le_bytes_facts();
    }

    fn size() -> (r: usize) {
        24
    }

    fn append_to(&self, out: &mut Vec<u8>) {
        push_u32(out, self.getattr_flags.bits);
        push_u32(out, self.reserved);
        push_u64(out, self.fh);
        push_u32(out, self.sx_flags);
        push_u32(out, self.sx_mask);
        proof {
            le_bytes_facts();
            assert(out@ =~= old(out)@ + self.spec_enc());
        }
    }
}

/// Reply payload of an extended-stat request.
#[derive(Debug, Clone, PartialEq, Eq)]
pub struct fuse_statx_out {
    pub attr_valid: u64,
    pub attr_valid_nsec: u32,
    pub flags: u32,
    pub spare: Padding<16>,
    pub stat: fuse_statx,
}

impl fuse_statx_out {
    /// Field-for-field equality; reserved regions compare by their bytes.
    pub open spec fn same_fields(self, other: Self) -> bool {
        &&& self.attr_valid == other.attr_valid
        &&& self.attr_valid_nsec == other.attr_valid_nsec
        &&& self.flags == other.flags
        &&& self.spare.spec_bytes() == other.spare.spec_bytes()
        &&& self.stat.same_fields(other.stat)
    }

    /// `self` holds exactly the fields laid out in `s`.
    pub open spec fn dec_from(self, s: Seq<u8>) -> bool
        recommends
            s.len() == 288,
    {
        &&& self.attr_valid == spec_u64_from_le_bytes(s.subrange(0, 8))
        &&& self.attr_valid_nsec == spec_u32_from_le_bytes(s.subrange(8, 12))
        &&& self.flags == spec_u32_from_le_bytes(s.subrange(12, 16))
        &&& self.spare.spec_bytes() == s.subrange(16, 32)
        &&& self.stat.dec_from(s.subrange(32, 288))
    }

    /// Reads the fixed layout at byte offset `off` of `b`.
    #[verifier::rlimit(50)]
    pub fn decode(b: &[u8], off: usize) -> (r: Self)
        requires
            off + 288 <= b@.len(),
        ensures
            r.wf(),
            r.dec_from(b@.subrange(off as int, off + 288)),
    {
        let _n: usize = b.len();
        let r = fuse_statx_out {
            attr_valid: read_u64(b, off),
            attr_valid_nsec: read_u32(b, off + 8),
            flags: read_u32(b, off + 12),
            spare: Padding::decode(b, off + 16),
            stat: fuse_statx::decode(b, off + 32),
        };
        proof {
            let s = b@.subrange(off as int, off as int + 288);
            assert(s.subrange(0, 8) =~= b@.subrange(off as int + 0, off as int + 8));
            assert(s.subrange(8, 12) =~= b@.subrange(off as int + 8, off as int + 12));
            assert(s.subrange(12, 16) =~= b@.subrange(off as int + 12, off as int + 16));
            assert(s.subrange(16, 32) =~= b@.subrange(off as int + 16, off as int + 32));
            assert(s.subrange(32, 288) =~= b@.subrange(off as int + 32, off as int + 288));
        }
        r
    }

    /// The wire image as a fresh buffer.
    pub fn encode(&self) -> (r: Vec<u8>)
        requires
            self.wf(),
        ensures
            r@ == self.spec_enc(),
    {
        let mut v: Vec<u8> = Vec::new();
        self.append_to(&mut v);
        v
    }

    /// Decoding the encoding of a well-formed record reproduces every field (reserved regions by their bytes).
    #[verifier::rlimit(50)]
    pub proof fn lemma_round_trip(r: Self, d: Self)
        requires
            r.wf(),
            d.dec_from(r.spec_enc()),
        ensures
            d.same_fields(r),
    {
        le_bytes_facts();
        r.stat.lemma_enc_len();
        let s = r.spec_enc();
        assert(s.subrange(0, 8) =~= spec_u64_to_le_bytes(r.attr_valid));
        assert(s.subrange(8, 12) =~= spec_u32_to_le_bytes(r.attr_valid_nsec));
        assert(s.subrange(12, 16) =~= spec_u32_to_le_bytes(r.flags));
        assert(s.subrange(16, 32) =~= r.spare.spec_bytes());
        assert(s.subrange(32, 288) =~= r.stat.spec_enc());
        fuse_statx::lemma_round_trip(r.stat, d.stat);
    }
}

impl WireRecord for fuse_statx_out {
    open spec fn wf(&self) -> bool {
        &&& self.spare.wf()
        &&& self.stat.wf()
    }

    open spec fn spec_size() -> nat {
        288
    }

    open spec fn spec_enc(&self) -> Seq<u8> {
        spec_u64_to_le_bytes(self.attr_valid) + spec_u32_to_le_bytes(self.attr_valid_nsec) + spec_u32_to_le_bytes(self.flags) + self.spare.spec_bytes() + self.stat.spec_enc()
    }

    proof fn lemma_enc_len(&self) {
        le_bytes_facts();
        self.stat.lemma_enc_len();
    }

    fn size() -> (r: usize) {
        288
    }

    #[verifier::rlimit(50)]
    fn append_to(&self, out: &mut Vec<u8>) {
        push_u64(out, self.attr_valid);
        push_u32(out, self.attr_valid_nsec);
        push_u32(out, self.flags);
        self.spare.append_to(out);
        self.stat.append_to(out);
        proof {
            le_bytes_facts();
            self.stat.lemma_enc_len();
            assert(out@ =~= old(out)@ + self.spec_enc());
        }
    }
}

/// Header of every reply: total frame length, status, echoed correlation id.
#[derive(Debug, Clone, PartialEq, Eq)]
pub struct fuse_out_header {
    pub len: u32,
    pub error: i32,
    pub unique: u64,
}

impl fuse_out_header {
    /// `self` holds exactly the fields laid out in `s`.
    pub open spec fn dec_from(self, s: Seq<u8>) -> bool
        recommends
            s.len() == 16,
    {
        &&& self.len == spec_u32_from_le_bytes(s.subrange(0, 4))
        &&& self.error == spec_i32_from_le_bytes(s.subrange(4, 8))
        &&& self.unique == spec_u64_from_le_bytes(s.subrange(8, 16))
    }

    /// Reads the fixed layout at byte offset `off` of `b`.
    pub fn decode(b: &[u8], off: usize) -> (r: Self)
        requires
            off + 16 <= b@.len(),
        ensures
            r.wf(),
            r.dec_from(b@.subrange(off as int, off + 16)),
    {
        let _n: usize = b.len();
        let r = fuse_out_header {
            len: read_u32(b, off),
            error: read_i32(b, off + 4),
            unique: read_u64(b, off + 8),
        };
        proof {
            let s = b@.subrange(off as int, off as int + 16);
            assert(s.subrange(0, 4) =~= b@.subrange(off as int + 0, off as int + 4));
            assert(s.subrange(4, 8) =~= b@.subrange(off as int + 4, off as int + 8));
            assert(s.subrange(8, 16) =~= b@.subrange(off as int + 8, off as int + 16));
        }
        r
    }

    /// The wire image as a fresh buffer.
    pub fn encode(&self) -> (r: Vec<u8>)
        requires
            self.wf(),
        ensures
            r@ == self.spec_enc(),
    {
        let mut v: Vec<u8> = Vec::new();
        self.append_to(&mut v);
        v
    }

    /// Decoding the encoding of a well-formed record reproduces every field.
    pub proof fn lemma_round_trip(r: Self, d: Self)
        requires
            r.wf(),
            d.dec_from(r.spec_enc()),
        ensures
            d == r,
    {
        le_bytes_facts();
        let s = r.spec_enc();
        assert(s.subrange(0, 4) =~= spec_u32_to_le_bytes(r.len));
        assert(s.subrange(4, 8) =~= spec_i32_to_le_bytes(r.error));
        assert(s.subrange(8, 16) =~= spec_u64_to_le_bytes(r.unique));
    }
}

impl WireRecord for fuse_out_header {
    open spec fn wf(&self) -> bool {
        true
    }

    open spec fn spec_size() -> nat {
        16
    }

    open spec fn spec_enc(&self) -> Seq<u8> {
        spec_u32_to_le_bytes(self.len) + spec_i32_to_le_bytes(self.error) + spec_u64_to_le_bytes(self.unique)
    }

    proof fn lemma_enc_len(&self) {
        le_bytes_facts();
    }

    fn size() -> (r: usize) {
        16
    }

    fn append_to(&self, out: &mut Vec<u8>) {
        push_u32(out, self.len);
        push_i32(out, self.error);
        push_u64(out, self.unique);
        proof {
            le_bytes_facts();
            assert(out@ =~= old(out)@ + self.spec_enc());
        }
    }
}

} // verus!
