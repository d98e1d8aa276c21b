//! The codec discipline.
//!
//! Decoding (inbound) is fallible and structural only: it checks that the
//! buffer holds a whole header, that the header's length field equals the
//! buffer's real size, that the operation code is in the catalog, and that
//! the catalog's fixed payload fits; everything beyond the fixed payload is
//! handed back verbatim as an opaque tail. It never judges field values.
//!
//! Encoding (outbound) is total: the server controls every value, so a reply
//! frame is always producible, and its header's length field is exactly the
//! byte count of header, payload and trailing data.

use crate::opcode::{
    fuse_opcode, opcode_from_u32, request_body_len, spec_opcode_code, spec_opcode_of,
    spec_request_body_len,
};
use crate::records::{
    fuse_access_in, fuse_batch_forget_in, fuse_bmap_in, fuse_copy_file_range_in, 
    fuse_create_in, fuse_fallocate_in, fuse_flush_in, fuse_forget_in, fuse_fsync_in, 
    fuse_getattr_in, fuse_getxattr_in, fuse_init_in, fuse_interrupt_in, fuse_ioctl_in, 
    fuse_link_in, fuse_lk_in, fuse_lseek_in, fuse_mkdir_in, fuse_mknod_in, fuse_open_in, 
    fuse_poll_in, fuse_read_in, fuse_release_in, fuse_removemapping_in, fuse_rename2_in, 
    fuse_rename_in, fuse_setattr_in, fuse_setupmapping_in, fuse_setxattr_in, fuse_statx_in, 
    fuse_syncfs_in, fuse_write_in, fuse_out_header, WireRecord,
};
use crate::wire::{
    copy_bytes, le_bytes_facts, push_slice, read_u16, read_u32, read_u64, spec_u16_from_le_bytes,
    spec_u32_from_le_bytes, spec_u32_to_le_bytes, spec_u64_from_le_bytes,
};
use vstd::prelude::*;

verus! {

/// Header of every inbound request frame.
///
/// `len` must equal the byte size of the whole frame: header, fixed payload
/// and trailing data together. The `opcode` is stored already looked up in
/// the catalog, so a header value never carries an unknown code.
#[derive(Debug, Clone, PartialEq, Eq)]
pub struct fuse_in_header {
    pub len: u32,
    pub opcode: fuse_opcode,
    pub unique: u64,
    pub nodeid: u64,
    pub uid: u32,
    pub gid: u32,
    pub pid: u32,
    pub total_extlen: u16,
    pub padding: u16,
}

impl fuse_in_header {
    /// `self` holds exactly the fields laid out in `s`.
    pub open spec fn dec_from(self, s: Seq<u8>) -> bool
        recommends
            s.len() == 40,
    {
        &&& self.len == spec_u32_from_le_bytes(s.subrange(0, 4))
        &&& spec_opcode_of(spec_u32_from_le_bytes(s.subrange(4, 8))) == Some(self.opcode)
        &&& self.unique == spec_u64_from_le_bytes(s.subrange(8, 16))
        &&& self.nodeid == spec_u64_from_le_bytes(s.subrange(16, 24))
        &&& self.uid == spec_u32_from_le_bytes(s.subrange(24, 28))
        &&& self.gid == spec_u32_from_le_bytes(s.subrange(28, 32))
        &&& self.pid == spec_u32_from_le_bytes(s.subrange(32, 36))
        &&& self.total_extlen == spec_u16_from_le_bytes(s.subrange(36, 38))
        &&& self.padding == spec_u16_from_le_bytes(s.subrange(38, 40))
    }
}

impl WireRecord for fuse_in_header {
    open spec fn wf(&self) -> bool {
        true
    }

    open spec fn spec_size() -> nat {
        40
    }

    open spec fn spec_enc(&self) -> Seq<u8> {
        spec_u32_to_le_bytes(self.len) + spec_u32_to_le_bytes(spec_opcode_code(self.opcode))
            + crate::wire::spec_u64_to_le_bytes(self.unique)
            + crate::wire::spec_u64_to_le_bytes(self.nodeid) + spec_u32_to_le_bytes(self.uid)
            + spec_u32_to_le_bytes(self.gid) + spec_u32_to_le_bytes(self.pid)
            + crate::wire::spec_u16_to_le_bytes(self.total_extlen)
            + crate::wire::spec_u16_to_le_bytes(self.padding)
    }

    proof fn lemma_enc_len(&self) {
        le_bytes_facts();
    }

    fn size() -> (r: usize) {
        40
    }

    fn append_to(&self, out: &mut Vec<u8>) {
        crate::wire::push_u32(out, self.len);
        crate::wire::push_u32(out, crate::opcode::opcode_code(self.opcode));
        crate::wire::push_u64(out, self.unique);
        crate::wire::push_u64(out, self.nodeid);
        crate::wire::push_u32(out, self.uid);
        crate::wire::push_u32(out, self.gid);
        crate::wire::push_u32(out, self.pid);
        crate::wire::push_u16(out, self.total_extlen);
        crate::wire::push_u16(out, self.padding);
        proof {
            le_bytes_facts();
            assert(out@ =~= old(out)@ + self.spec_enc());
        }
    }
}

impl fuse_in_header {
    /// Decoding the encoding of a header reproduces every field.
    pub proof fn lemma_round_trip(r: Self, d: Self)
        requires
            d.dec_from(r.spec_enc()),
        ensures
            d == r,
    {
        le_bytes_facts();
        let s = r.spec_enc();
        assert(s.subrange(0, 4) =~= spec_u32_to_le_bytes(r.len));
        assert(s.subrange(4, 8) =~= spec_u32_to_le_bytes(spec_opcode_code(r.opcode)));
        assert(s.subrange(8, 16) =~= crate::wire::spec_u64_to_le_bytes(r.unique));
        assert(s.subrange(16, 24) =~= crate::wire::spec_u64_to_le_bytes(r.nodeid));
        assert(s.subrange(24, 28) =~= spec_u32_to_le_bytes(r.uid));
        assert(s.subrange(28, 32) =~= spec_u32_to_le_bytes(r.gid));
        assert(s.subrange(32, 36) =~= spec_u32_to_le_bytes(r.pid));
        assert(s.subrange(36, 38) =~= crate::wire::spec_u16_to_le_bytes(r.total_extlen));
        assert(s.subrange(38, 40) =~= crate::wire::spec_u16_to_le_bytes(r.padding));
        crate::opcode::lemma_opcode_round_trip(r.opcode);
    }
}

/// A decoded request body: one variant per distinct fixed-payload shape.
/// Operations that carry no fixed payload (their data, if any, is all in the
/// trailing bytes) decode to `Empty`.
#[derive(Debug, Clone, PartialEq, Eq)]
pub enum RequestBody {
    /// No fixed payload for this operation.
    Empty,
    /// Payload of a forget request.
    Forget(fuse_forget_in),
    /// Payload of a get-attributes request.
    Getattr(fuse_getattr_in),
    /// Payload of a set-attributes request.
    Setattr(fuse_setattr_in),
    /// Payload of a make-node request.
    Mknod(fuse_mknod_in),
    /// Payload of a make-directory request.
    Mkdir(fuse_mkdir_in),
    /// Payload of a rename request.
    Rename(fuse_rename_in),
    /// Payload of a hard-link request.
    Link(fuse_link_in),
    /// Payload of a open request.
    Open(fuse_open_in),
    /// Payload of a read request.
    Read(fuse_read_in),
    /// Payload of a write request.
    Write(fuse_write_in),
    /// Payload of a release request.
    Release(fuse_release_in),
    /// Payload of a fsync request.
    Fsync(fuse_fsync_in),
    /// Payload of a set-extended-attribute request.
    Setxattr(fuse_setxattr_in),
    /// Payload of a get- or list-extended-attribute request.
    Getxattr(fuse_getxattr_in),
    /// Payload of a flush request.
    Flush(fuse_flush_in),
    /// Payload of a initialization request.
    Init(fuse_init_in),
    /// Payload of a lock request.
    Lk(fuse_lk_in),
    /// Payload of a access-check request.
    Access(fuse_access_in),
    /// Payload of a create request.
    Create(fuse_create_in),
    /// Payload of a interrupt request.
    Interrupt(fuse_interrupt_in),
    /// Payload of a block-map request.
    Bmap(fuse_bmap_in),
    /// Payload of a ioctl request.
    Ioctl(fuse_ioctl_in),
    /// Payload of a poll request.
    Poll(fuse_poll_in),
    /// Payload of a batched-forget request.
    BatchForget(fuse_batch_forget_in),
    /// Payload of a file-allocation request.
    Fallocate(fuse_fallocate_in),
    /// Payload of a two-flag rename request.
    Rename2(fuse_rename2_in),
    /// Payload of a seek request.
    Lseek(fuse_lseek_in),
    /// Payload of a copy-file-range request.
    CopyFileRange(fuse_copy_file_range_in),
    /// Payload of a mapping-setup request.
    Setupmapping(fuse_setupmapping_in),
    /// Payload of a mapping-removal request.
    Removemapping(fuse_removemapping_in),
    /// Payload of a filesystem-sync request.
    Syncfs(fuse_syncfs_in),
    /// Payload of a extended-stat request.
    Statx(fuse_statx_in),
}

/// Every record inside a decoded body is well formed.
pub open spec fn spec_body_wf(body: RequestBody) -> bool {
    match body {
        RequestBody::Empty => true,
        RequestBody::Forget(p) => p.wf(),
        RequestBody::Getattr(p) => p.wf(),
        RequestBody::Setattr(p) => p.wf(),
        RequestBody::Mknod(p) => p.wf(),
        RequestBody::Mkdir(p) => p.wf(),
        RequestBody::Rename(p) => p.wf(),
        RequestBody::Link(p) => p.wf(),
        RequestBody::Open(p) => p.wf(),
        RequestBody::Read(p) => p.wf(),
        RequestBody::Write(p) => p.wf(),
        RequestBody::Release(p) => p.wf(),
        RequestBody::Fsync(p) => p.wf(),
        RequestBody::Setxattr(p) => p.wf(),
        RequestBody::Getxattr(p) => p.wf(),
        RequestBody::Flush(p) => p.wf(),
        RequestBody::Init(p) => p.wf(),
        RequestBody::Lk(p) => p.wf(),
        RequestBody::Access(p) => p.wf(),
        RequestBody::Create(p) => p.wf(),
        RequestBody::Interrupt(p) => p.wf(),
        RequestBody::Bmap(p) => p.wf(),
        RequestBody::Ioctl(p) => p.wf(),
        RequestBody::Poll(p) => p.wf(),
        RequestBody::BatchForget(p) => p.wf(),
        RequestBody::Fallocate(p) => p.wf(),
        RequestBody::Rename2(p) => p.wf(),
        RequestBody::Lseek(p) => p.wf(),
        RequestBody::CopyFileRange(p) => p.wf(),
        RequestBody::Setupmapping(p) => p.wf(),
        RequestBody::Removemapping(p) => p.wf(),
        RequestBody::Syncfs(p) => p.wf(),
        RequestBody::Statx(p) => p.wf(),
    }
}

/// `body` holds exactly the catalog's fixed payload for `op` as laid out in
/// `s`, the payload region of the frame.
pub open spec fn spec_body_matches(op: fuse_opcode, s: Seq<u8>, body: RequestBody) -> bool
    recommends
        s.len() == spec_request_body_len(op),
{
    match op {
        fuse_opcode::FUSE_LOOKUP => body == RequestBody::Empty,
        fuse_opcode::FUSE_FORGET => body matches RequestBody::Forget(p) && p.dec_from(s),
        fuse_opcode::FUSE_GETATTR => body matches RequestBody::Getattr(p) && p.dec_from(s),
        fuse_opcode::FUSE_SETATTR => body matches RequestBody::Setattr(p) && p.dec_from(s),
        fuse_opcode::FUSE_READLINK => body == RequestBody::Empty,
        fuse_opcode::FUSE_SYMLINK => body == RequestBody::Empty,
        fuse_opcode::FUSE_MKNOD => body matches RequestBody::Mknod(p) && p.dec_from(s),
        fuse_opcode::FUSE_MKDIR => body matches RequestBody::Mkdir(p) && p.dec_from(s),
        fuse_opcode::FUSE_UNLINK => body == RequestBody::Empty,
        fuse_opcode::FUSE_RMDIR => body == RequestBody::Empty,
        fuse_opcode::FUSE_RENAME => body matches RequestBody::Rename(p) && p.dec_from(s),
        fuse_opcode::FUSE_LINK => body matches RequestBody::Link(p) && p.dec_from(s),
        fuse_opcode::FUSE_OPEN => body matches RequestBody::Open(p) && p.dec_from(s),
        fuse_opcode::FUSE_READ => body matches RequestBody::Read(p) && p.dec_from(s),
        fuse_opcode::FUSE_WRITE => body matches RequestBody::Write(p) && p.dec_from(s),
        fuse_opcode::FUSE_STATFS => body == RequestBody::Empty,
        fuse_opcode::FUSE_RELEASE => body matches RequestBody::Release(p) && p.dec_from(s),
        fuse_opcode::FUSE_FSYNC => body matches RequestBody::Fsync(p) && p.dec_from(s),
        fuse_opcode::FUSE_SETXATTR => body matches RequestBody::Setxattr(p) && p.dec_from(s),
        fuse_opcode::FUSE_GETXATTR => body matches RequestBody::Getxattr(p) && p.dec_from(s),
        fuse_opcode::FUSE_LISTXATTR => body matches RequestBody::Getxattr(p) && p.dec_from(s),
        fuse_opcode::FUSE_REMOVEXATTR => body == RequestBody::Empty,
        fuse_opcode::FUSE_FLUSH => body matches RequestBody::Flush(p) && p.dec_from(s),
        fuse_opcode::FUSE_INIT => body matches RequestBody::Init(p) && p.dec_from(s),
        fuse_opcode::FUSE_OPENDIR => body matches RequestBody::Open(p) && p.dec_from(s),
        fuse_opcode::FUSE_READDIR => body matches RequestBody::Read(p) && p.dec_from(s),
        fuse_opcode::FUSE_RELEASEDIR => body matches RequestBody::Release(p) && p.dec_from(s),
        fuse_opcode::FUSE_FSYNCDIR => body matches RequestBody::Fsync(p) && p.dec_from(s),
        fuse_opcode::FUSE_GETLK => body matches RequestBody::Lk(p) && p.dec_from(s),
        fuse_opcode::FUSE_SETLK => body matches RequestBody::Lk(p) && p.dec_from(s),
        fuse_opcode::FUSE_SETLKW => body matches RequestBody::Lk(p) && p.dec_from(s),
        fuse_opcode::FUSE_ACCESS => body matches RequestBody::Access(p) && p.dec_from(s),
        fuse_opcode::FUSE_CREATE => body matches RequestBody::Create(p) && p.dec_from(s),
        fuse_opcode::FUSE_INTERRUPT => body matches RequestBody::Interrupt(p) && p.dec_from(s),
        fuse_opcode::FUSE_BMAP => body matches RequestBody::Bmap(p) && p.dec_from(s),
        fuse_opcode::FUSE_DESTROY => body == RequestBody::Empty,
        fuse_opcode::FUSE_IOCTL => body matches RequestBody::Ioctl(p) && p.dec_from(s),
        fuse_opcode::FUSE_POLL => body matches RequestBody::Poll(p) && p.dec_from(s),
        fuse_opcode::FUSE_NOTIFY_REPLY => body == RequestBody::Empty,
        fuse_opcode::FUSE_BATCH_FORGET => body matches RequestBody::BatchForget(p) && p.dec_from(s),
        fuse_opcode::FUSE_FALLOCATE => body matches RequestBody::Fallocate(p) && p.dec_from(s),
        fuse_opcode::FUSE_READDIRPLUS => body matches RequestBody::Read(p) && p.dec_from(s),
        fuse_opcode::FUSE_RENAME2 => body matches RequestBody::Rename2(p) && p.dec_from(s),
        fuse_opcode::FUSE_LSEEK => body matches RequestBody::Lseek(p) && p.dec_from(s),
        fuse_opcode::FUSE_COPY_FILE_RANGE => body matches RequestBody::CopyFileRange(p) && p.dec_from(s),
        fuse_opcode::FUSE_SETUPMAPPING => body matches RequestBody::Setupmapping(p) && p.dec_from(s),
        fuse_opcode::FUSE_REMOVEMAPPING => body matches RequestBody::Removemapping(p) && p.dec_from(s),
        fuse_opcode::FUSE_SYNCFS => body matches RequestBody::Syncfs(p) && p.dec_from(s),
        fuse_opcode::FUSE_TMPFILE => body matches RequestBody::Create(p) && p.dec_from(s),
        fuse_opcode::FUSE_STATX => body matches RequestBody::Statx(p) && p.dec_from(s),
        fuse_opcode::FUSE_COPY_FILE_RANGE_64 => body matches RequestBody::CopyFileRange(p) && p.dec_from(s),
    }
}

/// A structural decode failure. The codec reports these and nothing else:
/// it never judges the meaning of field values.
#[derive(Debug, Clone, Copy, PartialEq, Eq, Structural)]
pub enum DecodeError {
    /// The buffer is shorter than the request header, or shorter than the
    /// catalog's fixed payload for the operation.
    Truncated,
    /// The header's length field does not equal the buffer's real size.
    LengthMismatch,
    /// The operation code is outside the catalog.
    UnknownOpcode { value: u32 },
}

/// One fully decoded request frame: the header, the typed fixed payload, and
/// the opaque trailing bytes (names, data) exactly as they came. Validating
/// the tail's contents is the operation handler's business, not the codec's.
#[derive(Debug, Clone, PartialEq, Eq)]
pub struct DecodedRequest {
    pub header: fuse_in_header,
    pub body: RequestBody,
    pub tail: Vec<u8>,
}

/// The buffer holds a whole request header.
pub open spec fn spec_header_fits(b: Seq<u8>) -> bool {
    b.len() >= 40
}

/// The header's length field equals the buffer's real size.
pub open spec fn spec_len_matches(b: Seq<u8>) -> bool
    recommends
        spec_header_fits(b),
{
    spec_u32_from_le_bytes(b.subrange(0, 4)) == b.len()
}

/// The raw operation-code integer of the frame.
pub open spec fn spec_raw_opcode(b: Seq<u8>) -> u32
    recommends
        spec_header_fits(b),
{
    spec_u32_from_le_bytes(b.subrange(4, 8))
}

/// The frame's operation code is in the catalog.
pub open spec fn spec_op_known(b: Seq<u8>) -> bool
    recommends
        spec_header_fits(b),
{
    spec_opcode_of(spec_raw_opcode(b)) is Some
}

/// The catalog's fixed payload for the frame's operation fits the buffer.
pub open spec fn spec_payload_fits(b: Seq<u8>) -> bool
    recommends
        spec_header_fits(b),
        spec_op_known(b),
{
    b.len() >= 40 + spec_request_body_len(spec_opcode_of(spec_raw_opcode(b)).unwrap())
}

/// A buffer that decodes: whole header, exact length field, catalogued
/// operation, and room for that operation's fixed payload.
pub open spec fn spec_request_well_formed(b: Seq<u8>) -> bool {
    &&& spec_header_fits(b)
    &&& spec_len_matches(b)
    &&& spec_op_known(b)
    &&& spec_payload_fits(b)
}

/// Decodes one inbound frame.
///
/// Succeeds exactly on well-formed buffers and then returns every header
/// field, the typed fixed payload, and the trailing bytes verbatim. Fails
/// with `Truncated` on a buffer too short for the header or for the
/// catalog's payload, with `LengthMismatch` when the length field disagrees
/// with the buffer's real size, and with `UnknownOpcode` on a code outside
/// the catalog — the deliberately skipped legacy slots included.
#[verifier::rlimit(50)]
pub fn decode_request(buf: &[u8]) -> (r: Result<DecodedRequest, DecodeError>)
    ensures
        r is Ok <==> spec_request_well_formed(buf@),
        match r {
            Ok(d) => {
                &&& d.header.wf()
                &&& d.header.dec_from(buf@.subrange(0, 40))
                &&& spec_body_wf(d.body)
                &&& spec_body_matches(
                    d.header.opcode,
                    buf@.subrange(40, 40 + spec_request_body_len(d.header.opcode) as int),
                    d.body,
                )
                &&& d.tail@ == buf@.subrange(
                    40 + spec_request_body_len(d.header.opcode) as int,
                    buf@.len() as int,
                )
            },
            Err(e) => {
                &&& !spec_header_fits(buf@) ==> e == DecodeError::Truncated
                &&& spec_header_fits(buf@) && !spec_len_matches(buf@) ==> e
                    == DecodeError::LengthMismatch
                &&& spec_header_fits(buf@) && spec_len_matches(buf@) && !spec_op_known(buf@)
                    ==> e == (DecodeError::UnknownOpcode { value: spec_raw_opcode(buf@) })
                &&& spec_header_fits(buf@) && spec_len_matches(buf@) && spec_op_known(buf@)
                    && !spec_payload_fits(buf@) ==> e == DecodeError::Truncated
            },
        },
{
    let n: usize = buf.len();
    if n < 40 {
        return Err(DecodeError::Truncated);
    }
    let len_field = read_u32(buf, 0);
    if len_field as u64 != n as u64 {
        return Err(DecodeError::LengthMismatch);
    }
    let raw_op = read_u32(buf, 4);
    let opcode = match opcode_from_u32(raw_op) {
        Some(op) => op,
        None => {
            return Err(DecodeError::UnknownOpcode { value: raw_op });
        },
    };
    let body_len = request_body_len(opcode);
    if n - 40 < body_len {
        return Err(DecodeError::Truncated);
    }
    let header = fuse_in_header {
        len: len_field,
        opcode,
        unique: read_u64(buf, 8),
        nodeid: read_u64(buf, 16),
        uid: read_u32(buf, 24),
        gid: read_u32(buf, 28),
        pid: read_u32(buf, 32),
        total_extlen: read_u16(buf, 36),
        padding: read_u16(buf, 38),
    };
    proof {
        let s = buf@.subrange(0, 40);
        assert(s.subrange(0, 4) =~= buf@.subrange(0, 4));
        assert(s.subrange(4, 8) =~= buf@.subrange(4, 8));
        assert(s.subrange(8, 16) =~= buf@.subrange(8, 16));
        assert(s.subrange(16, 24) =~= buf@.subrange(16, 24));
        assert(s.subrange(24, 28) =~= buf@.subrange(24, 28));
        assert(s.subrange(28, 32) =~= buf@.subrange(28, 32));
        assert(s.subrange(32, 36) =~= buf@.subrange(32, 36));
        assert(s.subrange(36, 38) =~= buf@.subrange(36, 38));
        assert(s.subrange(38, 40) =~= buf@.subrange(38, 40));
    }
    let body = match opcode {
        fuse_opcode::FUSE_LOOKUP | fuse_opcode::FUSE_READLINK | fuse_opcode::FUSE_SYMLINK | fuse_opcode::FUSE_UNLINK | fuse_opcode::FUSE_RMDIR | fuse_opcode::FUSE_STATFS | fuse_opcode::FUSE_REMOVEXATTR | fuse_opcode::FUSE_DESTROY | fuse_opcode::FUSE_NOTIFY_REPLY => RequestBody::Empty,
        fuse_opcode::FUSE_FORGET => RequestBody::Forget(fuse_forget_in::decode(buf, 40)),
        fuse_opcode::FUSE_GETATTR => RequestBody::Getattr(fuse_getattr_in::decode(buf, 40)),
        fuse_opcode::FUSE_SETATTR => RequestBody::Setattr(fuse_setattr_in::decode(buf, 40)),
        fuse_opcode::FUSE_MKNOD => RequestBody::Mknod(fuse_mknod_in::decode(buf, 40)),
        fuse_opcode::FUSE_MKDIR => RequestBody::Mkdir(fuse_mkdir_in::decode(buf, 40)),
        fuse_opcode::FUSE_RENAME => RequestBody::Rename(fuse_rename_in::decode(buf, 40)),
        fuse_opcode::FUSE_LINK => RequestBody::Link(fuse_link_in::decode(buf, 40)),
        fuse_opcode::FUSE_OPEN | fuse_opcode::FUSE_OPENDIR => RequestBody::Open(fuse_open_in::decode(buf, 40)),
        fuse_opcode::FUSE_READ | fuse_opcode::FUSE_READDIR | fuse_opcode::FUSE_READDIRPLUS => RequestBody::Read(fuse_read_in::decode(buf, 40)),
        fuse_opcode::FUSE_WRITE => RequestBody::Write(fuse_write_in::decode(buf, 40)),
        fuse_opcode::FUSE_RELEASE | fuse_opcode::FUSE_RELEASEDIR => RequestBody::Release(fuse_release_in::decode(buf, 40)),
        fuse_opcode::FUSE_FSYNC | fuse_opcode::FUSE_FSYNCDIR => RequestBody::Fsync(fuse_fsync_in::decode(buf, 40)),
        fuse_opcode::FUSE_SETXATTR => RequestBody::Setxattr(fuse_setxattr_in::decode(buf, 40)),
        fuse_opcode::FUSE_GETXATTR | fuse_opcode::FUSE_LISTXATTR => RequestBody::Getxattr(fuse_getxattr_in::decode(buf, 40)),
        fuse_opcode::FUSE_FLUSH => RequestBody::Flush(fuse_flush_in::decode(buf, 40)),
        fuse_opcode::FUSE_INIT => RequestBody::Init(fuse_init_in::decode(buf, 40)),
        fuse_opcode::FUSE_GETLK | fuse_opcode::FUSE_SETLK | fuse_opcode::FUSE_SETLKW => RequestBody::Lk(fuse_lk_in::decode(buf, 40)),
        fuse_opcode::FUSE_ACCESS => RequestBody::Access(fuse_access_in::decode(buf, 40)),
        fuse_opcode::FUSE_CREATE | fuse_opcode::FUSE_TMPFILE => RequestBody::Create(fuse_create_in::decode(buf, 40)),
        fuse_opcode::FUSE_INTERRUPT => RequestBody::Interrupt(fuse_interrupt_in::decode(buf, 40)),
        fuse_opcode::FUSE_BMAP => RequestBody::Bmap(fuse_bmap_in::decode(buf, 40)),
        fuse_opcode::FUSE_IOCTL => RequestBody::Ioctl(fuse_ioctl_in::decode(buf, 40)),
        fuse_opcode::FUSE_POLL => RequestBody::Poll(fuse_poll_in::decode(buf, 40)),
        fuse_opcode::FUSE_BATCH_FORGET => RequestBody::BatchForget(fuse_batch_forget_in::decode(buf, 40)),
        fuse_opcode::FUSE_FALLOCATE => RequestBody::Fallocate(fuse_fallocate_in::decode(buf, 40)),
        fuse_opcode::FUSE_RENAME2 => RequestBody::Rename2(fuse_rename2_in::decode(buf, 40)),
        fuse_opcode::FUSE_LSEEK => RequestBody::Lseek(fuse_lseek_in::decode(buf, 40)),
        fuse_opcode::FUSE_COPY_FILE_RANGE | fuse_opcode::FUSE_COPY_FILE_RANGE_64 => RequestBody::CopyFileRange(fuse_copy_file_range_in::decode(buf, 40)),
        fuse_opcode::FUSE_SETUPMAPPING => RequestBody::Setupmapping(fuse_setupmapping_in::decode(buf, 40)),
        fuse_opcode::FUSE_REMOVEMAPPING => RequestBody::Removemapping(fuse_removemapping_in::decode(buf, 40)),
        fuse_opcode::FUSE_SYNCFS => RequestBody::Syncfs(fuse_syncfs_in::decode(buf, 40)),
        fuse_opcode::FUSE_STATX => RequestBody::Statx(fuse_statx_in::decode(buf, 40)),
    };
    let tail = copy_bytes(buf, 40 + body_len, n - (40 + body_len));
    Ok(DecodedRequest { header, body, tail })
}

/// Encodes one complete outbound reply frame: response header, fixed-layout
/// record, then the caller's trailing bytes, written as one contiguous
/// buffer. The header's length field is exactly the total byte count, and
/// the correlation id is carried verbatim.
pub fn encode_reply<R: WireRecord>(unique: u64, error: i32, record: &R, tail: &[u8]) -> (r: Vec<
    u8,
>)
    requires
        record.wf(),
        16 + R::spec_size() + tail@.len() <= u32::MAX,
    ensures
        r@ == (fuse_out_header {
            len: (16 + R::spec_size() + tail@.len()) as u32,
            error,
            unique,
        }).spec_enc() + record.spec_enc() + tail@,
        r@.len() == 16 + R::spec_size() + tail@.len(),
        spec_u32_from_le_bytes(r@.subrange(0, 4)) == r@.len(),
{
    let size = R::size();
    let tail_len = tail.len();
    let total = 16 + size + tail_len;
    let header = fuse_out_header { len: total as u32, error, unique };
    let mut out: Vec<u8> = Vec::new();
    header.append_to(&mut out);
    record.append_to(&mut out);
    push_slice(&mut out, tail);
    proof {
        le_bytes_facts();
        record.lemma_enc_len();
        header.lemma_enc_len();
        assert(out@ =~= header.spec_enc() + record.spec_enc() + tail@);
        assert(out@.subrange(0, 4) =~= spec_u32_to_le_bytes(header.len));
    }
    out
}

/// Encodes the reply to a decoded request: the correlation id is echoed from
/// the request header, which is how replies pair with requests that complete
/// out of order.
pub fn encode_reply_for<R: WireRecord>(
    req: &fuse_in_header,
    error: i32,
    record: &R,
    tail: &[u8],
) -> (r: Vec<u8>)
    requires
        record.wf(),
        16 + R::spec_size() + tail@.len() <= u32::MAX,
    ensures
        r@ == (fuse_out_header {
            len: (16 + R::spec_size() + tail@.len()) as u32,
            error,
            unique: req.unique,
        }).spec_enc() + record.spec_enc() + tail@,
        r@.len() == 16 + R::spec_size() + tail@.len(),
        spec_u32_from_le_bytes(r@.subrange(0, 4)) == r@.len(),
{
    encode_reply(req.unique, error, record, tail)
}

/// Encodes an error-only reply: a bare response header whose status is the
/// negated OS error number, echoing the request's correlation id.
pub fn encode_error_reply(unique: u64, error: i32) -> (r: Vec<u8>)
    requires
        error <= 0,
    ensures
        r@ == (fuse_out_header { len: 16u32, error, unique }).spec_enc(),
        r@.len() == 16,
        spec_u32_from_le_bytes(r@.subrange(0, 4)) == r@.len(),
{
    let header = fuse_out_header { len: 16u32, error, unique };
    let mut out: Vec<u8> = Vec::new();
    header.append_to(&mut out);
    proof {
        le_bytes_facts();
        header.lemma_enc_len();
        assert(out@ =~= header.spec_enc());
        assert(out@.subrange(0, 4) =~= spec_u32_to_le_bytes(16u32));
    }
    out
}

} // verus!
