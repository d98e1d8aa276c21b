//! The mount-option builder: a value-semantics accumulator for mount-time
//! configuration, finalized once into the exact inputs of the kernel mount
//! call.
//!
//! The finalization result is byte-exact: the options string is the ordered,
//! comma-separated token list the kernel parser receives, and it provably
//! contains no NUL byte, so it can always be handed to the C mount interface.
//! A label that embeds a NUL is rejected as a recoverable configuration
//! error by the call that introduced it, never by aborting.

use crate::wire::push_slice;
use vstd::slice::slice_to_vec;
use vstd::prelude::*;

verus! {

/// Kernel mount-flag bit: synchronous directory updates.
pub const MS_DIRSYNC: u64 = 128;

/// Kernel mount-flag bit: no access-time updates.
pub const MS_NOATIME: u64 = 1024;

/// Kernel mount-flag bit: no device nodes.
pub const MS_NODEV: u64 = 4;

/// Kernel mount-flag bit: no directory access-time updates.
pub const MS_NODIRATIME: u64 = 2048;

/// Kernel mount-flag bit: no execution of programs.
pub const MS_NOEXEC: u64 = 8;

/// Kernel mount-flag bit: no set-uid or set-gid honored on execution.
pub const MS_NOSUID: u64 = 2;

/// Kernel mount-flag bit: read-only.
pub const MS_RDONLY: u64 = 1;

/// Kernel mount-flag bit: synchronous writes.
pub const MS_SYNCHRONOUS: u64 = 16;

/// `s` contains no NUL byte, so it can live inside a C string.
pub open spec fn no_nul(s: Seq<u8>) -> bool {
    forall|i: int| 0 <= i < s.len() ==> s[i] != 0
}

/// Concatenation preserves freedom from NUL bytes.
pub proof fn lemma_no_nul_concat(a: Seq<u8>, b: Seq<u8>)
    requires
        no_nul(a),
        no_nul(b),
    ensures
        no_nul(a + b),
{
    assert forall|i: int| 0 <= i < (a + b).len() implies (a + b)[i] != 0 by {
        if i < a.len() {
            assert((a + b)[i] == a[i]);
        } else {
            assert((a + b)[i] == b[i - a.len()]);
        }
    }
}

/// One toggle on a mount-flag word: sets the bit when `on`, clears it
/// otherwise.
pub open spec fn spec_set_flag(w: u64, bit: u64, on: bool) -> u64 {
    if on {
        w | bit
    } else {
        w & !bit
    }
}

/// Toggles of distinct, non-overlapping flag bits commute: the final word
/// does not depend on the order the builder methods were called in.
pub proof fn lemma_set_flag_commutes(w: u64, a: u64, b: u64, x: bool, y: bool)
    requires
        a & b == 0,
    ensures
        spec_set_flag(spec_set_flag(w, a, x), b, y) == spec_set_flag(spec_set_flag(w, b, y), a, x),
{
    assert(((w | a) | b == (w | b) | a) && ((w | a) & !b == (w & !b) | a) && ((w & !a) | b == (w
        | b) & !a) && ((w & !a) & !b == (w & !b) & !a)) by (bit_vector)
        requires
            a & b == 0,
    ;
}

/// Toggles are idempotent: repeating one changes nothing further.
pub proof fn lemma_set_flag_idempotent(w: u64, bit: u64, on: bool)
    ensures
        spec_set_flag(spec_set_flag(w, bit, on), bit, on) == spec_set_flag(w, bit, on),
{
    assert(((w | bit) | bit == w | bit) && ((w & !bit) & !bit == w & !bit)) by (bit_vector);
}

/// The decimal digits of `v`, most significant first, no leading zeros
/// (`0` renders as `"0"`).
pub open spec fn spec_dec_digits(v: nat) -> Seq<u8>
    decreases v,
{
    if v < 10 {
        seq![(48 + v) as u8]
    } else {
        spec_dec_digits(v / 10) + seq![(48 + v % 10) as u8]
    }
}

/// The octal digits of `v`, most significant first, no leading zeros and no
/// base prefix (`0` renders as `"0"`).
pub open spec fn spec_oct_digits(v: nat) -> Seq<u8>
    decreases v,
{
    if v < 8 {
        seq![(48 + v) as u8]
    } else {
        spec_oct_digits(v / 8) + seq![(48 + v % 8) as u8]
    }
}

/// Decimal digits are the ASCII digit bytes, in particular never NUL.
pub proof fn lemma_dec_digits_ascii(v: nat)
    ensures
        forall|i: int|
            0 <= i < spec_dec_digits(v).len() ==> 48 <= #[trigger] spec_dec_digits(v)[i] <= 57,
    decreases v,
{
    if v < 10 {
        assert(spec_dec_digits(v)[0] == (48 + v) as u8);
    } else {
        lemma_dec_digits_ascii(v / 10);
        let a = spec_dec_digits(v / 10);
        let d = seq![(48 + v % 10) as u8];
        assert forall|i: int|
            0 <= i < spec_dec_digits(v).len() implies 48 <= #[trigger] spec_dec_digits(v)[i]
            <= 57 by {
            if i < a.len() {
                assert(spec_dec_digits(v)[i] == a[i]);
            } else {
                assert(spec_dec_digits(v)[i] == d[i - a.len()]);
            }
        }
    }
}

/// Octal digits are ASCII digit bytes, in particular never NUL.
pub proof fn lemma_oct_digits_ascii(v: nat)
    ensures
        forall|i: int|
            0 <= i < spec_oct_digits(v).len() ==> 48 <= #[trigger] spec_oct_digits(v)[i] <= 55,
    decreases v,
{
    if v < 8 {
        assert(spec_oct_digits(v)[0] == (48 + v) as u8);
    } else {
        lemma_oct_digits_ascii(v / 8);
        let a = spec_oct_digits(v / 8);
        let d = seq![(48 + v % 8) as u8];
        assert forall|i: int|
            0 <= i < spec_oct_digits(v).len() implies 48 <= #[trigger] spec_oct_digits(v)[i]
            <= 55 by {
            if i < a.len() {
                assert(spec_oct_digits(v)[i] == a[i]);
            } else {
                assert(spec_oct_digits(v)[i] == d[i - a.len()]);
            }
        }
    }
}

/// Renders `v` in decimal ASCII.
pub fn dec_digits_u64(v: u64) -> (r: Vec<u8>)
    ensures
        r@ == spec_dec_digits(v as nat),
    decreases v,
{
    proof {
        assert(v as nat / 10 == (v / 10) as nat);
    }
    if v < 10 {
        let mut r: Vec<u8> = Vec::new();
        r.push(48 + (v as u8));
        assert(r@ =~= spec_dec_digits(v as nat));
        r
    } else {
        assert(v / 10 < v) by (nonlinear_arith)
            requires
                v >= 10,
        ;
        let mut r = dec_digits_u64(v / 10);
        r.push(48 + ((v % 10) as u8));
        assert(r@ =~= spec_dec_digits(v as nat));
        r
    }
}

/// Renders `v` in octal ASCII, without a base prefix.
pub fn oct_digits_u16(v: u16) -> (r: Vec<u8>)
    ensures
        r@ == spec_oct_digits(v as nat),
    decreases v,
{
    proof {
        assert(v as nat / 8 == (v / 8) as nat);
    }
    if v < 8 {
        let mut r: Vec<u8> = Vec::new();
        r.push(48 + (v as u8));
        assert(r@ =~= spec_oct_digits(v as nat));
        r
    } else {
        assert(v / 8 < v) by (nonlinear_arith)
            requires
                v >= 8,
        ;
        let mut r = oct_digits_u16(v / 8);
        r.push(48 + ((v % 8) as u8));
        assert(r@ =~= spec_oct_digits(v as nat));
        r
    }
}

/// The ASCII bytes of `"fd="`.
pub open spec fn lit_fd() -> Seq<u8> {
    Seq::new(3, |i: int| if i == 0 {
            102u8
        } else if i == 1 {
            100u8
        } else {
            61u8
        })
}

/// Appends the ASCII bytes of `"fd="`.
fn push_lit_fd(out: &mut Vec<u8>)
    ensures
        final(out)@ == old(out)@ + lit_fd(),
{
    out.push(102);
    out.push(100);
    out.push(61);
    assert(out@ =~= old(out)@ + lit_fd());
}

/// The ASCII bytes of `",rootmode="`.
pub open spec fn lit_rootmode() -> Seq<u8> {
    Seq::new(10, |i: int| if i == 0 {
            44u8
        } else if i == 1 {
            114u8
        } else if i == 2 {
            111u8
        } else if i == 3 {
            111u8
        } else if i == 4 {
            116u8
        } else if i == 5 {
            109u8
        } else if i == 6 {
            111u8
        } else if i == 7 {
            100u8
        } else if i == 8 {
            101u8
        } else {
            61u8
        })
}

/// Appends the ASCII bytes of `",rootmode="`.
fn push_lit_rootmode(out: &mut Vec<u8>)
    ensures
        final(out)@ == old(out)@ + lit_rootmode(),
{
    out.push(44);
    out.push(114);
    out.push(111);
    out.push(111);
    out.push(116);
    out.push(109);
    out.push(111);
    out.push(100);
    out.push(101);
    out.push(61);
    assert(out@ =~= old(out)@ + lit_rootmode());
}

/// The ASCII bytes of `",user_id="`.
pub open spec fn lit_user_id() -> Seq<u8> {
    Seq::new(9, |i: int| if i == 0 {
            44u8
        } else if i == 1 {
            117u8
        } else if i == 2 {
            115u8
        } else if i == 3 {
            101u8
        } else if i == 4 {
            114u8
        } else if i == 5 {
            95u8
        } else if i == 6 {
            105u8
        } else if i == 7 {
            100u8
        } else {
            61u8
        })
}

/// Appends the ASCII bytes of `",user_id="`.
fn push_lit_user_id(out: &mut Vec<u8>)
    ensures
        final(out)@ == old(out)@ + lit_user_id(),
{
    out.push(44);
    out.push(117);
    out.push(115);
    out.push(101);
    out.push(114);
    out.push(95);
    out.push(105);
    out.push(100);
    out.push(61);
    assert(out@ =~= old(out)@ + lit_user_id());
}

/// The ASCII bytes of `",group_id="`.
pub open spec fn lit_group_id() -> Seq<u8> {
    Seq::new(10, |i: int| if i == 0 {
            44u8
        } else if i == 1 {
            103u8
        } else if i == 2 {
            114u8
        } else if i == 3 {
            111u8
        } else if i == 4 {
            117u8
        } else if i == 5 {
            112u8
        } else if i == 6 {
            95u8
        } else if i == 7 {
            105u8
        } else if i == 8 {
            100u8
        } else {
            61u8
        })
}

/// Appends the ASCII bytes of `",group_id="`.
fn push_lit_group_id(out: &mut Vec<u8>)
    ensures
        final(out)@ == old(out)@ + lit_group_id(),
{
    out.push(44);
    out.push(103);
    out.push(114);
    out.push(111);
    out.push(117);
    out.push(112);
    out.push(95);
    out.push(105);
    out.push(100);
    out.push(61);
    assert(out@ =~= old(out)@ + lit_group_id());
}

/// The ASCII bytes of `",fsname="`.
pub open spec fn lit_fsname() -> Seq<u8> {
    Seq::new(8, |i: int| if i == 0 {
            44u8
        } else if i == 1 {
            102u8
        } else if i == 2 {
            115u8
        } else if i == 3 {
            110u8
        } else if i == 4 {
            97u8
        } else if i == 5 {
            109u8
        } else if i == 6 {
            101u8
        } else {
            61u8
        })
}

/// Appends the ASCII bytes of `",fsname="`.
fn push_lit_fsname(out: &mut Vec<u8>)
    ensures
        final(out)@ == old(out)@ + lit_fsname(),
{
    out.push(44);
    out.push(102);
    out.push(115);
    out.push(110);
    out.push(97);
    out.push(109);
    out.push(101);
    out.push(61);
    assert(out@ =~= old(out)@ + lit_fsname());
}

/// The ASCII bytes of `",subtype="`.
pub open spec fn lit_subtype() -> Seq<u8> {
    Seq::new(9, |i: int| if i == 0 {
            44u8
        } else if i == 1 {
            115u8
        } else if i == 2 {
            117u8
        } else if i == 3 {
            98u8
        } else if i == 4 {
            116u8
        } else if i == 5 {
            121u8
        } else if i == 6 {
            112u8
        } else if i == 7 {
            101u8
        } else {
            61u8
        })
}

/// Appends the ASCII bytes of `",subtype="`.
fn push_lit_subtype(out: &mut Vec<u8>)
    ensures
        final(out)@ == old(out)@ + lit_subtype(),
{
    out.push(44);
    out.push(115);
    out.push(117);
    out.push(98);
    out.push(116);
    out.push(121);
    out.push(112);
    out.push(101);
    out.push(61);
    assert(out@ =~= old(out)@ + lit_subtype());
}

/// The ASCII bytes of `",default_permissions"`.
pub open spec fn lit_default_permissions() -> Seq<u8> {
    Seq::new(20, |i: int| if i == 0 {
            44u8
        } else if i == 1 {
            100u8
        } else if i == 2 {
            101u8
        } else if i == 3 {
            102u8
        } else if i == 4 {
            97u8
        } else if i == 5 {
            117u8
        } else if i == 6 {
            108u8
        } else if i == 7 {
            116u8
        } else if i == 8 {
            95u8
        } else if i == 9 {
            112u8
        } else if i == 10 {
            101u8
        } else if i == 11 {
            114u8
        } else if i == 12 {
            109u8
        } else if i == 13 {
            105u8
        } else if i == 14 {
            115u8
        } else if i == 15 {
            115u8
        } else if i == 16 {
            105u8
        } else if i == 17 {
            111u8
        } else if i == 18 {
            110u8
        } else {
            115u8
        })
}

/// Appends the ASCII bytes of `",default_permissions"`.
fn push_lit_default_permissions(out: &mut Vec<u8>)
    ensures
        final(out)@ == old(out)@ + lit_default_permissions(),
{
    out.push(44);
    out.push(100);
    out.push(101);
    out.push(102);
    out.push(97);
    out.push(117);
    out.push(108);
    out.push(116);
    out.push(95);
    out.push(112);
    out.push(101);
    out.push(114);
    out.push(109);
    out.push(105);
    out.push(115);
    out.push(115);
    out.push(105);
    out.push(111);
    out.push(110);
    out.push(115);
    assert(out@ =~= old(out)@ + lit_default_permissions());
}

/// The ASCII bytes of `",allow_other"`.
pub open spec fn lit_allow_other() -> Seq<u8> {
    Seq::new(12, |i: int| if i == 0 {
            44u8
        } else if i == 1 {
            97u8
        } else if i == 2 {
            108u8
        } else if i == 3 {
            108u8
        } else if i == 4 {
            111u8
        } else if i == 5 {
            119u8
        } else if i == 6 {
            95u8
        } else if i == 7 {
            111u8
        } else if i == 8 {
            116u8
        } else if i == 9 {
            104u8
        } else if i == 10 {
            101u8
        } else {
            114u8
        })
}

/// Appends the ASCII bytes of `",allow_other"`.
fn push_lit_allow_other(out: &mut Vec<u8>)
    ensures
        final(out)@ == old(out)@ + lit_allow_other(),
{
    out.push(44);
    out.push(97);
    out.push(108);
    out.push(108);
    out.push(111);
    out.push(119);
    out.push(95);
    out.push(111);
    out.push(116);
    out.push(104);
    out.push(101);
    out.push(114);
    assert(out@ =~= old(out)@ + lit_allow_other());
}

/// The ASCII bytes of `",max_read="`.
pub open spec fn lit_max_read() -> Seq<u8> {
    Seq::new(10, |i: int| if i == 0 {
            44u8
        } else if i == 1 {
            109u8
        } else if i == 2 {
            97u8
        } else if i == 3 {
            120u8
        } else if i == 4 {
            95u8
        } else if i == 5 {
            114u8
        } else if i == 6 {
            101u8
        } else if i == 7 {
            97u8
        } else if i == 8 {
            100u8
        } else {
            61u8
        })
}

/// Appends the ASCII bytes of `",max_read="`.
fn push_lit_max_read(out: &mut Vec<u8>)
    ensures
        final(out)@ == old(out)@ + lit_max_read(),
{
    out.push(44);
    out.push(109);
    out.push(97);
    out.push(120);
    out.push(95);
    out.push(114);
    out.push(101);
    out.push(97);
    out.push(100);
    out.push(61);
    assert(out@ =~= old(out)@ + lit_max_read());
}

/// `Some` length as a mathematical option.
pub open spec fn spec_opt_nat(o: Option<usize>) -> Option<nat> {
    match o {
        Some(v) => Some(v as nat),
        None => None,
    }
}

/// The exact options string handed to the kernel mount call: ordered,
/// comma-separated tokens `fd=`, `rootmode=` (octal), `user_id=`,
/// `group_id=`, `fsname=`, then only if present or enabled `subtype=`,
/// `default_permissions`, `allow_other`, `max_read=`.
pub open spec fn spec_options_bytes(
    fd: nat,
    rootmode: nat,
    uid: nat,
    gid: nat,
    fsname: Seq<u8>,
    subtype: Option<Seq<u8>>,
    default_permissions: bool,
    allow_other: bool,
    max_read: Option<nat>,
) -> Seq<u8> {
    lit_fd() + spec_dec_digits(fd) + lit_rootmode() + spec_oct_digits(rootmode) + lit_user_id()
        + spec_dec_digits(uid) + lit_group_id() + spec_dec_digits(gid) + lit_fsname() + fsname + (
    match subtype {
        Some(s) => lit_subtype() + s,
        None => Seq::<u8>::empty(),
    }) + (if default_permissions {
        lit_default_permissions()
    } else {
        Seq::<u8>::empty()
    }) + (if allow_other {
        lit_allow_other()
    } else {
        Seq::<u8>::empty()
    }) + (match max_read {
        Some(m) => lit_max_read() + spec_dec_digits(m),
        None => Seq::<u8>::empty(),
    })
}

/// The options string never contains a NUL byte when the label and subtype
/// are NUL-free: every token is ASCII and the values are digits.
pub proof fn lemma_options_no_nul(
    fd: nat,
    rootmode: nat,
    uid: nat,
    gid: nat,
    fsname: Seq<u8>,
    subtype: Option<Seq<u8>>,
    default_permissions: bool,
    allow_other: bool,
    max_read: Option<nat>,
)
    requires
        no_nul(fsname),
        match subtype {
            Some(s) => no_nul(s),
            None => true,
        },
    ensures
        no_nul(
            spec_options_bytes(
                fd,
                rootmode,
                uid,
                gid,
                fsname,
                subtype,
                default_permissions,
                allow_other,
                max_read,
            ),
        ),
{
    lemma_dec_digits_ascii(fd);
    lemma_oct_digits_ascii(rootmode);
    lemma_dec_digits_ascii(uid);
    lemma_dec_digits_ascii(gid);
    let p1 = lit_fd() + spec_dec_digits(fd);
    lemma_no_nul_concat(lit_fd(), spec_dec_digits(fd));
    let p2 = p1 + lit_rootmode();
    lemma_no_nul_concat(p1, lit_rootmode());
    let p3 = p2 + spec_oct_digits(rootmode);
    lemma_no_nul_concat(p2, spec_oct_digits(rootmode));
    let p4 = p3 + lit_user_id();
    lemma_no_nul_concat(p3, lit_user_id());
    let p5 = p4 + spec_dec_digits(uid);
    lemma_no_nul_concat(p4, spec_dec_digits(uid));
    let p6 = p5 + lit_group_id();
    lemma_no_nul_concat(p5, lit_group_id());
    let p7 = p6 + spec_dec_digits(gid);
    lemma_no_nul_concat(p6, spec_dec_digits(gid));
    let p8 = p7 + lit_fsname();
    lemma_no_nul_concat(p7, lit_fsname());
    let p9 = p8 + fsname;
    lemma_no_nul_concat(p8, fsname);
    let ps = (match subtype {
        Some(s) => lit_subtype() + s,
        None => Seq::<u8>::empty(),
    });
    match subtype {
        Some(s) => {
            lemma_no_nul_concat(lit_subtype(), s);
        },
        None => {},
    }
    let p10 = p9 + ps;
    lemma_no_nul_concat(p9, ps);
    let pd = (if default_permissions {
        lit_default_permissions()
    } else {
        Seq::<u8>::empty()
    });
    let p11 = p10 + pd;
    lemma_no_nul_concat(p10, pd);
    let pa = (if allow_other {
        lit_allow_other()
    } else {
        Seq::<u8>::empty()
    });
    let p12 = p11 + pa;
    lemma_no_nul_concat(p11, pa);
    let pm = (match max_read {
        Some(m) => lit_max_read() + spec_dec_digits(m),
        None => Seq::<u8>::empty(),
    });
    match max_read {
        Some(m) => {
            lemma_dec_digits_ascii(m);
            lemma_no_nul_concat(lit_max_read(), spec_dec_digits(m));
        },
        None => {},
    }
    lemma_no_nul_concat(p12, pm);
}

/// A recoverable configuration error: the offending value embeds a NUL byte
/// and so cannot live in a NUL-terminated mount field.
#[derive(Debug, Clone, Copy, PartialEq, Eq, Structural)]
pub enum ConfigError {
    /// The filesystem label embeds a NUL byte.
    FsnameHasNul,
    /// The mountpoint path embeds a NUL byte.
    MountpointHasNul,
    /// The subtype label embeds a NUL byte.
    SubtypeHasNul,
}

/// Whether `v` holds a NUL byte anywhere.
fn contains_nul(v: &[u8]) -> (r: bool)
    ensures
        r <==> !no_nul(v@),
{
    let n: usize = v.len();
    let mut i: usize = 0;
    while i < n
        invariant
            i <= n,
            n == v@.len(),
            forall|j: int| 0 <= j < i ==> v@[j] != 0,
        decreases n - i,
    {
        if *vstd::slice::slice_index_get(v, i) == 0 {
            return true;
        }
        i = i + 1;
    }
    false
}

/// The finalized inputs of the kernel mount call: source label, target path,
/// flag word and options string, plus the mountpoint kept for the handle.
/// `source`, `target` and `options` are NUL-free by construction.
#[derive(Debug, Clone)]
pub struct MountOptions {
    pub mountpoint: Vec<u8>,
    pub source: Vec<u8>,
    pub target: Vec<u8>,
    pub flags: u64,
    pub options: Vec<u8>,
}

/// Accumulates mount-time configuration by value; `into_options` is the one
/// way to finalize it. Labels and path are validated against embedded NUL
/// bytes by the call that introduces them.
#[derive(Debug, Clone)]
pub struct MountBuilder {
    mountpoint: Vec<u8>,
    fsname: Vec<u8>,
    subtype: Option<Vec<u8>>,
    rootmode: Option<u16>,
    default_permissions: bool,
    allow_other: bool,
    max_read: Option<usize>,
    flags: u64,
}

impl MountBuilder {
    /// The mountpoint path bytes.
    pub closed spec fn spec_mountpoint(self) -> Seq<u8> {
        self.mountpoint@
    }

    /// The filesystem label bytes.
    pub closed spec fn spec_fsname(self) -> Seq<u8> {
        self.fsname@
    }

    /// The subtype label bytes, if one was configured.
    pub closed spec fn spec_subtype(self) -> Option<Seq<u8>> {
        match self.subtype {
            Some(s) => Some(s@),
            None => None,
        }
    }

    /// The explicit root-mode override, if one was configured.
    pub closed spec fn spec_rootmode(self) -> Option<u16> {
        self.rootmode
    }

    /// Whether default permission checks are enabled.
    pub closed spec fn spec_default_permissions(self) -> bool {
        self.default_permissions
    }

    /// Whether non-owning users may access the mount.
    pub closed spec fn spec_allow_other(self) -> bool {
        self.allow_other
    }

    /// The single-read size cap, if one was configured.
    pub closed spec fn spec_max_read(self) -> Option<usize> {
        self.max_read
    }

    /// The kernel mount-flags word accumulated so far.
    pub closed spec fn spec_flags(self) -> u64 {
        self.flags
    }

    /// The label, path and subtype are all NUL-free. Constructors establish
    /// this and every method preserves it.
    pub open spec fn wf(self) -> bool {
        &&& no_nul(self.spec_mountpoint())
        &&& no_nul(self.spec_fsname())
        &&& match self.spec_subtype() {
            Some(s) => no_nul(s),
            None => true,
        }
    }

    /// The root mode that finalization will use, given the mode queried from
    /// the mountpoint as a fallback.
    pub open spec fn spec_effective_rootmode(self, fallback: u16) -> u16 {
        match self.spec_rootmode() {
            Some(m) => m,
            None => fallback,
        }
    }

    /// Starts a builder for mounting at `mountpoint` under the label
    /// `fsname`. A label or path embedding a NUL byte is rejected here, as a
    /// recoverable error.
    pub fn new(mountpoint: Vec<u8>, fsname: Vec<u8>) -> (r: Result<MountBuilder, ConfigError>)
        ensures
            r is Ok <==> no_nul(mountpoint@) && no_nul(fsname@),
            match r {
                Ok(b) => {
                    &&& b.wf()
                    &&& b.spec_mountpoint() == mountpoint@
                    &&& b.spec_fsname() == fsname@
                    &&& b.spec_subtype() is None
                    &&& b.spec_rootmode() is None
                    &&& !b.spec_default_permissions()
                    &&& !b.spec_allow_other()
                    &&& b.spec_max_read() is None
                    &&& b.spec_flags() == 0
                },
                Err(e) => {
                    &&& !no_nul(fsname@) ==> e == ConfigError::FsnameHasNul
                    &&& no_nul(fsname@) && !no_nul(mountpoint@) ==> e
                        == ConfigError::MountpointHasNul
                },
            },
    {
        if contains_nul(fsname.as_slice()) {
            return Err(ConfigError::FsnameHasNul);
        }
        if contains_nul(mountpoint.as_slice()) {
            return Err(ConfigError::MountpointHasNul);
        }
        Ok(MountBuilder {
            mountpoint,
            fsname,
            subtype: None,
            rootmode: None,
            default_permissions: false,
            allow_other: false,
            max_read: None,
            flags: 0,
        })
    }

    /// Configures the subtype label. A value embedding a NUL byte is
    /// rejected here, leaving the builder unusable only for that value.
    pub fn subtype(self, subtype: Vec<u8>) -> (r: Result<MountBuilder, ConfigError>)
        ensures
            r is Ok <==> no_nul(subtype@),
            !no_nul(subtype@) ==> r == Err::<MountBuilder, ConfigError>(ConfigError::SubtypeHasNul),
            match r {
                Ok(b) => {
                    &&& b.spec_subtype() == Some(subtype@)
                    &&& b.spec_mountpoint() == self.spec_mountpoint()
                    &&& b.spec_fsname() == self.spec_fsname()
                    &&& b.spec_rootmode() == self.spec_rootmode()
                    &&& b.spec_default_permissions() == self.spec_default_permissions()
                    &&& b.spec_allow_other() == self.spec_allow_other()
                    &&& b.spec_max_read() == self.spec_max_read()
                    &&& b.spec_flags() == self.spec_flags()
                    &&& self.wf() ==> b.wf()
                },
                Err(_) => true,
            },
    {
        if contains_nul(subtype.as_slice()) {
            return Err(ConfigError::SubtypeHasNul);
        }
        Ok(MountBuilder { subtype: Some(subtype), ..self })
    }

    /// Overrides the root inode mode; otherwise finalization falls back to
    /// the mode queried from the mountpoint itself.
    pub fn root_mode(self, mode: u16) -> (r: MountBuilder)
        ensures
            r.spec_rootmode() == Some(mode),
            r.spec_mountpoint() == self.spec_mountpoint(),
            r.spec_fsname() == self.spec_fsname(),
            r.spec_subtype() == self.spec_subtype(),
            r.spec_default_permissions() == self.spec_default_permissions(),
            r.spec_allow_other() == self.spec_allow_other(),
            r.spec_max_read() == self.spec_max_read(),
            r.spec_flags() == self.spec_flags(),
            self.wf() ==> r.wf(),
    {
        MountBuilder { rootmode: Some(mode), ..self }
    }

    /// Enables or disables default permission checks in the kernel.
    pub fn default_permissions(self, enable: bool) -> (r: MountBuilder)
        ensures
            r.spec_default_permissions() == enable,
            r.spec_mountpoint() == self.spec_mountpoint(),
            r.spec_fsname() == self.spec_fsname(),
            r.spec_subtype() == self.spec_subtype(),
            r.spec_rootmode() == self.spec_rootmode(),
            r.spec_allow_other() == self.spec_allow_other(),
            r.spec_max_read() == self.spec_max_read(),
            r.spec_flags() == self.spec_flags(),
            self.wf() ==> r.wf(),
    {
        MountBuilder { default_permissions: enable, ..self }
    }

    /// Allows or forbids access by users other than the mount owner.
    pub fn allow_other(self, allow: bool) -> (r: MountBuilder)
        ensures
            r.spec_allow_other() == allow,
            r.spec_mountpoint() == self.spec_mountpoint(),
            r.spec_fsname() == self.spec_fsname(),
            r.spec_subtype() == self.spec_subtype(),
            r.spec_rootmode() == self.spec_rootmode(),
            r.spec_default_permissions() == self.spec_default_permissions(),
            r.spec_max_read() == self.spec_max_read(),
            r.spec_flags() == self.spec_flags(),
            self.wf() ==> r.wf(),
    {
        MountBuilder { allow_other: allow, ..self }
    }

    /// Caps the size of a single read.
    pub fn max_read(self, size: usize) -> (r: MountBuilder)
        ensures
            r.spec_max_read() == Some(size),
            r.spec_mountpoint() == self.spec_mountpoint(),
            r.spec_fsname() == self.spec_fsname(),
            r.spec_subtype() == self.spec_subtype(),
            r.spec_rootmode() == self.spec_rootmode(),
            r.spec_default_permissions() == self.spec_default_permissions(),
            r.spec_allow_other() == self.spec_allow_other(),
            r.spec_flags() == self.spec_flags(),
            self.wf() ==> r.wf(),
    {
        MountBuilder { max_read: Some(size), ..self }
    }

    /// Removes any single-read size cap.
    pub fn max_read_unlimited(self) -> (r: MountBuilder)
        ensures
            r.spec_max_read() is None,
            r.spec_mountpoint() == self.spec_mountpoint(),
            r.spec_fsname() == self.spec_fsname(),
            r.spec_subtype() == self.spec_subtype(),
            r.spec_rootmode() == self.spec_rootmode(),
            r.spec_default_permissions() == self.spec_default_permissions(),
            r.spec_allow_other() == self.spec_allow_other(),
            r.spec_flags() == self.spec_flags(),
            self.wf() ==> r.wf(),
    {
        MountBuilder { max_read: None, ..self }
    }

    /// Toggles the synchronous directory updates mount flag: set when `set` is true, cleared
    /// otherwise.
    pub fn dirsync(self, set: bool) -> (r: MountBuilder)
        ensures
            r.spec_flags() == spec_set_flag(self.spec_flags(), MS_DIRSYNC, set),
            r.spec_mountpoint() == self.spec_mountpoint(),
            r.spec_fsname() == self.spec_fsname(),
            r.spec_subtype() == self.spec_subtype(),
            r.spec_rootmode() == self.spec_rootmode(),
            r.spec_default_permissions() == self.spec_default_permissions(),
            r.spec_allow_other() == self.spec_allow_other(),
            r.spec_max_read() == self.spec_max_read(),
            self.wf() ==> r.wf(),
    {
        if set {
            MountBuilder { flags: self.flags | MS_DIRSYNC, ..self }
        } else {
            MountBuilder { flags: self.flags & !MS_DIRSYNC, ..self }
        }
    }

    /// Toggles the no access-time updates mount flag: set when `set` is true, cleared
    /// otherwise.
    pub fn noatime(self, set: bool) -> (r: MountBuilder)
        ensures
            r.spec_flags() == spec_set_flag(self.spec_flags(), MS_NOATIME, set),
            r.spec_mountpoint() == self.spec_mountpoint(),
            r.spec_fsname() == self.spec_fsname(),
            r.spec_subtype() == self.spec_subtype(),
            r.spec_rootmode() == self.spec_rootmode(),
            r.spec_default_permissions() == self.spec_default_permissions(),
            r.spec_allow_other() == self.spec_allow_other(),
            r.spec_max_read() == self.spec_max_read(),
            self.wf() ==> r.wf(),
    {
        if set {
            MountBuilder { flags: self.flags | MS_NOATIME, ..self }
        } else {
            MountBuilder { flags: self.flags & !MS_NOATIME, ..self }
        }
    }

    /// Toggles the no device nodes mount flag: set when `set` is true, cleared
    /// otherwise.
    pub fn nodev(self, set: bool) -> (r: MountBuilder)
        ensures
            r.spec_flags() == spec_set_flag(self.spec_flags(), MS_NODEV, set),
            r.spec_mountpoint() == self.spec_mountpoint(),
            r.spec_fsname() == self.spec_fsname(),
            r.spec_subtype() == self.spec_subtype(),
            r.spec_rootmode() == self.spec_rootmode(),
            r.spec_default_permissions() == self.spec_default_permissions(),
            r.spec_allow_other() == self.spec_allow_other(),
            r.spec_max_read() == self.spec_max_read(),
            self.wf() ==> r.wf(),
    {
        if set {
            MountBuilder { flags: self.flags | MS_NODEV, ..self }
        } else {
            MountBuilder { flags: self.flags & !MS_NODEV, ..self }
        }
    }

    /// Toggles the no directory access-time updates mount flag: set when `set` is true, cleared
    /// otherwise.
    pub fn nodiratime(self, set: bool) -> (r: MountBuilder)
        ensures
            r.spec_flags() == spec_set_flag(self.spec_flags(), MS_NODIRATIME, set),
            r.spec_mountpoint() == self.spec_mountpoint(),
            r.spec_fsname() == self.spec_fsname(),
            r.spec_subtype() == self.spec_subtype(),
            r.spec_rootmode() == self.spec_rootmode(),
            r.spec_default_permissions() == self.spec_default_permissions(),
            r.spec_allow_other() == self.spec_allow_other(),
            r.spec_max_read() == self.spec_max_read(),
            self.wf() ==> r.wf(),
    {
        if set {
            MountBuilder { flags: self.flags | MS_NODIRATIME, ..self }
        } else {
            MountBuilder { flags: self.flags & !MS_NODIRATIME, ..self }
        }
    }

    /// Toggles the no execution mount flag: set when `set` is true, cleared
    /// otherwise.
    pub fn noexec(self, set: bool) -> (r: MountBuilder)
        ensures
            r.spec_flags() == spec_set_flag(self.spec_flags(), MS_NOEXEC, set),
            r.spec_mountpoint() == self.spec_mountpoint(),
            r.spec_fsname() == self.spec_fsname(),
            r.spec_subtype() == self.spec_subtype(),
            r.spec_rootmode() == self.spec_rootmode(),
            r.spec_default_permissions() == self.spec_default_permissions(),
            r.spec_allow_other() == self.spec_allow_other(),
            r.spec_max_read() == self.spec_max_read(),
            self.wf() ==> r.wf(),
    {
        if set {
            MountBuilder { flags: self.flags | MS_NOEXEC, ..self }
        } else {
            MountBuilder { flags: self.flags & !MS_NOEXEC, ..self }
        }
    }

    /// Toggles the no set-uid or set-gid on execution mount flag: set when `set` is true, cleared
    /// otherwise.
    pub fn nosuid(self, set: bool) -> (r: MountBuilder)
        ensures
            r.spec_flags() == spec_set_flag(self.spec_flags(), MS_NOSUID, set),
            r.spec_mountpoint() == self.spec_mountpoint(),
            r.spec_fsname() == self.spec_fsname(),
            r.spec_subtype() == self.spec_subtype(),
            r.spec_rootmode() == self.spec_rootmode(),
            r.spec_default_permissions() == self.spec_default_permissions(),
            r.spec_allow_other() == self.spec_allow_other(),
            r.spec_max_read() == self.spec_max_read(),
            self.wf() ==> r.wf(),
    {
        if set {
            MountBuilder { flags: self.flags | MS_NOSUID, ..self }
        } else {
            MountBuilder { flags: self.flags & !MS_NOSUID, ..self }
        }
    }

    /// Toggles the read-only mount flag: set when `set` is true, cleared
    /// otherwise.
    pub fn rdonly(self, set: bool) -> (r: MountBuilder)
        ensures
            r.spec_flags() == spec_set_flag(self.spec_flags(), MS_RDONLY, set),
            r.spec_mountpoint() == self.spec_mountpoint(),
            r.spec_fsname() == self.spec_fsname(),
            r.spec_subtype() == self.spec_subtype(),
            r.spec_rootmode() == self.spec_rootmode(),
            r.spec_default_permissions() == self.spec_default_permissions(),
            r.spec_allow_other() == self.spec_allow_other(),
            r.spec_max_read() == self.spec_max_read(),
            self.wf() ==> r.wf(),
    {
        if set {
            MountBuilder { flags: self.flags | MS_RDONLY, ..self }
        } else {
            MountBuilder { flags: self.flags & !MS_RDONLY, ..self }
        }
    }

    /// Toggles the synchronous writes mount flag: set when `set` is true, cleared
    /// otherwise.
    pub fn synchronous(self, set: bool) -> (r: MountBuilder)
        ensures
            r.spec_flags() == spec_set_flag(self.spec_flags(), MS_SYNCHRONOUS, set),
            r.spec_mountpoint() == self.spec_mountpoint(),
            r.spec_fsname() == self.spec_fsname(),
            r.spec_subtype() == self.spec_subtype(),
            r.spec_rootmode() == self.spec_rootmode(),
            r.spec_default_permissions() == self.spec_default_permissions(),
            r.spec_allow_other() == self.spec_allow_other(),
            r.spec_max_read() == self.spec_max_read(),
            self.wf() ==> r.wf(),
    {
        if set {
            MountBuilder { flags: self.flags | MS_SYNCHRONOUS, ..self }
        } else {
            MountBuilder { flags: self.flags & !MS_SYNCHRONOUS, ..self }
        }
    }

    /// The mountpoint path bytes, for the caller that must resolve the path
    /// or query its file mode.
    pub fn mountpoint(&self) -> (r: &Vec<u8>)
        ensures
            r@ == self.spec_mountpoint(),
    {
        &self.mountpoint
    }

    /// Whether an explicit root mode was configured; when not, the caller
    /// must query the mountpoint's own file mode and pass it to
    /// `into_options` as the fallback.
    pub fn has_root_mode(&self) -> (r: bool)
        ensures
            r == (self.spec_rootmode() is Some),
    {
        self.rootmode.is_some()
    }

    /// Finalizes the configuration against an opened device, consuming the
    /// builder.
    ///
    /// `fd` is the device's descriptor number; `fallback_rootmode` is the
    /// mountpoint's own file mode, used only when no explicit override was
    /// configured; `uid` and `gid` are the calling process's real ids. The
    /// result carries the exact, NUL-free options string.
    pub fn into_options(self, fd: i32, fallback_rootmode: u16, uid: u32, gid: u32) -> (r:
        MountOptions)
        requires
            self.wf(),
            fd >= 0,
        ensures
            r.mountpoint@ == self.spec_mountpoint(),
            r.source@ == self.spec_fsname(),
            r.target@ == self.spec_mountpoint(),
            r.flags == self.spec_flags(),
            r.options@ == spec_options_bytes(
                fd as nat,
                self.spec_effective_rootmode(fallback_rootmode) as nat,
                uid as nat,
                gid as nat,
                self.spec_fsname(),
                self.spec_subtype(),
                self.spec_default_permissions(),
                self.spec_allow_other(),
                spec_opt_nat(self.spec_max_read()),
            ),
            no_nul(r.options@),
            no_nul(r.source@),
            no_nul(r.target@),
    {
        let rootmode = match self.rootmode {
            Some(m) => m,
            None => fallback_rootmode,
        };
        let mut o: Vec<u8> = Vec::new();
        push_lit_fd(&mut o);
        assert(o@ =~= lit_fd());
        let mut d = dec_digits_u64(fd as u64);
        o.append(&mut d);
        push_lit_rootmode(&mut o);
        let mut d2 = oct_digits_u16(rootmode);
        o.append(&mut d2);
        push_lit_user_id(&mut o);
        let mut d3 = dec_digits_u64(uid as u64);
        o.append(&mut d3);
        push_lit_group_id(&mut o);
        let mut d4 = dec_digits_u64(gid as u64);
        o.append(&mut d4);
        push_lit_fsname(&mut o);
        push_slice(&mut o, self.fsname.as_slice());
        let ghost prefix = o@;
        match &self.subtype {
            Some(st) => {
                push_lit_subtype(&mut o);
                push_slice(&mut o, st.as_slice());
                assert(o@ =~= prefix + (lit_subtype() + st@));
            },
            None => {
                assert(o@ =~= prefix + Seq::<u8>::empty());
            },
        }
        let ghost p10 = o@;
        if self.default_permissions {
            push_lit_default_permissions(&mut o);
        } else {
            assert(o@ =~= p10 + Seq::<u8>::empty());
        }
        let ghost p11 = o@;
        if self.allow_other {
            push_lit_allow_other(&mut o);
        } else {
            assert(o@ =~= p11 + Seq::<u8>::empty());
        }
        let ghost p12 = o@;
        match self.max_read {
            Some(m) => {
                push_lit_max_read(&mut o);
                let mut d5 = dec_digits_u64(m as u64);
                o.append(&mut d5);
                assert(o@ =~= p12 + (lit_max_read() + spec_dec_digits(m as nat)));
            },
            None => {
                assert(o@ =~= p12 + Seq::<u8>::empty());
            },
        }
        proof {
            lemma_options_no_nul(
                fd as nat,
                self.spec_effective_rootmode(fallback_rootmode) as nat,
                uid as nat,
                gid as nat,
                self.spec_fsname(),
                self.spec_subtype(),
                self.spec_default_permissions(),
                self.spec_allow_other(),
                spec_opt_nat(self.spec_max_read()),
            );
        }
        let target = slice_to_vec(self.mountpoint.as_slice());
        MountOptions {
            mountpoint: self.mountpoint,
            source: self.fsname,
            target,
            flags: self.flags,
            options: o,
        }
    }
}

} // verus!
