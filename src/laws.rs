//! Properties of the library that relate several calls or hold for every
//! input, stated over the same spec functions the contracts use.
use vstd::prelude::*;
use crate::fsal::{FileAttributes, FsError, NAME_MAX, has_dot_dot, has_separator, name_check};
use crate::handle::{allocated, revoked, HandleManager};
use crate::mount::{
    mnt_ok_bytes, mount_outcome, MNTPATHLEN, MOUNTPROC3_MNT, MOUNTPROC3_UMNT, MOUNT_V3,
};
use crate::nfs::{
    parse_read_args, post_attr, pre_attr, read_body, NFS3_FHSIZE, NFS_PROGRAM, NFS_V3,
};
use crate::nfs_readdir::{entry_bytes, entry_plus_bytes, extra_of};
use crate::server::{answers, call_reply, nfs_reply};
use crate::nfs3::{
    enc_fattr3, enc_post_op_attr, enc_post_op_fh, enc_status, enc_wcc_data, lemma_fattr3_len,
    Fattr3, NfsStat3,
};
use crate::nfs_modify::{commit_body, sattr_is_empty, setattr_body, write_body, Sattr3};
use crate::nfs_names::{create_body, unlink_body, unlink_reply, UNCHECKED};
use crate::nfs::parse_diropargs;
use crate::record::{RecordAssembler, DEFAULT_RECORD_CAP};
use crate::nfs_readdir::cookie_at;
use crate::portmap::{enc_mapping, parse_mapping};
use crate::registry::Mapping;
use crate::record::{header_last, header_len, last_mark, LAST_FRAGMENT};
use crate::rpc::{accepted_header, spec_parse_call, RPC_VERSION, SUCCESS};
use crate::xdr::{
    lemma_u32_round_trip, lemma_u64_round_trip, parse_bool, parse_opaque, parse_u32, parse_u64,
    pad_len, u32_of, xdr_bool, xdr_opaque, xdr_u32, xdr_u64, zeros,
};

verus! {

/// Asking twice for the handle of the same path gives the same bytes.
pub proof fn lemma_allocate_twice(
    m0: HandleManager,
    m1: HandleManager,
    m2: HandleManager,
    p: Seq<char>,
    h1: Seq<u8>,
    h2: Seq<u8>,
)
    requires
        allocated(m0, p, m1, h1),
        allocated(m1, p, m2, h2),
    ensures
        h1 == h2,
        m2.paths() == m1.paths(),
        m2.handles() == m1.handles(),
{
}

/// Once a handle is revoked it no longer resolves, so the backend reports it
/// stale; its path is unmapped, so asking for it again makes a new handle,
/// and the number of live handles drops by one.
pub proof fn lemma_removed_handle_is_stale(
    m0: HandleManager,
    m1: HandleManager,
    h: Seq<u8>,
    r: Option<Seq<char>>,
)
    requires
        m0.wf(),
        m0.handles().dom().finite(),
        revoked(m0, h, m1, r),
        m0.handles().contains_key(h),
    ensures
        !m1.handles().contains_key(h),
        r is Some && !m1.paths().contains_key(r->0),
        m1.handles().len() + 1 == m0.handles().len(),
{
}

/// A reply's record mark has the last-fragment bit set and carries the
/// payload's length.
pub proof fn lemma_record_mark(n: nat)
    requires
        n < LAST_FRAGMENT,
    ensures
        header_last(last_mark(n)),
        header_len(last_mark(n)) == n,
{
}

/// Decoding an encoded 32-bit value gives it back, whatever follows.
pub proof fn lemma_round_trip_u32(v: u32, rest: Seq<u8>)
    ensures
        parse_u32(xdr_u32(v) + rest, 0) == Some((v, 4int)),
{
    lemma_u32_round_trip(v);
    assert((xdr_u32(v) + rest).subrange(0, 4) =~= xdr_u32(v));
}

/// Decoding an encoded 64-bit value gives it back, whatever follows.
pub proof fn lemma_round_trip_u64(v: u64, rest: Seq<u8>)
    ensures
        parse_u64(xdr_u64(v) + rest, 0) == Some((v, 8int)),
{
    lemma_u64_round_trip(v);
    assert((xdr_u64(v) + rest).subrange(0, 8) =~= xdr_u64(v));
}

/// Decoding an encoded boolean gives it back, whatever follows.
pub proof fn lemma_round_trip_bool(b: bool, rest: Seq<u8>)
    ensures
        parse_bool(xdr_bool(b) + rest, 0) == Some((b, 4int)),
{
    lemma_round_trip_u32(if b { 1 } else { 0 }, rest);
}

/// Decoding encoded opaque data gives the same bytes back and stops after
/// the padding, whatever follows.
pub proof fn lemma_round_trip_opaque(d: Seq<u8>, rest: Seq<u8>)
    requires
        d.len() <= u32::MAX,
    ensures
        parse_opaque(xdr_opaque(d) + rest, 0) == Some((d, xdr_opaque(d).len() as int)),
        xdr_opaque(d).len() == 4 + d.len() + pad_len(d.len()),
{
    let b = xdr_opaque(d) + rest;
    lemma_round_trip_u32(d.len() as u32, xdr_fixed_opaque_then(d, rest));
    assert(b =~= xdr_u32(d.len() as u32) + xdr_fixed_opaque_then(d, rest));
    assert(b.subrange(4, 4 + d.len() as int) =~= d);
}

/// The padded bytes of `d` followed by `rest`.
pub open spec fn xdr_fixed_opaque_then(d: Seq<u8>, rest: Seq<u8>) -> Seq<u8> {
    d + zeros(pad_len(d.len())) + rest
}

/// Decoding an encoded portmap mapping gives it back, whatever follows.
pub proof fn lemma_round_trip_mapping(m: Mapping, rest: Seq<u8>)
    ensures
        parse_mapping(enc_mapping(m) + rest) == Some(m),
{
    let b = enc_mapping(m) + rest;
    lemma_round_trip_u32(m.prog, b.subrange(4, b.len() as int));
    lemma_round_trip_u32(m.vers, b.subrange(8, b.len() as int));
    lemma_round_trip_u32(m.prot, b.subrange(12, b.len() as int));
    lemma_round_trip_u32(m.port, b.subrange(16, b.len() as int));
    assert(b =~= xdr_u32(m.prog) + b.subrange(4, b.len() as int));
    assert(b.subrange(4, b.len() as int) =~= xdr_u32(m.vers) + b.subrange(8, b.len() as int));
    assert(b.subrange(8, b.len() as int) =~= xdr_u32(m.prot) + b.subrange(12, b.len() as int));
    assert(b.subrange(12, b.len() as int) =~= xdr_u32(m.port) + b.subrange(16, b.len() as int));
    assert(b.subrange(4, 8) =~= b.subrange(4, b.len() as int).subrange(0, 4));
    assert(b.subrange(8, 12) =~= b.subrange(8, b.len() as int).subrange(0, 4));
    assert(b.subrange(12, 16) =~= b.subrange(12, b.len() as int).subrange(0, 4));
}

/// Encoding the value read from four bytes gives those bytes back.
pub proof fn lemma_u32_bytes_round_trip(b: Seq<u8>)
    requires
        b.len() == 4,
    ensures
        xdr_u32(u32_of(b)) == b,
{
    let b0 = b[0] as int;
    let b1 = b[1] as int;
    let b2 = b[2] as int;
    let b3 = b[3] as int;
    let v = b0 * 0x1000000 + b1 * 0x10000 + b2 * 0x100 + b3;
    assert(0 <= v < 0x1_0000_0000) by (nonlinear_arith)
        requires
            0 <= b0 < 256,
            0 <= b1 < 256,
            0 <= b2 < 256,
            0 <= b3 < 256,
            v == b0 * 0x1000000 + b1 * 0x10000 + b2 * 0x100 + b3,
    ;
    assert(v / 0x1000000 == b0 && (v / 0x10000) % 0x100 == b1 && (v / 0x100) % 0x100 == b2 && v
        % 0x100 == b3) by (nonlinear_arith)
        requires
            0 <= b0 < 256,
            0 <= b1 < 256,
            0 <= b2 < 256,
            0 <= b3 < 256,
            v == b0 * 0x1000000 + b1 * 0x10000 + b2 * 0x100 + b3,
    ;
    assert(xdr_u32(u32_of(b)) =~= b);
}

/// A post_op_attr without attributes is the four bytes 0 0 0 0; with them,
/// 0 0 0 1 followed by the 84 bytes of the fattr3.
pub proof fn lemma_post_op_attr_bytes(f: Fattr3)
    ensures
        enc_post_op_attr(None) == seq![0u8, 0u8, 0u8, 0u8],
        enc_post_op_attr(Some(f)).subrange(0, 4) == seq![0u8, 0u8, 0u8, 1u8],
        enc_post_op_attr(Some(f)).len() == 88,
        enc_post_op_attr(Some(f)).subrange(4, 88) == enc_fattr3(f),
{
    lemma_fattr3_len(f);
    assert(enc_post_op_attr(None) =~= seq![0u8, 0u8, 0u8, 0u8]);
    assert(enc_post_op_attr(Some(f)).subrange(0, 4) =~= seq![0u8, 0u8, 0u8, 1u8]);
    assert(enc_post_op_attr(Some(f)).subrange(4, 88) =~= enc_fattr3(f));
}

/// Whether `args` holds a directory path that MOUNT accepts.
pub open spec fn dirpath_ok(args: Seq<u8>) -> bool {
    match parse_opaque(args, 0) {
        Some((path, _)) => path.len() <= MNTPATHLEN,
        None => false,
    }
}

/// MNT answers with the same handle, the export's root, for every exported
/// path it is asked for and however often.
pub proof fn lemma_mnt_same_handle(
    xid1: u32,
    xid2: u32,
    args1: Seq<u8>,
    args2: Seq<u8>,
    root: Seq<u8>,
    r1: Seq<u8>,
    r2: Seq<u8>,
)
    requires
        mount_outcome(xid1, MOUNT_V3, MOUNTPROC3_MNT, args1, root, true, r1),
        mount_outcome(xid2, MOUNT_V3, MOUNTPROC3_MNT, args2, root, true, r2),
        dirpath_ok(args1),
        dirpath_ok(args2),
    ensures
        r1.subrange(24, r1.len() as int) == mnt_ok_bytes(root),
        r2.subrange(24, r2.len() as int) == mnt_ok_bytes(root),
{
    assert(accepted_header(xid1, SUCCESS).len() == 24);
    assert(accepted_header(xid2, SUCCESS).len() == 24);
    assert(r1.subrange(24, r1.len() as int) =~= mnt_ok_bytes(root));
    assert(r2.subrange(24, r2.len() as int) =~= mnt_ok_bytes(root));
}

/// UMNT succeeds with an empty result whatever its argument bytes, whether
/// or not the path was mounted: it keeps no state.
pub proof fn lemma_umnt_succeeds(
    xid: u32,
    args: Seq<u8>,
    root: Seq<u8>,
    exported: bool,
    r: Seq<u8>,
)
    requires
        mount_outcome(xid, MOUNT_V3, MOUNTPROC3_UMNT, args, root, exported, r),
    ensures
        r == accepted_header(xid, SUCCESS),
{
}

/// REMOVE of a name the backend does not have answers NOENT, with the
/// directory's attributes; a repeated REMOVE answers the same.
pub proof fn lemma_remove_missing_is_noent(
    name: Seq<u8>,
    before: Option<FileAttributes>,
    after: Option<FileAttributes>,
)
    requires
        name_check(name) is Ok,
    ensures
        unlink_body(name, Err(FsError::NotFound), before, after) == enc_status(NfsStat3::NoEnt)
            + enc_wcc_data(pre_attr(before), post_attr(after)),
{
}

/// SETATTR that asks for no change succeeds, whatever the backend would have
/// said to a change, and reports the attributes it found.
pub proof fn lemma_setattr_nothing(
    s: Sattr3,
    b: FileAttributes,
    applied: Result<(), FsError>,
    after: Option<FileAttributes>,
)
    requires
        sattr_is_empty(s),
    ensures
        setattr_body(s, None, Ok(b), applied, after) == enc_status(NfsStat3::Nfs3Ok) + enc_wcc_data(
            pre_attr(Some(b)),
            post_attr(after),
        ),
{
}

/// READ at the end of the file gives no data and EOF.
pub proof fn lemma_read_at_end(a: FileAttributes, count: u32)
    ensures
        read_body(a.size, count, Ok(Seq::empty()), Some(a)) == enc_status(NfsStat3::Nfs3Ok)
            + enc_post_op_attr(post_attr(Some(a))) + xdr_u32(0) + xdr_bool(true) + xdr_opaque(
            Seq::empty(),
        ),
{
}

/// WRITE of no bytes reports a count of 0 and does not depend on anything
/// the backend could say about a write.
pub proof fn lemma_write_nothing(
    count: u32,
    stable: u32,
    verf: u64,
    before: Option<FileAttributes>,
    w1: Result<u32, FsError>,
    s1: Result<(), FsError>,
    a1: Option<FileAttributes>,
    w2: Result<u32, FsError>,
    s2: Result<(), FsError>,
    a2: Option<FileAttributes>,
)
    ensures
        write_body(count, stable, Seq::empty(), verf, before, w1, s1, a1) == write_body(
            count,
            stable,
            Seq::empty(),
            verf,
            before,
            w2,
            s2,
            a2,
        ),
        write_body(count, stable, Seq::empty(), verf, before, w1, s1, a1) == enc_status(
            NfsStat3::Nfs3Ok,
        ) + enc_wcc_data(pre_attr(before), post_attr(before)) + xdr_u32(0) + xdr_u32(stable)
            + xdr_u64(verf),
{
}

/// A successful COMMIT reports the same write verifier as the WRITEs before
/// it.
pub proof fn lemma_commit_verifier(
    verf: u64,
    before: Option<FileAttributes>,
    after: Option<FileAttributes>,
)
    ensures
        commit_body(verf, before, Ok(()), after) == enc_status(NfsStat3::Nfs3Ok) + enc_wcc_data(
            pre_attr(before),
            post_attr(after),
        ) + xdr_u64(verf),
{
}

/// A listing that starts at cookie 0 numbers its entries 1, 2, 3, ...
pub proof fn lemma_readdir_from_start(i: int)
    requires
        0 <= i < 0xffff_ffff_ffff_ffff,
    ensures
        cookie_at(0, i) == i + 1,
{
}

/// A name of 255 bytes passes the length rule; one of 256 bytes is refused
/// as too long.
pub proof fn lemma_name_length(n: Seq<u8>)
    ensures
        n.len() == NAME_MAX && !has_separator(n) && !has_dot_dot(n) ==> name_check(n) is Ok,
        n.len() == NAME_MAX + 1 ==> name_check(n) == Err::<(), FsError>(FsError::NameTooLong),
{
}

/// A NULL CALL to NFS version 3 is answered with SUCCESS and no result:
/// 24 bytes, framed behind the mark 0x80000018, and the registry stays.
pub proof fn lemma_null_ping(
    record: Seq<u8>,
    verf: u64,
    root: Seq<u8>,
    before: Map<(u32, u32, u32), u32>,
    reply: Seq<u8>,
    after: Map<(u32, u32, u32), u32>,
)
    requires
        spec_parse_call(record) is Some,
        spec_parse_call(record)->0.rpcvers == RPC_VERSION,
        spec_parse_call(record)->0.prog == NFS_PROGRAM,
        spec_parse_call(record)->0.vers == NFS_V3,
        spec_parse_call(record)->0.procedure == 0,
        answers(record, verf, root, before, reply, after),
    ensures
        reply == accepted_header(spec_parse_call(record)->0.xid, SUCCESS),
        reply.len() == 24,
        after == before,
        xdr_u32(last_mark(24)) == seq![0x80u8, 0x00u8, 0x00u8, 0x18u8],
{
    reveal(call_reply);
    reveal(nfs_reply);
    assert(xdr_u32(last_mark(24)) =~= seq![0x80u8, 0x00u8, 0x00u8, 0x18u8]);
}

/// A READDIRPLUS entry whose lookup fails is sent with FALSE attributes and
/// FALSE handle; one whose getattr fails, with FALSE attributes and its
/// handle.
pub proof fn lemma_readdirplus_degrades(
    e: (u64, Seq<u8>),
    c: u64,
    err: FsError,
    h: Seq<u8>,
    attrs: Option<FileAttributes>,
)
    requires
        h.len() <= NFS3_FHSIZE,
    ensures
        entry_plus_bytes(e, c, extra_of(Err(err), attrs)) == entry_bytes(e, c) + xdr_bool(false)
            + xdr_bool(false),
        entry_plus_bytes(e, c, extra_of(Ok(h), None)) == entry_bytes(e, c) + xdr_bool(false)
            + xdr_bool(true) + xdr_opaque(h),
{
    assert(entry_plus_bytes(e, c, extra_of(Ok(h), None)) =~= entry_bytes(e, c) + xdr_bool(false)
        + xdr_bool(true) + xdr_opaque(h));
}

/// A new handle adds one live handle; revoking one takes one away.
pub proof fn lemma_handle_count(
    m0: HandleManager,
    m1: HandleManager,
    p: Seq<char>,
    h: Seq<u8>,
)
    requires
        m0.handles().dom().finite(),
        allocated(m0, p, m1, h),
        !m0.paths().contains_key(p),
    ensures
        m1.handles().len() == m0.handles().len() + 1,
        m1.handles().remove(h).len() == m0.handles().len(),
{
    assert(m1.handles().remove(h) =~= m0.handles());
}

/// Decoding encoded READ arguments gives them back.
pub proof fn lemma_round_trip_read_args(h: Seq<u8>, offset: u64, count: u32)
    requires
        h.len() <= NFS3_FHSIZE,
    ensures
        parse_read_args(xdr_opaque(h) + xdr_u64(offset) + xdr_u32(count)) == Some((h, offset, count)),
{
    let tail = xdr_u64(offset) + xdr_u32(count);
    let b = xdr_opaque(h) + tail;
    lemma_round_trip_opaque(h, tail);
    assert(b =~= xdr_opaque(h) + tail);
    let p = xdr_opaque(h).len() as int;
    assert(b.subrange(p, b.len() as int) =~= tail);
    lemma_round_trip_u64(offset, xdr_u32(count));
    assert(b.subrange(p, p + 8) =~= tail.subrange(0, 8));
    lemma_round_trip_u32(count, Seq::empty());
    assert(b.subrange(p + 8, p + 12) =~= xdr_u32(count) + Seq::<u8>::empty());
    assert(xdr_u32(count) + Seq::<u8>::empty() =~= xdr_u32(count));
}

/// A record mark announcing more than 16 MiB is refused by an assembler
/// with the default cap, whatever it holds already: `accept_header` answers
/// `RecordTooLarge` and the connection is closed.
pub proof fn lemma_oversized_record(a: RecordAssembler, mark: u32)
    requires
        a.wf(),
        a.limit() == DEFAULT_RECORD_CAP,
        header_len(mark) > DEFAULT_RECORD_CAP,
    ensures
        a@.len() + header_len(mark) > a.limit(),
{
}

/// REMOVE of a valid name that the backend does not have is answered
/// SUCCESS at the RPC level with status NOENT and the directory's wcc_data.
pub proof fn lemma_remove_reply_noent(
    xid: u32,
    args: Seq<u8>,
    dir: Seq<u8>,
    name: Seq<u8>,
    end: int,
    before: Option<FileAttributes>,
    after: Option<FileAttributes>,
)
    requires
        parse_diropargs(args, 0) == Some((dir, name, end)),
        name_check(name) is Ok,
    ensures
        unlink_reply(xid, args, Err(FsError::NotFound), before, after) == accepted_header(
            xid,
            SUCCESS,
        ) + enc_status(NfsStat3::NoEnt) + enc_wcc_data(pre_attr(before), post_attr(after)),
{
}

/// CREATE of a valid 255-byte name succeeds with the handle the backend
/// made; a 256-byte name is refused as too long before the backend is
/// asked.
pub proof fn lemma_create_name_length(
    name: Seq<u8>,
    verf: u64,
    existing: Result<Seq<u8>, FsError>,
    h: Seq<u8>,
    made: Result<Seq<u8>, FsError>,
    obj: Option<FileAttributes>,
    before: Option<FileAttributes>,
    after: Option<FileAttributes>,
)
    requires
        h.len() <= NFS3_FHSIZE,
    ensures
        name.len() == NAME_MAX && !has_separator(name) && !has_dot_dot(name) ==> create_body(
            name,
            UNCHECKED,
            verf,
            existing,
            Ok(h),
            obj,
            before,
            after,
        ) == enc_status(NfsStat3::Nfs3Ok) + enc_post_op_fh(Some(h)) + enc_post_op_attr(
            post_attr(obj),
        ) + enc_wcc_data(pre_attr(before), post_attr(after)),
        name.len() == NAME_MAX + 1 ==> create_body(
            name,
            UNCHECKED,
            verf,
            existing,
            made,
            obj,
            before,
            after,
        ) == enc_status(NfsStat3::NameTooLong) + enc_wcc_data(pre_attr(before), post_attr(after)),
{
}

} // verus!
