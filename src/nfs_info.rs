//! The NFS procedures that report on an object or on the file system:
//! ACCESS, READLINK, FSSTAT, FSINFO and PATHCONF.
use vstd::prelude::*;
use crate::fsal::{FileAttributes, FileType, Filesystem, FsError};
use crate::nfs::{bytes_result, fetch_attr, get_fh, parse_fh, post_attr, reply, reply_of, to_post};
use crate::nfs3::{
    enc_post_op_attr, enc_status, map_error_to_status, status_of, NfsMessage, NfsStat3,
};
use crate::xdr::{
    get_u32, parse_u32, put_bool, put_opaque, put_u32, put_u64, xdr_bool, xdr_opaque, xdr_u32,
    xdr_u64,
};

verus! {

// ===== ACCESS =====

/// The access bits granted for a request: every bit asked for among READ,
/// LOOKUP, MODIFY, EXTEND, DELETE and EXECUTE, except LOOKUP on an object
/// that is not a directory.
pub open spec fn granted_access(mask: u32, is_dir: bool) -> u32 {
    if is_dir {
        mask & 0x3f
    } else {
        mask & 0x3d
    }
}

/// ACCESS3res.
pub open spec fn access_body(mask: u32, attrs: Result<FileAttributes, FsError>) -> Seq<u8> {
    match attrs {
        Err(e) => enc_status(status_of(e)) + enc_post_op_attr(None),
        Ok(a) => enc_status(NfsStat3::Nfs3Ok) + enc_post_op_attr(post_attr(Some(a))) + xdr_u32(
            granted_access(mask, a.ftype == FileType::Directory),
        ),
    }
}

pub open spec fn parse_access_args(b: Seq<u8>) -> Option<(Seq<u8>, u32)> {
    match parse_fh(b, 0) {
        Some((h, p)) => match parse_u32(b, p) {
            Some((mask, _)) => Some((h, mask)),
            None => None,
        },
        None => None,
    }
}

pub open spec fn access_reply(xid: u32, args: Seq<u8>, attrs: Result<FileAttributes, FsError>) -> Seq<u8> {
    match parse_access_args(args) {
        None => reply_of(xid, None),
        Some((_, mask)) => reply_of(xid, Some(access_body(mask, attrs))),
    }
}

pub fn access_result(mask: u32, attrs: &Result<FileAttributes, FsError>) -> (r: Vec<u8>)
    ensures
        r@ == access_body(mask, *attrs),
{
    match attrs {
        Err(e) => NfsMessage::create_attr_error_response(map_error_to_status(*e), &None),
        Ok(a) => {
            let granted = if a.ftype == FileType::Directory {
                mask & 0x3f
            } else {
                mask & 0x3d
            };
            NfsMessage::create_access_ok(&Some(NfsMessage::fsal_to_fattr3(a)), granted)
        },
    }
}

/// ACCESS (4).
pub fn handle_access<F: Filesystem>(xid: u32, args: &[u8], fs: &F) -> (r: Vec<u8>)
    ensures
        r@.subrange(0, 4) == xdr_u32(xid),
        exists|attrs: Result<FileAttributes, FsError>| r@ == access_reply(xid, args@, attrs),
{
    let (h, p) = match get_fh(args, 0) {
        Ok(x) => x,
        Err(_) => {
            let r = reply(xid, None);
            assert(r@ == access_reply(xid, args@, Err(FsError::Io)));
            return r;
        },
    };
    let (mask, _) = match get_u32(args, p) {
        Ok(x) => x,
        Err(_) => {
            let r = reply(xid, None);
            assert(r@ == access_reply(xid, args@, Err(FsError::Io)));
            return r;
        },
    };
    let attrs = fs.getattr(&h);
    let body = access_result(mask, &attrs);
    let r = reply(xid, Some(body));
    assert(r@ == access_reply(xid, args@, attrs));
    r
}

// ===== READLINK =====

/// READLINK3res: the link's attributes and its target. An object that is not
/// a symbolic link gives INVAL without asking the backend for a target.
pub open spec fn readlink_body(attrs: Option<FileAttributes>, target: Result<Seq<u8>, FsError>) -> Seq<u8> {
    let post = enc_post_op_attr(post_attr(attrs));
    if attrs is Some && attrs->0.ftype != FileType::SymbolicLink {
        enc_status(NfsStat3::Inval) + post
    } else {
        match target {
            Err(e) => enc_status(status_of(e)) + post,
            Ok(t) => if t.len() > u32::MAX {
                enc_status(NfsStat3::Io) + post
            } else {
                enc_status(NfsStat3::Nfs3Ok) + post + xdr_opaque(t)
            },
        }
    }
}

pub open spec fn readlink_reply(
    xid: u32,
    args: Seq<u8>,
    attrs: Option<FileAttributes>,
    target: Result<Seq<u8>, FsError>,
) -> Seq<u8> {
    match parse_fh(args, 0) {
        None => reply_of(xid, None),
        Some(_) => reply_of(xid, Some(readlink_body(attrs, target))),
    }
}

/// READLINK (5).
pub fn handle_readlink<F: Filesystem>(xid: u32, args: &[u8], fs: &F) -> (r: Vec<u8>)
    ensures
        r@.subrange(0, 4) == xdr_u32(xid),
        exists|attrs: Option<FileAttributes>, target: Result<Seq<u8>, FsError>|
            r@ == readlink_reply(xid, args@, attrs, target),
{
    let (h, _) = match get_fh(args, 0) {
        Ok(x) => x,
        Err(_) => {
            let r = reply(xid, None);
            assert(r@ == readlink_reply(xid, args@, None, Err(FsError::Io)));
            return r;
        },
    };
    let attrs = fetch_attr(fs, &h);
    let post = to_post(&attrs);
    let not_link = match &attrs {
        Some(a) => a.ftype != FileType::SymbolicLink,
        None => false,
    };
    if not_link {
        let body = NfsMessage::create_attr_error_response(NfsStat3::Inval, &post);
        let r = reply(xid, Some(body));
        assert(r@ == readlink_reply(xid, args@, attrs, Err(FsError::Io)));
        return r;
    }
    let target = fs.readlink(&h);
    let body = match &target {
        Err(e) => NfsMessage::create_attr_error_response(map_error_to_status(*e), &post),
        Ok(t) => if t.len() > u32::MAX as usize {
            NfsMessage::create_attr_error_response(NfsStat3::Io, &post)
        } else {
            let mut b = NfsMessage::create_attr_error_response(NfsStat3::Nfs3Ok, &post);
            put_opaque(&mut b, t.as_slice());
            b
        },
    };
    let r = reply(xid, Some(body));
    assert(r@ == readlink_reply(xid, args@, attrs, bytes_result(target)));
    r
}

// ===== FSSTAT =====

/// Space and file counts reported by FSSTAT.
pub const FSSTAT_TBYTES: u64 = 100 * 1024 * 1024 * 1024;
pub const FSSTAT_FBYTES: u64 = 50 * 1024 * 1024 * 1024;
pub const FSSTAT_ABYTES: u64 = 50 * 1024 * 1024 * 1024;
pub const FSSTAT_TFILES: u64 = 1000000;
pub const FSSTAT_FFILES: u64 = 500000;
pub const FSSTAT_AFILES: u64 = 500000;

/// FSSTAT3res.
pub open spec fn fsstat_body(attrs: Result<FileAttributes, FsError>) -> Seq<u8> {
    match attrs {
        Err(e) => enc_status(status_of(e)) + enc_post_op_attr(None),
        Ok(a) => enc_status(NfsStat3::Nfs3Ok) + enc_post_op_attr(post_attr(Some(a))) + xdr_u64(
            FSSTAT_TBYTES,
        ) + xdr_u64(FSSTAT_FBYTES) + xdr_u64(FSSTAT_ABYTES) + xdr_u64(FSSTAT_TFILES) + xdr_u64(
            FSSTAT_FFILES,
        ) + xdr_u64(FSSTAT_AFILES) + xdr_u32(0),
    }
}

pub open spec fn fsstat_reply(xid: u32, args: Seq<u8>, attrs: Result<FileAttributes, FsError>) -> Seq<u8> {
    match parse_fh(args, 0) {
        None => reply_of(xid, None),
        Some(_) => reply_of(xid, Some(fsstat_body(attrs))),
    }
}

/// FSSTAT (18).
pub fn handle_fsstat<F: Filesystem>(xid: u32, args: &[u8], fs: &F) -> (r: Vec<u8>)
    ensures
        r@.subrange(0, 4) == xdr_u32(xid),
        exists|attrs: Result<FileAttributes, FsError>| r@ == fsstat_reply(xid, args@, attrs),
{
    let (h, _) = match get_fh(args, 0) {
        Ok(x) => x,
        Err(_) => {
            let r = reply(xid, None);
            assert(r@ == fsstat_reply(xid, args@, Err(FsError::Io)));
            return r;
        },
    };
    let attrs = fs.getattr(&h);
    let body = match &attrs {
        Err(e) => NfsMessage::create_attr_error_response(map_error_to_status(*e), &None),
        Ok(a) => NfsMessage::create_fsstat_ok(
            &Some(NfsMessage::fsal_to_fattr3(a)),
            FSSTAT_TBYTES,
            FSSTAT_FBYTES,
            FSSTAT_ABYTES,
            FSSTAT_TFILES,
            FSSTAT_FFILES,
            FSSTAT_AFILES,
            0,
        ),
    };
    let r = reply(xid, Some(body));
    assert(r@ == fsstat_reply(xid, args@, attrs));
    r
}

// ===== FSINFO =====

pub const RTMAX: u32 = 1024 * 1024;
pub const RTPREF: u32 = 64 * 1024;
pub const RTMULT: u32 = 4096;
pub const WTMAX: u32 = 1024 * 1024;
pub const WTPREF: u32 = 64 * 1024;
pub const WTMULT: u32 = 4096;
pub const DTPREF: u32 = 8192;
pub const MAXFILESIZE: u64 = 0xffff_ffff_ffff_ffff;

/// FSINFO properties: hard links, symbolic links, homogeneous, settable
/// times.
pub const FSINFO_PROPERTIES: u32 = 0x1b;

/// The FSINFO fields after the attributes.
pub open spec fn fsinfo_fields() -> Seq<u8> {
    xdr_u32(RTMAX) + xdr_u32(RTPREF) + xdr_u32(RTMULT) + xdr_u32(WTMAX) + xdr_u32(WTPREF) + xdr_u32(
        WTMULT,
    ) + xdr_u32(DTPREF) + xdr_u64(MAXFILESIZE) + xdr_u32(0) + xdr_u32(1) + xdr_u32(
        FSINFO_PROPERTIES,
    )
}

/// FSINFO3res.
pub open spec fn fsinfo_body(attrs: Result<FileAttributes, FsError>) -> Seq<u8> {
    match attrs {
        Err(e) => enc_status(status_of(e)) + enc_post_op_attr(None),
        Ok(a) => enc_status(NfsStat3::Nfs3Ok) + enc_post_op_attr(post_attr(Some(a)))
            + fsinfo_fields(),
    }
}

pub open spec fn fsinfo_reply(xid: u32, args: Seq<u8>, attrs: Result<FileAttributes, FsError>) -> Seq<u8> {
    match parse_fh(args, 0) {
        None => reply_of(xid, None),
        Some(_) => reply_of(xid, Some(fsinfo_body(attrs))),
    }
}

impl NfsMessage {
    /// FSINFO3res on success, with this server's limits and properties.
    pub fn create_fsinfo_ok(obj_attributes: &Option<crate::nfs3::Fattr3>) -> (r: Vec<u8>)
        ensures
            r@ == enc_status(NfsStat3::Nfs3Ok) + enc_post_op_attr(*obj_attributes) + fsinfo_fields(),
    {
        let mut b = NfsMessage::create_attr_error_response(NfsStat3::Nfs3Ok, obj_attributes);
        let ghost start = b@;
        put_u32(&mut b, RTMAX);
        put_u32(&mut b, RTPREF);
        put_u32(&mut b, RTMULT);
        put_u32(&mut b, WTMAX);
        put_u32(&mut b, WTPREF);
        put_u32(&mut b, WTMULT);
        put_u32(&mut b, DTPREF);
        put_u64(&mut b, MAXFILESIZE);
        put_u32(&mut b, 0);
        put_u32(&mut b, 1);
        put_u32(&mut b, FSINFO_PROPERTIES);
        assert(b@ =~= start + fsinfo_fields());
        b
    }
}

pub fn fsinfo_result(attrs: &Result<FileAttributes, FsError>) -> (r: Vec<u8>)
    ensures
        r@ == fsinfo_body(*attrs),
{
    match attrs {
        Err(e) => NfsMessage::create_attr_error_response(map_error_to_status(*e), &None),
        Ok(a) => NfsMessage::create_fsinfo_ok(&Some(NfsMessage::fsal_to_fattr3(a))),
    }
}

/// FSINFO (19).
pub fn handle_fsinfo<F: Filesystem>(xid: u32, args: &[u8], fs: &F) -> (r: Vec<u8>)
    ensures
        r@.subrange(0, 4) == xdr_u32(xid),
        exists|attrs: Result<FileAttributes, FsError>| r@ == fsinfo_reply(xid, args@, attrs),
{
    let (h, _) = match get_fh(args, 0) {
        Ok(x) => x,
        Err(_) => {
            let r = reply(xid, None);
            assert(r@ == fsinfo_reply(xid, args@, Err(FsError::Io)));
            return r;
        },
    };
    let attrs = fs.getattr(&h);
    let body = fsinfo_result(&attrs);
    let r = reply(xid, Some(body));
    assert(r@ == fsinfo_reply(xid, args@, attrs));
    r
}

// ===== PATHCONF =====

/// The PATHCONF fields after the attributes: link maximum 255, name maximum
/// 255, no truncation, restricted chown, case sensitive, case preserving.
pub open spec fn pathconf_fields() -> Seq<u8> {
    xdr_u32(255) + xdr_u32(255) + xdr_bool(true) + xdr_bool(true) + xdr_bool(false) + xdr_bool(true)
}

/// PATHCONF3res.
pub open spec fn pathconf_body(attrs: Result<FileAttributes, FsError>) -> Seq<u8> {
    match attrs {
        Err(e) => enc_status(status_of(e)) + enc_post_op_attr(None),
        Ok(a) => enc_status(NfsStat3::Nfs3Ok) + enc_post_op_attr(post_attr(Some(a)))
            + pathconf_fields(),
    }
}

pub open spec fn pathconf_reply(xid: u32, args: Seq<u8>, attrs: Result<FileAttributes, FsError>) -> Seq<u8> {
    match parse_fh(args, 0) {
        None => reply_of(xid, None),
        Some(_) => reply_of(xid, Some(pathconf_body(attrs))),
    }
}

pub fn pathconf_result(attrs: &Result<FileAttributes, FsError>) -> (r: Vec<u8>)
    ensures
        r@ == pathconf_body(*attrs),
{
    match attrs {
        Err(e) => NfsMessage::create_attr_error_response(map_error_to_status(*e), &None),
        Ok(a) => {
            let mut b = NfsMessage::create_attr_error_response(
                NfsStat3::Nfs3Ok,
                &Some(NfsMessage::fsal_to_fattr3(a)),
            );
            let ghost start = b@;
            put_u32(&mut b, 255);
            put_u32(&mut b, 255);
            put_bool(&mut b, true);
            put_bool(&mut b, true);
            put_bool(&mut b, false);
            put_bool(&mut b, true);
            assert(b@ =~= start + pathconf_fields());
            b
        },
    }
}

/// PATHCONF (20).
pub fn handle_pathconf<F: Filesystem>(xid: u32, args: &[u8], fs: &F) -> (r: Vec<u8>)
    ensures
        r@.subrange(0, 4) == xdr_u32(xid),
        exists|attrs: Result<FileAttributes, FsError>| r@ == pathconf_reply(xid, args@, attrs),
{
    let (h, _) = match get_fh(args, 0) {
        Ok(x) => x,
        Err(_) => {
            let r = reply(xid, None);
            assert(r@ == pathconf_reply(xid, args@, Err(FsError::Io)));
            return r;
        },
    };
    let attrs = fs.getattr(&h);
    let body = pathconf_result(&attrs);
    let r = reply(xid, Some(body));
    assert(r@ == pathconf_reply(xid, args@, attrs));
    r
}

} // verus!
