//! The NFS version 3 procedures (program 100003).
//!
//! Each procedure decodes its arguments, asks the backend, and encodes a
//! result. The result is a function of the decoded arguments and of what
//! the backend answered; that function is written out as a spec function
//! per procedure, and each handler's contract says that its reply is that
//! function of some backend answers. Arguments that do not decode give
//! GARBAGE_ARGS without any backend call.
use vstd::prelude::*;
use crate::fsal::{FileAttributes, Filesystem, FsError, name_check, validate_name};
use crate::nfs3::{
    enc_fattr3, enc_post_op_attr, enc_status, spec_fattr3, spec_wcc_attr, status_of, wcc_attr_of,
    map_error_to_status, Fattr3, NfsMessage, NfsStat3, WccAttr,
};
use crate::rpc::{accepted_header, status_reply, success_reply, GARBAGE_ARGS, SUCCESS};
use crate::xdr::{
    get_opaque, get_u32, get_u64, parse_opaque, parse_u32, parse_u64, xdr_bool, xdr_opaque, xdr_u32,
    DecodeError,
};

verus! {

pub const NFS_PROGRAM: u32 = 100003;

pub const NFS_V3: u32 = 3;

/// Largest handle of version 3, in bytes.
pub const NFS3_FHSIZE: usize = 64;

/// A file handle argument (nfs_fh3): opaque data of at most 64 bytes.
pub open spec fn parse_fh(b: Seq<u8>, pos: int) -> Option<(Seq<u8>, int)> {
    match parse_opaque(b, pos) {
        Some((h, p)) => if h.len() <= NFS3_FHSIZE {
            Some((h, p))
        } else {
            None
        },
        None => None,
    }
}

/// Reads a file handle argument at `pos`.
pub fn get_fh(b: &[u8], pos: usize) -> (r: Result<(Vec<u8>, usize), DecodeError>)
    ensures
        match r {
            Ok((h, p)) => parse_fh(b@, pos as int) == Some((h@, p as int)),
            Err(_) => parse_fh(b@, pos as int) is None,
        },
{
    let (h, p) = match get_opaque(b, pos) {
        Ok(x) => x,
        Err(e) => return Err(e),
    };
    if h.len() > NFS3_FHSIZE {
        return Err(DecodeError::LengthExceedsBudget);
    }
    Ok((h, p))
}

/// Attributes for a post_op_attr: those fetched, if the fetch succeeded.
pub open spec fn post_attr(a: Option<FileAttributes>) -> Option<Fattr3> {
    match a {
        Some(x) => Some(spec_fattr3(x)),
        None => None,
    }
}

/// Attributes for a pre_op_attr.
pub open spec fn pre_attr(a: Option<FileAttributes>) -> Option<WccAttr> {
    match a {
        Some(x) => Some(spec_wcc_attr(x)),
        None => None,
    }
}

pub(crate) fn to_post(a: &Option<FileAttributes>) -> (r: Option<Fattr3>)
    ensures
        r == post_attr(*a),
{
    match a {
        Some(x) => Some(NfsMessage::fsal_to_fattr3(x)),
        None => None,
    }
}

pub(crate) fn to_pre(a: &Option<FileAttributes>) -> (r: Option<WccAttr>)
    ensures
        r == pre_attr(*a),
{
    match a {
        Some(x) => Some(wcc_attr_of(x)),
        None => None,
    }
}

/// Attributes of a handle, or `None` where the backend could not give them:
/// an attribute fetch never fails a procedure by itself.
pub(crate) fn fetch_attr<F: Filesystem>(fs: &F, h: &[u8]) -> (r: Option<FileAttributes>) {
    match fs.getattr(h) {
        Ok(a) => Some(a),
        Err(_) => None,
    }
}

/// A backend answer with the handle or data seen as bytes.
pub open spec fn bytes_result(r: Result<Vec<u8>, FsError>) -> Result<Seq<u8>, FsError> {
    match r {
        Ok(h) => Ok(h@),
        Err(e) => Err(e),
    }
}

/// The reply for `body`, or GARBAGE_ARGS where the arguments did not decode.
pub open spec fn reply_of(xid: u32, body: Option<Seq<u8>>) -> Seq<u8> {
    match body {
        Some(b) => accepted_header(xid, SUCCESS) + b,
        None => accepted_header(xid, GARBAGE_ARGS),
    }
}

pub(crate) fn reply(xid: u32, body: Option<Vec<u8>>) -> (r: Vec<u8>)
    ensures
        r@.len() >= 24,
        r@.subrange(0, 4) == xdr_u32(xid),
        r@ == reply_of(
            xid,
            match body {
                Some(b) => Some(b@),
                None => None,
            },
        ),
{
    match body {
        Some(b) => success_reply(xid, &b),
        None => status_reply(xid, GARBAGE_ARGS),
    }
}

// ===== NULL =====

/// NULL: an empty SUCCESS reply.
pub fn handle_null(xid: u32) -> (r: Vec<u8>)
    ensures
        r@.subrange(0, 4) == xdr_u32(xid),
        r@ == accepted_header(xid, SUCCESS),
{
    status_reply(xid, SUCCESS)
}

// ===== GETATTR =====

/// GETATTR3res for what getattr answered.
pub open spec fn getattr_body(a: Result<FileAttributes, FsError>) -> Seq<u8> {
    match a {
        Ok(x) => enc_status(NfsStat3::Nfs3Ok) + enc_fattr3(spec_fattr3(x)),
        Err(e) => enc_status(status_of(e)),
    }
}

pub fn getattr_result(a: &Result<FileAttributes, FsError>) -> (r: Vec<u8>)
    ensures
        r@ == getattr_body(*a),
{
    match a {
        Ok(x) => NfsMessage::create_getattr_ok(&NfsMessage::fsal_to_fattr3(x)),
        Err(e) => NfsMessage::create_status_response(map_error_to_status(*e)),
    }
}

/// The GETATTR reply when getattr answers `a`.
pub open spec fn getattr_reply(xid: u32, args: Seq<u8>, a: Result<FileAttributes, FsError>) -> Seq<u8> {
    match parse_fh(args, 0) {
        None => reply_of(xid, None),
        Some(_) => reply_of(xid, Some(getattr_body(a))),
    }
}

/// GETATTR (1).
pub fn handle_getattr<F: Filesystem>(xid: u32, args: &[u8], fs: &F) -> (r: Vec<u8>)
    ensures
        r@.subrange(0, 4) == xdr_u32(xid),
        exists|a: Result<FileAttributes, FsError>| r@ == getattr_reply(xid, args@, a),
{
    let (h, _) = match get_fh(args, 0) {
        Ok(x) => x,
        Err(_) => {
            let r = reply(xid, None);
            assert(r@ == getattr_reply(xid, args@, Err(FsError::Io)));
            return r;
        },
    };
    let a = fs.getattr(&h);
    let body = getattr_result(&a);
    let r = reply(xid, Some(body));
    assert(r@ == getattr_reply(xid, args@, a));
    r
}

// ===== LOOKUP =====

/// diropargs3: a directory handle and a name.
pub open spec fn parse_diropargs(b: Seq<u8>, pos: int) -> Option<(Seq<u8>, Seq<u8>, int)> {
    match parse_fh(b, pos) {
        Some((dir, p)) => match parse_opaque(b, p) {
            Some((name, q)) => Some((dir, name, q)),
            None => None,
        },
        None => None,
    }
}

pub(crate) fn get_diropargs(b: &[u8], pos: usize) -> (r: Result<(Vec<u8>, Vec<u8>, usize), DecodeError>)
    ensures
        match r {
            Ok((d, n, p)) => parse_diropargs(b@, pos as int) == Some((d@, n@, p as int)),
            Err(_) => parse_diropargs(b@, pos as int) is None,
        },
{
    let (dir, p) = match get_fh(b, pos) {
        Ok(x) => x,
        Err(e) => return Err(e),
    };
    let (name, q) = match get_opaque(b, p) {
        Ok(x) => x,
        Err(e) => return Err(e),
    };
    Ok((dir, name, q))
}

/// LOOKUP3res. A name that breaks the name rules is refused before the
/// backend is asked; a handle longer than 64 bytes from the backend is an
/// I/O error.
pub open spec fn lookup_body(
    name: Seq<u8>,
    found: Result<Seq<u8>, FsError>,
    obj: Option<FileAttributes>,
    dir: Option<FileAttributes>,
) -> Seq<u8> {
    match name_check(name) {
        Err(e) => enc_status(status_of(e)) + enc_post_op_attr(post_attr(dir)),
        Ok(_) => match found {
            Err(e) => enc_status(status_of(e)) + enc_post_op_attr(post_attr(dir)),
            Ok(h) => if h.len() > NFS3_FHSIZE {
                enc_status(NfsStat3::Io) + enc_post_op_attr(post_attr(dir))
            } else {
                enc_status(NfsStat3::Nfs3Ok) + xdr_opaque(h) + enc_post_op_attr(post_attr(obj))
                    + enc_post_op_attr(post_attr(dir))
            },
        },
    }
}

pub fn lookup_result(
    name: &[u8],
    found: &Result<Vec<u8>, FsError>,
    obj: &Option<FileAttributes>,
    dir: &Option<FileAttributes>,
) -> (r: Vec<u8>)
    ensures
        r@ == lookup_body(
            name@,
            match found {
                Ok(h) => Ok(h@),
                Err(e) => Err(*e),
            },
            *obj,
            *dir,
        ),
{
    let dir_attr = to_post(dir);
    match validate_name(name) {
        Err(e) => return NfsMessage::create_attr_error_response(map_error_to_status(e), &dir_attr),
        Ok(_) => {},
    }
    match found {
        Err(e) => NfsMessage::create_attr_error_response(map_error_to_status(*e), &dir_attr),
        Ok(h) => if h.len() > NFS3_FHSIZE {
            NfsMessage::create_attr_error_response(NfsStat3::Io, &dir_attr)
        } else {
            NfsMessage::create_lookup_ok(h.as_slice(), &to_post(obj), &dir_attr)
        },
    }
}

/// The LOOKUP reply for the backend's answers.
pub open spec fn lookup_reply(
    xid: u32,
    args: Seq<u8>,
    found: Result<Seq<u8>, FsError>,
    obj: Option<FileAttributes>,
    dir: Option<FileAttributes>,
) -> Seq<u8> {
    match parse_diropargs(args, 0) {
        None => reply_of(xid, None),
        Some((_, name, _)) => reply_of(xid, Some(lookup_body(name, found, obj, dir))),
    }
}

/// LOOKUP (3).
pub fn handle_lookup<F: Filesystem>(xid: u32, args: &[u8], fs: &F) -> (r: Vec<u8>)
    ensures
        r@.subrange(0, 4) == xdr_u32(xid),
        exists|
            found: Result<Seq<u8>, FsError>,
            obj: Option<FileAttributes>,
            dir: Option<FileAttributes>,
        | r@ == lookup_reply(xid, args@, found, obj, dir),
{
    let (dir, name, _) = match get_diropargs(args, 0) {
        Ok(x) => x,
        Err(_) => {
            let r = reply(xid, None);
            assert(r@ == lookup_reply(xid, args@, Err(FsError::Io), None, None));
            return r;
        },
    };
    let found: Result<Vec<u8>, FsError> = match validate_name(&name) {
        Ok(_) => fs.lookup(&dir, &name),
        Err(e) => Err(e),
    };
    let obj = match &found {
        Ok(h) => fetch_attr(fs, h),
        Err(_) => None,
    };
    let dir_attr = fetch_attr(fs, &dir);
    let body = lookup_result(&name, &found, &obj, &dir_attr);
    let r = reply(xid, Some(body));
    let ghost gfound = match found {
        Ok(h) => Ok(h@),
        Err(e) => Err(e),
    };
    assert(r@ == lookup_reply(xid, args@, gfound, obj, dir_attr));
    r
}

// ===== READ =====

/// READ3args: handle, offset, count.
pub open spec fn parse_read_args(b: Seq<u8>) -> Option<(Seq<u8>, u64, u32)> {
    match parse_fh(b, 0) {
        Some((h, p)) => match parse_u64(b, p) {
            Some((offset, q)) => match parse_u32(b, q) {
                Some((count, _)) => Some((h, offset, count)),
                None => None,
            },
            None => None,
        },
        None => None,
    }
}

/// The bytes a READ returns: what the backend gave, cut to `count`.
pub open spec fn read_data(d: Seq<u8>, count: u32) -> Seq<u8> {
    if d.len() > count {
        d.subrange(0, count as int)
    } else {
        d
    }
}

/// Whether a READ reached the end of the file: by the file's size where its
/// attributes are known, else by a short read.
pub open spec fn read_eof(offset: u64, count: u32, n: nat, attrs: Option<FileAttributes>) -> bool {
    match attrs {
        Some(a) => offset + n >= a.size,
        None => n < count,
    }
}

/// READ3res.
pub open spec fn read_body(
    offset: u64,
    count: u32,
    data: Result<Seq<u8>, FsError>,
    attrs: Option<FileAttributes>,
) -> Seq<u8> {
    match data {
        Err(e) => enc_status(status_of(e)) + enc_post_op_attr(post_attr(attrs)),
        Ok(d) => {
            let out = read_data(d, count);
            enc_status(NfsStat3::Nfs3Ok) + enc_post_op_attr(post_attr(attrs)) + xdr_u32(
                out.len() as u32,
            ) + xdr_bool(read_eof(offset, count, out.len(), attrs)) + xdr_opaque(out)
        },
    }
}

pub fn read_result(
    offset: u64,
    count: u32,
    data: &Result<Vec<u8>, FsError>,
    attrs: &Option<FileAttributes>,
) -> (r: Vec<u8>)
    ensures
        r@ == read_body(
            offset,
            count,
            match data {
                Ok(d) => Ok(d@),
                Err(e) => Err(*e),
            },
            *attrs,
        ),
{
    let post = to_post(attrs);
    match data {
        Err(e) => NfsMessage::create_attr_error_response(map_error_to_status(*e), &post),
        Ok(d) => {
            let n: usize = if d.len() > count as usize {
                count as usize
            } else {
                d.len()
            };
            let mut out: Vec<u8> = Vec::new();
            let mut i: usize = 0;
            while i < n
                invariant
                    i <= n,
                    n <= d@.len(),
                    out@ == d@.subrange(0, i as int),
                decreases n - i,
            {
                out.push(d[i]);
                i = i + 1;
                assert(out@ =~= d@.subrange(0, i as int));
            }
            assert(out@ =~= read_data(d@, count));
            let eof = match attrs {
                Some(a) => a.size <= offset || a.size - offset <= n as u64,
                None => n < count as usize,
            };
            NfsMessage::create_read_ok(&post, n as u32, eof, out.as_slice())
        },
    }
}

/// The READ reply for the backend's answers.
pub open spec fn read_reply(
    xid: u32,
    args: Seq<u8>,
    data: Result<Seq<u8>, FsError>,
    attrs: Option<FileAttributes>,
) -> Seq<u8> {
    match parse_read_args(args) {
        None => reply_of(xid, None),
        Some((_, offset, count)) => reply_of(xid, Some(read_body(offset, count, data, attrs))),
    }
}

/// READ (6).
pub fn handle_read<F: Filesystem>(xid: u32, args: &[u8], fs: &F) -> (r: Vec<u8>)
    ensures
        r@.subrange(0, 4) == xdr_u32(xid),
        exists|data: Result<Seq<u8>, FsError>, attrs: Option<FileAttributes>|
            r@ == read_reply(xid, args@, data, attrs),
{
    let (h, p) = match get_fh(args, 0) {
        Ok(x) => x,
        Err(_) => {
            let r = reply(xid, None);
            assert(r@ == read_reply(xid, args@, Err(FsError::Io), None));
            return r;
        },
    };
    let (offset, q) = match get_u64(args, p) {
        Ok(x) => x,
        Err(_) => {
            let r = reply(xid, None);
            assert(r@ == read_reply(xid, args@, Err(FsError::Io), None));
            return r;
        },
    };
    let (count, _) = match get_u32(args, q) {
        Ok(x) => x,
        Err(_) => {
            let r = reply(xid, None);
            assert(r@ == read_reply(xid, args@, Err(FsError::Io), None));
            return r;
        },
    };
    let data = fs.read(&h, offset, count);
    let attrs = fetch_attr(fs, &h);
    let body = read_result(offset, count, &data, &attrs);
    let r = reply(xid, Some(body));
    let ghost gdata = match data {
        Ok(d) => Ok(d@),
        Err(e) => Err(e),
    };
    assert(r@ == read_reply(xid, args@, gdata, attrs));
    r
}

} // verus!
