//! The NFS procedures that add or drop names in a directory: CREATE, MKDIR,
//! SYMLINK, MKNOD, REMOVE, RMDIR, RENAME and LINK. Every name is checked by
//! the name rules before the backend sees it.
use vstd::prelude::*;
use crate::fsal::{FileAttributes, FileTime, Filesystem, FsError, SetTime, name_check, validate_name};
use crate::nfs::{
    bytes_result, fetch_attr, get_diropargs, get_fh, parse_diropargs, parse_fh, post_attr, pre_attr, reply,
    reply_of, to_post, to_pre, NFS3_FHSIZE,
};
use crate::nfs3::{
    enc_post_op_attr, enc_post_op_fh, enc_status, enc_wcc_data, map_error_to_status,
    put_post_op_attr, put_post_op_fh, put_status, put_wcc_data, status_of, time_of, NfsMessage,
    NfsStat3,
};
use crate::nfs_modify::{
    extract_mode, get_sattr3, parse_sattr3, Sattr3, DEFAULT_DIR_MODE, DEFAULT_FILE_MODE, EXCLUSIVE_FILE_MODE,
};
use crate::xdr::{get_opaque, get_u32, get_u64, parse_opaque, parse_u32, parse_u64, xdr_u32, DecodeError};

verus! {

pub const UNCHECKED: u32 = 0;
pub const GUARDED: u32 = 1;
pub const EXCLUSIVE: u32 = 2;

/// The result of an operation that makes a new object: on success the new
/// handle, its attributes and the directory's wcc_data; on failure the
/// status and the directory's wcc_data. A handle longer than 64 bytes from
/// the backend is an I/O error.
pub open spec fn new_object_body(
    made: Result<Seq<u8>, FsError>,
    obj: Option<FileAttributes>,
    dir_before: Option<FileAttributes>,
    dir_after: Option<FileAttributes>,
) -> Seq<u8> {
    let wcc = enc_wcc_data(pre_attr(dir_before), post_attr(dir_after));
    match made {
        Err(e) => enc_status(status_of(e)) + wcc,
        Ok(h) => if h.len() > NFS3_FHSIZE {
            enc_status(NfsStat3::Io) + wcc
        } else {
            enc_status(NfsStat3::Nfs3Ok) + enc_post_op_fh(Some(h)) + enc_post_op_attr(post_attr(obj))
                + wcc
        },
    }
}

pub fn new_object_result(
    made: &Result<Vec<u8>, FsError>,
    obj: &Option<FileAttributes>,
    dir_before: &Option<FileAttributes>,
    dir_after: &Option<FileAttributes>,
) -> (r: Vec<u8>)
    ensures
        r@ == new_object_body(
            match made {
                Ok(h) => Ok(h@),
                Err(e) => Err(*e),
            },
            *obj,
            *dir_before,
            *dir_after,
        ),
{
    let pre = to_pre(dir_before);
    let post = to_post(dir_after);
    match made {
        Err(e) => NfsMessage::create_wcc_error_response(map_error_to_status(*e), &pre, &post),
        Ok(h) => {
            if h.len() > NFS3_FHSIZE {
                return NfsMessage::create_wcc_error_response(NfsStat3::Io, &pre, &post);
            }
            let mut r: Vec<u8> = Vec::new();
            put_status(&mut r, NfsStat3::Nfs3Ok);
            put_post_op_fh(&mut r, Some(h.as_slice()));
            put_post_op_attr(&mut r, &to_post(obj));
            put_wcc_data(&mut r, &pre, &post);
            r
        },
    }
}

/// Whether the new object's name passes the name rules; if not, the failure
/// result that carries the directory's wcc_data.
fn name_refusal(name: &[u8], dir_before: &Option<FileAttributes>, dir_after: &Option<FileAttributes>) -> (r: Option<Vec<u8>>)
    ensures
        match name_check(name@) {
            Ok(_) => r is None,
            Err(e) => r is Some && r->0@ == enc_status(status_of(e)) + enc_wcc_data(
                pre_attr(*dir_before),
                post_attr(*dir_after),
            ),
        },
{
    match validate_name(name) {
        Ok(_) => None,
        Err(e) => Some(
            NfsMessage::create_wcc_error_response(
                map_error_to_status(e),
                &to_pre(dir_before),
                &to_post(dir_after),
            ),
        ),
    }
}

// ===== CREATE =====

/// CREATE3args: directory, name, and createhow3 (UNCHECKED or GUARDED with
/// attributes, EXCLUSIVE with an 8-byte verifier, which is 0 otherwise).
pub open spec fn parse_create_args(b: Seq<u8>) -> Option<(Seq<u8>, Seq<u8>, u32, Option<Sattr3>, u64)> {
    match parse_diropargs(b, 0) {
        None => None,
        Some((dir, name, p)) => match parse_u32(b, p) {
            None => None,
            Some((how, q)) => if how == UNCHECKED || how == GUARDED {
                match parse_sattr3(b, q) {
                    Some((s, _)) => Some((dir, name, how, Some(s), 0u64)),
                    None => None,
                }
            } else if how == EXCLUSIVE {
                match parse_u64(b, q) {
                    Some((verf, _)) => Some((dir, name, how, None, verf)),
                    None => None,
                }
            } else {
                None
            },
        },
    }
}

/// Whether an object carries the stamp of an EXCLUSIVE CREATE with verifier
/// `verf`: the high 32 bits of the verifier as its access time's seconds,
/// the low 32 bits as its modification time's seconds.
pub open spec fn carries_verifier(attrs: Option<FileAttributes>, verf: u64) -> bool {
    match attrs {
        Some(a) => time_of(a.atime).seconds == (verf / 0x1_0000_0000) as u32 && time_of(
            a.mtime,
        ).seconds == (verf % 0x1_0000_0000) as u32,
        None => false,
    }
}

/// The time stamps that record an EXCLUSIVE CREATE's verifier.
pub open spec fn verifier_stamp(verf: u64) -> (SetTime, SetTime) {
    (
        SetTime::ClientTime(FileTime { seconds: verf / 0x1_0000_0000, nseconds: 0 }),
        SetTime::ClientTime(FileTime { seconds: verf % 0x1_0000_0000, nseconds: 0 }),
    )
}

/// CREATE3res. GUARDED refuses a name that already exists. EXCLUSIVE does
/// too, unless the object found carries the request's verifier: then the
/// request is a retry of one that succeeded, and it succeeds again with that
/// object (`obj` being its attributes).
pub open spec fn create_body(
    name: Seq<u8>,
    how: u32,
    verf: u64,
    existing: Result<Seq<u8>, FsError>,
    made: Result<Seq<u8>, FsError>,
    obj: Option<FileAttributes>,
    dir_before: Option<FileAttributes>,
    dir_after: Option<FileAttributes>,
) -> Seq<u8> {
    let wcc = enc_wcc_data(pre_attr(dir_before), post_attr(dir_after));
    match name_check(name) {
        Err(e) => enc_status(status_of(e)) + wcc,
        Ok(_) => if how != UNCHECKED && existing is Ok {
            if how == EXCLUSIVE && carries_verifier(obj, verf) {
                new_object_body(existing, obj, dir_before, dir_after)
            } else {
                enc_status(NfsStat3::Exist) + wcc
            }
        } else {
            new_object_body(made, obj, dir_before, dir_after)
        },
    }
}

pub open spec fn create_reply(
    xid: u32,
    args: Seq<u8>,
    existing: Result<Seq<u8>, FsError>,
    made: Result<Seq<u8>, FsError>,
    obj: Option<FileAttributes>,
    dir_before: Option<FileAttributes>,
    dir_after: Option<FileAttributes>,
) -> Seq<u8> {
    match parse_create_args(args) {
        None => reply_of(xid, None),
        Some((_, name, how, _, verf)) => reply_of(
            xid,
            Some(create_body(name, how, verf, existing, made, obj, dir_before, dir_after)),
        ),
    }
}

fn get_create_args(b: &[u8]) -> (r: Result<(Vec<u8>, Vec<u8>, u32, Option<Sattr3>, u64), DecodeError>)
    ensures
        match r {
            Ok((d, n, h, s, v)) => parse_create_args(b@) == Some((d@, n@, h, s, v)),
            Err(_) => parse_create_args(b@) is None,
        },
{
    let (dir, name, p) = match get_diropargs(b, 0) {
        Ok(x) => x,
        Err(e) => return Err(e),
    };
    let (how, q) = match get_u32(b, p) {
        Ok(x) => x,
        Err(e) => return Err(e),
    };
    if how == UNCHECKED || how == GUARDED {
        match get_sattr3(b, q) {
            Ok((s, _)) => Ok((dir, name, how, Some(s), 0)),
            Err(e) => Err(e),
        }
    } else if how == EXCLUSIVE {
        match get_u64(b, q) {
            Ok((verf, _)) => Ok((dir, name, how, None, verf)),
            Err(e) => Err(e),
        }
    } else {
        Err(DecodeError::BadEnum)
    }
}

/// The time stamps that record an EXCLUSIVE CREATE's verifier.
pub fn stamp_of(verf: u64) -> (r: (SetTime, SetTime))
    ensures
        r == verifier_stamp(verf),
{
    (
        SetTime::ClientTime(FileTime { seconds: verf / 0x1_0000_0000, nseconds: 0 }),
        SetTime::ClientTime(FileTime { seconds: verf % 0x1_0000_0000, nseconds: 0 }),
    )
}

/// Whether an object's attributes carry the verifier `verf`.
pub fn has_verifier(attrs: &Option<FileAttributes>, verf: u64) -> (r: bool)
    ensures
        r == carries_verifier(*attrs, verf),
{
    match attrs {
        Some(a) => (a.atime.seconds % 0x1_0000_0000) as u32 == (verf / 0x1_0000_0000) as u32
            && (a.mtime.seconds % 0x1_0000_0000) as u32 == (verf % 0x1_0000_0000) as u32,
        None => false,
    }
}

/// CREATE (8). An EXCLUSIVE create stamps the new file with the verifier
/// (see `verifier_stamp`), so that a retry finds it.
pub fn handle_create<F: Filesystem>(xid: u32, args: &[u8], fs: &F) -> (r: Vec<u8>)
    ensures
        r@.subrange(0, 4) == xdr_u32(xid),
        exists|
            existing: Result<Seq<u8>, FsError>,
            made: Result<Seq<u8>, FsError>,
            obj: Option<FileAttributes>,
            dir_before: Option<FileAttributes>,
            dir_after: Option<FileAttributes>,
        | r@ == create_reply(xid, args@, existing, made, obj, dir_before, dir_after),
{
    let (dir, name, how, attrs, verf) = match get_create_args(args) {
        Ok(x) => x,
        Err(_) => {
            let r = reply(xid, None);
            assert(r@ == create_reply(xid, args@, Err(FsError::Io), Err(FsError::Io), None, None, None));
            return r;
        },
    };
    let dir_before = fetch_attr(fs, &dir);
    match name_refusal(&name, &dir_before, &dir_before) {
        Some(body) => {
            let r = reply(xid, Some(body));
            assert(r@ == create_reply(xid, args@, Err(FsError::Io), Err(FsError::Io), None, dir_before, dir_before));
            return r;
        },
        None => {},
    }
    let existing: Result<Vec<u8>, FsError> = if how != UNCHECKED {
        fs.lookup(&dir, &name)
    } else {
        Err(FsError::NotFound)
    };
    let ghost gexisting = bytes_result(existing);
    match &existing {
        Ok(h) => if how != UNCHECKED {
            let found = if how == EXCLUSIVE {
                fetch_attr(fs, h)
            } else {
                None
            };
            let body = if how == EXCLUSIVE && has_verifier(&found, verf) {
                let dir_after = fetch_attr(fs, &dir);
                let b = new_object_result(&existing, &found, &dir_before, &dir_after);
                let r = reply(xid, Some(b));
                assert(r@ == create_reply(xid, args@, gexisting, Err(FsError::Io), found, dir_before, dir_after));
                return r;
            } else {
                NfsMessage::create_wcc_error_response(
                    NfsStat3::Exist,
                    &to_pre(&dir_before),
                    &to_post(&dir_before),
                )
            };
            let r = reply(xid, Some(body));
            assert(r@ == create_reply(xid, args@, gexisting, Err(FsError::Io), found, dir_before, dir_before));
            return r;
        },
        Err(_) => {},
    }
    let mode: u32 = match attrs {
        Some(s) => extract_mode(&s, DEFAULT_FILE_MODE),
        None => EXCLUSIVE_FILE_MODE,
    };
    let made = fs.create(&dir, &name, mode);
    if how == EXCLUSIVE {
        match &made {
            Ok(h) => {
                // A stamp that does not take only costs a retry its success.
                let (atime, mtime) = stamp_of(verf);
                let _ = fs.setattr_times(h, atime, mtime);
            },
            Err(_) => {},
        }
    }
    let obj = match &made {
        Ok(h) => fetch_attr(fs, h),
        Err(_) => None,
    };
    let dir_after = fetch_attr(fs, &dir);
    let body = new_object_result(&made, &obj, &dir_before, &dir_after);
    let r = reply(xid, Some(body));
    assert(r@ == create_reply(xid, args@, gexisting, bytes_result(made), obj, dir_before, dir_after));
    r
}

// ===== MKDIR =====

/// MKDIR3args: directory, name, attributes.
pub open spec fn parse_mkdir_args(b: Seq<u8>) -> Option<(Seq<u8>, Seq<u8>, Sattr3)> {
    match parse_diropargs(b, 0) {
        None => None,
        Some((dir, name, p)) => match parse_sattr3(b, p) {
            Some((s, _)) => Some((dir, name, s)),
            None => None,
        },
    }
}

/// MKDIR3res.
pub open spec fn mkdir_body(
    name: Seq<u8>,
    made: Result<Seq<u8>, FsError>,
    obj: Option<FileAttributes>,
    dir_before: Option<FileAttributes>,
    dir_after: Option<FileAttributes>,
) -> Seq<u8> {
    match name_check(name) {
        Err(e) => enc_status(status_of(e)) + enc_wcc_data(pre_attr(dir_before), post_attr(dir_after)),
        Ok(_) => new_object_body(made, obj, dir_before, dir_after),
    }
}

pub open spec fn mkdir_reply(
    xid: u32,
    args: Seq<u8>,
    made: Result<Seq<u8>, FsError>,
    obj: Option<FileAttributes>,
    dir_before: Option<FileAttributes>,
    dir_after: Option<FileAttributes>,
) -> Seq<u8> {
    match parse_mkdir_args(args) {
        None => reply_of(xid, None),
        Some((_, name, _)) => reply_of(xid, Some(mkdir_body(name, made, obj, dir_before, dir_after))),
    }
}

/// MKDIR (9); the directory gets the requested mode, or 0755.
pub fn handle_mkdir<F: Filesystem>(xid: u32, args: &[u8], fs: &F) -> (r: Vec<u8>)
    ensures
        r@.subrange(0, 4) == xdr_u32(xid),
        exists|
            made: Result<Seq<u8>, FsError>,
            obj: Option<FileAttributes>,
            dir_before: Option<FileAttributes>,
            dir_after: Option<FileAttributes>,
        | r@ == mkdir_reply(xid, args@, made, obj, dir_before, dir_after),
{
    let (dir, name, p) = match get_diropargs(args, 0) {
        Ok(x) => x,
        Err(_) => {
            let r = reply(xid, None);
            assert(r@ == mkdir_reply(xid, args@, Err(FsError::Io), None, None, None));
            return r;
        },
    };
    let s = match get_sattr3(args, p) {
        Ok((s, _)) => s,
        Err(_) => {
            let r = reply(xid, None);
            assert(r@ == mkdir_reply(xid, args@, Err(FsError::Io), None, None, None));
            return r;
        },
    };
    let dir_before = fetch_attr(fs, &dir);
    match name_refusal(&name, &dir_before, &dir_before) {
        Some(body) => {
            let r = reply(xid, Some(body));
            assert(r@ == mkdir_reply(xid, args@, Err(FsError::Io), None, dir_before, dir_before));
            return r;
        },
        None => {},
    }
    let mode: u32 = extract_mode(&s, DEFAULT_DIR_MODE);
    let made = fs.mkdir(&dir, &name, mode);
    let obj = match &made {
        Ok(h) => fetch_attr(fs, h),
        Err(_) => None,
    };
    let dir_after = fetch_attr(fs, &dir);
    let body = new_object_result(&made, &obj, &dir_before, &dir_after);
    let r = reply(xid, Some(body));
    let ghost gmade = match made {
        Ok(h) => Ok(h@),
        Err(e) => Err(e),
    };
    assert(r@ == mkdir_reply(xid, args@, gmade, obj, dir_before, dir_after));
    r
}

// ===== SYMLINK =====

/// SYMLINK3args: directory, name, attributes, target path.
pub open spec fn parse_symlink_args(b: Seq<u8>) -> Option<(Seq<u8>, Seq<u8>, Seq<u8>)> {
    match parse_mkdir_args(b) {
        None => None,
        Some((dir, name, _)) => match parse_diropargs(b, 0) {
            Some((_, _, p)) => match parse_sattr3(b, p) {
                Some((_, q)) => match parse_opaque(b, q) {
                    Some((target, _)) => Some((dir, name, target)),
                    None => None,
                },
                None => None,
            },
            None => None,
        },
    }
}

pub open spec fn symlink_reply(
    xid: u32,
    args: Seq<u8>,
    made: Result<Seq<u8>, FsError>,
    obj: Option<FileAttributes>,
    dir_before: Option<FileAttributes>,
    dir_after: Option<FileAttributes>,
) -> Seq<u8> {
    match parse_symlink_args(args) {
        None => reply_of(xid, None),
        Some((_, name, _)) => reply_of(xid, Some(mkdir_body(name, made, obj, dir_before, dir_after))),
    }
}

/// SYMLINK (10).
pub fn handle_symlink<F: Filesystem>(xid: u32, args: &[u8], fs: &F) -> (r: Vec<u8>)
    ensures
        r@.subrange(0, 4) == xdr_u32(xid),
        exists|
            made: Result<Seq<u8>, FsError>,
            obj: Option<FileAttributes>,
            dir_before: Option<FileAttributes>,
            dir_after: Option<FileAttributes>,
        | r@ == symlink_reply(xid, args@, made, obj, dir_before, dir_after),
{
    let (dir, name, p) = match get_diropargs(args, 0) {
        Ok(x) => x,
        Err(_) => {
            let r = reply(xid, None);
            assert(r@ == symlink_reply(xid, args@, Err(FsError::Io), None, None, None));
            return r;
        },
    };
    let q = match get_sattr3(args, p) {
        Ok((_, q)) => q,
        Err(_) => {
            let r = reply(xid, None);
            assert(r@ == symlink_reply(xid, args@, Err(FsError::Io), None, None, None));
            return r;
        },
    };
    let target = match get_opaque(args, q) {
        Ok((t, _)) => t,
        Err(_) => {
            let r = reply(xid, None);
            assert(r@ == symlink_reply(xid, args@, Err(FsError::Io), None, None, None));
            return r;
        },
    };
    let dir_before = fetch_attr(fs, &dir);
    match name_refusal(&name, &dir_before, &dir_before) {
        Some(body) => {
            let r = reply(xid, Some(body));
            assert(r@ == symlink_reply(xid, args@, Err(FsError::Io), None, dir_before, dir_before));
            return r;
        },
        None => {},
    }
    let made = fs.symlink(&dir, &name, &target);
    let obj = match &made {
        Ok(h) => fetch_attr(fs, h),
        Err(_) => None,
    };
    let dir_after = fetch_attr(fs, &dir);
    let body = new_object_result(&made, &obj, &dir_before, &dir_after);
    let r = reply(xid, Some(body));
    let ghost gmade = match made {
        Ok(h) => Ok(h@),
        Err(e) => Err(e),
    };
    assert(r@ == symlink_reply(xid, args@, gmade, obj, dir_before, dir_after));
    r
}

// ===== REMOVE and RMDIR =====

/// REMOVE3res and RMDIR3res: the status and the directory's wcc_data.
pub open spec fn unlink_body(
    name: Seq<u8>,
    done: Result<(), FsError>,
    dir_before: Option<FileAttributes>,
    dir_after: Option<FileAttributes>,
) -> Seq<u8> {
    let wcc = enc_wcc_data(pre_attr(dir_before), post_attr(dir_after));
    match name_check(name) {
        Err(e) => enc_status(status_of(e)) + wcc,
        Ok(_) => match done {
            Ok(_) => enc_status(NfsStat3::Nfs3Ok) + wcc,
            Err(e) => enc_status(status_of(e)) + wcc,
        },
    }
}

pub open spec fn unlink_reply(
    xid: u32,
    args: Seq<u8>,
    done: Result<(), FsError>,
    dir_before: Option<FileAttributes>,
    dir_after: Option<FileAttributes>,
) -> Seq<u8> {
    match parse_diropargs(args, 0) {
        None => reply_of(xid, None),
        Some((_, name, _)) => reply_of(xid, Some(unlink_body(name, done, dir_before, dir_after))),
    }
}

pub fn unlink_result(
    name: &[u8],
    done: &Result<(), FsError>,
    dir_before: &Option<FileAttributes>,
    dir_after: &Option<FileAttributes>,
) -> (r: Vec<u8>)
    ensures
        r@ == unlink_body(name@, *done, *dir_before, *dir_after),
{
    match name_refusal(name, dir_before, dir_after) {
        Some(body) => body,
        None => {
            let status = match done {
                Ok(_) => NfsStat3::Nfs3Ok,
                Err(e) => map_error_to_status(*e),
            };
            NfsMessage::create_wcc_error_response(status, &to_pre(dir_before), &to_post(dir_after))
        },
    }
}

fn handle_unlink<F: Filesystem>(xid: u32, args: &[u8], fs: &F, directory: bool) -> (r: Vec<u8>)
    ensures
        r@.subrange(0, 4) == xdr_u32(xid),
        exists|
            done: Result<(), FsError>,
            dir_before: Option<FileAttributes>,
            dir_after: Option<FileAttributes>,
        | r@ == unlink_reply(xid, args@, done, dir_before, dir_after),
{
    let (dir, name, _) = match get_diropargs(args, 0) {
        Ok(x) => x,
        Err(_) => {
            let r = reply(xid, None);
            assert(r@ == unlink_reply(xid, args@, Ok(()), None, None));
            return r;
        },
    };
    let dir_before = fetch_attr(fs, &dir);
    let done: Result<(), FsError> = match validate_name(&name) {
        Err(e) => Err(e),
        Ok(_) => if directory {
            fs.rmdir(&dir, &name)
        } else {
            fs.remove(&dir, &name)
        },
    };
    let dir_after = fetch_attr(fs, &dir);
    let body = unlink_result(&name, &done, &dir_before, &dir_after);
    let r = reply(xid, Some(body));
    assert(r@ == unlink_reply(xid, args@, done, dir_before, dir_after));
    r
}

/// REMOVE (12).
pub fn handle_remove<F: Filesystem>(xid: u32, args: &[u8], fs: &F) -> (r: Vec<u8>)
    ensures
        r@.subrange(0, 4) == xdr_u32(xid),
        exists|
            done: Result<(), FsError>,
            dir_before: Option<FileAttributes>,
            dir_after: Option<FileAttributes>,
        | r@ == unlink_reply(xid, args@, done, dir_before, dir_after),
{
    handle_unlink(xid, args, fs, false)
}

/// RMDIR (13).
pub fn handle_rmdir<F: Filesystem>(xid: u32, args: &[u8], fs: &F) -> (r: Vec<u8>)
    ensures
        r@.subrange(0, 4) == xdr_u32(xid),
        exists|
            done: Result<(), FsError>,
            dir_before: Option<FileAttributes>,
            dir_after: Option<FileAttributes>,
        | r@ == unlink_reply(xid, args@, done, dir_before, dir_after),
{
    handle_unlink(xid, args, fs, true)
}

// ===== RENAME =====

/// RENAME3args: the source and the target directory and name.
pub open spec fn parse_rename_args(b: Seq<u8>) -> Option<(Seq<u8>, Seq<u8>, Seq<u8>, Seq<u8>)> {
    match parse_diropargs(b, 0) {
        None => None,
        Some((fd, fname, p)) => match parse_diropargs(b, p) {
            None => None,
            Some((td, tname, _)) => Some((fd, fname, td, tname)),
        },
    }
}

/// RENAME3res: the status and the wcc_data of both directories.
pub open spec fn rename_body(
    from_name: Seq<u8>,
    to_name: Seq<u8>,
    done: Result<(), FsError>,
    from_before: Option<FileAttributes>,
    from_after: Option<FileAttributes>,
    to_before: Option<FileAttributes>,
    to_after: Option<FileAttributes>,
) -> Seq<u8> {
    let wcc = enc_wcc_data(pre_attr(from_before), post_attr(from_after)) + enc_wcc_data(
        pre_attr(to_before),
        post_attr(to_after),
    );
    let status = match name_check(from_name) {
        Err(e) => status_of(e),
        Ok(_) => match name_check(to_name) {
            Err(e) => status_of(e),
            Ok(_) => match done {
                Ok(_) => NfsStat3::Nfs3Ok,
                Err(e) => status_of(e),
            },
        },
    };
    enc_status(status) + wcc
}

pub open spec fn rename_reply(
    xid: u32,
    args: Seq<u8>,
    done: Result<(), FsError>,
    from_before: Option<FileAttributes>,
    from_after: Option<FileAttributes>,
    to_before: Option<FileAttributes>,
    to_after: Option<FileAttributes>,
) -> Seq<u8> {
    match parse_rename_args(args) {
        None => reply_of(xid, None),
        Some((_, fname, _, tname)) => reply_of(
            xid,
            Some(rename_body(fname, tname, done, from_before, from_after, to_before, to_after)),
        ),
    }
}

/// RENAME (14).
pub fn handle_rename<F: Filesystem>(xid: u32, args: &[u8], fs: &F) -> (r: Vec<u8>)
    ensures
        r@.subrange(0, 4) == xdr_u32(xid),
        exists|
            done: Result<(), FsError>,
            from_before: Option<FileAttributes>,
            from_after: Option<FileAttributes>,
            to_before: Option<FileAttributes>,
            to_after: Option<FileAttributes>,
        | r@ == rename_reply(xid, args@, done, from_before, from_after, to_before, to_after),
{
    let (fd, fname, p) = match get_diropargs(args, 0) {
        Ok(x) => x,
        Err(_) => {
            let r = reply(xid, None);
            assert(r@ == rename_reply(xid, args@, Ok(()), None, None, None, None));
            return r;
        },
    };
    let (td, tname, _) = match get_diropargs(args, p) {
        Ok(x) => x,
        Err(_) => {
            let r = reply(xid, None);
            assert(r@ == rename_reply(xid, args@, Ok(()), None, None, None, None));
            return r;
        },
    };
    let from_before = fetch_attr(fs, &fd);
    let to_before = fetch_attr(fs, &td);
    let checked = match validate_name(&fname) {
        Err(e) => Err(e),
        Ok(_) => validate_name(&tname),
    };
    let mut done: Result<(), FsError> = Ok(());
    let status = match checked {
        Err(e) => map_error_to_status(e),
        Ok(_) => {
            done = fs.rename(&fd, &fname, &td, &tname);
            match done {
                Ok(_) => NfsStat3::Nfs3Ok,
                Err(e) => map_error_to_status(e),
            }
        },
    };
    let from_after = fetch_attr(fs, &fd);
    let to_after = fetch_attr(fs, &td);
    let mut body: Vec<u8> = Vec::new();
    put_status(&mut body, status);
    put_wcc_data(&mut body, &to_pre(&from_before), &to_post(&from_after));
    put_wcc_data(&mut body, &to_pre(&to_before), &to_post(&to_after));
    let r = reply(xid, Some(body));
    assert(r@ == rename_reply(xid, args@, done, from_before, from_after, to_before, to_after));
    r
}

// ===== LINK =====

/// LINK3args: the file, then the directory and name of the new link.
pub open spec fn parse_link_args(b: Seq<u8>) -> Option<(Seq<u8>, Seq<u8>, Seq<u8>)> {
    match parse_fh(b, 0) {
        None => None,
        Some((file, p)) => match parse_diropargs(b, p) {
            None => None,
            Some((dir, name, _)) => Some((file, dir, name)),
        },
    }
}

/// LINK3res: the status, the file's attributes and the directory's
/// wcc_data.
pub open spec fn link_body(
    name: Seq<u8>,
    done: Result<Seq<u8>, FsError>,
    file_attr: Option<FileAttributes>,
    dir_before: Option<FileAttributes>,
    dir_after: Option<FileAttributes>,
) -> Seq<u8> {
    let status = match name_check(name) {
        Err(e) => status_of(e),
        Ok(_) => match done {
            Ok(_) => NfsStat3::Nfs3Ok,
            Err(e) => status_of(e),
        },
    };
    enc_status(status) + enc_post_op_attr(post_attr(file_attr)) + enc_wcc_data(
        pre_attr(dir_before),
        post_attr(dir_after),
    )
}

pub open spec fn link_reply(
    xid: u32,
    args: Seq<u8>,
    done: Result<Seq<u8>, FsError>,
    file_attr: Option<FileAttributes>,
    dir_before: Option<FileAttributes>,
    dir_after: Option<FileAttributes>,
) -> Seq<u8> {
    match parse_link_args(args) {
        None => reply_of(xid, None),
        Some((_, _, name)) => reply_of(xid, Some(link_body(name, done, file_attr, dir_before, dir_after))),
    }
}

/// LINK (15).
pub fn handle_link<F: Filesystem>(xid: u32, args: &[u8], fs: &F) -> (r: Vec<u8>)
    ensures
        r@.subrange(0, 4) == xdr_u32(xid),
        exists|
            done: Result<Seq<u8>, FsError>,
            file_attr: Option<FileAttributes>,
            dir_before: Option<FileAttributes>,
            dir_after: Option<FileAttributes>,
        | r@ == link_reply(xid, args@, done, file_attr, dir_before, dir_after),
{
    let (file, p) = match get_fh(args, 0) {
        Ok(x) => x,
        Err(_) => {
            let r = reply(xid, None);
            assert(r@ == link_reply(xid, args@, Err(FsError::Io), None, None, None));
            return r;
        },
    };
    let (dir, name, _) = match get_diropargs(args, p) {
        Ok(x) => x,
        Err(_) => {
            let r = reply(xid, None);
            assert(r@ == link_reply(xid, args@, Err(FsError::Io), None, None, None));
            return r;
        },
    };
    let dir_before = fetch_attr(fs, &dir);
    let done: Result<Vec<u8>, FsError> = match validate_name(&name) {
        Err(e) => Err(e),
        Ok(_) => fs.link(&file, &dir, &name),
    };
    let status = match &done {
        Ok(_) => NfsStat3::Nfs3Ok,
        Err(e) => map_error_to_status(*e),
    };
    let file_attr = fetch_attr(fs, &file);
    let dir_after = fetch_attr(fs, &dir);
    let mut body: Vec<u8> = Vec::new();
    put_status(&mut body, status);
    put_post_op_attr(&mut body, &to_post(&file_attr));
    put_wcc_data(&mut body, &to_pre(&dir_before), &to_post(&dir_after));
    let r = reply(xid, Some(body));
    let ghost gdone = match done {
        Ok(h) => Ok(h@),
        Err(e) => Err(e),
    };
    assert(r@ == link_reply(xid, args@, gdone, file_attr, dir_before, dir_after));
    r
}

// ===== MKNOD =====

/// MKNOD3args: directory, name, and the type of node with, for devices,
/// attributes and device numbers, and for sockets and FIFOs, attributes.
pub open spec fn parse_mknod_args(b: Seq<u8>) -> Option<(Seq<u8>, Seq<u8>, u32)> {
    match parse_diropargs(b, 0) {
        None => None,
        Some((dir, name, p)) => match parse_u32(b, p) {
            None => None,
            Some((t, q)) => if t == 3 || t == 4 {
                match parse_sattr3(b, q) {
                    Some((_, q1)) => if q1 + 8 <= b.len() {
                        Some((dir, name, t))
                    } else {
                        None
                    },
                    None => None,
                }
            } else if t == 6 || t == 7 {
                match parse_sattr3(b, q) {
                    Some(_) => Some((dir, name, t)),
                    None => None,
                }
            } else if 1 <= t <= 5 {
                Some((dir, name, t))
            } else {
                None
            },
        },
    }
}

/// MKNOD3res. Regular files, directories and links are not made by MKNOD
/// (BADTYPE); the backends make no special files (NOTSUPP).
pub open spec fn mknod_body(name: Seq<u8>, ftype: u32, dir: Option<FileAttributes>) -> Seq<u8> {
    let wcc = enc_wcc_data(pre_attr(dir), post_attr(dir));
    match name_check(name) {
        Err(e) => enc_status(status_of(e)) + wcc,
        Ok(_) => if ftype == 1 || ftype == 2 || ftype == 5 {
            enc_status(NfsStat3::BadType) + wcc
        } else {
            enc_status(NfsStat3::NotSupp) + wcc
        },
    }
}

pub open spec fn mknod_reply(xid: u32, args: Seq<u8>, dir: Option<FileAttributes>) -> Seq<u8> {
    match parse_mknod_args(args) {
        None => reply_of(xid, None),
        Some((_, name, t)) => reply_of(xid, Some(mknod_body(name, t, dir))),
    }
}

/// MKNOD (11).
pub fn handle_mknod<F: Filesystem>(xid: u32, args: &[u8], fs: &F) -> (r: Vec<u8>)
    ensures
        r@.subrange(0, 4) == xdr_u32(xid),
        exists|dir: Option<FileAttributes>| r@ == mknod_reply(xid, args@, dir),
{
    let (dir, name, p) = match get_diropargs(args, 0) {
        Ok(x) => x,
        Err(_) => {
            let r = reply(xid, None);
            assert(r@ == mknod_reply(xid, args@, None));
            return r;
        },
    };
    let (t, q) = match get_u32(args, p) {
        Ok(x) => x,
        Err(_) => {
            let r = reply(xid, None);
            assert(r@ == mknod_reply(xid, args@, None));
            return r;
        },
    };
    let well_formed = if t == 3 || t == 4 {
        match get_sattr3(args, q) {
            Ok((_, q1)) => q1 <= args.len() && args.len() - q1 >= 8,
            Err(_) => false,
        }
    } else if t == 6 || t == 7 {
        get_sattr3(args, q).is_ok()
    } else {
        1 <= t && t <= 5
    };
    if !well_formed {
        let r = reply(xid, None);
        assert(r@ == mknod_reply(xid, args@, None));
        return r;
    }
    let dir_attr = fetch_attr(fs, &dir);
    let body = match name_refusal(&name, &dir_attr, &dir_attr) {
        Some(b) => b,
        None => NfsMessage::create_wcc_error_response(
            if t == 1 || t == 2 || t == 5 {
                NfsStat3::BadType
            } else {
                NfsStat3::NotSupp
            },
            &to_pre(&dir_attr),
            &to_post(&dir_attr),
        ),
    };
    let r = reply(xid, Some(body));
    assert(r@ == mknod_reply(xid, args@, dir_attr));
    r
}

} // verus!
