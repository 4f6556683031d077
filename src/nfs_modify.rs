//! The NFS procedures that change the file system: SETATTR, WRITE, CREATE,
//! MKDIR, REMOVE, RMDIR, RENAME and COMMIT. Each reports weak cache
//! consistency data (the attributes before and after) for what it touched.
use vstd::prelude::*;
use crate::fsal::{FileAttributes, FileTime, Filesystem, FsError, SetTime};
use crate::nfs::{
    fetch_attr, get_fh, parse_fh, post_attr, pre_attr, reply, reply_of, to_post, to_pre,
};
use crate::nfs3::{
    enc_status, enc_wcc_data, map_error_to_status, status_of, time_of, NfsMessage, NfsStat3,
    NfsTime,
};
use crate::xdr::{
    get_bool, get_opaque, get_u32, get_u64, parse_bool, parse_opaque, parse_u32, parse_u64, put_u32,
    put_u64, xdr_u32, xdr_u64, DecodeError,
};

verus! {

pub const UNSTABLE: u32 = 0;
pub const DATA_SYNC: u32 = 1;
pub const FILE_SYNC: u32 = 2;

/// Mode given to objects created without one.
pub const DEFAULT_FILE_MODE: u32 = 0o666;
pub const DEFAULT_DIR_MODE: u32 = 0o755;
/// Mode of a file made by an EXCLUSIVE CREATE.
pub const EXCLUSIVE_FILE_MODE: u32 = 0o600;

/// sattr3: the attributes a client asks to set; `None` is "don't change".
#[derive(Debug, Clone, Copy, PartialEq, Eq, Structural)]
pub struct Sattr3 {
    pub mode: Option<u32>,
    pub uid: Option<u32>,
    pub gid: Option<u32>,
    pub size: Option<u64>,
    pub atime: SetTime,
    pub mtime: SetTime,
}

/// Whether a sattr3 asks for no change at all.
pub open spec fn sattr_is_empty(s: Sattr3) -> bool {
    s.mode is None && s.uid is None && s.gid is None && s.size is None && s.atime
        == SetTime::DontChange && s.mtime == SetTime::DontChange
}

/// An optional 32-bit value: a boolean, then the value if TRUE.
pub open spec fn parse_opt_u32(b: Seq<u8>, pos: int) -> Option<(Option<u32>, int)> {
    match parse_bool(b, pos) {
        Some((false, p)) => Some((None, p)),
        Some((true, p)) => match parse_u32(b, p) {
            Some((v, q)) => Some((Some(v), q)),
            None => None,
        },
        None => None,
    }
}

pub open spec fn parse_opt_u64(b: Seq<u8>, pos: int) -> Option<(Option<u64>, int)> {
    match parse_bool(b, pos) {
        Some((false, p)) => Some((None, p)),
        Some((true, p)) => match parse_u64(b, p) {
            Some((v, q)) => Some((Some(v), q)),
            None => None,
        },
        None => None,
    }
}

/// set_atime / set_mtime: 0 don't change, 1 server time, 2 client time
/// followed by an nfstime3.
pub open spec fn parse_set_time(b: Seq<u8>, pos: int) -> Option<(SetTime, int)> {
    match parse_u32(b, pos) {
        Some((how, p)) => if how == 0 {
            Some((SetTime::DontChange, p))
        } else if how == 1 {
            Some((SetTime::ServerTime, p))
        } else if how == 2 {
            match (parse_u32(b, p), parse_u32(b, p + 4)) {
                (Some((s, _)), Some((n, q))) => Some(
                    (SetTime::ClientTime(FileTime { seconds: s as u64, nseconds: n }), q),
                ),
                _ => None,
            }
        } else {
            None
        },
        None => None,
    }
}

pub open spec fn parse_sattr3(b: Seq<u8>, pos: int) -> Option<(Sattr3, int)> {
    match parse_opt_u32(b, pos) {
        None => None,
        Some((mode, pos1)) => match parse_opt_u32(b, pos1) {
            None => None,
            Some((uid, pos2)) => match parse_opt_u32(b, pos2) {
                None => None,
                Some((gid, pos3)) => match parse_opt_u64(b, pos3) {
                    None => None,
                    Some((size, pos4)) => match parse_set_time(b, pos4) {
                        None => None,
                        Some((atime, pos5)) => match parse_set_time(b, pos5) {
                            None => None,
                            Some((mtime, pos6)) => Some(
                                (Sattr3 { mode, uid, gid, size, atime, mtime }, pos6),
                            ),
                        },
                    },
                },
            },
        },
    }
}

fn get_opt_u32(b: &[u8], pos: usize) -> (r: Result<(Option<u32>, usize), DecodeError>)
    ensures
        match r {
            Ok((v, p)) => parse_opt_u32(b@, pos as int) == Some((v, p as int)),
            Err(_) => parse_opt_u32(b@, pos as int) is None,
        },
{
    let (set, p) = match get_bool(b, pos) {
        Ok(x) => x,
        Err(e) => return Err(e),
    };
    if !set {
        return Ok((None, p));
    }
    match get_u32(b, p) {
        Ok((v, q)) => Ok((Some(v), q)),
        Err(e) => Err(e),
    }
}

fn get_opt_u64(b: &[u8], pos: usize) -> (r: Result<(Option<u64>, usize), DecodeError>)
    ensures
        match r {
            Ok((v, p)) => parse_opt_u64(b@, pos as int) == Some((v, p as int)),
            Err(_) => parse_opt_u64(b@, pos as int) is None,
        },
{
    let (set, p) = match get_bool(b, pos) {
        Ok(x) => x,
        Err(e) => return Err(e),
    };
    if !set {
        return Ok((None, p));
    }
    match get_u64(b, p) {
        Ok((v, q)) => Ok((Some(v), q)),
        Err(e) => Err(e),
    }
}

fn get_set_time(b: &[u8], pos: usize) -> (r: Result<(SetTime, usize), DecodeError>)
    ensures
        match r {
            Ok((v, p)) => parse_set_time(b@, pos as int) == Some((v, p as int)),
            Err(_) => parse_set_time(b@, pos as int) is None,
        },
{
    let (how, p) = match get_u32(b, pos) {
        Ok(x) => x,
        Err(e) => return Err(e),
    };
    if how == 0 {
        Ok((SetTime::DontChange, p))
    } else if how == 1 {
        Ok((SetTime::ServerTime, p))
    } else if how == 2 {
        let (s, pos1) = match get_u32(b, p) {
            Ok(x) => x,
            Err(e) => return Err(e),
        };
        let (n, pos2) = match get_u32(b, pos1) {
            Ok(x) => x,
            Err(e) => return Err(e),
        };
        Ok((SetTime::ClientTime(FileTime { seconds: s as u64, nseconds: n }), pos2))
    } else {
        Err(DecodeError::BadEnum)
    }
}

/// Reads a sattr3 at `pos`.
pub fn get_sattr3(b: &[u8], pos: usize) -> (r: Result<(Sattr3, usize), DecodeError>)
    ensures
        match r {
            Ok((v, p)) => parse_sattr3(b@, pos as int) == Some((v, p as int)),
            Err(_) => parse_sattr3(b@, pos as int) is None,
        },
{
    let (mode, pos1) = match get_opt_u32(b, pos) {
        Ok(x) => x,
        Err(e) => return Err(e),
    };
    let (uid, pos2) = match get_opt_u32(b, pos1) {
        Ok(x) => x,
        Err(e) => return Err(e),
    };
    let (gid, pos3) = match get_opt_u32(b, pos2) {
        Ok(x) => x,
        Err(e) => return Err(e),
    };
    let (size, pos4) = match get_opt_u64(b, pos3) {
        Ok(x) => x,
        Err(e) => return Err(e),
    };
    let (atime, pos5) = match get_set_time(b, pos4) {
        Ok(x) => x,
        Err(e) => return Err(e),
    };
    let (mtime, pos6) = match get_set_time(b, pos5) {
        Ok(x) => x,
        Err(e) => return Err(e),
    };
    Ok((Sattr3 { mode, uid, gid, size, atime, mtime }, pos6))
}

/// The mode a sattr3 asks for, or `default` where it leaves the mode alone.
pub open spec fn mode_of(s: Sattr3, default: u32) -> u32 {
    match s.mode {
        Some(m) => m,
        None => default,
    }
}

pub fn extract_mode(s: &Sattr3, default: u32) -> (r: u32)
    ensures
        r == mode_of(*s, default),
{
    match s.mode {
        Some(m) => m,
        None => default,
    }
}

// ===== SETATTR =====

/// SETATTR3args: handle, new attributes, and an optional ctime guard.
pub open spec fn parse_setattr_args(b: Seq<u8>) -> Option<(Seq<u8>, Sattr3, Option<NfsTime>)> {
    match parse_fh(b, 0) {
        None => None,
        Some((h, p)) => match parse_sattr3(b, p) {
            None => None,
            Some((s, q)) => match parse_bool(b, q) {
                Some((false, _)) => Some((h, s, None)),
                Some((true, q1)) => match (parse_u32(b, q1), parse_u32(b, q1 + 4)) {
                    (Some((sec, _)), Some((nsec, _))) => Some(
                        (h, s, Some(NfsTime { seconds: sec, nseconds: nsec })),
                    ),
                    _ => None,
                },
                None => None,
            },
        },
    }
}

/// SETATTR3res. The object's attributes before the call decide the guard;
/// the changes are applied in the order size, mode, owner, times, and the
/// first failure is reported. A request that changes nothing succeeds
/// without touching the backend.
pub open spec fn setattr_body(
    s: Sattr3,
    guard: Option<NfsTime>,
    before: Result<FileAttributes, FsError>,
    applied: Result<(), FsError>,
    after: Option<FileAttributes>,
) -> Seq<u8> {
    match before {
        Err(e) => enc_status(status_of(e)) + enc_wcc_data(None, None),
        Ok(b) => {
            let pre = pre_attr(Some(b));
            if guard is Some && guard->0 != time_of(b.ctime) {
                enc_status(NfsStat3::NotSync) + enc_wcc_data(pre, post_attr(Some(b)))
            } else {
                let outcome = if sattr_is_empty(s) {
                    Ok(())
                } else {
                    applied
                };
                match outcome {
                    Ok(_) => enc_status(NfsStat3::Nfs3Ok) + enc_wcc_data(pre, post_attr(after)),
                    Err(e) => enc_status(status_of(e)) + enc_wcc_data(pre, post_attr(after)),
                }
            }
        },
    }
}

/// What the backend answered to each change SETATTR can ask for, in the
/// order they are applied: size, mode, owner, times.
pub type SetattrSteps = (Result<(), FsError>, Result<(), FsError>, Result<(), FsError>, Result<(), FsError>);

/// The outcome of applying `s` given the backend's answer to each step: the
/// first failure among the changes that `s` asks for, else success. A step
/// that `s` does not ask for is not made, so its answer does not count.
pub open spec fn sattr_outcome(s: Sattr3, steps: SetattrSteps) -> Result<(), FsError> {
    if s.size is Some && steps.0 is Err {
        steps.0
    } else if s.mode is Some && steps.1 is Err {
        steps.1
    } else if (s.uid is Some || s.gid is Some) && steps.2 is Err {
        steps.2
    } else if (s.atime != SetTime::DontChange || s.mtime != SetTime::DontChange) && steps.3 is Err {
        steps.3
    } else {
        Ok(())
    }
}

pub open spec fn setattr_reply(
    xid: u32,
    args: Seq<u8>,
    before: Result<FileAttributes, FsError>,
    steps: SetattrSteps,
    after: Option<FileAttributes>,
) -> Seq<u8> {
    match parse_setattr_args(args) {
        None => reply_of(xid, None),
        Some((_, s, guard)) => reply_of(
            xid,
            Some(setattr_body(s, guard, before, sattr_outcome(s, steps), after)),
        ),
    }
}

fn get_setattr_args(b: &[u8]) -> (r: Result<(Vec<u8>, Sattr3, Option<NfsTime>), DecodeError>)
    ensures
        match r {
            Ok((h, s, g)) => parse_setattr_args(b@) == Some((h@, s, g)),
            Err(_) => parse_setattr_args(b@) is None,
        },
{
    let (h, p) = match get_fh(b, 0) {
        Ok(x) => x,
        Err(e) => return Err(e),
    };
    let (s, q) = match get_sattr3(b, p) {
        Ok(x) => x,
        Err(e) => return Err(e),
    };
    let (check, q1) = match get_bool(b, q) {
        Ok(x) => x,
        Err(e) => return Err(e),
    };
    if !check {
        return Ok((h, s, None));
    }
    let (sec, q2) = match get_u32(b, q1) {
        Ok(x) => x,
        Err(e) => return Err(e),
    };
    let (nsec, _) = match get_u32(b, q2) {
        Ok(x) => x,
        Err(e) => return Err(e),
    };
    Ok((h, s, Some(NfsTime { seconds: sec, nseconds: nsec })))
}

/// Applies the requested changes in order (size, mode, owner, times),
/// stopping at the first failure; also gives what the backend answered to
/// each step, with `Ok` for the steps not made.
fn apply_sattr<F: Filesystem>(fs: &F, h: &[u8], s: &Sattr3) -> (r: (Result<(), FsError>, Ghost<SetattrSteps>))
    ensures
        r.0 == sattr_outcome(*s, r.1@),
{
    let ghost mut steps: SetattrSteps = (Ok(()), Ok(()), Ok(()), Ok(()));
    match s.size {
        Some(size) => {
            let a = fs.setattr_size(h, size);
            proof { steps.0 = a; }
            match a {
                Ok(_) => {},
                Err(e) => return (Err(e), Ghost(steps)),
            }
        },
        None => {},
    }
    match s.mode {
        Some(mode) => {
            let a = fs.setattr_mode(h, mode);
            proof { steps.1 = a; }
            match a {
                Ok(_) => {},
                Err(e) => return (Err(e), Ghost(steps)),
            }
        },
        None => {},
    }
    if s.uid.is_some() || s.gid.is_some() {
        let a = fs.setattr_owner(h, s.uid, s.gid);
        proof { steps.2 = a; }
        match a {
            Ok(_) => {},
            Err(e) => return (Err(e), Ghost(steps)),
        }
    }
    if s.atime != SetTime::DontChange || s.mtime != SetTime::DontChange {
        let a = fs.setattr_times(h, s.atime, s.mtime);
        proof { steps.3 = a; }
        match a {
            Ok(_) => {},
            Err(e) => return (Err(e), Ghost(steps)),
        }
    }
    (Ok(()), Ghost(steps))
}

pub fn setattr_result(
    s: &Sattr3,
    guard: &Option<NfsTime>,
    before: &Result<FileAttributes, FsError>,
    applied: &Result<(), FsError>,
    after: &Option<FileAttributes>,
) -> (r: Vec<u8>)
    ensures
        r@ == setattr_body(*s, *guard, *before, *applied, *after),
{
    match before {
        Err(e) => NfsMessage::create_wcc_error_response(map_error_to_status(*e), &None, &None),
        Ok(b) => {
            let pre = Some(crate::nfs3::wcc_attr_of(b));
            let ctime = crate::nfs3::NfsTime {
                seconds: (b.ctime.seconds % 0x1_0000_0000) as u32,
                nseconds: b.ctime.nseconds,
            };
            let guarded = match guard {
                Some(g) => g.seconds != ctime.seconds || g.nseconds != ctime.nseconds,
                None => false,
            };
            if guarded {
                let now = Some(NfsMessage::fsal_to_fattr3(b));
                return NfsMessage::create_wcc_error_response(NfsStat3::NotSync, &pre, &now);
            }
            let empty = s.mode.is_none() && s.uid.is_none() && s.gid.is_none() && s.size.is_none()
                && s.atime == SetTime::DontChange && s.mtime == SetTime::DontChange;
            let status = if empty {
                NfsStat3::Nfs3Ok
            } else {
                match applied {
                    Ok(_) => NfsStat3::Nfs3Ok,
                    Err(e) => map_error_to_status(*e),
                }
            };
            NfsMessage::create_wcc_error_response(status, &pre, &to_post(after))
        },
    }
}

/// SETATTR (2).
pub fn handle_setattr<F: Filesystem>(xid: u32, args: &[u8], fs: &F) -> (r: Vec<u8>)
    ensures
        r@.subrange(0, 4) == xdr_u32(xid),
        exists|
            before: Result<FileAttributes, FsError>,
            steps: SetattrSteps,
            after: Option<FileAttributes>,
        | r@ == setattr_reply(xid, args@, before, steps, after),
{
    let (h, s, guard) = match get_setattr_args(args) {
        Ok(x) => x,
        Err(_) => {
            let r = reply(xid, None);
            assert(r@ == setattr_reply(xid, args@, Err(FsError::Io), (Ok(()), Ok(()), Ok(()), Ok(())), None));
            return r;
        },
    };
    let before = fs.getattr(&h);
    let mut applied: Result<(), FsError> = Ok(());
    let ghost mut steps: SetattrSteps = (Ok(()), Ok(()), Ok(()), Ok(()));
    let mut after: Option<FileAttributes> = None;
    match &before {
        Ok(b) => {
            let ctime_ok = match guard {
                Some(g) => g.seconds == (b.ctime.seconds % 0x1_0000_0000) as u32 && g.nseconds
                    == b.ctime.nseconds,
                None => true,
            };
            if ctime_ok {
                let (outcome, answered) = apply_sattr(fs, &h, &s);
                applied = outcome;
                proof { steps = answered@; }
                after = fetch_attr(fs, &h);
            }
        },
        Err(_) => {},
    }
    let body = setattr_result(&s, &guard, &before, &applied, &after);
    let r = reply(xid, Some(body));
    assert(r@ == setattr_reply(xid, args@, before, steps, after));
    r
}

// ===== WRITE =====

/// WRITE3args: handle, offset, count, stable_how, data.
pub open spec fn parse_write_args(b: Seq<u8>) -> Option<(Seq<u8>, u64, u32, u32, Seq<u8>)> {
    match parse_fh(b, 0) {
        None => None,
        Some((h, p)) => match parse_u64(b, p) {
            None => None,
            Some((offset, pos1)) => match parse_u32(b, pos1) {
                None => None,
                Some((count, pos2)) => match parse_u32(b, pos2) {
                    None => None,
                    Some((stable, pos3)) => if stable > FILE_SYNC {
                        None
                    } else {
                        match parse_opaque(b, pos3) {
                            None => None,
                            Some((data, _)) => Some((h, offset, count, stable, data)),
                        }
                    },
                },
            },
        },
    }
}

/// The bytes a WRITE stores: the data, cut to the count the client gave.
pub open spec fn write_data(data: Seq<u8>, count: u32) -> Seq<u8> {
    if data.len() > count {
        data.subrange(0, count as int)
    } else {
        data
    }
}

/// WRITE3res. An empty write succeeds with count 0 without touching the
/// backend. An UNSTABLE write is reported UNSTABLE; any other is committed
/// before the reply and reported FILE_SYNC. `verf` is the server's write
/// verifier.
pub open spec fn write_body(
    count: u32,
    stable: u32,
    data: Seq<u8>,
    verf: u64,
    before: Option<FileAttributes>,
    written: Result<u32, FsError>,
    synced: Result<(), FsError>,
    after: Option<FileAttributes>,
) -> Seq<u8> {
    let d = write_data(data, count);
    let pre = pre_attr(before);
    if d.len() == 0 {
        enc_status(NfsStat3::Nfs3Ok) + enc_wcc_data(pre, post_attr(before)) + xdr_u32(0) + xdr_u32(
            stable,
        ) + xdr_u64(verf)
    } else {
        match written {
            Err(e) => enc_status(status_of(e)) + enc_wcc_data(pre, post_attr(after)),
            Ok(n) => if stable != UNSTABLE && synced is Err {
                enc_status(status_of(synced->Err_0)) + enc_wcc_data(pre, post_attr(after))
            } else {
                enc_status(NfsStat3::Nfs3Ok) + enc_wcc_data(pre, post_attr(after)) + xdr_u32(n)
                    + xdr_u32(
                    if stable == UNSTABLE {
                        UNSTABLE
                    } else {
                        FILE_SYNC
                    },
                ) + xdr_u64(verf)
            },
        }
    }
}

pub open spec fn write_reply(
    xid: u32,
    args: Seq<u8>,
    verf: u64,
    before: Option<FileAttributes>,
    written: Result<u32, FsError>,
    synced: Result<(), FsError>,
    after: Option<FileAttributes>,
) -> Seq<u8> {
    match parse_write_args(args) {
        None => reply_of(xid, None),
        Some((_, _, count, stable, data)) => reply_of(
            xid,
            Some(write_body(count, stable, data, verf, before, written, synced, after)),
        ),
    }
}

pub fn write_result(
    count: u32,
    stable: u32,
    n_data: usize,
    verf: u64,
    before: &Option<FileAttributes>,
    written: &Result<u32, FsError>,
    synced: &Result<(), FsError>,
    after: &Option<FileAttributes>,
) -> (r: Vec<u8>)
    ensures
        forall|data: Seq<u8>|
            write_data(data, count).len() == n_data ==> r@ == #[trigger] write_body(
                count,
                stable,
                data,
                verf,
                *before,
                *written,
                *synced,
                *after,
            ),
{
    let pre = to_pre(before);
    if n_data == 0 {
        let mut r = NfsMessage::create_wcc_error_response(NfsStat3::Nfs3Ok, &pre, &to_post(before));
        put_u32(&mut r, 0);
        put_u32(&mut r, stable);
        put_u64(&mut r, verf);
        return r;
    }
    let post = to_post(after);
    match written {
        Err(e) => NfsMessage::create_wcc_error_response(map_error_to_status(*e), &pre, &post),
        Ok(n) => {
            if stable != UNSTABLE {
                match synced {
                    Err(e) => {
                        return NfsMessage::create_wcc_error_response(
                            map_error_to_status(*e),
                            &pre,
                            &post,
                        );
                    },
                    Ok(_) => {},
                }
            }
            let mut r = NfsMessage::create_wcc_error_response(NfsStat3::Nfs3Ok, &pre, &post);
            put_u32(&mut r, *n);
            put_u32(
                &mut r,
                if stable == UNSTABLE {
                    UNSTABLE
                } else {
                    FILE_SYNC
                },
            );
            put_u64(&mut r, verf);
            r
        },
    }
}

/// The bytes a WRITE hands to the backend: the data, cut to the count the
/// client gave.
pub fn write_payload(data: &[u8], count: u32) -> (r: &[u8])
    ensures
        r@ == write_data(data@, count),
{
    if data.len() > count as usize {
        vstd::slice::slice_subrange(data, 0, count as usize)
    } else {
        data
    }
}

fn get_write_args(b: &[u8]) -> (r: Result<(Vec<u8>, u64, u32, u32, Vec<u8>), DecodeError>)
    ensures
        match r {
            Ok((h, o, c, s, d)) => parse_write_args(b@) == Some((h@, o, c, s, d@)),
            Err(_) => parse_write_args(b@) is None,
        },
{
    let (h, p) = match get_fh(b, 0) {
        Ok(x) => x,
        Err(e) => return Err(e),
    };
    let (offset, pos1) = match get_u64(b, p) {
        Ok(x) => x,
        Err(e) => return Err(e),
    };
    let (count, pos2) = match get_u32(b, pos1) {
        Ok(x) => x,
        Err(e) => return Err(e),
    };
    let (stable, pos3) = match get_u32(b, pos2) {
        Ok(x) => x,
        Err(e) => return Err(e),
    };
    if stable > FILE_SYNC {
        return Err(DecodeError::BadEnum);
    }
    let (data, _) = match get_opaque(b, pos3) {
        Ok(x) => x,
        Err(e) => return Err(e),
    };
    Ok((h, offset, count, stable, data))
}

/// WRITE (7); `verf` is the write verifier chosen when the server started.
pub fn handle_write<F: Filesystem>(xid: u32, args: &[u8], verf: u64, fs: &F) -> (r: Vec<u8>)
    ensures
        r@.subrange(0, 4) == xdr_u32(xid),
        exists|
            before: Option<FileAttributes>,
            written: Result<u32, FsError>,
            synced: Result<(), FsError>,
            after: Option<FileAttributes>,
        | r@ == write_reply(xid, args@, verf, before, written, synced, after),
{
    let (h, offset, count, stable, data) = match get_write_args(args) {
        Ok(x) => x,
        Err(_) => {
            let r = reply(xid, None);
            assert(r@ == write_reply(xid, args@, verf, None, Err(FsError::Io), Ok(()), None));
            return r;
        },
    };
    let payload = write_payload(data.as_slice(), count);
    let n: usize = payload.len();
    let before = fetch_attr(fs, &h);
    let mut written: Result<u32, FsError> = Ok(0);
    let mut synced: Result<(), FsError> = Ok(());
    let mut after: Option<FileAttributes> = None;
    if n > 0 {
        written = fs.write(&h, offset, payload);
        if written.is_ok() && stable != UNSTABLE {
            synced = fs.commit(&h, offset, n as u32);
        }
        after = fetch_attr(fs, &h);
    }
    let body = write_result(count, stable, n, verf, &before, &written, &synced, &after);
    let r = reply(xid, Some(body));
    assert(write_data(data@, count).len() == n);
    assert(r@ == write_reply(xid, args@, verf, before, written, synced, after));
    r
}

// ===== COMMIT =====

/// COMMIT3args: handle, offset, count.
pub open spec fn parse_commit_args(b: Seq<u8>) -> Option<(Seq<u8>, u64, u32)> {
    match parse_fh(b, 0) {
        Some((h, p)) => match parse_u64(b, p) {
            Some((offset, q)) => match parse_u32(b, q) {
                Some((count, _)) => Some((h, offset, count)),
                None => None,
            },
            None => None,
        },
        None => None,
    }
}

/// COMMIT3res: on success the wcc_data and the server's write verifier.
pub open spec fn commit_body(
    verf: u64,
    before: Option<FileAttributes>,
    done: Result<(), FsError>,
    after: Option<FileAttributes>,
) -> Seq<u8> {
    match done {
        Ok(_) => enc_status(NfsStat3::Nfs3Ok) + enc_wcc_data(pre_attr(before), post_attr(after))
            + xdr_u64(verf),
        Err(e) => enc_status(status_of(e)) + enc_wcc_data(pre_attr(before), post_attr(after)),
    }
}

pub open spec fn commit_reply(
    xid: u32,
    args: Seq<u8>,
    verf: u64,
    before: Option<FileAttributes>,
    done: Result<(), FsError>,
    after: Option<FileAttributes>,
) -> Seq<u8> {
    match parse_commit_args(args) {
        None => reply_of(xid, None),
        Some(_) => reply_of(xid, Some(commit_body(verf, before, done, after))),
    }
}

pub fn commit_result(
    verf: u64,
    before: &Option<FileAttributes>,
    done: &Result<(), FsError>,
    after: &Option<FileAttributes>,
) -> (r: Vec<u8>)
    ensures
        r@ == commit_body(verf, *before, *done, *after),
{
    match done {
        Ok(_) => {
            let mut r = NfsMessage::create_wcc_error_response(
                NfsStat3::Nfs3Ok,
                &to_pre(before),
                &to_post(after),
            );
            put_u64(&mut r, verf);
            r
        },
        Err(e) => NfsMessage::create_wcc_error_response(
            map_error_to_status(*e),
            &to_pre(before),
            &to_post(after),
        ),
    }
}

/// COMMIT (21); `verf` is the same write verifier that WRITE reports.
pub fn handle_commit<F: Filesystem>(xid: u32, args: &[u8], verf: u64, fs: &F) -> (r: Vec<u8>)
    ensures
        r@.subrange(0, 4) == xdr_u32(xid),
        exists|before: Option<FileAttributes>, done: Result<(), FsError>, after: Option<FileAttributes>|
            r@ == commit_reply(xid, args@, verf, before, done, after),
{
    let (h, p) = match get_fh(args, 0) {
        Ok(x) => x,
        Err(_) => {
            let r = reply(xid, None);
            assert(r@ == commit_reply(xid, args@, verf, None, Ok(()), None));
            return r;
        },
    };
    let (offset, q) = match get_u64(args, p) {
        Ok(x) => x,
        Err(_) => {
            let r = reply(xid, None);
            assert(r@ == commit_reply(xid, args@, verf, None, Ok(()), None));
            return r;
        },
    };
    let (count, _) = match get_u32(args, q) {
        Ok(x) => x,
        Err(_) => {
            let r = reply(xid, None);
            assert(r@ == commit_reply(xid, args@, verf, None, Ok(()), None));
            return r;
        },
    };
    let before = fetch_attr(fs, &h);
    let done = fs.commit(&h, offset, count);
    let after = fetch_attr(fs, &h);
    let body = commit_result(verf, &before, &done, &after);
    let r = reply(xid, Some(body));
    assert(r@ == commit_reply(xid, args@, verf, before, done, after));
    r
}

} // verus!
