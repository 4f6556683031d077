//! The MOUNT program (100005, version 3; RFC 1813 appendix I).
use vstd::prelude::*;
use crate::rpc::{
    CallHeader, accepted_header, prog_mismatch_reply, status_reply, success_reply, GARBAGE_ARGS,
    PROC_UNAVAIL, PROG_MISMATCH, SUCCESS,
};
use crate::xdr::{get_opaque, parse_opaque, put_bool, put_opaque, put_u32, xdr_bool, xdr_opaque,
    xdr_u32};

verus! {

pub const MOUNT_PROGRAM: u32 = 100005;

pub const MOUNT_V3: u32 = 3;

pub const MOUNTPROC3_NULL: u32 = 0;
pub const MOUNTPROC3_MNT: u32 = 1;
pub const MOUNTPROC3_DUMP: u32 = 2;
pub const MOUNTPROC3_UMNT: u32 = 3;
pub const MOUNTPROC3_UMNTALL: u32 = 4;
pub const MOUNTPROC3_EXPORT: u32 = 5;

pub const MNT3_OK: u32 = 0;
pub const MNT3ERR_ACCES: u32 = 13;

pub const AUTH_NONE: u32 = 0;
pub const AUTH_SYS: u32 = 1;

/// Longest directory path a client may send.
pub const MNTPATHLEN: usize = 1024;

/// Largest file handle of version 3.
pub const FHSIZE3: usize = 64;

/// The MNT result: MNT3_OK, the handle, and the flavors AUTH_NONE and
/// AUTH_SYS.
pub open spec fn mnt_ok_bytes(fh: Seq<u8>) -> Seq<u8> {
    xdr_u32(MNT3_OK) + xdr_opaque(fh) + xdr_u32(2) + xdr_u32(AUTH_NONE) + xdr_u32(AUTH_SYS)
}

/// Builds the result of a successful MNT.
pub fn create_mount_ok(fh: &[u8]) -> (r: Vec<u8>)
    requires
        fh@.len() <= FHSIZE3,
    ensures
        r@ == mnt_ok_bytes(fh@),
{
    let mut r: Vec<u8> = Vec::new();
    put_u32(&mut r, MNT3_OK);
    put_opaque(&mut r, fh);
    put_u32(&mut r, 2);
    put_u32(&mut r, AUTH_NONE);
    put_u32(&mut r, AUTH_SYS);
    r
}

/// Whether `r` is the MOUNT program's answer to a CALL of version `vers`,
/// procedure `procedure` and argument bytes `args`, when the export's root
/// handle is `root` and the backend's export check says `exported` of the
/// path that MNT asks for.
pub open spec fn mount_outcome(
    xid: u32,
    vers: u32,
    procedure: u32,
    args: Seq<u8>,
    root: Seq<u8>,
    exported: bool,
    r: Seq<u8>,
) -> bool {
    if vers != MOUNT_V3 {
        r == accepted_header(xid, PROG_MISMATCH) + xdr_u32(MOUNT_V3) + xdr_u32(MOUNT_V3)
    } else if procedure == MOUNTPROC3_NULL || procedure == MOUNTPROC3_UMNT || procedure
        == MOUNTPROC3_UMNTALL {
        r == accepted_header(xid, SUCCESS)
    } else if procedure == MOUNTPROC3_MNT {
        match parse_opaque(args, 0) {
            Some((path, _)) if path.len() <= MNTPATHLEN => if exported {
                r == accepted_header(xid, SUCCESS) + mnt_ok_bytes(root)
            } else {
                r == accepted_header(xid, SUCCESS) + xdr_u32(MNT3ERR_ACCES)
            },
            _ => r == accepted_header(xid, GARBAGE_ARGS),
        }
    } else if procedure == MOUNTPROC3_DUMP || procedure == MOUNTPROC3_EXPORT {
        r == accepted_header(xid, SUCCESS) + xdr_bool(false)
    } else {
        r == accepted_header(xid, PROC_UNAVAIL)
    }
}

/// Answers a MOUNT CALL; `args` are the bytes after the envelope and `root`
/// the handle of the exported directory, which MNT hands out for every path
/// that the backend's export check accepts (`exported`), and refuses with
/// MNT3ERR_ACCES otherwise.
/// UMNT keeps no state and always succeeds, whatever its arguments; DUMP and EXPORT list nothing.
pub fn handle_mount_call(call: &CallHeader, args: &[u8], root: &[u8], exported: bool) -> (r: Vec<u8>)
    requires
        root@.len() <= FHSIZE3,
    ensures
        r@.subrange(0, 4) == xdr_u32(call.xid),
        mount_outcome(call.xid, call.vers, call.procedure, args@, root@, exported, r@),
{
    let xid = call.xid;
    if call.vers != MOUNT_V3 {
        return prog_mismatch_reply(xid, MOUNT_V3, MOUNT_V3);
    }
    let p = call.procedure;
    if p == MOUNTPROC3_NULL || p == MOUNTPROC3_UMNT || p == MOUNTPROC3_UMNTALL {
        return status_reply(xid, SUCCESS);
    }
    if p == MOUNTPROC3_MNT {
        let path = match get_opaque(args, 0) {
            Ok((path, _)) => path,
            Err(_) => return status_reply(xid, GARBAGE_ARGS),
        };
        if path.len() > MNTPATHLEN {
            return status_reply(xid, GARBAGE_ARGS);
        }
        if !exported {
            let mut body: Vec<u8> = Vec::new();
            put_u32(&mut body, MNT3ERR_ACCES);
            return success_reply(xid, &body);
        }
        let body = create_mount_ok(root);
        return success_reply(xid, &body);
    }
    if p == MOUNTPROC3_DUMP || p == MOUNTPROC3_EXPORT {
        let mut body: Vec<u8> = Vec::new();
        put_bool(&mut body, false);
        assert(body@ =~= xdr_bool(false));
        return success_reply(xid, &body);
    }
    status_reply(xid, PROC_UNAVAIL)
}

} // verus!
