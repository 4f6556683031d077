//! Routing of whole RPC records: envelope parsing, program and version
//! checks, the NFS procedure table, and the framed reply.
use vstd::prelude::*;
use crate::fsal::{FileAttributes, Filesystem, FsError};
use crate::mount::{handle_mount_call, mount_outcome, MOUNT_PROGRAM, MOUNTPROC3_MNT, FHSIZE3};
use crate::nfs::{
    getattr_reply, handle_getattr, handle_lookup, handle_null, handle_read, lookup_reply,
    read_reply, NFS_PROGRAM, NFS_V3,
};
use crate::nfs_info::{
    access_reply, fsinfo_reply, fsstat_reply, handle_access, handle_fsinfo, handle_fsstat,
    handle_pathconf, handle_readlink, pathconf_reply, readlink_reply,
};
use crate::nfs_modify::{
    commit_reply, handle_commit, handle_setattr, handle_write, setattr_reply, write_reply,
    SetattrSteps,
};
use crate::nfs_names::{
    create_reply, handle_create, handle_link, handle_mkdir, handle_mknod, handle_remove,
    handle_rename, handle_rmdir, handle_symlink, link_reply, mkdir_reply, mknod_reply,
    rename_reply, symlink_reply, unlink_reply,
};
use crate::nfs_readdir::{
    handle_readdir, handle_readdirplus, readdir_reply, readdirplus_reply,
};
use crate::portmap::{handle_portmap_call, portmap_outcome, PORTMAP_PROGRAM};
use crate::record::{frame_reply, last_mark, LAST_FRAGMENT};
use crate::registry::Registry;
use crate::rpc::{
    accepted_header, parse_call, prog_mismatch_reply, rpc_mismatch_bytes, rpc_mismatch_reply,
    spec_parse_call, status_reply, CallHeader, PROC_UNAVAIL, PROG_MISMATCH, PROG_UNAVAIL,
    RPC_VERSION, SUCCESS, SYSTEM_ERR,
};
use crate::xdr::{get_opaque, xdr_u32};

verus! {

/// Whether `r` is the NFS program's reply to `call` with argument bytes
/// `args`, for some answers of the backend; `verf` is the write verifier.
#[verifier::opaque]
pub open spec fn nfs_reply(call: CallHeader, args: Seq<u8>, verf: u64, r: Seq<u8>) -> bool {
    let xid = call.xid;
    let p = call.procedure;
    if call.vers != NFS_V3 {
        r == accepted_header(xid, PROG_MISMATCH) + xdr_u32(NFS_V3) + xdr_u32(NFS_V3)
    } else if p == 0 {
        r == accepted_header(xid, SUCCESS)
    } else if p == 1 {
        exists|a: Result<FileAttributes, FsError>| r == getattr_reply(xid, args, a)
    } else if p == 2 {
        exists|b: Result<FileAttributes, FsError>, st: SetattrSteps, af: Option<FileAttributes>|
            r == setattr_reply(xid, args, b, st, af)
    } else if p == 3 {
        exists|
            f: Result<Seq<u8>, FsError>,
            o: Option<FileAttributes>,
            d: Option<FileAttributes>,
        | r == lookup_reply(xid, args, f, o, d)
    } else if p == 4 {
        exists|a: Result<FileAttributes, FsError>| r == access_reply(xid, args, a)
    } else if p == 5 {
        exists|a: Option<FileAttributes>, t: Result<Seq<u8>, FsError>|
            r == readlink_reply(xid, args, a, t)
    } else if p == 6 {
        exists|d: Result<Seq<u8>, FsError>, a: Option<FileAttributes>|
            r == read_reply(xid, args, d, a)
    } else if p == 7 {
        exists|
            b: Option<FileAttributes>,
            w: Result<u32, FsError>,
            s: Result<(), FsError>,
            a: Option<FileAttributes>,
        | r == write_reply(xid, args, verf, b, w, s, a)
    } else if p == 8 {
        exists|
            e: Result<Seq<u8>, FsError>,
            m: Result<Seq<u8>, FsError>,
            o: Option<FileAttributes>,
            b: Option<FileAttributes>,
            a: Option<FileAttributes>,
        | r == create_reply(xid, args, e, m, o, b, a)
    } else if p == 9 {
        exists|
            m: Result<Seq<u8>, FsError>,
            o: Option<FileAttributes>,
            b: Option<FileAttributes>,
            a: Option<FileAttributes>,
        | r == mkdir_reply(xid, args, m, o, b, a)
    } else if p == 10 {
        exists|
            m: Result<Seq<u8>, FsError>,
            o: Option<FileAttributes>,
            b: Option<FileAttributes>,
            a: Option<FileAttributes>,
        | r == symlink_reply(xid, args, m, o, b, a)
    } else if p == 11 {
        exists|d: Option<FileAttributes>| r == mknod_reply(xid, args, d)
    } else if p == 12 || p == 13 {
        exists|d: Result<(), FsError>, b: Option<FileAttributes>, a: Option<FileAttributes>|
            r == unlink_reply(xid, args, d, b, a)
    } else if p == 14 {
        exists|
            d: Result<(), FsError>,
            fb: Option<FileAttributes>,
            fa: Option<FileAttributes>,
            tb: Option<FileAttributes>,
            ta: Option<FileAttributes>,
        | r == rename_reply(xid, args, d, fb, fa, tb, ta)
    } else if p == 15 {
        exists|
            d: Result<Seq<u8>, FsError>,
            f: Option<FileAttributes>,
            b: Option<FileAttributes>,
            a: Option<FileAttributes>,
        | r == link_reply(xid, args, d, f, b, a)
    } else if p == 16 {
        exists|d: Option<FileAttributes>, l: Result<(Seq<(u64, Seq<u8>)>, bool), FsError>|
            r == readdir_reply(xid, args, d, l)
    } else if p == 17 {
        exists|
            d: Option<FileAttributes>,
            l: Result<(Seq<(u64, Seq<u8>)>, bool), FsError>,
            lk: Seq<Result<Seq<u8>, FsError>>,
            at: Seq<Option<FileAttributes>>,
        | r == readdirplus_reply(xid, args, d, l, lk, at)
    } else if p == 18 {
        exists|a: Result<FileAttributes, FsError>| r == fsstat_reply(xid, args, a)
    } else if p == 19 {
        exists|a: Result<FileAttributes, FsError>| r == fsinfo_reply(xid, args, a)
    } else if p == 20 {
        exists|a: Result<FileAttributes, FsError>| r == pathconf_reply(xid, args, a)
    } else if p == 21 {
        exists|
            b: Option<FileAttributes>,
            d: Result<(), FsError>,
            a: Option<FileAttributes>,
        | r == commit_reply(xid, args, verf, b, d, a)
    } else {
        r == accepted_header(xid, PROC_UNAVAIL)
    }
}

/// Routes an NFS CALL to its procedure.
pub fn dispatch<F: Filesystem>(call: &CallHeader, args: &[u8], verf: u64, fs: &F) -> (r: Vec<u8>)
    ensures
        r@.subrange(0, 4) == xdr_u32(call.xid),
        nfs_reply(*call, args@, verf, r@),
{
    reveal(nfs_reply);
    let xid = call.xid;
    if call.vers != NFS_V3 {
        return prog_mismatch_reply(xid, NFS_V3, NFS_V3);
    }
    match call.procedure {
        0 => handle_null(xid),
        1 => handle_getattr(xid, args, fs),
        2 => handle_setattr(xid, args, fs),
        3 => handle_lookup(xid, args, fs),
        4 => handle_access(xid, args, fs),
        5 => handle_readlink(xid, args, fs),
        6 => handle_read(xid, args, fs),
        7 => handle_write(xid, args, verf, fs),
        8 => handle_create(xid, args, fs),
        9 => handle_mkdir(xid, args, fs),
        10 => handle_symlink(xid, args, fs),
        11 => handle_mknod(xid, args, fs),
        12 => handle_remove(xid, args, fs),
        13 => handle_rmdir(xid, args, fs),
        14 => handle_rename(xid, args, fs),
        15 => handle_link(xid, args, fs),
        16 => handle_readdir(xid, args, fs),
        17 => handle_readdirplus(xid, args, fs),
        18 => handle_fsstat(xid, args, fs),
        19 => handle_fsinfo(xid, args, fs),
        20 => handle_pathconf(xid, args, fs),
        21 => handle_commit(xid, args, verf, fs),
        _ => status_reply(xid, PROC_UNAVAIL),
    }
}

/// Whether `r` answers the parsed CALL `call` of a record whose argument
/// bytes are `args`, taking the registry from `before` to `after`, with the
/// export's root handle `root`.
#[verifier::opaque]
pub open spec fn call_reply(
    call: CallHeader,
    args: Seq<u8>,
    verf: u64,
    root: Seq<u8>,
    before: Map<(u32, u32, u32), u32>,
    r: Seq<u8>,
    after: Map<(u32, u32, u32), u32>,
) -> bool {
    let xid = call.xid;
    if call.rpcvers != RPC_VERSION {
        r == rpc_mismatch_bytes(xid) && after == before
    } else if call.prog == PORTMAP_PROGRAM {
        portmap_outcome(xid, call.vers, call.procedure, args, before, r, after)
    } else if call.prog == MOUNT_PROGRAM {
        after == before && if root.len() <= FHSIZE3 {
            exists|exported: bool| mount_outcome(xid, call.vers, call.procedure, args, root, exported, r)
        } else {
            r == accepted_header(xid, SYSTEM_ERR)
        }
    } else if call.prog == NFS_PROGRAM {
        after == before && nfs_reply(call, args, verf, r)
    } else {
        r == accepted_header(xid, PROG_UNAVAIL) && after == before
    }
}

/// Whether `reply` answers the CALL in `record` and carries its xid, the
/// registry going from `before` to `after`.
pub open spec fn answers(
    record: Seq<u8>,
    verf: u64,
    root: Seq<u8>,
    before: Map<(u32, u32, u32), u32>,
    reply: Seq<u8>,
    after: Map<(u32, u32, u32), u32>,
) -> bool {
    let call = spec_parse_call(record)->0;
    &&& call_reply(
        call,
        record.subrange(call.args_offset as int, record.len() as int),
        verf,
        root,
        before,
        reply,
        after,
    )
    &&& reply.subrange(0, 4) == xdr_u32(call.xid)
}

/// Answers a parsed CALL; also gives the root handle that MOUNT used.
fn route<F: Filesystem>(
    call: &CallHeader,
    args: &[u8],
    verf: u64,
    registry: &mut Registry,
    fs: &F,
) -> (r: (Vec<u8>, Ghost<Seq<u8>>))
    requires
        old(registry).wf(),
    ensures
        final(registry).wf(),
        call_reply(*call, args@, verf, r.1@, old(registry)@, r.0@, final(registry)@),
        r.0@.subrange(0, 4) == xdr_u32(call.xid),
{
    reveal(call_reply);
    let xid = call.xid;
    if call.rpcvers != RPC_VERSION {
        return (rpc_mismatch_reply(xid), Ghost(Seq::empty()));
    }
    if call.prog == PORTMAP_PROGRAM {
        return (handle_portmap_call(call, args, registry), Ghost(Seq::empty()));
    }
    if call.prog == MOUNT_PROGRAM {
        let root = fs.root_handle();
        let reply = if root.len() <= FHSIZE3 {
            let exported = match get_opaque(args, 0) {
                Ok((path, _)) => call.procedure != MOUNTPROC3_MNT || fs.is_exported(path.as_slice()),
                Err(_) => true,
            };
            handle_mount_call(call, args, root.as_slice(), exported)
        } else {
            status_reply(xid, SYSTEM_ERR)
        };
        return (reply, Ghost(root@));
    }
    if call.prog == NFS_PROGRAM {
        return (dispatch(call, args, verf, fs), Ghost(Seq::empty()));
    }
    (status_reply(xid, PROG_UNAVAIL), Ghost(Seq::empty()))
}

/// Whether `r` is how a record is answered, the registry going from
/// `before` to `after`. A record that parses as a CALL always gets its
/// reply: one final fragment whose mark carries the reply's length, then
/// exactly one REPLY that carries the CALL's xid. `None`, on which the
/// connection is to be closed, comes exactly when the record is no CALL, or
/// when the reply would not fit in one fragment.
pub open spec fn record_answer(
    record: Seq<u8>,
    verf: u64,
    before: Map<(u32, u32, u32), u32>,
    r: Option<Seq<u8>>,
    after: Map<(u32, u32, u32), u32>,
) -> bool {
    &&& spec_parse_call(record) is None ==> r is None && after == before
    &&& spec_parse_call(record) is Some ==> exists|reply: Seq<u8>, root: Seq<u8>|
        #[trigger] answers(record, verf, root, before, reply, after) && (reply.len()
            < LAST_FRAGMENT ==> r == Some(xdr_u32(last_mark(reply.len())) + reply)) && (
        reply.len() >= LAST_FRAGMENT ==> r is None)
}

/// Answers one complete record with the registry `registry`, which only the
/// Portmapper reads or changes, and the write verifier `verf`.
pub fn serve_record<F: Filesystem>(record: &[u8], registry: &mut Registry, verf: u64, fs: &F) -> (r: Option<Vec<u8>>)
    requires
        old(registry).wf(),
    ensures
        final(registry).wf(),
        record_answer(
            record@,
            verf,
            old(registry)@,
            match r {
                Some(v) => Some(v@),
                None => None,
            },
            final(registry)@,
        ),
{
    let call = match parse_call(record) {
        Ok(c) => c,
        Err(_) => return None,
    };
    let args = vstd::slice::slice_subrange(record, call.args_offset, record.len());
    let (reply, root) = route(&call, args, verf, registry, fs);
    assert(answers(record@, verf, root@, old(registry)@, reply@, registry@));
    if reply.len() >= LAST_FRAGMENT as usize {
        return None;
    }
    let framed = frame_reply(reply.as_slice());
    assert(framed@ == xdr_u32(last_mark(reply@.len())) + reply@);
    Some(framed)
}

/// The server's shared state: where it listens, the portmap registry, and
/// the write verifier chosen at startup.
pub struct RpcServer {
    addr: String,
    registry: Registry,
    verf: u64,
}

impl RpcServer {
    pub closed spec fn wf(&self) -> bool {
        self.registry.wf()
    }

    /// The portmap registrations.
    pub closed spec fn registrations(&self) -> Map<(u32, u32, u32), u32> {
        self.registry@
    }

    pub closed spec fn write_verifier(&self) -> u64 {
        self.verf
    }

    pub closed spec fn address(&self) -> Seq<char> {
        self.addr@
    }

    /// A server for `addr` with `registry`, and write verifier 0.
    pub fn new(addr: String, registry: Registry) -> (r: Self)
        requires
            registry.wf(),
        ensures
            r.wf(),
            r.address() == addr@,
            r.registrations() == registry@,
            r.write_verifier() == 0,
    {
        RpcServer { addr, registry, verf: 0 }
    }

    /// Sets the write verifier that WRITE and COMMIT report.
    pub fn set_write_verifier(&mut self, verf: u64)
        requires
            old(self).wf(),
        ensures
            final(self).wf(),
            final(self).write_verifier() == verf,
            final(self).registrations() == old(self).registrations(),
            final(self).address() == old(self).address(),
    {
        self.verf = verf;
    }

    pub fn addr(&self) -> (r: &String)
        ensures
            r@ == self.address(),
    {
        &self.addr
    }

    pub fn registry(&self) -> (r: &Registry)
        requires
            self.wf(),
        ensures
            r.wf(),
            r@ == self.registrations(),
    {
        &self.registry
    }

    /// Answers one complete record; see `serve_record`.
    pub fn handle_record<F: Filesystem>(&mut self, record: &[u8], fs: &F) -> (r: Option<Vec<u8>>)
        requires
            old(self).wf(),
        ensures
            final(self).wf(),
            final(self).write_verifier() == old(self).write_verifier(),
            final(self).address() == old(self).address(),
            record_answer(
                record@,
                old(self).write_verifier(),
                old(self).registrations(),
                match r {
                    Some(v) => Some(v@),
                    None => None,
                },
                final(self).registrations(),
            ),
    {
        serve_record(record, &mut self.registry, self.verf, fs)
    }
}

} // verus!
