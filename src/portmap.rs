//! The Portmapper program (100000, version 2; RFC 1833).
use vstd::prelude::*;
use crate::registry::{Mapping, Registry, key_of};
use crate::rpc::{
    CallHeader, accepted_header, prog_mismatch_reply, status_reply, success_reply, GARBAGE_ARGS,
    PROC_UNAVAIL, PROG_MISMATCH, SUCCESS,
};
use crate::xdr::{get_u32, parse_u32, put_bool, put_u32, xdr_bool, xdr_u32, DecodeError};

verus! {

pub const PORTMAP_PROGRAM: u32 = 100000;

pub const PORTMAP_V2: u32 = 2;

pub const PMAPPROC_NULL: u32 = 0;
pub const PMAPPROC_SET: u32 = 1;
pub const PMAPPROC_UNSET: u32 = 2;
pub const PMAPPROC_GETPORT: u32 = 3;
pub const PMAPPROC_DUMP: u32 = 4;
pub const PMAPPROC_CALLIT: u32 = 5;

pub const IPPROTO_TCP: u32 = 6;
pub const IPPROTO_UDP: u32 = 17;

/// A mapping as four 32-bit words at the start of `b`.
pub open spec fn parse_mapping(b: Seq<u8>) -> Option<Mapping> {
    match (parse_u32(b, 0), parse_u32(b, 4), parse_u32(b, 8), parse_u32(b, 12)) {
        (Some((prog, _)), Some((vers, _)), Some((prot, _)), Some((port, _))) => Some(
            Mapping { prog, vers, prot, port },
        ),
        _ => None,
    }
}

pub open spec fn enc_mapping(m: Mapping) -> Seq<u8> {
    xdr_u32(m.prog) + xdr_u32(m.vers) + xdr_u32(m.prot) + xdr_u32(m.port)
}

/// The DUMP list: each mapping preceded by TRUE, then FALSE.
pub open spec fn enc_mapping_list(s: Seq<Mapping>) -> Seq<u8>
    decreases s.len(),
{
    if s.len() == 0 {
        xdr_bool(false)
    } else {
        xdr_bool(true) + enc_mapping(s[0]) + enc_mapping_list(s.subrange(1, s.len() as int))
    }
}

/// `s` lists the registry `reg`, each entry once.
pub open spec fn lists_registry(s: Seq<Mapping>, reg: Map<(u32, u32, u32), u32>) -> bool {
    &&& s.len() == reg.len()
    &&& forall|i: int|
        0 <= i < s.len() ==> reg.contains_key(key_of(#[trigger] s[i])) && reg[key_of(s[i])]
            == s[i].port
    &&& forall|i: int, j: int|
        0 <= i < s.len() && 0 <= j < s.len() && i != j ==> key_of(#[trigger] s[i]) != key_of(
            #[trigger] s[j],
        )
    &&& forall|k: (u32, u32, u32)|
        #[trigger] reg.contains_key(k) ==> exists|i: int| 0 <= i < s.len() && key_of(#[trigger] s[i]) == k
}

/// Helpers for the Portmapper's arguments and results.
pub struct PortmapMessage;

impl PortmapMessage {
    /// Reads a mapping argument.
    pub fn deserialize_mapping(data: &[u8]) -> (r: Result<Mapping, DecodeError>)
        ensures
            match r {
                Ok(m) => parse_mapping(data@) == Some(m),
                Err(_) => parse_mapping(data@) is None,
            },
    {
        let (prog, _) = match get_u32(data, 0) {
            Ok(x) => x,
            Err(e) => return Err(e),
        };
        let (vers, _) = match get_u32(data, 4) {
            Ok(x) => x,
            Err(e) => return Err(e),
        };
        let (prot, _) = match get_u32(data, 8) {
            Ok(x) => x,
            Err(e) => return Err(e),
        };
        let (port, _) = match get_u32(data, 12) {
            Ok(x) => x,
            Err(e) => return Err(e),
        };
        Ok(Mapping { prog, vers, prot, port })
    }

    /// The boolean result of SET and UNSET.
    pub fn serialize_bool(result: bool) -> (r: Vec<u8>)
        ensures
            r@ == xdr_bool(result),
    {
        let mut r: Vec<u8> = Vec::new();
        put_bool(&mut r, result);
        assert(r@ =~= xdr_bool(result));
        r
    }

    /// The port result of GETPORT.
    pub fn serialize_port(port: u32) -> (r: Vec<u8>)
        ensures
            r@ == xdr_u32(port),
    {
        let mut r: Vec<u8> = Vec::new();
        put_u32(&mut r, port);
        assert(r@ =~= xdr_u32(port));
        r
    }

    pub fn create_mapping(prog: u32, vers: u32, prot: u32, port: u32) -> (r: Mapping)
        ensures
            r == (Mapping { prog, vers, prot, port }),
    {
        Mapping { prog, vers, prot, port }
    }

    /// The DUMP result for a list of mappings.
    pub fn serialize_mapping_list(s: &Vec<Mapping>) -> (r: Vec<u8>)
        ensures
            r@ == enc_mapping_list(s@),
    {
        let mut i: usize = s.len();
        let mut tail: Vec<u8> = Vec::new();
        put_bool(&mut tail, false);
        assert(s@.subrange(s@.len() as int, s@.len() as int) =~= Seq::<Mapping>::empty());
        // Built from the back: `tail` encodes the mappings from `i` on.
        while i > 0
            invariant
                i <= s@.len(),
                tail@ == enc_mapping_list(s@.subrange(i as int, s@.len() as int)),
            decreases i,
        {
            i = i - 1;
            let m = s[i];
            let mut item: Vec<u8> = Vec::new();
            put_bool(&mut item, true);
            put_u32(&mut item, m.prog);
            put_u32(&mut item, m.vers);
            put_u32(&mut item, m.prot);
            put_u32(&mut item, m.port);
            let ghost rest = s@.subrange(i + 1, s@.len() as int);
            assert(s@.subrange(i as int, s@.len() as int).subrange(1, s@.len() - i) =~= rest);
            crate::xdr::put_bytes(&mut item, tail.as_slice());
            assert(item@ =~= xdr_bool(true) + enc_mapping(m) + enc_mapping_list(rest));
            tail = item;
        }
        assert(s@.subrange(0, s@.len() as int) =~= s@);
        tail
    }
}

/// Registers the Portmapper, MOUNT and NFS programs over TCP at `port`, as
/// the server does when it starts.
pub fn register_services(registry: &mut Registry, port: u32)
    requires
        old(registry).wf(),
    ensures
        final(registry).wf(),
        final(registry)@ == old(registry)@.insert((PORTMAP_PROGRAM, PORTMAP_V2, IPPROTO_TCP), port).insert(
            (crate::mount::MOUNT_PROGRAM, crate::mount::MOUNT_V3, IPPROTO_TCP),
            port,
        ).insert((crate::nfs::NFS_PROGRAM, crate::nfs::NFS_V3, IPPROTO_TCP), port),
{
    registry.set(&Mapping { prog: PORTMAP_PROGRAM, vers: PORTMAP_V2, prot: IPPROTO_TCP, port });
    registry.set(
        &Mapping { prog: crate::mount::MOUNT_PROGRAM, vers: crate::mount::MOUNT_V3, prot: IPPROTO_TCP, port },
    );
    registry.set(
        &Mapping { prog: crate::nfs::NFS_PROGRAM, vers: crate::nfs::NFS_V3, prot: IPPROTO_TCP, port },
    );
}

/// Whether `r` and `after` are what the Portmapper answers, and how its
/// registry changes, for a CALL of version `vers` and procedure `proc_`
/// with argument bytes `args`, given the registry `before`.
pub open spec fn portmap_outcome(
    xid: u32,
    vers: u32,
    procedure: u32,
    args: Seq<u8>,
    before: Map<(u32, u32, u32), u32>,
    r: Seq<u8>,
    after: Map<(u32, u32, u32), u32>,
) -> bool {
    if vers != PORTMAP_V2 {
        r == accepted_header(xid, PROG_MISMATCH) + xdr_u32(PORTMAP_V2) + xdr_u32(PORTMAP_V2)
            && after == before
    } else if procedure == PMAPPROC_NULL {
        r == accepted_header(xid, SUCCESS) && after == before
    } else if procedure == PMAPPROC_SET || procedure == PMAPPROC_UNSET || procedure
        == PMAPPROC_GETPORT {
        match parse_mapping(args) {
            None => r == accepted_header(xid, GARBAGE_ARGS) && after == before,
            Some(m) => if procedure == PMAPPROC_SET {
                r == accepted_header(xid, SUCCESS) + xdr_bool(true) && after == before.insert(
                    key_of(m),
                    m.port,
                )
            } else if procedure == PMAPPROC_UNSET {
                r == accepted_header(xid, SUCCESS) + xdr_bool(before.contains_key(key_of(m)))
                    && after == before.remove(key_of(m))
            } else {
                r == accepted_header(xid, SUCCESS) + xdr_u32(
                    if before.contains_key(key_of(m)) {
                        before[key_of(m)]
                    } else {
                        0
                    },
                ) && after == before
            },
        }
    } else if procedure == PMAPPROC_DUMP {
        after == before && exists|s: Seq<Mapping>|
            lists_registry(s, before) && r == accepted_header(xid, SUCCESS) + enc_mapping_list(s)
    } else {
        r == accepted_header(xid, PROC_UNAVAIL) && after == before
    }
}

/// Answers a Portmapper CALL; `args` are the bytes after the envelope.
pub fn handle_portmap_call(call: &CallHeader, args: &[u8], registry: &mut Registry) -> (r: Vec<u8>)
    requires
        old(registry).wf(),
    ensures
        r@.subrange(0, 4) == xdr_u32(call.xid),
        final(registry).wf(),
        portmap_outcome(call.xid, call.vers, call.procedure, args@, old(registry)@, r@, final(registry)@),
{
    let xid = call.xid;
    if call.vers != PORTMAP_V2 {
        return prog_mismatch_reply(xid, PORTMAP_V2, PORTMAP_V2);
    }
    let p = call.procedure;
    if p == PMAPPROC_NULL {
        return status_reply(xid, SUCCESS);
    }
    if p == PMAPPROC_SET || p == PMAPPROC_UNSET || p == PMAPPROC_GETPORT {
        let m = match PortmapMessage::deserialize_mapping(args) {
            Ok(m) => m,
            Err(_) => return status_reply(xid, GARBAGE_ARGS),
        };
        let body = if p == PMAPPROC_SET {
            let ok = registry.set(&m);
            PortmapMessage::serialize_bool(ok)
        } else if p == PMAPPROC_UNSET {
            let existed = registry.unset(&m);
            PortmapMessage::serialize_bool(existed)
        } else {
            let port = registry.getport(&m);
            PortmapMessage::serialize_port(port)
        };
        return success_reply(xid, &body);
    }
    if p == PMAPPROC_DUMP {
        let all = registry.dump();
        let body = PortmapMessage::serialize_mapping_list(&all);
        let r = success_reply(xid, &body);
        assert(lists_registry(all@, registry@));
        return r;
    }
    status_reply(xid, PROC_UNAVAIL)
}

} // verus!
