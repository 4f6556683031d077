//! ONC-RPC v2 message envelope: CALL parsing and REPLY construction.
use vstd::prelude::*;
use crate::xdr::{
    DecodeError, get_u32, parse_opaque, parse_u32, put_bytes, put_u32, skip_opaque, u32_of, xdr_u32,
};

verus! {

pub const RPC_VERSION: u32 = 2;
pub const MSG_CALL: u32 = 0;
pub const MSG_REPLY: u32 = 1;
pub const MSG_ACCEPTED: u32 = 0;
pub const MSG_DENIED: u32 = 1;
pub const RPC_MISMATCH: u32 = 0;

pub const SUCCESS: u32 = 0;
pub const PROG_UNAVAIL: u32 = 1;
pub const PROG_MISMATCH: u32 = 2;
pub const PROC_UNAVAIL: u32 = 3;
pub const GARBAGE_ARGS: u32 = 4;
pub const SYSTEM_ERR: u32 = 5;

/// The fixed part of a CALL, and where the procedure's arguments begin.
#[derive(Debug, Clone, Copy, PartialEq, Eq, Structural)]
pub struct CallHeader {
    pub xid: u32,
    pub rpcvers: u32,
    pub prog: u32,
    pub vers: u32,
    pub procedure: u32,
    /// Offset of the first byte after the credential and the verifier.
    pub args_offset: usize,
}

/// The 32-bit word at byte `i`.
pub open spec fn word(b: Seq<u8>, i: int) -> u32 {
    u32_of(b.subrange(i, i + 4))
}

/// What a CALL message holds: xid, message type 0, RPC version, program,
/// version, procedure, then a credential and a verifier, each a flavor
/// followed by an opaque body whose length is read from the message.
pub open spec fn spec_parse_call(b: Seq<u8>) -> Option<CallHeader> {
    if b.len() < 28 || word(b, 4) != MSG_CALL {
        None
    } else {
        match parse_opaque(b, 28) {
            None => None,
            Some((_, pos1)) => match parse_u32(b, pos1) {
                None => None,
                Some((_, pos2)) => match parse_opaque(b, pos2) {
                    None => None,
                    Some((_, pos3)) => Some(
                        CallHeader {
                            xid: word(b, 0),
                            rpcvers: word(b, 8),
                            prog: word(b, 12),
                            vers: word(b, 16),
                            procedure: word(b, 20),
                            args_offset: pos3 as usize,
                        },
                    ),
                },
            },
        }
    }
}

/// Parses the envelope of a CALL. The credential and the verifier are
/// stepped over by their own length fields, whatever their flavor.
pub fn parse_call(b: &[u8]) -> (r: Result<CallHeader, DecodeError>)
    ensures
        match r {
            Ok(h) => spec_parse_call(b@) == Some(h) && h.args_offset <= b@.len(),
            Err(_) => spec_parse_call(b@) is None,
        },
{
    if b.len() < 28 {
        return Err(DecodeError::ShortBuffer);
    }
    let (xid, _) = match get_u32(b, 0) {
        Ok(x) => x,
        Err(e) => return Err(e),
    };
    let (mtype, _) = match get_u32(b, 4) {
        Ok(x) => x,
        Err(e) => return Err(e),
    };
    if mtype != MSG_CALL {
        return Err(DecodeError::BadEnum);
    }
    let (rpcvers, _) = match get_u32(b, 8) {
        Ok(x) => x,
        Err(e) => return Err(e),
    };
    let (prog, _) = match get_u32(b, 12) {
        Ok(x) => x,
        Err(e) => return Err(e),
    };
    let (vers, _) = match get_u32(b, 16) {
        Ok(x) => x,
        Err(e) => return Err(e),
    };
    let (procedure, _) = match get_u32(b, 20) {
        Ok(x) => x,
        Err(e) => return Err(e),
    };
    let pos1 = match skip_opaque(b, 28) {
        Ok(p) => p,
        Err(e) => return Err(e),
    };
    let (_, pos2) = match get_u32(b, pos1) {
        Ok(x) => x,
        Err(e) => return Err(e),
    };
    let pos3 = match skip_opaque(b, pos2) {
        Ok(p) => p,
        Err(e) => return Err(e),
    };
    Ok(CallHeader { xid, rpcvers, prog, vers, procedure, args_offset: pos3 })
}

/// The start of an accepted reply: xid, REPLY, MSG_ACCEPTED, a null verifier
/// (flavor 0, length 0) and the accept status.
pub open spec fn accepted_header(xid: u32, stat: u32) -> Seq<u8> {
    xdr_u32(xid) + xdr_u32(MSG_REPLY) + xdr_u32(MSG_ACCEPTED) + xdr_u32(0) + xdr_u32(0) + xdr_u32(
        stat,
    )
}

/// An accepted reply with status `stat` followed by `body` as it is.
pub fn accepted_reply(xid: u32, stat: u32, body: &[u8]) -> (r: Vec<u8>)
    ensures
        r@.len() >= 24,
        r@.subrange(0, 4) == xdr_u32(xid),
        r@ == accepted_header(xid, stat) + body@,
{
    let mut r: Vec<u8> = Vec::new();
    put_u32(&mut r, xid);
    put_u32(&mut r, MSG_REPLY);
    put_u32(&mut r, MSG_ACCEPTED);
    put_u32(&mut r, 0);
    put_u32(&mut r, 0);
    put_u32(&mut r, stat);
    put_bytes(&mut r, body);
    assert(r@ =~= accepted_header(xid, stat) + body@);
    assert(r@.subrange(0, 4) =~= xdr_u32(xid));
    r
}

/// A SUCCESS reply carrying a procedure's result bytes.
pub fn success_reply(xid: u32, body: &[u8]) -> (r: Vec<u8>)
    ensures
        r@.len() >= 24,
        r@.subrange(0, 4) == xdr_u32(xid),
        r@ == accepted_header(xid, SUCCESS) + body@,
{
    accepted_reply(xid, SUCCESS, body)
}

/// A PROG_MISMATCH reply naming the supported version range.
pub fn prog_mismatch_reply(xid: u32, low: u32, high: u32) -> (r: Vec<u8>)
    ensures
        r@.len() >= 24,
        r@.subrange(0, 4) == xdr_u32(xid),
        r@ == accepted_header(xid, PROG_MISMATCH) + xdr_u32(low) + xdr_u32(high),
{
    let mut body: Vec<u8> = Vec::new();
    put_u32(&mut body, low);
    put_u32(&mut body, high);
    let r = accepted_reply(xid, PROG_MISMATCH, &body);
    assert(r@ =~= accepted_header(xid, PROG_MISMATCH) + xdr_u32(low) + xdr_u32(high));
    r
}

/// A reply with an accept status that carries no result.
pub fn status_reply(xid: u32, stat: u32) -> (r: Vec<u8>)
    ensures
        r@.len() >= 24,
        r@.subrange(0, 4) == xdr_u32(xid),
        r@ == accepted_header(xid, stat),
{
    let empty: Vec<u8> = Vec::new();
    let r = accepted_reply(xid, stat, &empty);
    assert(r@ =~= accepted_header(xid, stat));
    r
}

/// The denial sent for a CALL of an RPC version other than 2.
pub open spec fn rpc_mismatch_bytes(xid: u32) -> Seq<u8> {
    xdr_u32(xid) + xdr_u32(MSG_REPLY) + xdr_u32(MSG_DENIED) + xdr_u32(RPC_MISMATCH) + xdr_u32(
        RPC_VERSION,
    ) + xdr_u32(RPC_VERSION)
}

/// MSG_DENIED / RPC_MISMATCH, naming version 2 as the only one supported.
pub fn rpc_mismatch_reply(xid: u32) -> (r: Vec<u8>)
    ensures
        r@.len() >= 24,
        r@.subrange(0, 4) == xdr_u32(xid),
        r@ == rpc_mismatch_bytes(xid),
{
    let mut r: Vec<u8> = Vec::new();
    put_u32(&mut r, xid);
    put_u32(&mut r, MSG_REPLY);
    put_u32(&mut r, MSG_DENIED);
    put_u32(&mut r, RPC_MISMATCH);
    put_u32(&mut r, RPC_VERSION);
    put_u32(&mut r, RPC_VERSION);
    assert(r@ =~= rpc_mismatch_bytes(xid));
    assert(r@.subrange(0, 4) =~= xdr_u32(xid));
    r
}

} // verus!
