//! ONC-RPC record marking over TCP (RFC 5531, section 11).
//!
//! Every fragment is preceded by a four-byte mark: the high bit says whether
//! the fragment is the last of its record, the low 31 bits give its length.
use vstd::prelude::*;
use bytes::BytesMut;
use crate::xdr::{xdr_u32, put_u32};

verus! {

#[verifier::external_type_specification]
#[verifier::external_body]
pub struct ExBytesMut(BytesMut);

/// The bytes a buffer holds.
pub uninterp spec fn buffered(b: BytesMut) -> Seq<u8>;

/// Relies on `BytesMut::new`: a new buffer holds no bytes.
#[verifier::external_body]
fn buffer_new() -> (r: BytesMut)
    ensures
        buffered(r) == Seq::<u8>::empty(),
{
    BytesMut::new()
}

/// Relies on `BytesMut::len`: the number of bytes held.
#[verifier::external_body]
fn buffer_len(b: &BytesMut) -> (r: usize)
    ensures
        r == buffered(*b).len(),
{
    b.len()
}

/// Relies on `BytesMut::extend_from_slice`: the bytes are appended after
/// those held. It reserves room first, which fails only past `usize::MAX`.
#[verifier::external_body]
fn buffer_append(b: &mut BytesMut, s: &[u8])
    requires
        buffered(*old(b)).len() + s@.len() <= u32::MAX,
    ensures
        buffered(*final(b)) == buffered(*old(b)) + s@,
{
    b.extend_from_slice(s)
}

/// Relies on `BytesMut::split`: it hands over every byte held and leaves the
/// buffer empty.
#[verifier::external_body]
fn buffer_take(b: &mut BytesMut) -> (r: Vec<u8>)
    ensures
        r@ == buffered(*old(b)),
        buffered(*final(b)) == Seq::<u8>::empty(),
{
    b.split().to_vec()
}

/// The high bit of a record mark: "last fragment".
pub const LAST_FRAGMENT: u32 = 0x8000_0000;

/// Default upper bound on the size of one record: 16 MiB.
pub const DEFAULT_RECORD_CAP: u32 = 0x100_0000;

/// A decoded record mark.
#[derive(Debug, Clone, Copy, PartialEq, Eq, Structural)]
pub struct FragmentHeader {
    pub last: bool,
    pub len: u32,
}

/// Why a connection's framing was abandoned.
#[derive(Debug, Clone, Copy, PartialEq, Eq, Structural)]
pub enum FramingError {
    /// The record being assembled would grow past the configured cap.
    RecordTooLarge,
}

pub open spec fn header_last(mark: u32) -> bool {
    mark >= LAST_FRAGMENT
}

pub open spec fn header_len(mark: u32) -> u32 {
    (mark % LAST_FRAGMENT) as u32
}

/// The record mark of a final fragment of `n` bytes.
pub open spec fn last_mark(n: nat) -> u32 {
    (LAST_FRAGMENT + n) as u32
}

/// Splits a record mark into its "last" bit and its length.
pub fn parse_fragment_header(mark: u32) -> (h: FragmentHeader)
    ensures
        h.last == header_last(mark),
        h.len == header_len(mark),
{
    FragmentHeader { last: mark >= LAST_FRAGMENT, len: mark % LAST_FRAGMENT }
}

/// A reply as it goes on the wire: one final fragment whose mark carries the
/// payload's length, followed by the payload, in one buffer.
pub fn frame_reply(payload: &[u8]) -> (r: Vec<u8>)
    requires
        payload@.len() < LAST_FRAGMENT,
    ensures
        r@ == xdr_u32(last_mark(payload@.len())) + payload@,
{
    let mut r: Vec<u8> = Vec::new();
    put_u32(&mut r, LAST_FRAGMENT + payload.len() as u32);
    let ghost start = r@;
    let mut i: usize = 0;
    while i < payload.len()
        invariant
            i <= payload@.len(),
            start == xdr_u32(last_mark(payload@.len())),
            r@ == start + payload@.subrange(0, i as int),
        decreases payload@.len() - i,
    {
        r.push(payload[i]);
        i = i + 1;
        assert(r@ =~= start + payload@.subrange(0, i as int));
    }
    assert(payload@.subrange(0, payload@.len() as int) =~= payload@);
    r
}

/// Reassembles the fragments of one connection into records.
pub struct RecordAssembler {
    cap: u32,
    pending: BytesMut,
}

impl View for RecordAssembler {
    type V = Seq<u8>;

    /// The bytes of the record assembled so far.
    closed spec fn view(&self) -> Seq<u8> {
        buffered(self.pending)
    }
}

impl RecordAssembler {
    /// The largest record this assembler accepts.
    pub closed spec fn limit(&self) -> u32 {
        self.cap
    }

    pub open spec fn wf(&self) -> bool {
        self@.len() <= self.limit()
    }

    pub fn new(cap: u32) -> (r: Self)
        ensures
            r.wf(),
            r@ == Seq::<u8>::empty(),
            r.limit() == cap,
    {
        RecordAssembler { cap, pending: buffer_new() }
    }

    /// Checks a record mark before its fragment is read: the fragment is
    /// accepted only if the record stays within the cap.
    pub fn accept_header(&self, mark: u32) -> (r: Result<FragmentHeader, FramingError>)
        requires
            self.wf(),
        ensures
            match r {
                Ok(h) => h.last == header_last(mark) && h.len == header_len(mark)
                    && self@.len() + h.len <= self.limit(),
                Err(e) => e == FramingError::RecordTooLarge && self@.len() + header_len(mark)
                    > self.limit(),
            },
    {
        let h = parse_fragment_header(mark);
        if h.len > self.cap || buffer_len(&self.pending) > (self.cap - h.len) as usize {
            Err(FramingError::RecordTooLarge)
        } else {
            Ok(h)
        }
    }

    /// Appends a fragment's body. When it was the last fragment, the whole
    /// record is handed back and the assembler starts afresh.
    pub fn push_fragment(&mut self, last: bool, body: &[u8]) -> (r: Option<Vec<u8>>)
        requires
            old(self).wf(),
            old(self)@.len() + body@.len() <= old(self).limit(),
        ensures
            final(self).wf(),
            final(self).limit() == old(self).limit(),
            last ==> r is Some && r->0@ == old(self)@ + body@ && final(self)@ == Seq::<u8>::empty(),
            !last ==> r is None && final(self)@ == old(self)@ + body@,
    {
        buffer_append(&mut self.pending, body);
        if last {
            Some(buffer_take(&mut self.pending))
        } else {
            None
        }
    }
}

} // verus!
