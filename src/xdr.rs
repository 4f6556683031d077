//! XDR (RFC 4506) primitives: big-endian integers, booleans and opaque data
//! padded to a multiple of four bytes.
use vstd::prelude::*;

verus! {

/// The four big-endian bytes of `v`.
pub open spec fn xdr_u32(v: u32) -> Seq<u8> {
    seq![
        (v / 0x1000000) as u8,
        ((v / 0x10000) % 0x100) as u8,
        ((v / 0x100) % 0x100) as u8,
        (v % 0x100) as u8,
    ]
}

/// The value of four big-endian bytes.
pub open spec fn u32_of(b: Seq<u8>) -> u32
    recommends
        b.len() >= 4,
{
    (b[0] as int * 0x1000000 + b[1] as int * 0x10000 + b[2] as int * 0x100 + b[3] as int) as u32
}

/// The eight big-endian bytes of `v`.
pub open spec fn xdr_u64(v: u64) -> Seq<u8> {
    xdr_u32((v / 0x1_0000_0000) as u32) + xdr_u32((v % 0x1_0000_0000) as u32)
}

/// The value of eight big-endian bytes.
pub open spec fn u64_of(b: Seq<u8>) -> u64
    recommends
        b.len() >= 8,
{
    (u32_of(b) as int * 0x1_0000_0000 + u32_of(b.subrange(4, 8)) as int) as u64
}

/// A boolean is the 32-bit integer 0 or 1.
pub open spec fn xdr_bool(b: bool) -> Seq<u8> {
    xdr_u32(if b { 1 } else { 0 })
}

/// A signed integer is sent as its two's-complement 32-bit pattern.
pub open spec fn xdr_i32(v: i32) -> Seq<u8> {
    xdr_u32(v as u32)
}

/// Number of zero bytes that bring `n` bytes up to a multiple of four.
pub open spec fn pad_len(n: nat) -> nat {
    ((4 - (n % 4) as int) % 4) as nat
}

pub open spec fn zeros(n: nat) -> Seq<u8> {
    Seq::new(n, |i: int| 0u8)
}

/// Fixed-length opaque data: the bytes, then zero padding.
pub open spec fn xdr_fixed_opaque(d: Seq<u8>) -> Seq<u8> {
    d + zeros(pad_len(d.len()))
}

/// Variable-length opaque data or string: length, bytes, zero padding.
pub open spec fn xdr_opaque(d: Seq<u8>) -> Seq<u8> {
    xdr_u32(d.len() as u32) + xdr_fixed_opaque(d)
}

pub proof fn lemma_u32_round_trip(v: u32)
    ensures
        u32_of(xdr_u32(v)) == v,
        xdr_u32(v).len() == 4,
{
    let b = xdr_u32(v);
    assert(b[0] as int == v / 0x1000000);
    assert(b[1] as int == (v / 0x10000) % 0x100);
    assert(b[2] as int == (v / 0x100) % 0x100);
    assert(b[3] as int == v % 0x100);
    assert((v / 0x1000000) * 0x1000000 + ((v / 0x10000) % 0x100) * 0x10000 + ((v / 0x100) % 0x100)
        * 0x100 + v % 0x100 == v) by (nonlinear_arith);
}

/// Appends the encoding of `v`.
pub fn put_u32(buf: &mut Vec<u8>, v: u32)
    ensures
        final(buf)@ == old(buf)@ + xdr_u32(v),
{
    buf.push((v / 0x1000000) as u8);
    buf.push(((v / 0x10000) % 0x100) as u8);
    buf.push(((v / 0x100) % 0x100) as u8);
    buf.push((v % 0x100) as u8);
    assert(buf@ =~= old(buf)@ + xdr_u32(v));
}


pub proof fn lemma_u64_round_trip(v: u64)
    ensures
        u64_of(xdr_u64(v)) == v,
        xdr_u64(v).len() == 8,
{
    let hi = (v / 0x1_0000_0000) as u32;
    let lo = (v % 0x1_0000_0000) as u32;
    lemma_u32_round_trip(hi);
    lemma_u32_round_trip(lo);
    let b = xdr_u64(v);
    assert(b.subrange(0, 4) =~= xdr_u32(hi));
    assert(b.subrange(4, 8) =~= xdr_u32(lo));
    assert(u32_of(b) == u32_of(b.subrange(0, 4)));
    assert(hi as int * 0x1_0000_0000 + lo as int == v) by (nonlinear_arith)
        requires
            hi == v / 0x1_0000_0000,
            lo == v % 0x1_0000_0000,
    ;
}

/// Appends the encoding of `v`.
pub fn put_u64(buf: &mut Vec<u8>, v: u64)
    ensures
        final(buf)@ == old(buf)@ + xdr_u64(v),
{
    put_u32(buf, (v / 0x1_0000_0000) as u32);
    put_u32(buf, (v % 0x1_0000_0000) as u32);
    assert(buf@ =~= old(buf)@ + xdr_u64(v));
}

/// Appends the encoding of `v`.
pub fn put_i32(buf: &mut Vec<u8>, v: i32)
    ensures
        final(buf)@ == old(buf)@ + xdr_i32(v),
{
    put_u32(buf, v as u32);
}

/// Appends the encoding of `b`.
pub fn put_bool(buf: &mut Vec<u8>, b: bool)
    ensures
        final(buf)@ == old(buf)@ + xdr_bool(b),
{
    put_u32(buf, if b { 1 } else { 0 });
}

/// Appends bytes that are already encoded.
pub fn put_bytes(buf: &mut Vec<u8>, d: &[u8])
    ensures
        final(buf)@ == old(buf)@ + d@,
{
    let mut i: usize = 0;
    while i < d.len()
        invariant
            i <= d@.len(),
            buf@ == old(buf)@ + d@.subrange(0, i as int),
        decreases d@.len() - i,
    {
        buf.push(d[i]);
        i = i + 1;
        assert(buf@ =~= old(buf)@ + d@.subrange(0, i as int));
    }
    assert(d@.subrange(0, d@.len() as int) =~= d@);
}

/// Appends `d` followed by its zero padding.
pub fn put_fixed_opaque(buf: &mut Vec<u8>, d: &[u8])
    ensures
        final(buf)@ == old(buf)@ + xdr_fixed_opaque(d@),
{
    put_bytes(buf, d);
    let pad: usize = (4 - d.len() % 4) % 4;
    let mut j: usize = 0;
    while j < pad
        invariant
            j <= pad,
            pad == pad_len(d@.len() as nat),
            buf@ == old(buf)@ + d@ + zeros(j as nat),
        decreases pad - j,
    {
        buf.push(0u8);
        j = j + 1;
        assert(buf@ =~= old(buf)@ + d@ + zeros(j as nat));
    }
    assert(buf@ =~= old(buf)@ + xdr_fixed_opaque(d@));
}

/// Appends a variable-length opaque value (or string): its length, its bytes
/// and the zero padding.
pub fn put_opaque(buf: &mut Vec<u8>, d: &[u8])
    requires
        d@.len() <= u32::MAX,
    ensures
        final(buf)@ == old(buf)@ + xdr_opaque(d@),
{
    put_u32(buf, d.len() as u32);
    put_fixed_opaque(buf, d);
    assert(buf@ =~= old(buf)@ + xdr_opaque(d@));
}

/// Why a byte string could not be decoded.
#[derive(Debug, Clone, Copy, PartialEq, Eq, Structural)]
pub enum DecodeError {
    /// The input ends in the middle of a value.
    ShortBuffer,
    /// A length prefix asks for more bytes than the enclosing record holds.
    LengthExceedsBudget,
    /// An enumeration or union discriminant outside its declared set.
    BadEnum,
}

/// A 32-bit value read at `pos`, and the position after it.
pub open spec fn parse_u32(b: Seq<u8>, pos: int) -> Option<(u32, int)> {
    if 0 <= pos && pos + 4 <= b.len() {
        Some((u32_of(b.subrange(pos, pos + 4)), pos + 4))
    } else {
        None
    }
}

/// A 64-bit value read at `pos`, and the position after it.
pub open spec fn parse_u64(b: Seq<u8>, pos: int) -> Option<(u64, int)> {
    if 0 <= pos && pos + 8 <= b.len() {
        Some((u64_of(b.subrange(pos, pos + 8)), pos + 8))
    } else {
        None
    }
}

/// A boolean read at `pos`; any value but 0 and 1 is refused.
pub open spec fn parse_bool(b: Seq<u8>, pos: int) -> Option<(bool, int)> {
    match parse_u32(b, pos) {
        Some((v, p)) => if v == 0 {
            Some((false, p))
        } else if v == 1 {
            Some((true, p))
        } else {
            None
        },
        None => None,
    }
}

/// The end of an opaque value of length `n` whose bytes start at `start`.
pub open spec fn opaque_end(start: int, n: nat) -> int {
    start + n + pad_len(n)
}

/// A variable-length opaque value read at `pos` and the position after its
/// padding; `None` where the length or the bytes run past the end.
pub open spec fn parse_opaque(b: Seq<u8>, pos: int) -> Option<(Seq<u8>, int)> {
    match parse_u32(b, pos) {
        Some((n, p)) => if opaque_end(p, n as nat) <= b.len() {
            Some((b.subrange(p, p + n), opaque_end(p, n as nat)))
        } else {
            None
        },
        None => None,
    }
}

/// Reads a 32-bit value at `pos`.
pub fn get_u32(b: &[u8], pos: usize) -> (r: Result<(u32, usize), DecodeError>)
    ensures
        match r {
            Ok((v, p)) => parse_u32(b@, pos as int) == Some((v, p as int)),
            Err(e) => parse_u32(b@, pos as int) is None && e == DecodeError::ShortBuffer,
        },
{
    if pos > b.len() || b.len() - pos < 4 {
        return Err(DecodeError::ShortBuffer);
    }
    let v: u32 = (b[pos] as u32) * 0x1000000 + (b[pos + 1] as u32) * 0x10000 + (b[pos + 2] as u32)
        * 0x100 + (b[pos + 3] as u32);
    let ghost s = b@.subrange(pos as int, pos + 4);
    assert(s[0] == b@[pos as int] && s[1] == b@[pos + 1] && s[2] == b@[pos + 2] && s[3] == b@[pos
        + 3]);
    Ok((v, pos + 4))
}

/// Reads a 64-bit value at `pos`.
pub fn get_u64(b: &[u8], pos: usize) -> (r: Result<(u64, usize), DecodeError>)
    ensures
        match r {
            Ok((v, p)) => parse_u64(b@, pos as int) == Some((v, p as int)),
            Err(e) => parse_u64(b@, pos as int) is None && e == DecodeError::ShortBuffer,
        },
{
    if pos > b.len() || b.len() - pos < 8 {
        return Err(DecodeError::ShortBuffer);
    }
    let (hi, p) = match get_u32(b, pos) {
        Ok(x) => x,
        Err(e) => return Err(e),
    };
    let (lo, pos2) = match get_u32(b, p) {
        Ok(x) => x,
        Err(e) => return Err(e),
    };
    let ghost s = b@.subrange(pos as int, pos + 8);
    assert(s.subrange(0, 4) =~= b@.subrange(pos as int, pos + 4));
    assert(s.subrange(4, 8) =~= b@.subrange(pos + 4, pos + 8));
    assert(u32_of(s) == u32_of(s.subrange(0, 4)));
    Ok(((hi as u64) * 0x1_0000_0000 + lo as u64, pos2))
}

/// Reads a boolean at `pos`.
pub fn get_bool(b: &[u8], pos: usize) -> (r: Result<(bool, usize), DecodeError>)
    ensures
        match r {
            Ok((v, p)) => parse_bool(b@, pos as int) == Some((v, p as int)),
            Err(_) => parse_bool(b@, pos as int) is None,
        },
{
    let (v, p) = match get_u32(b, pos) {
        Ok(x) => x,
        Err(e) => return Err(e),
    };
    if v == 0 {
        Ok((false, p))
    } else if v == 1 {
        Ok((true, p))
    } else {
        Err(DecodeError::BadEnum)
    }
}

/// Steps over a variable-length opaque value at `pos`.
pub fn skip_opaque(b: &[u8], pos: usize) -> (r: Result<usize, DecodeError>)
    ensures
        match r {
            Ok(p) => match parse_opaque(b@, pos as int) {
                Some((_, q)) => q == p,
                None => false,
            },
            Err(_) => parse_opaque(b@, pos as int) is None,
        },
{
    let (n, p) = match get_u32(b, pos) {
        Ok(x) => x,
        Err(e) => return Err(e),
    };
    let n = n as usize;
    let pad: usize = (4 - n % 4) % 4;
    if p > b.len() || b.len() - p < n || b.len() - p - n < pad {
        return Err(DecodeError::LengthExceedsBudget);
    }
    Ok(p + n + pad)
}

/// Reads a variable-length opaque value (or string) at `pos`.
pub fn get_opaque(b: &[u8], pos: usize) -> (r: Result<(Vec<u8>, usize), DecodeError>)
    ensures
        match r {
            Ok((v, p)) => parse_opaque(b@, pos as int) == Some((v@, p as int)),
            Err(_) => parse_opaque(b@, pos as int) is None,
        },
{
    let (n, p) = match get_u32(b, pos) {
        Ok(x) => x,
        Err(e) => return Err(e),
    };
    let n = n as usize;
    let pad: usize = (4 - n % 4) % 4;
    if p > b.len() || b.len() - p < n || b.len() - p - n < pad {
        return Err(DecodeError::LengthExceedsBudget);
    }
    let end: usize = p + n;
    let mut out: Vec<u8> = Vec::new();
    let mut i: usize = 0;
    while i < n
        invariant
            i <= n,
            end == p + n,
            p + n <= b@.len(),
            out@ == b@.subrange(p as int, p + i),
        decreases n - i,
    {
        out.push(b[p + i]);
        i = i + 1;
        assert(out@ =~= b@.subrange(p as int, p + i));
    }
    Ok((out, p + n + pad))
}

} // verus!
