//! READDIR and READDIRPLUS: directory listings as the XDR entry chain
//! (TRUE before each entry, FALSE after the last, then the EOF flag).
use vstd::prelude::*;
use crate::fsal::{DirEntry, FileAttributes, Filesystem, FsError};
use crate::nfs::{
    bytes_result, fetch_attr, get_fh, parse_fh, post_attr, reply, reply_of, to_post, NFS3_FHSIZE};
use crate::nfs3::{
    enc_post_op_attr, enc_post_op_fh, enc_status, map_error_to_status, put_post_op_attr,
    put_post_op_fh, status_of, NfsMessage, NfsStat3,
};
use crate::xdr::{
    get_u32, get_u64, parse_u32, parse_u64, put_bool, put_bytes, put_opaque, put_u64, xdr_bool,
    xdr_opaque, xdr_u32, xdr_u64,
};

verus! {

/// The cookie verifier of this server: always zero, since listings keep a
/// stable order.
pub const COOKIE_VERF: u64 = 0;

/// The cookie of the entry at position `i` of a listing that resumed after
/// `cookie`: entries are numbered on from the cookie, so cookies increase.
pub open spec fn cookie_at(cookie: u64, i: int) -> u64 {
    ((cookie + 1 + i) % 0x1_0000_0000_0000_0000) as u64
}

/// A listing as (fileid, name) pairs.
pub open spec fn listing_view(v: Seq<DirEntry>) -> Seq<(u64, Seq<u8>)> {
    Seq::new(v.len(), |i: int| (v[i].fileid, v[i].name@))
}

/// Whether every name can be sent as XDR opaque data.
pub open spec fn names_fit(es: Seq<(u64, Seq<u8>)>) -> bool {
    forall|i: int| 0 <= i < es.len() ==> (#[trigger] es[i]).1.len() <= u32::MAX
}

/// entry3: TRUE, fileid, name, cookie.
pub open spec fn entry_bytes(e: (u64, Seq<u8>), c: u64) -> Seq<u8> {
    xdr_bool(true) + xdr_u64(e.0) + xdr_opaque(e.1) + xdr_u64(c)
}

/// The entry chain from position `from` on.
pub open spec fn enc_dirlist(es: Seq<(u64, Seq<u8>)>, cookie: u64, from: int) -> Seq<u8>
    decreases es.len() - from,
{
    if from < 0 || from >= es.len() {
        xdr_bool(false)
    } else {
        entry_bytes(es[from], cookie_at(cookie, from)) + enc_dirlist(es, cookie, from + 1)
    }
}

/// READDIR3args / READDIRPLUS3args: handle, cookie, cookie verifier, and one
/// (READDIR) or two (READDIRPLUS) counts; the first count goes to the backend.
pub open spec fn parse_readdir_args(b: Seq<u8>, plus: bool) -> Option<(Seq<u8>, u64, u64, u32)> {
    match parse_fh(b, 0) {
        None => None,
        Some((h, p)) => match (parse_u64(b, p), parse_u64(b, p + 8), parse_u32(b, p + 16)) {
            (Some((cookie, _)), Some((verf, _)), Some((count, q))) => if !plus || parse_u32(
                b,
                q,
            ) is Some {
                Some((h, cookie, verf, count))
            } else {
                None
            },
            _ => None,
        },
    }
}

fn get_readdir_args(b: &[u8], plus: bool) -> (r: Option<(Vec<u8>, u64, u64, u32)>)
    ensures
        match r {
            Some((h, c, v, n)) => parse_readdir_args(b@, plus) == Some((h@, c, v, n)),
            None => parse_readdir_args(b@, plus) is None,
        },
{
    let (h, p) = match get_fh(b, 0) {
        Ok(x) => x,
        Err(_) => return None,
    };
    if p > b.len() || b.len() - p < 20 {
        return None;
    }
    let (cookie, _) = match get_u64(b, p) {
        Ok(x) => x,
        Err(_) => return None,
    };
    let (verf, _) = match get_u64(b, p + 8) {
        Ok(x) => x,
        Err(_) => return None,
    };
    let (count, q) = match get_u32(b, p + 16) {
        Ok(x) => x,
        Err(_) => return None,
    };
    if plus && get_u32(b, q).is_err() {
        return None;
    }
    Some((h, cookie, verf, count))
}

/// READDIR3res. A cookie verifier other than this server's gives
/// BAD_COOKIE; cookie 0 starts from the beginning of the directory.
pub open spec fn readdir_body(
    cookie: u64,
    verf: u64,
    dir: Option<FileAttributes>,
    listing: Result<(Seq<(u64, Seq<u8>)>, bool), FsError>,
) -> Seq<u8> {
    let post = enc_post_op_attr(post_attr(dir));
    if verf != COOKIE_VERF {
        enc_status(NfsStat3::BadCookie) + post
    } else {
        match listing {
            Err(e) => enc_status(status_of(e)) + post,
            Ok((es, eof)) => if !names_fit(es) {
                enc_status(NfsStat3::Io) + post
            } else {
                enc_status(NfsStat3::Nfs3Ok) + post + xdr_u64(COOKIE_VERF) + enc_dirlist(es, cookie, 0)
                    + xdr_bool(eof)
            },
        }
    }
}

pub open spec fn readdir_reply(
    xid: u32,
    args: Seq<u8>,
    dir: Option<FileAttributes>,
    listing: Result<(Seq<(u64, Seq<u8>)>, bool), FsError>,
) -> Seq<u8> {
    match parse_readdir_args(args, false) {
        None => reply_of(xid, None),
        Some((_, cookie, verf, _)) => reply_of(xid, Some(readdir_body(cookie, verf, dir, listing))),
    }
}

/// Encodes a listing as the entry chain; `None` if a name is too long to be
/// sent.
pub fn encode_dirlist(entries: &Vec<DirEntry>, cookie: u64) -> (r: Option<Vec<u8>>)
    ensures
        names_fit(listing_view(entries@)) <==> r is Some,
        r is Some ==> r->0@ == enc_dirlist(listing_view(entries@), cookie, 0),
{
    let ghost es = listing_view(entries@);
    let mut k: usize = 0;
    while k < entries.len()
        invariant
            k <= entries@.len(),
            es == listing_view(entries@),
            forall|j: int| 0 <= j < k ==> (#[trigger] es[j]).1.len() <= u32::MAX,
        decreases entries@.len() - k,
    {
        if entries[k].name.len() > u32::MAX as usize {
            assert(es[k as int].1.len() > u32::MAX);
            return None;
        }
        k = k + 1;
    }
    let mut tail: Vec<u8> = Vec::new();
    put_bool(&mut tail, false);
    let mut i: usize = entries.len();
    while i > 0
        invariant
            i <= entries@.len(),
            es == listing_view(entries@),
            names_fit(es),
            tail@ == enc_dirlist(es, cookie, i as int),
        decreases i,
    {
        i = i - 1;
        let e = &entries[i];
        let c: u64 = ((cookie as u128 + 1 + i as u128) % 0x1_0000_0000_0000_0000u128) as u64;
        let mut item: Vec<u8> = Vec::new();
        put_bool(&mut item, true);
        put_u64(&mut item, e.fileid);
        assert(es[i as int].1.len() <= u32::MAX);
        put_opaque(&mut item, e.name.as_slice());
        put_u64(&mut item, c);
        put_bytes(&mut item, tail.as_slice());
        assert(item@ =~= entry_bytes(es[i as int], cookie_at(cookie, i as int)) + enc_dirlist(
            es,
            cookie,
            i + 1,
        ));
        tail = item;
    }
    Some(tail)
}

impl NfsMessage {
    /// READDIR3res on success: the directory's attributes, the cookie
    /// verifier, an encoded entry chain and the EOF flag.
    pub fn create_readdir_ok(
        dir_attributes: &Option<crate::nfs3::Fattr3>,
        cookieverf: u64,
        entries: &[u8],
        eof: bool,
    ) -> (r: Vec<u8>)
        ensures
            r@ == enc_status(NfsStat3::Nfs3Ok) + enc_post_op_attr(*dir_attributes) + xdr_u64(
                cookieverf,
            ) + entries@ + xdr_bool(eof),
    {
        let mut body = NfsMessage::create_attr_error_response(NfsStat3::Nfs3Ok, dir_attributes);
        put_u64(&mut body, cookieverf);
        put_bytes(&mut body, entries);
        put_bool(&mut body, eof);
        body
    }
}

/// READDIR (16).
pub fn handle_readdir<F: Filesystem>(xid: u32, args: &[u8], fs: &F) -> (r: Vec<u8>)
    ensures
        r@.subrange(0, 4) == xdr_u32(xid),
        exists|
            dir: Option<FileAttributes>,
            listing: Result<(Seq<(u64, Seq<u8>)>, bool), FsError>,
        | r@ == readdir_reply(xid, args@, dir, listing),
{
    let (h, cookie, verf, count) = match get_readdir_args(args, false) {
        Some(x) => x,
        None => {
            let r = reply(xid, None);
            assert(r@ == readdir_reply(xid, args@, None, Err(FsError::Io)));
            return r;
        },
    };
    let dir = fetch_attr(fs, &h);
    let post = to_post(&dir);
    if verf != COOKIE_VERF {
        let body = NfsMessage::create_attr_error_response(NfsStat3::BadCookie, &post);
        let r = reply(xid, Some(body));
        assert(r@ == readdir_reply(xid, args@, dir, Err(FsError::Io)));
        return r;
    }
    let listing = fs.readdir(&h, cookie, count);
    match listing {
        Err(e) => {
            let body = NfsMessage::create_attr_error_response(map_error_to_status(e), &post);
            let r = reply(xid, Some(body));
            assert(r@ == readdir_reply(xid, args@, dir, Err(e)));
            r
        },
        Ok((entries, eof)) => {
            let ghost gl = Ok((listing_view(entries@), eof));
            match encode_dirlist(&entries, cookie) {
                None => {
                    let body = NfsMessage::create_attr_error_response(NfsStat3::Io, &post);
                    let r = reply(xid, Some(body));
                    assert(r@ == readdir_reply(xid, args@, dir, gl));
                    r
                },
                Some(list) => {
                    let body = NfsMessage::create_readdir_ok(&post, COOKIE_VERF, list.as_slice(), eof);
                    let r = reply(xid, Some(body));
                    assert(r@ == readdir_reply(xid, args@, dir, gl));
                    r
                },
            }
        },
    }
}

// ===== READDIRPLUS =====

/// What READDIRPLUS learned of one entry: its handle (if the lookup gave one
/// of at most 64 bytes) and its attributes (if they could be fetched).
pub type EntryExtra = (Option<Seq<u8>>, Option<FileAttributes>);

/// entryplus3: entry3, then its post_op_attr and post_op_fh3.
pub open spec fn entry_plus_bytes(e: (u64, Seq<u8>), c: u64, x: EntryExtra) -> Seq<u8> {
    entry_bytes(e, c) + enc_post_op_attr(post_attr(x.1)) + enc_post_op_fh(x.0)
}

pub open spec fn enc_dirlist_plus(
    es: Seq<(u64, Seq<u8>)>,
    xs: Seq<EntryExtra>,
    cookie: u64,
    from: int,
) -> Seq<u8>
    decreases es.len() - from,
{
    if from < 0 || from >= es.len() {
        xdr_bool(false)
    } else {
        entry_plus_bytes(es[from], cookie_at(cookie, from), xs[from]) + enc_dirlist_plus(
            es,
            xs,
            cookie,
            from + 1,
        )
    }
}

/// Whether `xs` holds one extra per entry, each handle within 64 bytes.
pub open spec fn extras_fit(es: Seq<(u64, Seq<u8>)>, xs: Seq<EntryExtra>) -> bool {
    &&& xs.len() == es.len()
    &&& forall|i: int|
        0 <= i < xs.len() ==> (#[trigger] xs[i]).0 is Some ==> xs[i].0->0.len() <= NFS3_FHSIZE
}

/// The handle an entry is sent with, given what its lookup answered: the
/// handle if the lookup gave one of at most 64 bytes, else none.
pub open spec fn entry_handle_of(found: Result<Seq<u8>, FsError>) -> Option<Seq<u8>> {
    match found {
        Ok(h) => if h.len() <= NFS3_FHSIZE {
            Some(h)
        } else {
            None
        },
        Err(_) => None,
    }
}

/// What an entry is sent with, given what its lookup and the getattr of the
/// handle found answered: no handle means no attributes either.
pub open spec fn extra_of(found: Result<Seq<u8>, FsError>, attrs: Option<FileAttributes>) -> EntryExtra {
    let h = entry_handle_of(found);
    (h, if h is Some { attrs } else { None })
}

/// The extras of `n` entries, entry `i` from the `i`-th lookup and getattr
/// answers.
pub open spec fn extras_of(
    n: nat,
    lookups: Seq<Result<Seq<u8>, FsError>>,
    attrs: Seq<Option<FileAttributes>>,
) -> Seq<EntryExtra> {
    Seq::new(n, |i: int| extra_of(lookups[i], attrs[i]))
}

/// The handle an entry is sent with.
pub fn entry_handle(found: Result<Vec<u8>, FsError>) -> (r: Option<Vec<u8>>)
    ensures
        match r {
            Some(h) => entry_handle_of(bytes_result(found)) == Some(h@),
            None => entry_handle_of(bytes_result(found)) is None,
        },
{
    match found {
        Ok(h) => if h.len() <= NFS3_FHSIZE {
            Some(h)
        } else {
            None
        },
        Err(_) => None,
    }
}

/// READDIRPLUS3res: as READDIR, with each entry's attributes and handle.
/// Entry `i` carries what the lookup of its name (`lookups[i]`) and the
/// getattr of the handle found (`attrs[i]`) answered; an entry whose lookup
/// fails is sent with neither, one whose getattr fails without attributes.
pub open spec fn readdirplus_body(
    cookie: u64,
    verf: u64,
    dir: Option<FileAttributes>,
    listing: Result<(Seq<(u64, Seq<u8>)>, bool), FsError>,
    lookups: Seq<Result<Seq<u8>, FsError>>,
    attrs: Seq<Option<FileAttributes>>,
) -> Seq<u8> {
    let post = enc_post_op_attr(post_attr(dir));
    if verf != COOKIE_VERF {
        enc_status(NfsStat3::BadCookie) + post
    } else {
        match listing {
            Err(e) => enc_status(status_of(e)) + post,
            Ok((es, eof)) => if !names_fit(es) {
                enc_status(NfsStat3::Io) + post
            } else {
                enc_status(NfsStat3::Nfs3Ok) + post + xdr_u64(COOKIE_VERF) + enc_dirlist_plus(
                    es,
                    extras_of(es.len(), lookups, attrs),
                    cookie,
                    0,
                ) + xdr_bool(eof)
            },
        }
    }
}

pub open spec fn readdirplus_reply(
    xid: u32,
    args: Seq<u8>,
    dir: Option<FileAttributes>,
    listing: Result<(Seq<(u64, Seq<u8>)>, bool), FsError>,
    lookups: Seq<Result<Seq<u8>, FsError>>,
    attrs: Seq<Option<FileAttributes>>,
) -> Seq<u8> {
    match parse_readdir_args(args, true) {
        None => reply_of(xid, None),
        Some((_, cookie, verf, _)) => reply_of(
            xid,
            Some(readdirplus_body(cookie, verf, dir, listing, lookups, attrs)),
        ),
    }
}

/// Looks up the handle and attributes of every entry; also gives what the
/// backend answered to each lookup and getattr.
fn entry_extras<F: Filesystem>(fs: &F, dir: &[u8], entries: &Vec<DirEntry>) -> (r: (
    Vec<(Option<Vec<u8>>, Option<FileAttributes>)>,
    Ghost<Seq<Result<Seq<u8>, FsError>>>,
    Ghost<Seq<Option<FileAttributes>>>,
))
    ensures
        r.0@.len() == entries@.len(),
        extras_view(r.0@) == extras_of(entries@.len(), r.1@, r.2@),
{
    let mut out: Vec<(Option<Vec<u8>>, Option<FileAttributes>)> = Vec::new();
    let ghost mut lookups: Seq<Result<Seq<u8>, FsError>> = Seq::empty();
    let ghost mut attrs_seen: Seq<Option<FileAttributes>> = Seq::empty();
    let mut i: usize = 0;
    while i < entries.len()
        invariant
            i <= entries@.len(),
            out@.len() == i,
            lookups.len() == i,
            attrs_seen.len() == i,
            extras_view(out@) =~= extras_of(i as nat, lookups, attrs_seen),
        decreases entries@.len() - i,
    {
        let found = fs.lookup(dir, entries[i].name.as_slice());
        let ghost gfound = bytes_result(found);
        let handle = entry_handle(found);
        let attrs = match &handle {
            Some(h) => fetch_attr(fs, h.as_slice()),
            None => None,
        };
        proof {
            lookups = lookups.push(gfound);
            attrs_seen = attrs_seen.push(attrs);
        }
        let ghost before = out@;
        let ghost last = extra_of(gfound, attrs);
        assert(extras_view(before) =~= extras_of(i as nat, lookups.drop_last(), attrs_seen.drop_last()));
        out.push((handle, attrs));
        assert(extras_view(out@)[i as int] == last);
        assert(forall|k: int| 0 <= k < i ==> out@[k] == before[k]);
        i = i + 1;
        assert forall|k: int| 0 <= k < i implies #[trigger] extras_view(out@)[k] == extras_of(
            i as nat,
            lookups,
            attrs_seen,
        )[k] by {
            if k < i - 1 {
                assert(out@[k] == before[k]);
                assert(extras_view(before)[k] == extras_of(
                    (i - 1) as nat,
                    lookups.drop_last(),
                    attrs_seen.drop_last(),
                )[k]);
                assert(lookups[k] == lookups.drop_last()[k]);
                assert(attrs_seen[k] == attrs_seen.drop_last()[k]);
            } else {
                assert(lookups[k] == gfound);
                assert(attrs_seen[k] == attrs);
            }
        }
        assert(extras_view(out@) =~= extras_of(i as nat, lookups, attrs_seen));
    }
    (out, Ghost(lookups), Ghost(attrs_seen))
}

/// The ghost view of the extras.
pub open spec fn extras_view(v: Seq<(Option<Vec<u8>>, Option<FileAttributes>)>) -> Seq<EntryExtra> {
    Seq::new(
        v.len(),
        |i: int|
            (
                match v[i].0 {
                    Some(h) => Some(h@),
                    None => None,
                },
                v[i].1,
            ),
    )
}

/// Encodes a listing with its extras; `None` if a name is too long.
pub fn encode_dirlist_plus(
    entries: &Vec<DirEntry>,
    extras: &Vec<(Option<Vec<u8>>, Option<FileAttributes>)>,
    cookie: u64,
) -> (r: Option<Vec<u8>>)
    requires
        extras_fit(listing_view(entries@), extras_view(extras@)),
    ensures
        names_fit(listing_view(entries@)) <==> r is Some,
        r is Some ==> r->0@ == enc_dirlist_plus(
            listing_view(entries@),
            extras_view(extras@),
            cookie,
            0,
        ),
{
    let ghost es = listing_view(entries@);
    let ghost xs = extras_view(extras@);
    let mut k: usize = 0;
    while k < entries.len()
        invariant
            k <= entries@.len(),
            es == listing_view(entries@),
            forall|j: int| 0 <= j < k ==> (#[trigger] es[j]).1.len() <= u32::MAX,
        decreases entries@.len() - k,
    {
        if entries[k].name.len() > u32::MAX as usize {
            assert(es[k as int].1.len() > u32::MAX);
            return None;
        }
        k = k + 1;
    }
    let mut tail: Vec<u8> = Vec::new();
    put_bool(&mut tail, false);
    let mut i: usize = entries.len();
    while i > 0
        invariant
            i <= entries@.len(),
            es == listing_view(entries@),
            xs == extras_view(extras@),
            extras_fit(es, xs),
            names_fit(es),
            tail@ == enc_dirlist_plus(es, xs, cookie, i as int),
        decreases i,
    {
        i = i - 1;
        let e = &entries[i];
        let x = &extras[i];
        let c: u64 = ((cookie as u128 + 1 + i as u128) % 0x1_0000_0000_0000_0000u128) as u64;
        let mut item: Vec<u8> = Vec::new();
        put_bool(&mut item, true);
        put_u64(&mut item, e.fileid);
        assert(es[i as int].1.len() <= u32::MAX);
        put_opaque(&mut item, e.name.as_slice());
        put_u64(&mut item, c);
        put_post_op_attr(&mut item, &to_post(&x.1));
        assert(xs[i as int] == extras_view(extras@)[i as int]);
        match &x.0 {
            Some(h) => put_post_op_fh(&mut item, Some(h.as_slice())),
            None => put_post_op_fh(&mut item, None),
        }
        put_bytes(&mut item, tail.as_slice());
        assert(item@ =~= entry_plus_bytes(es[i as int], cookie_at(cookie, i as int), xs[i as int])
            + enc_dirlist_plus(es, xs, cookie, i + 1));
        tail = item;
    }
    Some(tail)
}

/// READDIRPLUS (17).
pub fn handle_readdirplus<F: Filesystem>(xid: u32, args: &[u8], fs: &F) -> (r: Vec<u8>)
    ensures
        r@.subrange(0, 4) == xdr_u32(xid),
        exists|
            dir: Option<FileAttributes>,
            listing: Result<(Seq<(u64, Seq<u8>)>, bool), FsError>,
            lookups: Seq<Result<Seq<u8>, FsError>>,
            attrs: Seq<Option<FileAttributes>>,
        | r@ == readdirplus_reply(xid, args@, dir, listing, lookups, attrs),
{
    let (h, cookie, verf, count) = match get_readdir_args(args, true) {
        Some(x) => x,
        None => {
            let r = reply(xid, None);
            assert(r@ == readdirplus_reply(xid, args@, None, Err(FsError::Io), Seq::empty(), Seq::empty()));
            return r;
        },
    };
    let dir = fetch_attr(fs, &h);
    let post = to_post(&dir);
    if verf != COOKIE_VERF {
        let body = NfsMessage::create_attr_error_response(NfsStat3::BadCookie, &post);
        let r = reply(xid, Some(body));
        assert(r@ == readdirplus_reply(xid, args@, dir, Err(FsError::Io), Seq::empty(), Seq::empty()));
        return r;
    }
    let listing = fs.readdir(&h, cookie, count);
    match listing {
        Err(e) => {
            let body = NfsMessage::create_attr_error_response(map_error_to_status(e), &post);
            let r = reply(xid, Some(body));
            assert(r@ == readdirplus_reply(xid, args@, dir, Err(e), Seq::empty(), Seq::empty()));
            r
        },
        Ok((entries, eof)) => {
            let ghost gl = Ok((listing_view(entries@), eof));
            let (extras, lookups, attrs) = entry_extras(fs, &h, &entries);
            let ghost xs = extras_view(extras@);
            assert(extras_fit(listing_view(entries@), xs)) by {
                assert forall|i: int|
                    0 <= i < xs.len() && (#[trigger] xs[i]).0 is Some implies xs[i].0->0.len()
                        <= NFS3_FHSIZE by {
                    assert(xs[i] == extra_of(lookups@[i], attrs@[i]));
                }
            }
            match encode_dirlist_plus(&entries, &extras, cookie) {
                None => {
                    let body = NfsMessage::create_attr_error_response(NfsStat3::Io, &post);
                    let r = reply(xid, Some(body));
                    assert(r@ == readdirplus_reply(xid, args@, dir, gl, lookups@, attrs@));
                    r
                },
                Some(list) => {
                    let mut body = NfsMessage::create_attr_error_response(NfsStat3::Nfs3Ok, &post);
                    put_u64(&mut body, COOKIE_VERF);
                    put_bytes(&mut body, list.as_slice());
                    put_bool(&mut body, eof);
                    let r = reply(xid, Some(body));
                    assert(r@ == readdirplus_reply(xid, args@, dir, gl, lookups@, attrs@));
                    r
                },
            }
        },
    }
}

} // verus!
