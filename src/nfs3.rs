//! NFS version 3 wire structures (RFC 1813) and their hand-written XDR
//! encoding, including the boolean-discriminated optional attributes
//! (post_op_attr, pre_op_attr, wcc_data) and the READDIR entry chain.
use vstd::prelude::*;
use crate::xdr::{put_bool, put_opaque, put_u32, put_u64, xdr_bool, xdr_opaque, xdr_u32, xdr_u64};
use crate::fsal::{FileAttributes, FileTime, FileType, FsError};

verus! {

/// NFSv3 status codes.
#[derive(Debug, Clone, Copy, PartialEq, Eq, Structural)]
pub enum NfsStat3 {
    Nfs3Ok,
    Perm,
    NoEnt,
    Io,
    NxIo,
    Acces,
    Exist,
    XDev,
    NoDev,
    NotDir,
    IsDir,
    Inval,
    FBig,
    NoSpc,
    RoFs,
    MLink,
    NameTooLong,
    NotEmpty,
    DQuot,
    Stale,
    Remote,
    BadHandle,
    NotSync,
    BadCookie,
    NotSupp,
    TooSmall,
    ServerFault,
    BadType,
    Jukebox,
}

/// The number that stands for a status on the wire.
pub open spec fn stat_code(s: NfsStat3) -> u32 {
    match s {
        NfsStat3::Nfs3Ok => 0,
        NfsStat3::Perm => 1,
        NfsStat3::NoEnt => 2,
        NfsStat3::Io => 5,
        NfsStat3::NxIo => 6,
        NfsStat3::Acces => 13,
        NfsStat3::Exist => 17,
        NfsStat3::XDev => 18,
        NfsStat3::NoDev => 19,
        NfsStat3::NotDir => 20,
        NfsStat3::IsDir => 21,
        NfsStat3::Inval => 22,
        NfsStat3::FBig => 27,
        NfsStat3::NoSpc => 28,
        NfsStat3::RoFs => 30,
        NfsStat3::MLink => 31,
        NfsStat3::NameTooLong => 63,
        NfsStat3::NotEmpty => 66,
        NfsStat3::DQuot => 69,
        NfsStat3::Stale => 70,
        NfsStat3::Remote => 71,
        NfsStat3::BadHandle => 10001,
        NfsStat3::NotSync => 10002,
        NfsStat3::BadCookie => 10003,
        NfsStat3::NotSupp => 10004,
        NfsStat3::TooSmall => 10005,
        NfsStat3::ServerFault => 10006,
        NfsStat3::BadType => 10007,
        NfsStat3::Jukebox => 10008,
    }
}

impl NfsStat3 {
    pub fn code(&self) -> (r: u32)
        ensures
            r == stat_code(*self),
    {
        match self {
            NfsStat3::Nfs3Ok => 0,
            NfsStat3::Perm => 1,
            NfsStat3::NoEnt => 2,
            NfsStat3::Io => 5,
            NfsStat3::NxIo => 6,
            NfsStat3::Acces => 13,
            NfsStat3::Exist => 17,
            NfsStat3::XDev => 18,
            NfsStat3::NoDev => 19,
            NfsStat3::NotDir => 20,
            NfsStat3::IsDir => 21,
            NfsStat3::Inval => 22,
            NfsStat3::FBig => 27,
            NfsStat3::NoSpc => 28,
            NfsStat3::RoFs => 30,
            NfsStat3::MLink => 31,
            NfsStat3::NameTooLong => 63,
            NfsStat3::NotEmpty => 66,
            NfsStat3::DQuot => 69,
            NfsStat3::Stale => 70,
            NfsStat3::Remote => 71,
            NfsStat3::BadHandle => 10001,
            NfsStat3::NotSync => 10002,
            NfsStat3::BadCookie => 10003,
            NfsStat3::NotSupp => 10004,
            NfsStat3::TooSmall => 10005,
            NfsStat3::ServerFault => 10006,
            NfsStat3::BadType => 10007,
            NfsStat3::Jukebox => 10008,
        }
    }
}

/// The status an NFS reply carries for a backend error.
pub open spec fn status_of(e: FsError) -> NfsStat3 {
    match e {
        FsError::NotFound => NfsStat3::NoEnt,
        FsError::PermissionDenied => NfsStat3::Acces,
        FsError::AlreadyExists => NfsStat3::Exist,
        FsError::NotDir => NfsStat3::NotDir,
        FsError::IsDir => NfsStat3::IsDir,
        FsError::ReadOnly => NfsStat3::RoFs,
        FsError::NoSpace => NfsStat3::NoSpc,
        FsError::CrossDevice => NfsStat3::XDev,
        FsError::Invalid => NfsStat3::Inval,
        FsError::NotSupported => NfsStat3::NotSupp,
        FsError::NotEmpty => NfsStat3::NotEmpty,
        FsError::NameTooLong => NfsStat3::NameTooLong,
        FsError::Stale => NfsStat3::Stale,
        FsError::Io => NfsStat3::Io,
    }
}

/// Maps a backend error to its NFSv3 status.
pub fn map_error_to_status(e: FsError) -> (r: NfsStat3)
    ensures
        r == status_of(e),
{
    match e {
        FsError::NotFound => NfsStat3::NoEnt,
        FsError::PermissionDenied => NfsStat3::Acces,
        FsError::AlreadyExists => NfsStat3::Exist,
        FsError::NotDir => NfsStat3::NotDir,
        FsError::IsDir => NfsStat3::IsDir,
        FsError::ReadOnly => NfsStat3::RoFs,
        FsError::NoSpace => NfsStat3::NoSpc,
        FsError::CrossDevice => NfsStat3::XDev,
        FsError::Invalid => NfsStat3::Inval,
        FsError::NotSupported => NfsStat3::NotSupp,
        FsError::NotEmpty => NfsStat3::NotEmpty,
        FsError::NameTooLong => NfsStat3::NameTooLong,
        FsError::Stale => NfsStat3::Stale,
        FsError::Io => NfsStat3::Io,
    }
}

/// The ftype3 number of a file type.
pub open spec fn ftype_code(t: FileType) -> u32 {
    match t {
        FileType::RegularFile => 1,
        FileType::Directory => 2,
        FileType::BlockDevice => 3,
        FileType::CharDevice => 4,
        FileType::SymbolicLink => 5,
        FileType::Socket => 6,
        FileType::NamedPipe => 7,
    }
}

pub fn ftype3(t: FileType) -> (r: u32)
    ensures
        r == ftype_code(t),
{
    match t {
        FileType::RegularFile => 1,
        FileType::Directory => 2,
        FileType::BlockDevice => 3,
        FileType::CharDevice => 4,
        FileType::SymbolicLink => 5,
        FileType::Socket => 6,
        FileType::NamedPipe => 7,
    }
}

/// nfstime3: seconds and nanoseconds, 32 bits each.
#[derive(Debug, Clone, Copy, PartialEq, Eq, Structural)]
pub struct NfsTime {
    pub seconds: u32,
    pub nseconds: u32,
}

/// fattr3, the attribute record of the wire.
#[derive(Debug, Clone, Copy, PartialEq, Eq, Structural)]
pub struct Fattr3 {
    pub ftype: FileType,
    pub mode: u32,
    pub nlink: u32,
    pub uid: u32,
    pub gid: u32,
    pub size: u64,
    pub used: u64,
    pub rdev_major: u32,
    pub rdev_minor: u32,
    pub fsid: u64,
    pub fileid: u64,
    pub atime: NfsTime,
    pub mtime: NfsTime,
    pub ctime: NfsTime,
}

/// wcc_attr: the attributes kept from before an operation.
#[derive(Debug, Clone, Copy, PartialEq, Eq, Structural)]
pub struct WccAttr {
    pub size: u64,
    pub mtime: NfsTime,
    pub ctime: NfsTime,
}

/// A time as it goes on the wire: seconds kept to their low 32 bits.
pub open spec fn time_of(t: FileTime) -> NfsTime {
    NfsTime { seconds: (t.seconds % 0x1_0000_0000) as u32, nseconds: t.nseconds }
}

pub open spec fn spec_fattr3(a: FileAttributes) -> Fattr3 {
    Fattr3 {
        ftype: a.ftype,
        mode: a.mode,
        nlink: a.nlink,
        uid: a.uid,
        gid: a.gid,
        size: a.size,
        used: a.used,
        rdev_major: a.rdev_major,
        rdev_minor: a.rdev_minor,
        fsid: a.fsid,
        fileid: a.fileid,
        atime: time_of(a.atime),
        mtime: time_of(a.mtime),
        ctime: time_of(a.ctime),
    }
}

pub open spec fn spec_wcc_attr(a: FileAttributes) -> WccAttr {
    WccAttr { size: a.size, mtime: time_of(a.mtime), ctime: time_of(a.ctime) }
}

fn nfs_time(t: FileTime) -> (r: NfsTime)
    ensures
        r == time_of(t),
{
    NfsTime { seconds: (t.seconds % 0x1_0000_0000) as u32, nseconds: t.nseconds }
}

/// The pre-operation snapshot of a backend's attributes.
pub fn wcc_attr_of(a: &FileAttributes) -> (r: WccAttr)
    ensures
        r == spec_wcc_attr(*a),
{
    WccAttr { size: a.size, mtime: nfs_time(a.mtime), ctime: nfs_time(a.ctime) }
}

pub open spec fn enc_time(t: NfsTime) -> Seq<u8> {
    xdr_u32(t.seconds) + xdr_u32(t.nseconds)
}

/// The 84 bytes of an fattr3.
pub open spec fn enc_fattr3(a: Fattr3) -> Seq<u8> {
    xdr_u32(ftype_code(a.ftype)) + xdr_u32(a.mode) + xdr_u32(a.nlink) + xdr_u32(a.uid) + xdr_u32(
        a.gid,
    ) + xdr_u64(a.size) + xdr_u64(a.used) + xdr_u32(a.rdev_major) + xdr_u32(a.rdev_minor)
        + xdr_u64(a.fsid) + xdr_u64(a.fileid) + enc_time(a.atime) + enc_time(a.mtime) + enc_time(
        a.ctime,
    )
}

/// post_op_attr: FALSE, or TRUE followed by the attributes.
pub open spec fn enc_post_op_attr(a: Option<Fattr3>) -> Seq<u8> {
    match a {
        None => xdr_bool(false),
        Some(f) => xdr_bool(true) + enc_fattr3(f),
    }
}

pub open spec fn enc_wcc_attr(w: WccAttr) -> Seq<u8> {
    xdr_u64(w.size) + enc_time(w.mtime) + enc_time(w.ctime)
}

/// pre_op_attr: FALSE, or TRUE followed by the wcc_attr.
pub open spec fn enc_pre_op_attr(w: Option<WccAttr>) -> Seq<u8> {
    match w {
        None => xdr_bool(false),
        Some(x) => xdr_bool(true) + enc_wcc_attr(x),
    }
}

/// wcc_data: the attributes before and after a change.
pub open spec fn enc_wcc_data(pre: Option<WccAttr>, post: Option<Fattr3>) -> Seq<u8> {
    enc_pre_op_attr(pre) + enc_post_op_attr(post)
}

/// post_op_fh3: FALSE, or TRUE followed by the handle.
pub open spec fn enc_post_op_fh(h: Option<Seq<u8>>) -> Seq<u8> {
    match h {
        None => xdr_bool(false),
        Some(b) => xdr_bool(true) + xdr_opaque(b),
    }
}

pub open spec fn enc_status(s: NfsStat3) -> Seq<u8> {
    xdr_u32(stat_code(s))
}

pub proof fn lemma_fattr3_len(a: Fattr3)
    ensures
        enc_fattr3(a).len() == 84,
{
    assert(forall|v: u32| #[trigger] xdr_u32(v).len() == 4);
    assert(forall|v: u64| #[trigger] xdr_u64(v).len() == 8);
    assert(enc_time(a.atime).len() == 8);
    assert(enc_time(a.mtime).len() == 8);
    assert(enc_time(a.ctime).len() == 8);
}

pub fn put_time(buf: &mut Vec<u8>, t: NfsTime)
    ensures
        final(buf)@ == old(buf)@ + enc_time(t),
{
    put_u32(buf, t.seconds);
    put_u32(buf, t.nseconds);
    assert(buf@ =~= old(buf)@ + enc_time(t));
}

pub fn put_fattr3(buf: &mut Vec<u8>, a: &Fattr3)
    ensures
        final(buf)@ == old(buf)@ + enc_fattr3(*a),
{
    let ghost start = buf@;
    put_u32(buf, ftype3(a.ftype));
    put_u32(buf, a.mode);
    put_u32(buf, a.nlink);
    put_u32(buf, a.uid);
    put_u32(buf, a.gid);
    let ghost pos1 = xdr_u32(ftype_code(a.ftype)) + xdr_u32(a.mode) + xdr_u32(a.nlink) + xdr_u32(a.uid)
        + xdr_u32(a.gid);
    assert(buf@ =~= start + pos1);
    put_u64(buf, a.size);
    put_u64(buf, a.used);
    put_u32(buf, a.rdev_major);
    put_u32(buf, a.rdev_minor);
    let ghost pos2 = pos1 + xdr_u64(a.size) + xdr_u64(a.used) + xdr_u32(a.rdev_major) + xdr_u32(
        a.rdev_minor,
    );
    assert(buf@ =~= start + pos2);
    put_u64(buf, a.fsid);
    put_u64(buf, a.fileid);
    let ghost pos3 = pos2 + xdr_u64(a.fsid) + xdr_u64(a.fileid);
    assert(buf@ =~= start + pos3);
    put_time(buf, a.atime);
    put_time(buf, a.mtime);
    put_time(buf, a.ctime);
    let ghost pos4 = pos3 + enc_time(a.atime) + enc_time(a.mtime) + enc_time(a.ctime);
    assert(buf@ =~= start + pos4);
    assert(pos4 =~= enc_fattr3(*a));
}

pub fn put_post_op_attr(buf: &mut Vec<u8>, a: &Option<Fattr3>)
    ensures
        final(buf)@ == old(buf)@ + enc_post_op_attr(*a),
{
    match a {
        None => put_bool(buf, false),
        Some(f) => {
            put_bool(buf, true);
            put_fattr3(buf, f);
            assert(buf@ =~= old(buf)@ + enc_post_op_attr(*a));
        },
    }
}

pub fn put_pre_op_attr(buf: &mut Vec<u8>, w: &Option<WccAttr>)
    ensures
        final(buf)@ == old(buf)@ + enc_pre_op_attr(*w),
{
    match w {
        None => put_bool(buf, false),
        Some(x) => {
            put_bool(buf, true);
            put_u64(buf, x.size);
            put_time(buf, x.mtime);
            put_time(buf, x.ctime);
            assert(buf@ =~= old(buf)@ + enc_pre_op_attr(*w));
        },
    }
}

pub fn put_wcc_data(buf: &mut Vec<u8>, pre: &Option<WccAttr>, post: &Option<Fattr3>)
    ensures
        final(buf)@ == old(buf)@ + enc_wcc_data(*pre, *post),
{
    put_pre_op_attr(buf, pre);
    put_post_op_attr(buf, post);
    assert(buf@ =~= old(buf)@ + enc_wcc_data(*pre, *post));
}

pub fn put_post_op_fh(buf: &mut Vec<u8>, h: Option<&[u8]>)
    requires
        h is Some ==> h->0@.len() <= u32::MAX,
    ensures
        final(buf)@ == old(buf)@ + enc_post_op_fh(
            match h {
                Some(b) => Some(b@),
                None => None,
            },
        ),
{
    match h {
        None => put_bool(buf, false),
        Some(b) => {
            put_bool(buf, true);
            put_opaque(buf, b);
            assert(buf@ =~= old(buf)@ + xdr_bool(true) + xdr_opaque(b@));
        },
    }
}

pub fn put_status(buf: &mut Vec<u8>, s: NfsStat3)
    ensures
        final(buf)@ == old(buf)@ + enc_status(s),
{
    put_u32(buf, s.code());
}

/// Helpers that build the procedure results (everything after the RPC
/// reply header) of the NFS procedures.
pub struct NfsMessage;

impl NfsMessage {
    /// GETATTR3res on success: status OK and the attributes.
    pub fn create_getattr_ok(attrs: &Fattr3) -> (r: Vec<u8>)
        ensures
            r@ == enc_status(NfsStat3::Nfs3Ok) + enc_fattr3(*attrs),
    {
        let mut r: Vec<u8> = Vec::new();
        put_status(&mut r, NfsStat3::Nfs3Ok);
        put_fattr3(&mut r, attrs);
        r
    }

    /// A result that is a status alone.
    pub fn create_status_response(status: NfsStat3) -> (r: Vec<u8>)
        ensures
            r@ == enc_status(status),
    {
        let mut r: Vec<u8> = Vec::new();
        put_status(&mut r, status);
        assert(r@ =~= enc_status(status));
        r
    }

    /// A failure that carries one post_op_attr (LOOKUP, READ, ACCESS,
    /// READLINK, FSSTAT, FSINFO, PATHCONF, READDIR).
    pub fn create_attr_error_response(status: NfsStat3, attrs: &Option<Fattr3>) -> (r: Vec<u8>)
        ensures
            r@ == enc_status(status) + enc_post_op_attr(*attrs),
    {
        let mut r: Vec<u8> = Vec::new();
        put_status(&mut r, status);
        put_post_op_attr(&mut r, attrs);
        assert(r@ =~= enc_status(status) + enc_post_op_attr(*attrs));
        r
    }

    /// A failure that carries one wcc_data (SETATTR, WRITE, CREATE, MKDIR,
    /// SYMLINK, MKNOD, REMOVE, RMDIR, COMMIT).
    pub fn create_wcc_error_response(
        status: NfsStat3,
        pre: &Option<WccAttr>,
        post: &Option<Fattr3>,
    ) -> (r: Vec<u8>)
        ensures
            r@ == enc_status(status) + enc_wcc_data(*pre, *post),
    {
        let mut r: Vec<u8> = Vec::new();
        put_status(&mut r, status);
        put_wcc_data(&mut r, pre, post);
        assert(r@ =~= enc_status(status) + enc_wcc_data(*pre, *post));
        r
    }

    /// LOOKUP3res on success: the object's handle, its attributes and the
    /// directory's attributes.
    pub fn create_lookup_ok(object: &[u8], obj_attributes: &Option<Fattr3>, dir_attributes: &Option<
        Fattr3,
    >) -> (r: Vec<u8>)
        requires
            object@.len() <= u32::MAX,
        ensures
            r@ == enc_status(NfsStat3::Nfs3Ok) + xdr_opaque(object@) + enc_post_op_attr(*obj_attributes)
                + enc_post_op_attr(*dir_attributes),
    {
        let mut r: Vec<u8> = Vec::new();
        put_status(&mut r, NfsStat3::Nfs3Ok);
        put_opaque(&mut r, object);
        put_post_op_attr(&mut r, obj_attributes);
        put_post_op_attr(&mut r, dir_attributes);
        r
    }

    /// READ3res on success: attributes, count, eof and the data.
    pub fn create_read_ok(file_attributes: &Option<Fattr3>, count: u32, eof: bool, data: &[u8]) -> (r:
        Vec<u8>)
        requires
            data@.len() <= u32::MAX,
        ensures
            r@ == enc_status(NfsStat3::Nfs3Ok) + enc_post_op_attr(*file_attributes) + xdr_u32(count)
                + xdr_bool(eof) + xdr_opaque(data@),
    {
        let mut r: Vec<u8> = Vec::new();
        put_status(&mut r, NfsStat3::Nfs3Ok);
        put_post_op_attr(&mut r, file_attributes);
        put_u32(&mut r, count);
        put_bool(&mut r, eof);
        put_opaque(&mut r, data);
        r
    }

    /// ACCESS3res on success: attributes and the granted bits.
    pub fn create_access_ok(obj_attributes: &Option<Fattr3>, access: u32) -> (r: Vec<u8>)
        ensures
            r@ == enc_status(NfsStat3::Nfs3Ok) + enc_post_op_attr(*obj_attributes) + xdr_u32(access),
    {
        let mut r: Vec<u8> = Vec::new();
        put_status(&mut r, NfsStat3::Nfs3Ok);
        put_post_op_attr(&mut r, obj_attributes);
        put_u32(&mut r, access);
        r
    }

    /// FSSTAT3res on success.
    pub fn create_fsstat_ok(
        obj_attributes: &Option<Fattr3>,
        tbytes: u64,
        fbytes: u64,
        abytes: u64,
        tfiles: u64,
        ffiles: u64,
        afiles: u64,
        invarsec: u32,
    ) -> (r: Vec<u8>)
        ensures
            r@ == enc_status(NfsStat3::Nfs3Ok) + enc_post_op_attr(*obj_attributes) + xdr_u64(tbytes)
                + xdr_u64(fbytes) + xdr_u64(abytes) + xdr_u64(tfiles) + xdr_u64(ffiles) + xdr_u64(
                afiles,
            ) + xdr_u32(invarsec),
    {
        let mut r: Vec<u8> = Vec::new();
        put_status(&mut r, NfsStat3::Nfs3Ok);
        put_post_op_attr(&mut r, obj_attributes);
        put_u64(&mut r, tbytes);
        put_u64(&mut r, fbytes);
        put_u64(&mut r, abytes);
        put_u64(&mut r, tfiles);
        put_u64(&mut r, ffiles);
        put_u64(&mut r, afiles);
        put_u32(&mut r, invarsec);
        r
    }

    /// Converts backend attributes to fattr3; times keep the low 32 bits of
    /// their seconds.
    pub fn fsal_to_fattr3(attrs: &FileAttributes) -> (r: Fattr3)
        ensures
            r == spec_fattr3(*attrs),
    {
        Fattr3 {
            ftype: attrs.ftype,
            mode: attrs.mode,
            nlink: attrs.nlink,
            uid: attrs.uid,
            gid: attrs.gid,
            size: attrs.size,
            used: attrs.used,
            rdev_major: attrs.rdev_major,
            rdev_minor: attrs.rdev_minor,
            fsid: attrs.fsid,
            fileid: attrs.fileid,
            atime: nfs_time(attrs.atime),
            mtime: nfs_time(attrs.mtime),
            ctime: nfs_time(attrs.ctime),
        }
    }
}

} // verus!
