//! The file system abstraction layer: what a backend must supply, the
//! attributes it reports, its errors, and the name rules every backend obeys.
use vstd::prelude::*;

verus! {

/// Type of a file system object.
#[derive(Debug, Clone, Copy, PartialEq, Eq, Structural)]
pub enum FileType {
    RegularFile,
    Directory,
    BlockDevice,
    CharDevice,
    SymbolicLink,
    Socket,
    NamedPipe,
}

/// A time stamp: seconds and nanoseconds.
#[derive(Debug, Clone, Copy, PartialEq, Eq, Structural)]
pub struct FileTime {
    pub seconds: u64,
    pub nseconds: u32,
}

/// Metadata a backend reports for one object.
#[derive(Debug, Clone, Copy, PartialEq, Eq, Structural)]
pub struct FileAttributes {
    pub ftype: FileType,
    /// Permission bits.
    pub mode: u32,
    pub nlink: u32,
    pub uid: u32,
    pub gid: u32,
    /// Size in bytes.
    pub size: u64,
    /// Disk space used, in bytes.
    pub used: u64,
    /// Device numbers of a special file.
    pub rdev_major: u32,
    pub rdev_minor: u32,
    pub fsid: u64,
    /// Inode number.
    pub fileid: u64,
    pub atime: FileTime,
    pub mtime: FileTime,
    pub ctime: FileTime,
}

/// One entry of a directory listing.
#[derive(Debug, Clone)]
pub struct DirEntry {
    pub fileid: u64,
    /// The entry's name, as the bytes the backend stores.
    pub name: Vec<u8>,
    pub file_type: FileType,
}

/// How SETATTR changes a time stamp.
#[derive(Debug, Clone, Copy, PartialEq, Eq, Structural)]
pub enum SetTime {
    DontChange,
    /// Set to the server's current time.
    ServerTime,
    /// Set to the time the client gave.
    ClientTime(FileTime),
}

/// What a backend operation can fail with.
#[derive(Debug, Clone, Copy, PartialEq, Eq, Structural)]
pub enum FsError {
    NotFound,
    PermissionDenied,
    AlreadyExists,
    NotDir,
    IsDir,
    ReadOnly,
    NoSpace,
    CrossDevice,
    Invalid,
    NotSupported,
    NotEmpty,
    NameTooLong,
    /// The handle names no live object.
    Stale,
    Io,
}

/// Operations a backend supplies. Every handle is the opaque byte string the
/// backend handed out; names are single path components.
pub trait Filesystem {
    fn root_handle(&self) -> Vec<u8>;

    /// The export check: whether MNT may hand out the root handle to a
    /// client that asks for directory path `path`.
    fn is_exported(&self, path: &[u8]) -> bool;

    fn lookup(&self, dir: &[u8], name: &[u8]) -> Result<Vec<u8>, FsError>;

    fn getattr(&self, handle: &[u8]) -> Result<FileAttributes, FsError>;

    /// Up to `count` bytes from `offset`; fewer at the end of the file.
    fn read(&self, handle: &[u8], offset: u64, count: u32) -> Result<Vec<u8>, FsError>;

    /// Entries after position `cookie` (0: from the beginning), at most
    /// `count` of them, and whether the listing is complete.
    fn readdir(&self, dir: &[u8], cookie: u64, count: u32) -> Result<(Vec<DirEntry>, bool), FsError>;

    /// Number of bytes written.
    fn write(&self, handle: &[u8], offset: u64, data: &[u8]) -> Result<u32, FsError>;

    fn setattr_size(&self, handle: &[u8], size: u64) -> Result<(), FsError>;

    fn setattr_mode(&self, handle: &[u8], mode: u32) -> Result<(), FsError>;

    fn setattr_owner(&self, handle: &[u8], uid: Option<u32>, gid: Option<u32>) -> Result<(), FsError>;

    fn setattr_times(&self, handle: &[u8], atime: SetTime, mtime: SetTime) -> Result<(), FsError>;

    fn create(&self, dir: &[u8], name: &[u8], mode: u32) -> Result<Vec<u8>, FsError>;

    fn remove(&self, dir: &[u8], name: &[u8]) -> Result<(), FsError>;

    fn mkdir(&self, dir: &[u8], name: &[u8], mode: u32) -> Result<Vec<u8>, FsError>;

    fn rmdir(&self, dir: &[u8], name: &[u8]) -> Result<(), FsError>;

    fn rename(&self, from_dir: &[u8], from_name: &[u8], to_dir: &[u8], to_name: &[u8]) -> Result<
        (),
        FsError,
    >;

    fn symlink(&self, dir: &[u8], name: &[u8], target: &[u8]) -> Result<Vec<u8>, FsError>;

    fn readlink(&self, handle: &[u8]) -> Result<Vec<u8>, FsError>;

    fn link(&self, file: &[u8], dir: &[u8], name: &[u8]) -> Result<Vec<u8>, FsError>;

    /// Makes the written data of `[offset, offset + count)` durable;
    /// `count == 0` means through the end of the file.
    fn commit(&self, handle: &[u8], offset: u64, count: u32) -> Result<(), FsError>;
}

/// Where the page of a listing of `len` entries starts when READDIR resumes
/// after `cookie` entries.
pub open spec fn page_start(len: nat, cookie: u64) -> nat {
    if cookie >= len {
        len
    } else {
        cookie as nat
    }
}

/// Where that page ends: at most `count` entries on.
pub open spec fn page_end(len: nat, cookie: u64, count: u32) -> nat {
    let start = page_start(len, cookie);
    if start + count >= len {
        len
    } else {
        (start + count) as nat
    }
}

/// The page of a listing in its stable order that a backend returns from
/// `readdir`: the entries after the first `cookie`, at most `count` of them,
/// and whether the listing ends there.
pub fn select_page(all: Vec<DirEntry>, cookie: u64, count: u32) -> (r: (Vec<DirEntry>, bool))
    ensures
        r.0@ == all@.subrange(
            page_start(all@.len(), cookie) as int,
            page_end(all@.len(), cookie, count) as int,
        ),
        r.1 == (page_end(all@.len(), cookie, count) == all@.len()),
{
    let mut all = all;
    let len = all.len();
    let start: usize = if cookie >= len as u64 {
        len
    } else {
        cookie as usize
    };
    let end: usize = if count as u64 >= (len - start) as u64 {
        len
    } else {
        start + count as usize
    };
    let ghost whole = all@;
    all.truncate(end);
    let page = all.split_off(start);
    assert(page@ =~= whole.subrange(start as int, end as int));
    (page, end == len)
}

/// Longest file name accepted, in bytes.
pub const NAME_MAX: usize = 255;

/// Whether `n` holds two consecutive dots.
pub open spec fn has_dot_dot(n: Seq<u8>) -> bool {
    exists|i: int| 0 <= i && i + 1 < n.len() && #[trigger] n[i] == 0x2e && n[i + 1] == 0x2e
}

/// Whether `n` holds a slash or a NUL byte.
pub open spec fn has_separator(n: Seq<u8>) -> bool {
    exists|i: int| 0 <= i < n.len() && (#[trigger] n[i] == 0x2f || n[i] == 0)
}

/// The outcome of checking a name that a client sent.
pub open spec fn name_check(n: Seq<u8>) -> Result<(), FsError> {
    if n.len() > NAME_MAX {
        Err(FsError::NameTooLong)
    } else if has_separator(n) || has_dot_dot(n) {
        Err(FsError::Invalid)
    } else {
        Ok(())
    }
}

/// Checks a single path component: at most 255 bytes, and no '/', NUL or
/// "..", so that no name can leave its directory.
pub fn validate_name(name: &[u8]) -> (r: Result<(), FsError>)
    ensures
        r == name_check(name@),
{
    if name.len() > NAME_MAX {
        return Err(FsError::NameTooLong);
    }
    let mut i: usize = 0;
    while i < name.len()
        invariant
            i <= name@.len(),
            name@.len() <= NAME_MAX,
            forall|k: int| 0 <= k < i ==> name@[k] != 0x2f && name@[k] != 0,
            forall|k: int|
                0 <= k < i && k + 1 < name@.len() ==> !(#[trigger] name@[k] == 0x2e && name@[k + 1] == 0x2e),
        decreases name@.len() - i,
    {
        let c = name[i];
        if c == 0x2f || c == 0 {
            assert(name@[i as int] == 0x2f || name@[i as int] == 0);
            assert(has_separator(name@));
            return Err(FsError::Invalid);
        }
        if c == 0x2e && i + 1 < name.len() && name[i + 1] == 0x2e {
            assert(name@[i as int] == 0x2e && name@[i + 1] == 0x2e);
            assert(has_dot_dot(name@));
            return Err(FsError::Invalid);
        }
        i = i + 1;
    }
    Ok(())
}

/// Kind of storage behind the file system.
#[derive(Debug, Clone, Copy, PartialEq, Eq, Structural)]
pub enum BackendType {
    Local,
    S3,
    Ceph,
    Memory,
}

/// Settings of an S3 backend.
#[derive(Debug, Clone)]
pub struct S3Config {
    pub bucket: String,
    pub region: String,
    pub access_key: String,
    pub secret_key: String,
}

/// Settings of a Ceph backend.
#[derive(Debug, Clone)]
pub struct CephConfig {
    pub monitors: Vec<String>,
    pub pool: String,
}

/// Which backend to serve, and its settings.
#[derive(Debug, Clone)]
pub struct BackendConfig {
    pub backend_type: BackendType,
    /// Export root of the local backend.
    pub local_root: Option<String>,
    pub s3_config: Option<S3Config>,
    pub ceph_config: Option<CephConfig>,
}

/// Why no backend could be made from a configuration.
#[derive(Debug, Clone, Copy, PartialEq, Eq, Structural)]
pub enum BackendError {
    /// The local backend was chosen without a root directory.
    RootNotConfigured,
    /// The chosen kind of backend is not available.
    NotImplemented(BackendType),
}

impl BackendConfig {
    /// A configuration that serves the local directory `root`.
    pub fn local(root: String) -> (r: Self)
        ensures
            r.backend_type == BackendType::Local,
            r.local_root is Some && r.local_root->0@ == root@,
            r.s3_config is None,
            r.ceph_config is None,
    {
        BackendConfig {
            backend_type: BackendType::Local,
            local_root: Some(root),
            s3_config: None,
            ceph_config: None,
        }
    }

    /// Decides which backend this configuration makes: for the local kind,
    /// the export root from which it is opened; every other kind is refused.
    pub fn create_filesystem(&self) -> (r: Result<String, BackendError>)
        ensures
            self.backend_type == BackendType::Local && self.local_root is Some ==> r is Ok
                && r->Ok_0@ == self.local_root->0@,
            self.backend_type == BackendType::Local && self.local_root is None ==> r == Err::<
                String,
                BackendError,
            >(BackendError::RootNotConfigured),
            self.backend_type != BackendType::Local ==> r == Err::<String, BackendError>(
                BackendError::NotImplemented(self.backend_type),
            ),
    {
        match self.backend_type {
            BackendType::Local => match &self.local_root {
                Some(root) => Ok(root.clone()),
                None => Err(BackendError::RootNotConfigured),
            },
            other => Err(BackendError::NotImplemented(other)),
        }
    }
}

} // verus!
