use std::cell::RefCell;
use std::collections::HashMap;

use arcticwolf::fsal::{
    validate_name, BackendConfig, BackendError, BackendType, DirEntry, FileAttributes, FileTime,
    FileType, Filesystem, FsError, SetTime,
};
use arcticwolf::nfs3::{map_error_to_status, put_post_op_attr, Fattr3, NfsMessage, NfsStat3};
use arcticwolf::portmap::PortmapMessage;
use arcticwolf::record::{frame_reply, parse_fragment_header, FramingError, RecordAssembler, DEFAULT_RECORD_CAP};
use arcticwolf::registry::{Mapping, Registry};
use arcticwolf::rpc::parse_call;
use arcticwolf::server::RpcServer;
use arcticwolf::xdr::{get_opaque, get_u32, get_u64, put_opaque, put_u32, put_u64, DecodeError};

struct Node {
    ftype: FileType,
    mode: u32,
    data: Vec<u8>,
    children: Vec<(Vec<u8>, Vec<u8>)>,
    fileid: u64,
    target: Vec<u8>,
}

/// A small in-memory backend; handles are 32 bytes carrying the fileid.
struct MemFs {
    nodes: RefCell<HashMap<Vec<u8>, Node>>,
    next: RefCell<u64>,
}

fn fh(id: u64) -> Vec<u8> {
    let mut h = vec![0u8; 32];
    h[0..8].copy_from_slice(&id.to_be_bytes());
    h
}

impl MemFs {
    fn new() -> MemFs {
        let mut nodes = HashMap::new();
        nodes.insert(
            fh(1),
            Node { ftype: FileType::Directory, mode: 0o755, data: vec![], children: vec![], fileid: 1, target: vec![] },
        );
        MemFs { nodes: RefCell::new(nodes), next: RefCell::new(2) }
    }

    fn add(&self, dir: &[u8], name: &[u8], ftype: FileType, mode: u32, data: &[u8]) -> Result<Vec<u8>, FsError> {
        let mut nodes = self.nodes.borrow_mut();
        let d = nodes.get(dir).ok_or(FsError::Stale)?;
        if d.ftype != FileType::Directory {
            return Err(FsError::NotDir);
        }
        if let Some((_, h)) = d.children.iter().find(|(n, _)| n == name) {
            return if ftype == FileType::RegularFile { Ok(h.clone()) } else { Err(FsError::AlreadyExists) };
        }
        let id = *self.next.borrow();
        *self.next.borrow_mut() = id + 1;
        let h = fh(id);
        nodes.insert(h.clone(), Node { ftype, mode, data: data.to_vec(), children: vec![], fileid: id, target: vec![] });
        nodes.get_mut(dir).unwrap().children.push((name.to_vec(), h.clone()));
        Ok(h)
    }

    fn unlink(&self, dir: &[u8], name: &[u8], want_dir: bool) -> Result<(), FsError> {
        let mut nodes = self.nodes.borrow_mut();
        let d = nodes.get(dir).ok_or(FsError::Stale)?;
        let pos = d.children.iter().position(|(n, _)| n == name).ok_or(FsError::NotFound)?;
        let h = d.children[pos].1.clone();
        let is_dir = nodes[&h].ftype == FileType::Directory;
        if is_dir != want_dir {
            return Err(if is_dir { FsError::IsDir } else { FsError::NotDir });
        }
        if is_dir && !nodes[&h].children.is_empty() {
            return Err(FsError::NotEmpty);
        }
        nodes.get_mut(dir).unwrap().children.remove(pos);
        nodes.remove(&h);
        Ok(())
    }
}

impl Filesystem for MemFs {
    fn root_handle(&self) -> Vec<u8> {
        fh(1)
    }
    fn is_exported(&self, path: &[u8]) -> bool {
        path != b"/secret"
    }
    fn lookup(&self, dir: &[u8], name: &[u8]) -> Result<Vec<u8>, FsError> {
        let nodes = self.nodes.borrow();
        let d = nodes.get(dir).ok_or(FsError::Stale)?;
        d.children.iter().find(|(n, _)| n == name).map(|(_, h)| h.clone()).ok_or(FsError::NotFound)
    }
    fn getattr(&self, handle: &[u8]) -> Result<FileAttributes, FsError> {
        let nodes = self.nodes.borrow();
        let n = nodes.get(handle).ok_or(FsError::Stale)?;
        let t = FileTime { seconds: 1000, nseconds: 5 };
        Ok(FileAttributes {
            ftype: n.ftype,
            mode: n.mode,
            nlink: 1,
            uid: 0,
            gid: 0,
            size: n.data.len() as u64,
            used: n.data.len() as u64,
            rdev_major: 0,
            rdev_minor: 0,
            fsid: 7,
            fileid: n.fileid,
            atime: t,
            mtime: t,
            ctime: t,
        })
    }
    fn read(&self, handle: &[u8], offset: u64, count: u32) -> Result<Vec<u8>, FsError> {
        let nodes = self.nodes.borrow();
        let n = nodes.get(handle).ok_or(FsError::Stale)?;
        if n.ftype == FileType::Directory {
            return Err(FsError::IsDir);
        }
        let start = (offset as usize).min(n.data.len());
        let end = (start + count as usize).min(n.data.len());
        Ok(n.data[start..end].to_vec())
    }
    fn readdir(&self, dir: &[u8], cookie: u64, count: u32) -> Result<(Vec<DirEntry>, bool), FsError> {
        let nodes = self.nodes.borrow();
        let d = nodes.get(dir).ok_or(FsError::Stale)?;
        let mut out = vec![];
        for (name, h) in d.children.iter().skip(cookie as usize).take(count as usize) {
            let c = &nodes[h];
            out.push(DirEntry { fileid: c.fileid, name: name.clone(), file_type: c.ftype });
        }
        let eof = cookie as usize + out.len() >= d.children.len();
        Ok((out, eof))
    }
    fn write(&self, handle: &[u8], offset: u64, data: &[u8]) -> Result<u32, FsError> {
        let mut nodes = self.nodes.borrow_mut();
        let n = nodes.get_mut(handle).ok_or(FsError::Stale)?;
        let end = offset as usize + data.len();
        if n.data.len() < end {
            n.data.resize(end, 0);
        }
        n.data[offset as usize..end].copy_from_slice(data);
        Ok(data.len() as u32)
    }
    fn setattr_size(&self, handle: &[u8], size: u64) -> Result<(), FsError> {
        let mut nodes = self.nodes.borrow_mut();
        nodes.get_mut(handle).ok_or(FsError::Stale)?.data.resize(size as usize, 0);
        Ok(())
    }
    fn setattr_mode(&self, handle: &[u8], mode: u32) -> Result<(), FsError> {
        let mut nodes = self.nodes.borrow_mut();
        nodes.get_mut(handle).ok_or(FsError::Stale)?.mode = mode;
        Ok(())
    }
    fn setattr_owner(&self, _handle: &[u8], _uid: Option<u32>, _gid: Option<u32>) -> Result<(), FsError> {
        Err(FsError::PermissionDenied)
    }
    fn setattr_times(&self, _handle: &[u8], _atime: SetTime, _mtime: SetTime) -> Result<(), FsError> {
        Ok(())
    }
    fn create(&self, dir: &[u8], name: &[u8], mode: u32) -> Result<Vec<u8>, FsError> {
        self.add(dir, name, FileType::RegularFile, mode, b"")
    }
    fn remove(&self, dir: &[u8], name: &[u8]) -> Result<(), FsError> {
        self.unlink(dir, name, false)
    }
    fn mkdir(&self, dir: &[u8], name: &[u8], mode: u32) -> Result<Vec<u8>, FsError> {
        self.add(dir, name, FileType::Directory, mode, b"")
    }
    fn rmdir(&self, dir: &[u8], name: &[u8]) -> Result<(), FsError> {
        self.unlink(dir, name, true)
    }
    fn rename(&self, from_dir: &[u8], from_name: &[u8], to_dir: &[u8], to_name: &[u8]) -> Result<(), FsError> {
        let mut nodes = self.nodes.borrow_mut();
        let d = nodes.get_mut(from_dir).ok_or(FsError::Stale)?;
        let pos = d.children.iter().position(|(n, _)| n == from_name).ok_or(FsError::NotFound)?;
        let (_, h) = d.children.remove(pos);
        nodes.get_mut(to_dir).ok_or(FsError::Stale)?.children.push((to_name.to_vec(), h));
        Ok(())
    }
    fn symlink(&self, dir: &[u8], name: &[u8], target: &[u8]) -> Result<Vec<u8>, FsError> {
        let h = self.add(dir, name, FileType::SymbolicLink, 0o777, b"")?;
        self.nodes.borrow_mut().get_mut(&h).unwrap().target = target.to_vec();
        Ok(h)
    }
    fn readlink(&self, handle: &[u8]) -> Result<Vec<u8>, FsError> {
        Ok(self.nodes.borrow().get(handle).ok_or(FsError::Stale)?.target.clone())
    }
    fn link(&self, _file: &[u8], _dir: &[u8], _name: &[u8]) -> Result<Vec<u8>, FsError> {
        Err(FsError::NotSupported)
    }
    fn commit(&self, handle: &[u8], _offset: u64, _count: u32) -> Result<(), FsError> {
        self.nodes.borrow().get(handle).ok_or(FsError::Stale).map(|_| ())
    }
}

fn be32(v: u32) -> Vec<u8> {
    v.to_be_bytes().to_vec()
}

fn call_with_auth(xid: u32, prog: u32, vers: u32, procedure: u32, cred: &[u8], args: &[u8]) -> Vec<u8> {
    let mut b = vec![];
    for w in [xid, 0, 2, prog, vers, procedure] {
        put_u32(&mut b, w);
    }
    put_u32(&mut b, if cred.is_empty() { 0 } else { 1 });
    put_opaque(&mut b, cred);
    put_u32(&mut b, 0);
    put_u32(&mut b, 0);
    b.extend_from_slice(args);
    b
}

fn call(xid: u32, prog: u32, vers: u32, procedure: u32, args: &[u8]) -> Vec<u8> {
    call_with_auth(xid, prog, vers, procedure, &[], args)
}

fn server() -> RpcServer {
    let mut reg = Registry::new();
    reg.set(&Mapping { prog: 100000, vers: 2, prot: 6, port: 2049 });
    reg.set(&Mapping { prog: 100005, vers: 3, prot: 6, port: 2049 });
    reg.set(&Mapping { prog: 100003, vers: 3, prot: 6, port: 2049 });
    let mut s = RpcServer::new(String::from("0.0.0.0:2049"), reg);
    s.set_write_verifier(0x1122_3344_5566_7788);
    s
}

/// Sends a record and returns the reply without its record mark, checking the
/// mark on the way.
fn ask(s: &mut RpcServer, fs: &MemFs, record: &[u8]) -> Vec<u8> {
    let framed = s.handle_record(record, fs).expect("a reply");
    let mark = u32::from_be_bytes([framed[0], framed[1], framed[2], framed[3]]);
    assert_eq!(mark, 0x8000_0000 | (framed.len() as u32 - 4));
    framed[4..].to_vec()
}

/// Checks the accepted-reply header and returns the procedure result.
fn result_of(reply: &[u8], xid: u32, stat: u32) -> Vec<u8> {
    let mut head = vec![];
    for w in [xid, 1, 0, 0, 0, stat] {
        head.extend_from_slice(&be32(w));
    }
    assert_eq!(&reply[..24], &head[..]);
    reply[24..].to_vec()
}

fn diropargs(dir: &[u8], name: &[u8]) -> Vec<u8> {
    let mut b = vec![];
    put_opaque(&mut b, dir);
    put_opaque(&mut b, name);
    b
}

fn status(res: &[u8]) -> u32 {
    get_u32(res, 0).unwrap().0
}

fn lookup(s: &mut RpcServer, fs: &MemFs, dir: &[u8], name: &[u8]) -> (u32, Vec<u8>) {
    let res = result_of(&ask(s, fs, &call(9, 100003, 3, 3, &diropargs(dir, name))), 9, 0);
    let st = status(&res);
    if st == 0 {
        (0, get_opaque(&res, 4).unwrap().0)
    } else {
        (st, vec![])
    }
}

#[test]
fn null_ping() {
    let mut s = server();
    let fs = MemFs::new();
    let framed = s.handle_record(&call(1, 100003, 3, 0, &[]), &fs).unwrap();
    assert_eq!(&framed[0..4], &[0x80, 0x00, 0x00, 0x18]);
    assert_eq!(framed.len(), 28);
    assert_eq!(result_of(&framed[4..], 1, 0), Vec::<u8>::new());
}

#[test]
fn portmap_getport_for_nfs() {
    let mut s = server();
    let fs = MemFs::new();
    let mut args = vec![];
    for w in [100003, 3, 6, 0] {
        put_u32(&mut args, w);
    }
    let res = result_of(&ask(&mut s, &fs, &call(2, 100000, 2, 3, &args)), 2, 0);
    assert_eq!(res, be32(2049));
}

#[test]
fn portmap_set_unset_dump() {
    let mut s = server();
    let fs = MemFs::new();
    let mut args = vec![];
    for w in [200000, 1, 17, 999] {
        put_u32(&mut args, w);
    }
    assert_eq!(result_of(&ask(&mut s, &fs, &call(3, 100000, 2, 1, &args)), 3, 0), be32(1));
    assert_eq!(result_of(&ask(&mut s, &fs, &call(4, 100000, 2, 3, &args)), 4, 0), be32(999));
    let dump = result_of(&ask(&mut s, &fs, &call(5, 100000, 2, 4, &[])), 5, 0);
    assert_eq!(dump.len(), 4 * 20 + 4);
    assert_eq!(result_of(&ask(&mut s, &fs, &call(6, 100000, 2, 2, &args)), 6, 0), be32(1));
    assert_eq!(result_of(&ask(&mut s, &fs, &call(7, 100000, 2, 2, &args)), 7, 0), be32(0));
    assert_eq!(result_of(&ask(&mut s, &fs, &call(8, 100000, 2, 3, &args)), 8, 0), be32(0));
    assert_eq!(s.registry().getport(&Mapping { prog: 100003, vers: 3, prot: 6, port: 0 }), 2049);
    // CALLIT is not offered.
    result_of(&ask(&mut s, &fs, &call(9, 100000, 2, 5, &[])), 9, 3);
}

#[test]
fn registry_operations() {
    let mut reg = Registry::new();
    let m = PortmapMessage::create_mapping(100003, 3, 6, 2049);
    assert!(reg.set(&m));
    assert!(reg.set(&PortmapMessage::create_mapping(100003, 3, 6, 2050)));
    assert_eq!(reg.getport(&m), 2050);
    assert_eq!(reg.dump().len(), 1);
    assert!(reg.unset(&m));
    assert!(!reg.unset(&m));
    assert_eq!(reg.getport(&m), 0);
    assert!(reg.dump().is_empty());
    assert_eq!(PortmapMessage::serialize_bool(true), be32(1));
    assert_eq!(PortmapMessage::serialize_port(2049), be32(2049));
    assert_eq!(PortmapMessage::deserialize_mapping(&[0, 0, 0, 1]), Err(DecodeError::ShortBuffer));
}

fn mnt(s: &mut RpcServer, fs: &MemFs, xid: u32, path: &[u8]) -> Vec<u8> {
    let mut args = vec![];
    put_opaque(&mut args, path);
    result_of(&ask(s, fs, &call(xid, 100005, 3, 1, &args)), xid, 0)
}

#[test]
fn mount_mnt_root() {
    let mut s = server();
    let fs = MemFs::new();
    let res = mnt(&mut s, &fs, 3, b"/");
    let mut expect = be32(0);
    put_opaque(&mut expect, &fs.root_handle());
    for w in [2, 0, 1] {
        expect.extend_from_slice(&be32(w));
    }
    assert_eq!(res, expect);
    assert_eq!(get_opaque(&res, 4).unwrap().0.len(), 32);
}

#[test]
fn mnt_twice_gives_same_handle() {
    let mut s = server();
    let fs = MemFs::new();
    assert_eq!(mnt(&mut s, &fs, 1, b"/export"), mnt(&mut s, &fs, 2, b"/export"));
}

#[test]
fn umnt_always_succeeds() {
    let mut s = server();
    let fs = MemFs::new();
    let mut args = vec![];
    put_opaque(&mut args, b"/never-mounted");
    assert!(result_of(&ask(&mut s, &fs, &call(4, 100005, 3, 3, &args)), 4, 0).is_empty());
    mnt(&mut s, &fs, 5, b"/never-mounted");
    assert!(result_of(&ask(&mut s, &fs, &call(6, 100005, 3, 3, &args)), 6, 0).is_empty());
    assert!(result_of(&ask(&mut s, &fs, &call(7, 100005, 3, 3, &args)), 7, 0).is_empty());
    assert!(result_of(&ask(&mut s, &fs, &call(9, 100005, 3, 3, &[])), 9, 0).is_empty());
    assert_eq!(result_of(&ask(&mut s, &fs, &call(8, 100005, 3, 5, &[])), 8, 0), be32(0));
}

fn hello_fs() -> MemFs {
    let fs = MemFs::new();
    fs.add(&fh(1), b"hello.txt", FileType::RegularFile, 0o644, b"Hi\n").unwrap();
    fs
}

#[test]
fn lookup_hello() {
    let mut s = server();
    let fs = hello_fs();
    let res = result_of(&ask(&mut s, &fs, &call(4, 100003, 3, 3, &diropargs(&fh(1), b"hello.txt"))), 4, 0);
    assert_eq!(status(&res), 0);
    let (h, p) = get_opaque(&res, 4).unwrap();
    assert_eq!(h.len(), 32);
    assert_eq!(get_u32(&res, p).unwrap().0, 1);
    assert_eq!(get_u32(&res, p + 4).unwrap().0, 1);
    assert_eq!(get_u32(&res, p + 8).unwrap().0, 0o644);
    assert_eq!(get_u32(&res, p + 12).unwrap().0, 1);
    assert_eq!(get_u64(&res, p + 24).unwrap().0, 3);
    assert_eq!(get_u32(&res, p + 4 + 84).unwrap().0, 1);
    assert_eq!(res.len(), p + 88 + 88);
}

#[test]
fn read_hello() {
    let mut s = server();
    let fs = hello_fs();
    let (_, h) = lookup(&mut s, &fs, &fh(1), b"hello.txt");
    let mut args = vec![];
    put_opaque(&mut args, &h);
    put_u64(&mut args, 0);
    put_u32(&mut args, 4096);
    let res = result_of(&ask(&mut s, &fs, &call(5, 100003, 3, 6, &args)), 5, 0);
    assert_eq!(status(&res), 0);
    assert_eq!(get_u32(&res, 4).unwrap().0, 1);
    let tail = &res[8 + 84..];
    assert_eq!(tail, &[0, 0, 0, 3, 0, 0, 0, 1, 0, 0, 0, 3, 0x48, 0x69, 0x0A, 0x00]);
}

#[test]
fn read_at_end_of_file() {
    let mut s = server();
    let fs = hello_fs();
    let (_, h) = lookup(&mut s, &fs, &fh(1), b"hello.txt");
    let mut args = vec![];
    put_opaque(&mut args, &h);
    put_u64(&mut args, 3);
    put_u32(&mut args, 10);
    let res = result_of(&ask(&mut s, &fs, &call(5, 100003, 3, 6, &args)), 5, 0);
    assert_eq!(&res[8 + 84..], &[0, 0, 0, 0, 0, 0, 0, 1, 0, 0, 0, 0]);
}

fn write_args(h: &[u8], offset: u64, stable: u32, data: &[u8]) -> Vec<u8> {
    let mut args = vec![];
    put_opaque(&mut args, h);
    put_u64(&mut args, offset);
    put_u32(&mut args, data.len() as u32);
    put_u32(&mut args, stable);
    put_opaque(&mut args, data);
    args
}

#[test]
fn create_write_commit_read() {
    let mut s = server();
    let fs = MemFs::new();
    let mut args = diropargs(&fh(1), b"x");
    put_u32(&mut args, 0);
    for w in [1, 0o600, 0, 0, 0, 0, 0] {
        put_u32(&mut args, w);
    }
    let res = result_of(&ask(&mut s, &fs, &call(10, 100003, 3, 8, &args)), 10, 0);
    assert_eq!(status(&res), 0);
    assert_eq!(get_u32(&res, 4).unwrap().0, 1);
    let h = get_opaque(&res, 8).unwrap().0;
    assert_eq!(fs.getattr(&h).unwrap().mode, 0o600);

    let res = result_of(&ask(&mut s, &fs, &call(11, 100003, 3, 7, &write_args(&h, 0, 0, b"world"))), 11, 0);
    assert_eq!(status(&res), 0);
    let n = res.len();
    assert_eq!(&res[n - 16..n - 8], &[0, 0, 0, 5, 0, 0, 0, 0]);
    let verf = res[n - 8..].to_vec();
    assert_eq!(verf, 0x1122_3344_5566_7788u64.to_be_bytes().to_vec());

    let mut args = vec![];
    put_opaque(&mut args, &h);
    put_u64(&mut args, 0);
    put_u32(&mut args, 0);
    let res = result_of(&ask(&mut s, &fs, &call(12, 100003, 3, 21, &args)), 12, 0);
    assert_eq!(status(&res), 0);
    assert_eq!(res[res.len() - 8..].to_vec(), verf);

    let mut args = vec![];
    put_opaque(&mut args, &h);
    put_u64(&mut args, 0);
    put_u32(&mut args, 5);
    let res = result_of(&ask(&mut s, &fs, &call(13, 100003, 3, 6, &args)), 13, 0);
    assert_eq!(&res[res.len() - 8..], b"world\0\0\0");
}

#[test]
fn write_of_nothing_is_a_no_op() {
    let mut s = server();
    let fs = hello_fs();
    let (_, h) = lookup(&mut s, &fs, &fh(1), b"hello.txt");
    let res = result_of(&ask(&mut s, &fs, &call(14, 100003, 3, 7, &write_args(&h, 1, 2, b""))), 14, 0);
    assert_eq!(status(&res), 0);
    let n = res.len();
    assert_eq!(&res[n - 16..n - 8], &[0, 0, 0, 0, 0, 0, 0, 2]);
    assert_eq!(fs.read(&h, 0, 10).unwrap(), b"Hi\n".to_vec());
}

#[test]
fn remove_missing_name_is_noent() {
    let mut s = server();
    let fs = hello_fs();
    let args = diropargs(&fh(1), b"hello.txt");
    assert_eq!(status(&result_of(&ask(&mut s, &fs, &call(15, 100003, 3, 12, &args)), 15, 0)), 0);
    assert_eq!(status(&result_of(&ask(&mut s, &fs, &call(16, 100003, 3, 12, &args)), 16, 0)), 2);
    assert_eq!(status(&result_of(&ask(&mut s, &fs, &call(17, 100003, 3, 12, &args)), 17, 0)), 2);
    assert_eq!(lookup(&mut s, &fs, &fh(1), b"hello.txt").0, 2);
}

#[test]
fn setattr_without_changes() {
    let mut s = server();
    let fs = hello_fs();
    let (_, h) = lookup(&mut s, &fs, &fh(1), b"hello.txt");
    let before = fs.getattr(&h).unwrap();
    let mut args = vec![];
    put_opaque(&mut args, &h);
    for w in [0, 0, 0, 0, 0, 0, 0] {
        put_u32(&mut args, w);
    }
    let res = result_of(&ask(&mut s, &fs, &call(18, 100003, 3, 2, &args)), 18, 0);
    assert_eq!(status(&res), 0);
    assert_eq!(fs.getattr(&h).unwrap(), before);
}

#[test]
fn setattr_truncates_and_reports_owner_failure() {
    let mut s = server();
    let fs = hello_fs();
    let (_, h) = lookup(&mut s, &fs, &fh(1), b"hello.txt");
    let mut args = vec![];
    put_opaque(&mut args, &h);
    for w in [0, 1, 7, 0, 1] {
        put_u32(&mut args, w);
    }
    put_u64(&mut args, 1);
    for w in [0, 0, 0] {
        put_u32(&mut args, w);
    }
    let res = result_of(&ask(&mut s, &fs, &call(19, 100003, 3, 2, &args)), 19, 0);
    assert_eq!(status(&res), 13);
    assert_eq!(fs.read(&h, 0, 10).unwrap(), b"H".to_vec());
}

#[test]
fn readdir_from_the_beginning() {
    let mut s = server();
    let fs = hello_fs();
    fs.add(&fh(1), b"b", FileType::Directory, 0o755, b"").unwrap();
    let mut args = vec![];
    put_opaque(&mut args, &fh(1));
    put_u64(&mut args, 0);
    put_u64(&mut args, 0);
    put_u32(&mut args, 100);
    let res = result_of(&ask(&mut s, &fs, &call(20, 100003, 3, 16, &args)), 20, 0);
    assert_eq!(status(&res), 0);
    let mut p = 8 + 84 + 8;
    let mut names = vec![];
    let mut cookies = vec![];
    while get_u32(&res, p).unwrap().0 == 1 {
        let (name, q) = get_opaque(&res, p + 12).unwrap();
        names.push(name);
        cookies.push(get_u64(&res, q).unwrap().0);
        p = q + 8;
    }
    assert_eq!(names, vec![b"hello.txt".to_vec(), b"b".to_vec()]);
    assert_eq!(cookies, vec![1, 2]);
    assert_eq!(get_u32(&res, p + 4).unwrap().0, 1);
    assert_eq!(res.len(), p + 8);

    // A foreign cookie verifier is refused.
    let mut bad = vec![];
    put_opaque(&mut bad, &fh(1));
    put_u64(&mut bad, 1);
    put_u64(&mut bad, 9);
    put_u32(&mut bad, 100);
    assert_eq!(status(&result_of(&ask(&mut s, &fs, &call(21, 100003, 3, 16, &bad)), 21, 0)), 10003);
}

#[test]
fn readdirplus_carries_handles() {
    let mut s = server();
    let fs = hello_fs();
    let mut args = vec![];
    put_opaque(&mut args, &fh(1));
    put_u64(&mut args, 0);
    put_u64(&mut args, 0);
    put_u32(&mut args, 8192);
    put_u32(&mut args, 32768);
    let res = result_of(&ask(&mut s, &fs, &call(22, 100003, 3, 17, &args)), 22, 0);
    assert_eq!(status(&res), 0);
    let p = 8 + 84 + 8;
    assert_eq!(get_u32(&res, p).unwrap().0, 1);
    let (name, q) = get_opaque(&res, p + 12).unwrap();
    assert_eq!(name, b"hello.txt".to_vec());
    let q = q + 8;
    assert_eq!(get_u32(&res, q).unwrap().0, 1);
    assert_eq!(get_u32(&res, q + 88).unwrap().0, 1);
    assert_eq!(get_opaque(&res, q + 92).unwrap().0, fs.lookup(&fh(1), b"hello.txt").unwrap());
}

#[test]
fn file_name_length_limit() {
    let mut s = server();
    let fs = MemFs::new();
    let ok = vec![b'a'; 255];
    let long = vec![b'a'; 256];
    assert_eq!(validate_name(&ok), Ok(()));
    assert_eq!(validate_name(&long), Err(FsError::NameTooLong));
    let mk = |name: &[u8]| {
        let mut a = diropargs(&fh(1), name);
        for w in [0, 0, 0, 0, 0, 0] {
            put_u32(&mut a, w);
        }
        a
    };
    assert_eq!(status(&result_of(&ask(&mut s, &fs, &call(23, 100003, 3, 9, &mk(&ok))), 23, 0)), 0);
    assert_eq!(status(&result_of(&ask(&mut s, &fs, &call(24, 100003, 3, 9, &mk(&long))), 24, 0)), 63);
}

#[test]
fn unsafe_names_are_invalid() {
    assert_eq!(validate_name(b"../etc/passwd"), Err(FsError::Invalid));
    assert_eq!(validate_name(b"subdir/../file"), Err(FsError::Invalid));
    assert_eq!(validate_name(b"dir/file"), Err(FsError::Invalid));
    assert_eq!(validate_name(b"nul\0byte"), Err(FsError::Invalid));
    assert_eq!(validate_name(b"file.txt"), Ok(()));
    let mut s = server();
    let fs = MemFs::new();
    assert_eq!(lookup(&mut s, &fs, &fh(1), b"..").0, 22);
}

#[test]
fn oversized_record_is_refused() {
    let assembler = RecordAssembler::new(DEFAULT_RECORD_CAP);
    assert_eq!(assembler.accept_header(0x8000_0000 | (16 * 1024 * 1024 + 1)), Err(FramingError::RecordTooLarge));
    let h = assembler.accept_header(0x8000_0000 | (16 * 1024 * 1024)).unwrap();
    assert!(h.last);
    assert_eq!(h.len, 16 * 1024 * 1024);
}

#[test]
fn fragments_are_reassembled() {
    let mut assembler = RecordAssembler::new(DEFAULT_RECORD_CAP);
    let h = assembler.accept_header(3).unwrap();
    assert!(!h.last);
    assert_eq!(assembler.push_fragment(h.last, b"abc"), None);
    let h = assembler.accept_header(0x8000_0002).unwrap();
    assert_eq!(assembler.push_fragment(h.last, b"de"), Some(b"abcde".to_vec()));
    assert_eq!(assembler.push_fragment(true, b"f"), Some(b"f".to_vec()));
    let f = parse_fragment_header(0x8000_0010);
    assert!(f.last && f.len == 16);
}

#[test]
fn reply_framing() {
    assert_eq!(frame_reply(&[1, 2, 3]), vec![0x80, 0, 0, 3, 1, 2, 3]);
    assert_eq!(frame_reply(&[]), vec![0x80, 0, 0, 0]);
}

#[test]
fn auth_sys_credentials_are_skipped() {
    let mut s = server();
    let fs = MemFs::new();
    let cred = vec![7u8; 21];
    let record = call_with_auth(30, 100003, 3, 0, &cred, &[]);
    let c = parse_call(&record).unwrap();
    assert_eq!(c.args_offset, 24 + 8 + 24 + 8);
    assert_eq!(result_of(&ask(&mut s, &fs, &record), 30, 0), Vec::<u8>::new());
}

#[test]
fn rpc_errors() {
    let mut s = server();
    let fs = MemFs::new();
    result_of(&ask(&mut s, &fs, &call(40, 123456, 1, 0, &[])), 40, 1);
    assert_eq!(result_of(&ask(&mut s, &fs, &call(41, 100003, 2, 0, &[])), 41, 2), [be32(3), be32(3)].concat());
    assert_eq!(result_of(&ask(&mut s, &fs, &call(42, 100005, 1, 0, &[])), 42, 2), [be32(3), be32(3)].concat());
    assert_eq!(result_of(&ask(&mut s, &fs, &call(43, 100000, 3, 0, &[])), 43, 2), [be32(2), be32(2)].concat());
    result_of(&ask(&mut s, &fs, &call(44, 100003, 3, 22, &[])), 44, 3);
    result_of(&ask(&mut s, &fs, &call(45, 100003, 3, 1, &[0, 0])), 45, 4);
    let mut rec = call(46, 100003, 3, 0, &[]);
    rec[11] = 3;
    let reply = ask(&mut s, &fs, &rec);
    assert_eq!(reply, [be32(46), be32(1), be32(1), be32(0), be32(2), be32(2)].concat());
    assert_eq!(s.handle_record(&[0, 0, 0, 1, 0, 0], &fs), None);
    let mut reply_msg = call(47, 100003, 3, 0, &[]);
    reply_msg[7] = 1;
    assert_eq!(s.handle_record(&reply_msg, &fs), None);
}

#[test]
fn xdr_round_trip() {
    let mut b = vec![];
    put_u32(&mut b, 0xdead_beef);
    put_u64(&mut b, 0x0102_0304_0506_0708);
    put_opaque(&mut b, b"hello");
    assert_eq!(b.len(), 4 + 8 + 4 + 8);
    assert_eq!(get_u32(&b, 0), Ok((0xdead_beef, 4)));
    assert_eq!(get_u64(&b, 4), Ok((0x0102_0304_0506_0708, 12)));
    assert_eq!(get_opaque(&b, 12), Ok((b"hello".to_vec(), 24)));
    assert_eq!(&b[16..24], b"hello\0\0\0");
    assert_eq!(get_u32(&b, 22), Err(DecodeError::ShortBuffer));
    assert_eq!(get_opaque(&[0, 0, 0, 9, 1, 2], 0), Err(DecodeError::LengthExceedsBudget));
    assert_eq!(arcticwolf::xdr::get_bool(&be32(2), 0), Err(DecodeError::BadEnum));
}

fn sample_attrs() -> FileAttributes {
    FileAttributes {
        ftype: FileType::RegularFile,
        mode: 0o644,
        nlink: 1,
        uid: 1000,
        gid: 100,
        size: 3,
        used: 4096,
        rdev_major: 0,
        rdev_minor: 0,
        fsid: 1,
        fileid: 42,
        atime: FileTime { seconds: 0x1_0000_0005, nseconds: 1 },
        mtime: FileTime { seconds: 6, nseconds: 2 },
        ctime: FileTime { seconds: 7, nseconds: 3 },
    }
}

#[test]
fn post_op_attr_bytes() {
    let mut b = vec![];
    put_post_op_attr(&mut b, &None);
    assert_eq!(b, vec![0, 0, 0, 0]);
    let f: Fattr3 = NfsMessage::fsal_to_fattr3(&sample_attrs());
    assert_eq!(f.atime.seconds, 5);
    let mut b = vec![];
    put_post_op_attr(&mut b, &Some(f));
    assert_eq!(b.len(), 4 + 84);
    assert_eq!(&b[0..8], &[0, 0, 0, 1, 0, 0, 0, 1]);
    assert_eq!(&b[8..12], &be32(0o644)[..]);
    let ok = NfsMessage::create_getattr_ok(&f);
    assert_eq!(ok.len(), 88);
    assert_eq!(NfsMessage::create_status_response(NfsStat3::Stale), be32(70));
    assert_eq!(NfsMessage::create_attr_error_response(NfsStat3::Io, &None), [be32(5), be32(0)].concat());
    assert_eq!(
        NfsMessage::create_wcc_error_response(NfsStat3::Acces, &None, &None),
        [be32(13), be32(0), be32(0)].concat()
    );
    let r = NfsMessage::create_read_ok(&None, 2, true, b"ab");
    assert_eq!(r, [be32(0), be32(0), be32(2), be32(1), be32(2), vec![b'a', b'b', 0, 0]].concat());
    let a = NfsMessage::create_access_ok(&None, 0x3);
    assert_eq!(a, [be32(0), be32(0), be32(3)].concat());
    let l = NfsMessage::create_lookup_ok(&[9, 9], &None, &None);
    assert_eq!(l, [be32(0), be32(2), vec![9, 9, 0, 0], be32(0), be32(0)].concat());
    let s = NfsMessage::create_fsstat_ok(&None, 1, 2, 3, 4, 5, 6, 7);
    assert_eq!(s.len(), 4 + 4 + 48 + 4);
}

#[test]
fn error_statuses() {
    let pairs = [
        (FsError::NotFound, 2),
        (FsError::PermissionDenied, 13),
        (FsError::AlreadyExists, 17),
        (FsError::NotDir, 20),
        (FsError::IsDir, 21),
        (FsError::ReadOnly, 30),
        (FsError::NoSpace, 28),
        (FsError::CrossDevice, 18),
        (FsError::Invalid, 22),
        (FsError::NotSupported, 10004),
        (FsError::NotEmpty, 66),
        (FsError::NameTooLong, 63),
        (FsError::Stale, 70),
        (FsError::Io, 5),
    ];
    for (e, code) in pairs {
        assert_eq!(map_error_to_status(e).code(), code);
    }
}

#[test]
fn stale_handle_and_access() {
    let mut s = server();
    let fs = hello_fs();
    let mut args = vec![];
    put_opaque(&mut args, &fh(99));
    let res = result_of(&ask(&mut s, &fs, &call(50, 100003, 3, 1, &args)), 50, 0);
    assert_eq!(res, be32(70));
    let (_, h) = lookup(&mut s, &fs, &fh(1), b"hello.txt");
    let mut args = vec![];
    put_opaque(&mut args, &h);
    put_u32(&mut args, 0x3f);
    let res = result_of(&ask(&mut s, &fs, &call(51, 100003, 3, 4, &args)), 51, 0);
    assert_eq!(&res[res.len() - 4..], &be32(0x3d)[..]);
    let mut args = vec![];
    put_opaque(&mut args, &fh(1));
    put_u32(&mut args, 0x3f);
    let res = result_of(&ask(&mut s, &fs, &call(52, 100003, 3, 4, &args)), 52, 0);
    assert_eq!(&res[res.len() - 4..], &be32(0x3f)[..]);
}

#[test]
fn mkdir_rmdir_rename_and_links() {
    let mut s = server();
    let fs = hello_fs();
    let mut a = diropargs(&fh(1), b"d");
    for w in [0, 0, 0, 0, 0, 0] {
        put_u32(&mut a, w);
    }
    assert_eq!(status(&result_of(&ask(&mut s, &fs, &call(60, 100003, 3, 9, &a)), 60, 0)), 0);
    assert_eq!(status(&result_of(&ask(&mut s, &fs, &call(61, 100003, 3, 9, &a)), 61, 0)), 17);
    let mut r = diropargs(&fh(1), b"hello.txt");
    r.extend_from_slice(&diropargs(&fh(1), b"bye.txt"));
    assert_eq!(status(&result_of(&ask(&mut s, &fs, &call(62, 100003, 3, 14, &r)), 62, 0)), 0);
    assert_eq!(lookup(&mut s, &fs, &fh(1), b"bye.txt").0, 0);
    assert_eq!(lookup(&mut s, &fs, &fh(1), b"hello.txt").0, 2);
    let rm = diropargs(&fh(1), b"d");
    assert_eq!(status(&result_of(&ask(&mut s, &fs, &call(63, 100003, 3, 13, &rm)), 63, 0)), 0);
    let mut sl = diropargs(&fh(1), b"ln");
    for w in [0, 0, 0, 0, 0, 0] {
        put_u32(&mut sl, w);
    }
    put_opaque(&mut sl, b"bye.txt");
    let res = result_of(&ask(&mut s, &fs, &call(64, 100003, 3, 10, &sl)), 64, 0);
    assert_eq!(status(&res), 0);
    let link = get_opaque(&res, 8).unwrap().0;
    let mut rl = vec![];
    put_opaque(&mut rl, &link);
    let res = result_of(&ask(&mut s, &fs, &call(65, 100003, 3, 5, &rl)), 65, 0);
    assert_eq!(&res[res.len() - 12..], &[0, 0, 0, 7, b'b', b'y', b'e', b'.', b't', b'x', b't', 0]);
    let mut mk = diropargs(&fh(1), b"fifo");
    put_u32(&mut mk, 7);
    for w in [0, 0, 0, 0, 0, 0] {
        put_u32(&mut mk, w);
    }
    assert_eq!(status(&result_of(&ask(&mut s, &fs, &call(66, 100003, 3, 11, &mk)), 66, 0)), 10004);
    let mut lk = vec![];
    put_opaque(&mut lk, &link);
    lk.extend_from_slice(&diropargs(&fh(1), b"hard"));
    assert_eq!(status(&result_of(&ask(&mut s, &fs, &call(67, 100003, 3, 15, &lk)), 67, 0)), 10004);
    for procedure in [18, 19, 20] {
        let mut a = vec![];
        put_opaque(&mut a, &fh(1));
        assert_eq!(status(&result_of(&ask(&mut s, &fs, &call(68, 100003, 3, procedure, &a)), 68, 0)), 0);
    }
}

#[test]
fn backend_configuration() {
    let c = BackendConfig::local(String::from("/srv/export"));
    assert_eq!(c.backend_type, BackendType::Local);
    assert_eq!(c.create_filesystem(), Ok(String::from("/srv/export")));
    let mut none = c.clone();
    none.local_root = None;
    assert_eq!(none.create_filesystem(), Err(BackendError::RootNotConfigured));
    let mut s3 = c.clone();
    s3.backend_type = BackendType::S3;
    assert_eq!(s3.create_filesystem(), Err(BackendError::NotImplemented(BackendType::S3)));
}

// Procedure handlers called directly, with transaction id 12345.

use arcticwolf::nfs::{handle_getattr, handle_lookup, handle_null, handle_read};
use arcticwolf::nfs_info::{handle_access, handle_fsinfo, handle_fsstat};
use arcticwolf::nfs_modify::handle_write;
use arcticwolf::nfs_names::{handle_create, handle_mkdir, handle_remove, handle_rename, handle_rmdir};
use arcticwolf::nfs_readdir::handle_readdirplus;

fn fh_args(h: &[u8]) -> Vec<u8> {
    let mut a = vec![];
    put_opaque(&mut a, h);
    a
}

fn body_status(reply: &[u8]) -> u32 {
    status(&result_of(reply, 12345, 0))
}

#[test]
fn test_null_procedure() {
    let reply = handle_null(12345);
    assert!(!reply.is_empty(), "Reply should contain data");
    assert_eq!(reply.len(), 24, "Reply should have RPC header");
    assert_eq!(&reply[0..4], &12345u32.to_be_bytes());
}

#[test]
fn test_access_file() {
    let fs = MemFs::new();
    let h = fs.add(&fh(1), b"access_test.txt", FileType::RegularFile, 0o644, b"test content").unwrap();
    let mut a = fh_args(&h);
    put_u32(&mut a, 0x1f);
    let reply = handle_access(12345, &a, &fs);
    assert_eq!(body_status(&reply), 0, "ACCESS should succeed for existing file");
    assert!(reply.len() > 24, "Reply should contain data");
}

#[test]
fn test_access_directory() {
    let fs = MemFs::new();
    let mut a = fh_args(&fh(1));
    put_u32(&mut a, 0x3f);
    assert_eq!(body_status(&handle_access(12345, &a, &fs)), 0, "ACCESS should succeed for directory");
}

#[test]
fn test_access_invalid_handle() {
    let fs = MemFs::new();
    let mut a = fh_args(&[0xff; 32]);
    put_u32(&mut a, 0x1);
    assert_eq!(body_status(&handle_access(12345, &a, &fs)), 70, "ACCESS should return error response (not panic)");
}

#[test]
fn test_fsinfo_root() {
    let fs = MemFs::new();
    let reply = handle_fsinfo(12345, &fh_args(&fh(1)), &fs);
    assert_eq!(body_status(&reply), 0, "FSINFO should succeed");
    assert_eq!(reply.len(), 24 + 4 + 88 + 48, "Reply should contain data");
}

#[test]
fn test_fsinfo_invalid_handle() {
    let fs = MemFs::new();
    assert_eq!(body_status(&handle_fsinfo(12345, &fh_args(&[0xff; 32]), &fs)), 70, "FSINFO should return error response (not panic)");
}

#[test]
fn test_fsstat_root() {
    let fs = MemFs::new();
    let reply = handle_fsstat(12345, &fh_args(&fh(1)), &fs);
    assert_eq!(body_status(&reply), 0, "FSSTAT should succeed");
    assert_eq!(reply.len(), 24 + 4 + 88 + 52, "Reply should contain data");
}

#[test]
fn test_fsstat_invalid_handle() {
    let fs = MemFs::new();
    assert_eq!(body_status(&handle_fsstat(12345, &fh_args(&[0xff; 32]), &fs)), 70, "FSSTAT should return error response (not panic)");
}

#[test]
fn getattr_test_getattr_root() {
    let fs = MemFs::new();
    let reply = handle_getattr(12345, &fh_args(&fh(1)), &fs);
    assert_eq!(body_status(&reply), 0, "GETATTR should succeed for root");
    assert_eq!(reply.len(), 24 + 4 + 84, "Reply should contain data");
}

#[test]
fn test_lookup_existing_file() {
    let fs = MemFs::new();
    fs.add(&fh(1), b"testfile.txt", FileType::RegularFile, 0o644, b"hello world").unwrap();
    let reply = handle_lookup(12345, &diropargs(&fh(1), b"testfile.txt"), &fs);
    assert_eq!(body_status(&reply), 0, "LOOKUP should succeed for existing file");
    assert!(reply.len() > 24, "Reply should contain data");
}

#[test]
fn test_lookup_nonexistent_file() {
    let fs = MemFs::new();
    let reply = handle_lookup(12345, &diropargs(&fh(1), b"nonexistent.txt"), &fs);
    assert_eq!(body_status(&reply), 2, "LOOKUP should return error response (not panic)");
}

fn read_args(h: &[u8], offset: u64, count: u32) -> Vec<u8> {
    let mut a = fh_args(h);
    put_u64(&mut a, offset);
    put_u32(&mut a, count);
    a
}

#[test]
fn test_read_file() {
    let fs = MemFs::new();
    let content = b"Hello, NFS World! This is a test file.";
    let h = fs.add(&fh(1), b"readtest.txt", FileType::RegularFile, 0o644, content).unwrap();
    let reply = handle_read(12345, &read_args(&h, 0, 100), &fs);
    assert_eq!(body_status(&reply), 0, "READ should succeed");
    let res = result_of(&reply, 12345, 0);
    assert_eq!(get_opaque(&res, 4 + 88 + 8).unwrap().0, content.to_vec(), "Reply should contain data");
}

#[test]
fn test_read_partial() {
    let fs = MemFs::new();
    let h = fs.add(&fh(1), b"partial.txt", FileType::RegularFile, 0o644, b"0123456789ABCDEFGHIJ").unwrap();
    let res = result_of(&handle_read(12345, &read_args(&h, 10, 10), &fs), 12345, 0);
    assert_eq!(status(&res), 0, "Partial READ should succeed");
    assert_eq!(get_opaque(&res, 4 + 88 + 8).unwrap().0, b"ABCDEFGHIJ".to_vec());
}

#[test]
fn test_read_nonexistent_handle() {
    let fs = MemFs::new();
    assert_eq!(body_status(&handle_read(12345, &read_args(&[0xff; 32], 0, 100), &fs)), 70, "READ should return error response (not panic)");
}

#[test]
fn test_write_file() {
    let fs = MemFs::new();
    let h = fs.add(&fh(1), b"writetest.txt", FileType::RegularFile, 0o644, b"").unwrap();
    let reply = handle_write(12345, &write_args(&h, 0, 2, b"Hello, NFS World!"), 7, &fs);
    assert_eq!(body_status(&reply), 0, "WRITE should succeed");
    assert_eq!(fs.read(&h, 0, 100).unwrap(), b"Hello, NFS World!".to_vec());
}

#[test]
fn test_write_with_offset() {
    let fs = MemFs::new();
    let h = fs.add(&fh(1), b"offset.txt", FileType::RegularFile, 0o644, b"0123456789").unwrap();
    let reply = handle_write(12345, &write_args(&h, 5, 0, b"ABCDE"), 7, &fs);
    assert_eq!(body_status(&reply), 0, "WRITE with offset should succeed");
    assert_eq!(fs.read(&h, 0, 100).unwrap(), b"01234ABCDE".to_vec());
}

#[test]
fn test_write_nonexistent_handle() {
    let fs = MemFs::new();
    assert_eq!(body_status(&handle_write(12345, &write_args(&[0xff; 32], 0, 0, b"test"), 7, &fs)), 70, "WRITE should return error response (not panic)");
}

fn sattr_none() -> Vec<u8> {
    let mut a = vec![];
    for w in [0, 0, 0, 0, 0, 0] {
        put_u32(&mut a, w);
    }
    a
}

#[test]
fn test_create_file() {
    let fs = MemFs::new();
    let mut a = diropargs(&fh(1), b"new_file.txt");
    put_u32(&mut a, 0);
    a.extend_from_slice(&sattr_none());
    assert_eq!(body_status(&handle_create(12345, &a, &fs)), 0, "CREATE should succeed");
    assert!(fs.lookup(&fh(1), b"new_file.txt").is_ok(), "File should be created");
}

#[test]
fn test_create_existing_file_unchecked() {
    let fs = MemFs::new();
    fs.add(&fh(1), b"existing.txt", FileType::RegularFile, 0o644, b"old content").unwrap();
    let mut a = diropargs(&fh(1), b"existing.txt");
    put_u32(&mut a, 0);
    a.extend_from_slice(&sattr_none());
    assert_eq!(body_status(&handle_create(12345, &a, &fs)), 0, "CREATE UNCHECKED should succeed even if file exists");
    let mut g = diropargs(&fh(1), b"existing.txt");
    put_u32(&mut g, 1);
    g.extend_from_slice(&sattr_none());
    assert_eq!(body_status(&handle_create(12345, &g, &fs)), 17);
}

#[test]
fn test_mkdir() {
    let fs = MemFs::new();
    let mut a = diropargs(&fh(1), b"testdir");
    a.extend_from_slice(&sattr_none());
    assert_eq!(body_status(&handle_mkdir(12345, &a, &fs)), 0, "MKDIR should succeed");
    let h = fs.lookup(&fh(1), b"testdir").expect("Directory should be created");
    assert_eq!(fs.getattr(&h).unwrap().ftype, FileType::Directory, "Should be a directory");
}

#[test]
fn test_mkdir_already_exists() {
    let fs = MemFs::new();
    fs.add(&fh(1), b"existingdir", FileType::Directory, 0o755, b"").unwrap();
    let mut a = diropargs(&fh(1), b"existingdir");
    a.extend_from_slice(&sattr_none());
    assert_eq!(body_status(&handle_mkdir(12345, &a, &fs)), 17, "MKDIR should return response (not crash)");
}

#[test]
fn remove_test_remove_file() {
    let fs = MemFs::new();
    fs.add(&fh(1), b"test_file.txt", FileType::RegularFile, 0o644, b"test content").unwrap();
    assert_eq!(body_status(&handle_remove(12345, &diropargs(&fh(1), b"test_file.txt"), &fs)), 0, "REMOVE should succeed");
    assert!(fs.lookup(&fh(1), b"test_file.txt").is_err(), "File should be removed");
}

#[test]
fn test_remove_nonexistent_file() {
    let fs = MemFs::new();
    assert_eq!(body_status(&handle_remove(12345, &diropargs(&fh(1), b"does_not_exist.txt"), &fs)), 2, "REMOVE should return response (not crash)");
}

#[test]
fn rmdir_test_rmdir() {
    let fs = MemFs::new();
    fs.add(&fh(1), b"emptydir", FileType::Directory, 0o755, b"").unwrap();
    assert_eq!(body_status(&handle_rmdir(12345, &diropargs(&fh(1), b"emptydir"), &fs)), 0, "RMDIR should succeed");
    assert!(fs.lookup(&fh(1), b"emptydir").is_err(), "Directory should be removed");
}

#[test]
fn test_rmdir_nonexistent() {
    let fs = MemFs::new();
    assert_eq!(body_status(&handle_rmdir(12345, &diropargs(&fh(1), b"does_not_exist"), &fs)), 2, "RMDIR should return response (not crash)");
}

#[test]
fn test_rmdir_not_empty() {
    let fs = MemFs::new();
    let d = fs.add(&fh(1), b"nonemptydir", FileType::Directory, 0o755, b"").unwrap();
    fs.add(&d, b"somefile.txt", FileType::RegularFile, 0o644, b"data").unwrap();
    assert_eq!(body_status(&handle_rmdir(12345, &diropargs(&fh(1), b"nonemptydir"), &fs)), 66, "RMDIR should return response (not crash)");
    assert!(fs.lookup(&fh(1), b"nonemptydir").is_ok(), "Directory should still exist");
}

#[test]
fn test_rename_file() {
    let fs = MemFs::new();
    fs.add(&fh(1), b"oldname.txt", FileType::RegularFile, 0o644, b"test content").unwrap();
    let mut a = diropargs(&fh(1), b"oldname.txt");
    a.extend_from_slice(&diropargs(&fh(1), b"newname.txt"));
    assert_eq!(body_status(&handle_rename(12345, &a, &fs)), 0, "RENAME should succeed");
    assert!(fs.lookup(&fh(1), b"oldname.txt").is_err(), "Old file should not exist");
    assert!(fs.lookup(&fh(1), b"newname.txt").is_ok(), "New file should exist");
}

#[test]
fn test_rename_directory() {
    let fs = MemFs::new();
    fs.add(&fh(1), b"olddir", FileType::Directory, 0o755, b"").unwrap();
    let mut a = diropargs(&fh(1), b"olddir");
    a.extend_from_slice(&diropargs(&fh(1), b"newdir"));
    let reply = handle_rename(12346, &a, &fs);
    assert_eq!(status(&result_of(&reply, 12346, 0)), 0, "RENAME should succeed");
    assert!(fs.lookup(&fh(1), b"olddir").is_err(), "Old directory should not exist");
    assert!(fs.lookup(&fh(1), b"newdir").is_ok(), "New directory should exist");
}

#[test]
fn test_readdirplus_basic() {
    let fs = MemFs::new();
    fs.add(&fh(1), b"file1.txt", FileType::RegularFile, 0o644, b"content1").unwrap();
    fs.add(&fh(1), b"file2.txt", FileType::RegularFile, 0o644, b"content2").unwrap();
    fs.add(&fh(1), b"subdir", FileType::Directory, 0o755, b"").unwrap();
    let mut a = fh_args(&fh(1));
    put_u64(&mut a, 0);
    put_u64(&mut a, 0);
    put_u32(&mut a, 8192);
    put_u32(&mut a, 32768);
    let reply = handle_readdirplus(12345, &a, &fs);
    assert_eq!(body_status(&reply), 0);
    assert!(reply.len() > 24 + 100);
}

#[test]
fn record_cap_counts_buffered_bytes() {
    let mut assembler = RecordAssembler::new(5);
    let h = assembler.accept_header(3).unwrap();
    assert_eq!(assembler.push_fragment(h.last, b"abc"), None);
    assert_eq!(assembler.accept_header(0x8000_0003), Err(FramingError::RecordTooLarge));
    let h = assembler.accept_header(0x8000_0002).unwrap();
    assert_eq!(assembler.push_fragment(h.last, b"de"), Some(b"abcde".to_vec()));
    assert!(assembler.accept_header(0x8000_0005).is_ok());
}

#[test]
fn exclusive_create_retry_succeeds() {
    let mut s = server();
    let fs = MemFs::new();
    fs.add(&fh(1), b"made", FileType::RegularFile, 0o600, b"").unwrap();
    // The in-memory backend reports 1000 s for every time stamp, which is the
    // stamp of the verifier (1000 << 32) | 1000.
    let excl = |verf: u64| {
        let mut a = diropargs(&fh(1), b"made");
        put_u32(&mut a, 2);
        put_u64(&mut a, verf);
        a
    };
    let res = result_of(&ask(&mut s, &fs, &call(70, 100003, 3, 8, &excl((1000u64 << 32) | 1000))), 70, 0);
    assert_eq!(status(&res), 0);
    assert_eq!(get_opaque(&res, 8).unwrap().0, fs.lookup(&fh(1), b"made").unwrap());
    let res = result_of(&ask(&mut s, &fs, &call(71, 100003, 3, 8, &excl(7))), 71, 0);
    assert_eq!(status(&res), 17);
}

#[test]
fn listing_pages() {
    let all: Vec<DirEntry> = (0..5u64)
        .map(|i| DirEntry { fileid: i, name: vec![b'a' + i as u8], file_type: FileType::RegularFile })
        .collect();
    let (page, eof) = arcticwolf::fsal::select_page(all.clone(), 0, 2);
    assert_eq!(page.iter().map(|e| e.fileid).collect::<Vec<_>>(), vec![0, 1]);
    assert!(!eof);
    let (page, eof) = arcticwolf::fsal::select_page(all.clone(), 3, 10);
    assert_eq!(page.iter().map(|e| e.fileid).collect::<Vec<_>>(), vec![3, 4]);
    assert!(eof);
    let (page, eof) = arcticwolf::fsal::select_page(all, 9, 10);
    assert!(page.is_empty() && eof);
}

#[test]
fn serve_record_without_server_state() {
    let fs = MemFs::new();
    let mut reg = Registry::new();
    let framed = arcticwolf::server::serve_record(&call(1, 100003, 3, 0, &[]), &mut reg, 5, &fs).unwrap();
    assert_eq!(&framed[0..4], &[0x80, 0, 0, 0x18]);
    assert!(reg.dump().is_empty());
    assert_eq!(arcticwolf::server::serve_record(&[1, 2, 3], &mut reg, 5, &fs), None);
}

#[test]
fn mnt_of_unexported_path_is_refused() {
    let mut s = server();
    let fs = MemFs::new();
    assert_eq!(mnt(&mut s, &fs, 10, b"/secret"), be32(13));
    assert_eq!(status(&mnt(&mut s, &fs, 11, b"/")), 0);
}
