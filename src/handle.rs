//! The handle directory: a two-way map between opaque 32-byte file handles
//! and backend paths.
//!
//! A handle is built from a monotonic 64-bit id (bytes 0..8), a 64-bit hash
//! of the path (bytes 8..16) and sixteen zero bytes. Asking twice for the
//! handle of one path gives the same bytes.
use vstd::prelude::*;
use vstd::utf8::encode_utf8;
use crate::xdr::{put_u64, u64_of, xdr_u64, zeros, lemma_u64_round_trip};

verus! {

/// Length of every handle, in bytes.
pub const HANDLE_LEN: usize = 32;

pub const FNV_OFFSET: u64 = 0xcbf2_9ce4_8422_2325;

pub const FNV_PRIME: u64 = 0x100_0000_01b3;

/// 64-bit FNV-1a hash of a byte string.
pub open spec fn fnv1a(b: Seq<u8>) -> u64
    decreases b.len(),
{
    if b.len() == 0 {
        FNV_OFFSET
    } else {
        (((fnv1a(b.drop_last()) ^ (b.last() as u64)) as int * FNV_PRIME as int)
            % 0x1_0000_0000_0000_0000) as u64
    }
}

/// The bytes of the handle with id `id` for a path whose hash is `hash`.
pub open spec fn handle_layout(id: u64, hash: u64) -> Seq<u8> {
    xdr_u64(id) + xdr_u64(hash) + zeros(16)
}

/// Hashes `b` with 64-bit FNV-1a.
pub fn path_hash(b: &[u8]) -> (r: u64)
    ensures
        r == fnv1a(b@),
{
    let mut h: u64 = FNV_OFFSET;
    let mut i: usize = 0;
    while i < b.len()
        invariant
            i <= b@.len(),
            h == fnv1a(b@.subrange(0, i as int)),
        decreases b@.len() - i,
    {
        let x: u64 = h ^ (b[i] as u64);
        assert(b@.subrange(0, i + 1).drop_last() =~= b@.subrange(0, i as int));
        let prod: u128 = (x as u128) * (FNV_PRIME as u128);
        h = (prod % 0x1_0000_0000_0000_0000u128) as u64;
        i = i + 1;
    }
    assert(b@.subrange(0, b@.len() as int) =~= b@);
    h
}

/// Whether two byte strings are equal.
fn bytes_eq(a: &[u8], b: &[u8]) -> (r: bool)
    ensures
        r == (a@ == b@),
{
    if a.len() != b.len() {
        return false;
    }
    let mut i: usize = 0;
    while i < a.len()
        invariant
            i <= a@.len(),
            a@.len() == b@.len(),
            forall|k: int| 0 <= k < i ==> a@[k] == b@[k],
        decreases a@.len() - i,
    {
        if a[i] != b[i] {
            return false;
        }
        i = i + 1;
    }
    assert(a@ =~= b@);
    true
}

struct HandleEntry {
    handle: Vec<u8>,
    path: String,
}

/// What asking `before` for the handle of path `p` may give: the directory
/// `after` and the handle `h`. A mapped path keeps its handle and nothing
/// changes; an unmapped one gets the next id and its hash, in both
/// directions.
pub open spec fn allocated(before: HandleManager, p: Seq<char>, after: HandleManager, h: Seq<u8>) -> bool {
    &&& after.wf()
    &&& after.handles().dom().finite()
    &&& before.paths().contains_key(p) ==> h == before.paths()[p] && after.paths() == before.paths()
        && after.handles() == before.handles() && after.next_id() == before.next_id()
    &&& !before.paths().contains_key(p) ==> {
        &&& h == handle_layout(before.next_id(), fnv1a(encode_utf8(p)))
        &&& !before.handles().contains_key(h)
        &&& after.paths() == before.paths().insert(p, h)
        &&& after.handles() == before.handles().insert(h, p)
        &&& after.next_id() == before.next_id() + 1
    }
    &&& after.paths().contains_key(p)
    &&& after.paths()[p] == h
    &&& h.len() == HANDLE_LEN
}

/// What revoking handle `h` of `before` may give: the directory `after` and
/// the path `r` the handle stood for. A live handle is dropped with its path;
/// an unknown one changes nothing.
pub open spec fn revoked(before: HandleManager, h: Seq<u8>, after: HandleManager, r: Option<Seq<char>>) -> bool {
    &&& after.wf()
    &&& after.handles().dom().finite()
    &&& after.next_id() == before.next_id()
    &&& before.handles().contains_key(h) ==> r == Some(before.handles()[h]) && after.handles()
        == before.handles().remove(h) && after.paths() == before.paths().remove(r->0)
    &&& !before.handles().contains_key(h) ==> r is None && after.handles() == before.handles()
        && after.paths() == before.paths()
}

/// The two-way map between handles and paths.
pub struct HandleManager {
    entries: Vec<HandleEntry>,
    next_id: u64,
    path_map: Ghost<Map<Seq<char>, Seq<u8>>>,
    handle_map: Ghost<Map<Seq<u8>, Seq<char>>>,
}

impl HandleManager {
    /// Handle of each mapped path.
    pub closed spec fn paths(&self) -> Map<Seq<char>, Seq<u8>> {
        self.path_map@
    }

    /// Path of each live handle.
    pub closed spec fn handles(&self) -> Map<Seq<u8>, Seq<char>> {
        self.handle_map@
    }

    /// The id the next new handle will carry.
    pub closed spec fn next_id(&self) -> u64 {
        self.next_id
    }

    pub closed spec fn wf(&self) -> bool {
        &&& self.handle_map@.dom().finite()
        &&& self.handle_map@.len() == self.entries@.len()
        &&& forall|i: int|
            #![trigger self.entries@[i]]
            0 <= i < self.entries@.len() ==> {
                let e = self.entries@[i];
                &&& self.path_map@.contains_key(e.path@)
                &&& self.path_map@[e.path@] == e.handle@
                &&& self.handle_map@.contains_key(e.handle@)
                &&& self.handle_map@[e.handle@] == e.path@
                &&& e.handle@.len() == HANDLE_LEN
                &&& u64_of(e.handle@) < self.next_id
            }
        &&& forall|i: int, j: int|
            0 <= i < self.entries@.len() && 0 <= j < self.entries@.len() && i != j ==> {
                &&& (#[trigger] self.entries@[i]).path@ != (#[trigger] self.entries@[j]).path@
                &&& self.entries@[i].handle@ != self.entries@[j].handle@
            }
        &&& forall|p: Seq<char>|
            #[trigger] self.path_map@.contains_key(p) ==> exists|i: int|
                0 <= i < self.entries@.len() && (#[trigger] self.entries@[i]).path@ == p
        &&& forall|h: Seq<u8>|
            #[trigger] self.handle_map@.contains_key(h) ==> exists|i: int|
                0 <= i < self.entries@.len() && (#[trigger] self.entries@[i]).handle@ == h
    }

    /// The two maps are inverse to each other.
    pub proof fn lemma_inverse(&self)
        requires
            self.wf(),
        ensures
            forall|p: Seq<char>| #[trigger]
                self.paths().contains_key(p) ==> self.handles().contains_key(self.paths()[p])
                    && self.handles()[self.paths()[p]] == p,
            forall|h: Seq<u8>| #[trigger]
                self.handles().contains_key(h) ==> self.paths().contains_key(self.handles()[h])
                    && self.paths()[self.handles()[h]] == h,
    {
        assert forall|p: Seq<char>| #[trigger]
            self.paths().contains_key(p) implies self.handles().contains_key(self.paths()[p])
            && self.handles()[self.paths()[p]] == p by {
            let i = choose|i: int| 0 <= i < self.entries@.len() && (#[trigger] self.entries@[i]).path@ == p;
            assert(self.entries@[i].path@ == p);
        }
        assert forall|h: Seq<u8>| #[trigger]
            self.handles().contains_key(h) implies self.paths().contains_key(self.handles()[h])
            && self.paths()[self.handles()[h]] == h by {
            let i = choose|i: int| 0 <= i < self.entries@.len() && (#[trigger] self.entries@[i]).handle@ == h;
            assert(self.entries@[i].handle@ == h);
        }
    }

    /// An empty directory whose first handle will carry id 1.
    pub fn new() -> (r: Self)
        ensures
            r.wf(),
            r.handles().dom().finite(),
            r.paths() == Map::<Seq<char>, Seq<u8>>::empty(),
            r.handles() == Map::<Seq<u8>, Seq<char>>::empty(),
            r.next_id() == 1,
    {
        HandleManager {
            entries: Vec::new(),
            next_id: 1,
            path_map: Ghost(Map::empty()),
            handle_map: Ghost(Map::empty()),
        }
    }

    fn find_path(&self, path: &String) -> (r: Option<usize>)
        requires
            self.wf(),
        ensures
            match r {
                Some(i) => i < self.entries@.len() && self.entries@[i as int].path@ == path@,
                None => !self.paths().contains_key(path@),
            },
    {
        let mut i: usize = 0;
        while i < self.entries.len()
            invariant
                self.wf(),
                i <= self.entries@.len(),
                forall|k: int| 0 <= k < i ==> (#[trigger] self.entries@[k]).path@ != path@,
            decreases self.entries@.len() - i,
        {
            if self.entries[i].path == *path {
                return Some(i);
            }
            i = i + 1;
        }
        None
    }

    fn find_handle(&self, handle: &[u8]) -> (r: Option<usize>)
        requires
            self.wf(),
        ensures
            match r {
                Some(i) => i < self.entries@.len() && self.entries@[i as int].handle@ == handle@,
                None => !self.handles().contains_key(handle@),
            },
    {
        let mut i: usize = 0;
        while i < self.entries.len()
            invariant
                self.wf(),
                i <= self.entries@.len(),
                forall|k: int| 0 <= k < i ==> (#[trigger] self.entries@[k]).handle@ != handle@,
            decreases self.entries@.len() - i,
        {
            if bytes_eq(self.entries[i].handle.as_slice(), handle) {
                return Some(i);
            }
            i = i + 1;
        }
        None
    }

    /// The handle of `path`: the one it already has, or else a new one made
    /// from the next id and the path's hash, installed in both directions.
    pub fn create_handle(&mut self, path: String) -> (r: Vec<u8>)
        requires
            old(self).wf(),
            !old(self).paths().contains_key(path@) ==> old(self).next_id() < u64::MAX,
        ensures
            allocated(*old(self), path@, *final(self), r@),
    {
        match self.find_path(&path) {
            Some(i) => {
                let h = self.entries[i].handle.clone();
                return h;
            }
            None => {},
        }
        let id = self.next_id;
        let hash = path_hash(path.as_str().as_bytes());
        let mut handle: Vec<u8> = Vec::new();
        put_u64(&mut handle, id);
        put_u64(&mut handle, hash);
        let mut k: usize = 0;
        while k < 16
            invariant
                k <= 16,
                handle@ == xdr_u64(id) + xdr_u64(hash) + zeros(k as nat),
            decreases 16 - k,
        {
            handle.push(0u8);
            k = k + 1;
            assert(handle@ =~= xdr_u64(id) + xdr_u64(hash) + zeros(k as nat));
        }
        proof {
            lemma_u64_round_trip(id);
            assert(handle@.subrange(0, 8) =~= xdr_u64(id));
            assert(u64_of(handle@) == u64_of(handle@.subrange(0, 8)));
            assert(u64_of(handle@) == id);
            assert forall|j: int| 0 <= j < self.entries@.len() implies (
            #[trigger] self.entries@[j]).handle@ != handle@ by {
                assert(u64_of(self.entries@[j].handle@) < id);
            }
            assert(!self.handle_map@.contains_key(handle@)) by {
                if self.handle_map@.contains_key(handle@) {
                    let j = choose|j: int|
                        0 <= j < self.entries@.len() && (#[trigger] self.entries@[j]).handle@
                            == handle@;
                    assert(self.entries@[j].handle@ != handle@);
                }
            }
        }
        let ghost old_entries = self.entries@;
        let ghost old_paths = self.path_map@;
        let ghost old_handles = self.handle_map@;
        self.path_map = Ghost(self.path_map@.insert(path@, handle@));
        self.handle_map = Ghost(self.handle_map@.insert(handle@, path@));
        self.entries.push(HandleEntry { handle: handle.clone(), path });
        self.next_id = id + 1;
        proof {
            let n = old_entries.len() as int;
            assert(self.entries@[n].handle@ == handle@);
            assert forall|i: int|
                #![trigger self.entries@[i]]
                0 <= i < self.entries@.len() implies {
                let e = self.entries@[i];
                &&& self.path_map@.contains_key(e.path@)
                &&& self.path_map@[e.path@] == e.handle@
                &&& self.handle_map@.contains_key(e.handle@)
                &&& self.handle_map@[e.handle@] == e.path@
                &&& e.handle@.len() == HANDLE_LEN
                &&& u64_of(e.handle@) < self.next_id
            } by {
                if i < n {
                    assert(self.entries@[i] == old_entries[i]);
                    assert(old_entries[i].path@ != path@);
                    assert(old_entries[i].handle@ != handle@);
                }
            }
            assert forall|p: Seq<char>| #[trigger] self.path_map@.contains_key(p) implies exists|
                i: int,
            |
                0 <= i < self.entries@.len() && (#[trigger] self.entries@[i]).path@ == p by {
                if p == path@ {
                    assert(self.entries@[n].path@ == p);
                } else {
                    assert(old_paths.contains_key(p));
                    let i = choose|i: int|
                        0 <= i < old_entries.len() && (#[trigger] old_entries[i]).path@ == p;
                    assert(self.entries@[i] == old_entries[i]);
                }
            }
            assert forall|h: Seq<u8>| #[trigger] self.handle_map@.contains_key(h) implies exists|
                i: int,
            |
                0 <= i < self.entries@.len() && (#[trigger] self.entries@[i]).handle@ == h by {
                if h == handle@ {
                    assert(self.entries@[n].handle@ == h);
                } else {
                    assert(old_handles.contains_key(h));
                    let i = choose|i: int|
                        0 <= i < old_entries.len() && (#[trigger] old_entries[i]).handle@ == h;
                    assert(self.entries@[i] == old_entries[i]);
                }
            }
            assert forall|i: int, j: int|
                0 <= i < self.entries@.len() && 0 <= j < self.entries@.len() && i != j implies {
                &&& (#[trigger] self.entries@[i]).path@ != (#[trigger] self.entries@[j]).path@
                &&& self.entries@[i].handle@ != self.entries@[j].handle@
            } by {
                if i < n && j < n {
                    assert(self.entries@[i] == old_entries[i]);
                    assert(self.entries@[j] == old_entries[j]);
                } else if i < n {
                    assert(self.entries@[i] == old_entries[i]);
                    assert(old_paths.contains_key(old_entries[i].path@));
                } else {
                    assert(self.entries@[j] == old_entries[j]);
                    assert(old_paths.contains_key(old_entries[j].path@));
                }
            }
        }
        handle
    }

    /// The path a handle stands for, if the handle is live.
    pub fn lookup_path(&self, handle: &Vec<u8>) -> (r: Option<String>)
        requires
            self.wf(),
        ensures
            r is Some <==> self.handles().contains_key(handle@),
            r is Some ==> r->0@ == self.handles()[handle@],
    {
        match self.find_handle(handle.as_slice()) {
            Some(i) => Some(self.entries[i].path.clone()),
            None => None,
        }
    }

    /// Whether a handle is live.
    pub fn is_valid(&self, handle: &Vec<u8>) -> (r: bool)
        requires
            self.wf(),
        ensures
            r == self.handles().contains_key(handle@),
    {
        self.find_handle(handle.as_slice()).is_some()
    }

    /// Drops entry `i` from both directions.
    fn remove_entry(&mut self, i: usize) -> (r: HandleEntry)
        requires
            old(self).wf(),
            i < old(self).entries@.len(),
        ensures
            final(self).wf(),
            r == old(self).entries@[i as int],
            final(self).paths() == old(self).paths().remove(r.path@),
            final(self).handles() == old(self).handles().remove(r.handle@),
            final(self).next_id() == old(self).next_id(),
    {
        let ghost old_entries = self.entries@;
        let ghost old_paths = self.path_map@;
        let ghost old_handles = self.handle_map@;
        let e = self.entries.remove(i);
        self.path_map = Ghost(self.path_map@.remove(e.path@));
        self.handle_map = Ghost(self.handle_map@.remove(e.handle@));
        proof {
            let n = old_entries.len() as int;
            let ii = i as int;
            assert forall|k: int| 0 <= k < self.entries@.len() implies #[trigger] self.entries@[k]
                == old_entries[if k < ii { k } else { k + 1 }] by {}
            assert forall|k: int|
                #![trigger self.entries@[k]]
                0 <= k < self.entries@.len() implies {
                let x = self.entries@[k];
                &&& self.path_map@.contains_key(x.path@)
                &&& self.path_map@[x.path@] == x.handle@
                &&& self.handle_map@.contains_key(x.handle@)
                &&& self.handle_map@[x.handle@] == x.path@
                &&& x.handle@.len() == HANDLE_LEN
                &&& u64_of(x.handle@) < self.next_id
            } by {
                let j = if k < ii { k } else { k + 1 };
                assert(self.entries@[k] == old_entries[j]);
                assert(old_entries[j].path@ != old_entries[ii].path@);
                assert(old_entries[j].handle@ != old_entries[ii].handle@);
            }
            assert forall|a: int, b: int|
                0 <= a < self.entries@.len() && 0 <= b < self.entries@.len() && a != b implies {
                &&& (#[trigger] self.entries@[a]).path@ != (#[trigger] self.entries@[b]).path@
                &&& self.entries@[a].handle@ != self.entries@[b].handle@
            } by {
                let ja = if a < ii { a } else { a + 1 };
                let jb = if b < ii { b } else { b + 1 };
                assert(self.entries@[a] == old_entries[ja]);
                assert(self.entries@[b] == old_entries[jb]);
                assert(old_entries[ja].path@ != old_entries[jb].path@);
            }
            assert forall|p: Seq<char>| #[trigger] self.path_map@.contains_key(p) implies exists|
                k: int,
            |
                0 <= k < self.entries@.len() && (#[trigger] self.entries@[k]).path@ == p by {
                assert(old_paths.contains_key(p));
                let j = choose|j: int| 0 <= j < n && (#[trigger] old_entries[j]).path@ == p;
                assert(j != ii);
                let k = if j < ii { j } else { j - 1 };
                assert(self.entries@[k] == old_entries[j]);
            }
            assert forall|h: Seq<u8>| #[trigger] self.handle_map@.contains_key(h) implies exists|
                k: int,
            |
                0 <= k < self.entries@.len() && (#[trigger] self.entries@[k]).handle@ == h by {
                assert(old_handles.contains_key(h));
                let j = choose|j: int| 0 <= j < n && (#[trigger] old_entries[j]).handle@ == h;
                assert(j != ii);
                let k = if j < ii { j } else { j - 1 };
                assert(self.entries@[k] == old_entries[j]);
            }
            assert(old_handles.contains_key(e.handle@));
        }
        e
    }

    /// Revokes a handle, e.g. when its object is removed; gives back the path
    /// it stood for.
    pub fn remove_handle(&mut self, handle: &Vec<u8>) -> (r: Option<String>)
        requires
            old(self).wf(),
        ensures
            revoked(
                *old(self),
                handle@,
                *final(self),
                match r {
                    Some(p) => Some(p@),
                    None => None,
                },
            ),
    {
        match self.find_handle(handle.as_slice()) {
            Some(i) => {
                let e = self.remove_entry(i);
                Some(e.path)
            },
            None => None,
        }
    }

    /// Revokes the handle of a path, e.g. once it has been renamed away; gives
    /// back the handle.
    pub fn remove_path(&mut self, path: &String) -> (r: Option<Vec<u8>>)
        requires
            old(self).wf(),
        ensures
            final(self).wf(),
            final(self).handles().dom().finite(),
            final(self).next_id() == old(self).next_id(),
            old(self).paths().contains_key(path@) ==> r is Some && r->0@ == old(self).paths()[path@]
                && final(self).paths() == old(self).paths().remove(path@) && final(self).handles()
                == old(self).handles().remove(r->0@),
            !old(self).paths().contains_key(path@) ==> r is None && final(self).handles() == old(
                self,
            ).handles() && final(self).paths() == old(self).paths(),
    {
        match self.find_path(path) {
            Some(i) => {
                let e = self.remove_entry(i);
                Some(e.handle)
            },
            None => None,
        }
    }

    /// Whether a new handle can still be made: ids are 64-bit and never
    /// reused.
    pub fn can_allocate(&self) -> (r: bool)
        ensures
            r == (self.next_id() < u64::MAX),
    {
        self.next_id < u64::MAX
    }

    /// Number of live handles.
    pub fn count(&self) -> (r: usize)
        requires
            self.wf(),
        ensures
            self.handles().dom().finite(),
            r == self.handles().len(),
    {
        self.entries.len()
    }
}

} // verus!
