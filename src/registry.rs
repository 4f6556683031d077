//! The portmap registry: which port serves each (program, version, protocol).
use vstd::prelude::*;

verus! {

/// A portmap entry: program, version, protocol (6 = TCP, 17 = UDP), port.
#[derive(Debug, Clone, Copy, PartialEq, Eq, Structural)]
pub struct Mapping {
    pub prog: u32,
    pub vers: u32,
    pub prot: u32,
    pub port: u32,
}

/// The key a mapping is registered under.
pub open spec fn key_of(m: Mapping) -> (u32, u32, u32) {
    (m.prog, m.vers, m.prot)
}

/// The registry of services and their ports.
pub struct Registry {
    entries: Vec<Mapping>,
    ports: Ghost<Map<(u32, u32, u32), u32>>,
}

impl View for Registry {
    type V = Map<(u32, u32, u32), u32>;

    closed spec fn view(&self) -> Map<(u32, u32, u32), u32> {
        self.ports@
    }
}

impl Registry {
    pub closed spec fn wf(&self) -> bool {
        &&& self.ports@.dom().finite()
        &&& self.ports@.len() == self.entries@.len()
        &&& forall|i: int|
            #![trigger self.entries@[i]]
            0 <= i < self.entries@.len() ==> self.ports@.contains_key(key_of(self.entries@[i]))
                && self.ports@[key_of(self.entries@[i])] == self.entries@[i].port
        &&& forall|i: int, j: int|
            0 <= i < self.entries@.len() && 0 <= j < self.entries@.len() && i != j ==> key_of(
                #[trigger] self.entries@[i],
            ) != key_of(#[trigger] self.entries@[j])
        &&& forall|k: (u32, u32, u32)|
            #[trigger] self.ports@.contains_key(k) ==> exists|i: int|
                0 <= i < self.entries@.len() && key_of(#[trigger] self.entries@[i]) == k
    }

    /// An empty registry.
    pub fn new() -> (r: Self)
        ensures
            r.wf(),
            r@ == Map::<(u32, u32, u32), u32>::empty(),
    {
        Registry { entries: Vec::new(), ports: Ghost(Map::empty()) }
    }

    fn find(&self, prog: u32, vers: u32, prot: u32) -> (r: Option<usize>)
        requires
            self.wf(),
        ensures
            match r {
                Some(i) => i < self.entries@.len() && key_of(self.entries@[i as int]) == (
                    prog,
                    vers,
                    prot,
                ),
                None => !self@.contains_key((prog, vers, prot)),
            },
    {
        let mut i: usize = 0;
        while i < self.entries.len()
            invariant
                self.wf(),
                i <= self.entries@.len(),
                forall|k: int|
                    0 <= k < i ==> key_of(#[trigger] self.entries@[k]) != (prog, vers, prot),
            decreases self.entries@.len() - i,
        {
            let e = self.entries[i];
            if e.prog == prog && e.vers == vers && e.prot == prot {
                return Some(i);
            }
            i = i + 1;
        }
        None
    }

    /// Registers a service (SET), replacing an earlier port for the same key.
    /// Always succeeds.
    pub fn set(&mut self, map: &Mapping) -> (r: bool)
        requires
            old(self).wf(),
        ensures
            final(self).wf(),
            r,
            final(self)@ == old(self)@.insert(key_of(*map), map.port),
    {
        let ghost old_entries = self.entries@;
        let ghost old_ports = self.ports@;
        let ghost k = key_of(*map);
        match self.find(map.prog, map.vers, map.prot) {
            Some(i) => {
                self.entries.set(i, *map);
                self.ports = Ghost(self.ports@.insert(k, map.port));
                proof {
                    assert forall|j: int|
                        #![trigger self.entries@[j]]
                        0 <= j < self.entries@.len() implies self.ports@.contains_key(
                            key_of(self.entries@[j]),
                        ) && self.ports@[key_of(self.entries@[j])] == self.entries@[j].port by {
                        if j != i {
                            assert(self.entries@[j] == old_entries[j]);
                            assert(key_of(old_entries[j]) != key_of(old_entries[i as int]));
                        }
                    }
                    assert forall|a: int, b: int|
                        0 <= a < self.entries@.len() && 0 <= b < self.entries@.len() && a
                            != b implies key_of(#[trigger] self.entries@[a]) != key_of(
                        #[trigger] self.entries@[b],
                    ) by {
                        assert(key_of(old_entries[a]) != key_of(old_entries[b]));
                    }
                    assert forall|q: (u32, u32, u32)| #[trigger]
                        self.ports@.contains_key(q) implies exists|j: int|
                        0 <= j < self.entries@.len() && key_of(#[trigger] self.entries@[j]) == q by {
                        if q == k {
                            assert(key_of(self.entries@[i as int]) == q);
                        } else {
                            let j = choose|j: int|
                                0 <= j < old_entries.len() && key_of(#[trigger] old_entries[j])
                                    == q;
                            assert(self.entries@[j] == old_entries[j]);
                        }
                    }
                    assert(old_ports.contains_key(k));
                    assert(old_ports.dom().insert(k) =~= old_ports.dom());
                }
            },
            None => {
                self.entries.push(*map);
                self.ports = Ghost(self.ports@.insert(k, map.port));
                proof {
                    let n = old_entries.len() as int;
                    assert forall|j: int|
                        #![trigger self.entries@[j]]
                        0 <= j < self.entries@.len() implies self.ports@.contains_key(
                            key_of(self.entries@[j]),
                        ) && self.ports@[key_of(self.entries@[j])] == self.entries@[j].port by {
                        if j < n {
                            assert(self.entries@[j] == old_entries[j]);
                            assert(old_ports.contains_key(key_of(old_entries[j])));
                        }
                    }
                    assert forall|a: int, b: int|
                        0 <= a < self.entries@.len() && 0 <= b < self.entries@.len() && a
                            != b implies key_of(#[trigger] self.entries@[a]) != key_of(
                        #[trigger] self.entries@[b],
                    ) by {
                        if a < n {
                            assert(old_ports.contains_key(key_of(old_entries[a])));
                        }
                        if b < n {
                            assert(old_ports.contains_key(key_of(old_entries[b])));
                        }
                    }
                    assert forall|q: (u32, u32, u32)| #[trigger]
                        self.ports@.contains_key(q) implies exists|j: int|
                        0 <= j < self.entries@.len() && key_of(#[trigger] self.entries@[j]) == q by {
                        if q == k {
                            assert(key_of(self.entries@[n]) == q);
                        } else {
                            let j = choose|j: int|
                                0 <= j < old_entries.len() && key_of(#[trigger] old_entries[j])
                                    == q;
                            assert(self.entries@[j] == old_entries[j]);
                        }
                    }
                }
            },
        }
        true
    }

    /// Unregisters a service (UNSET); true if it was registered.
    pub fn unset(&mut self, map: &Mapping) -> (r: bool)
        requires
            old(self).wf(),
        ensures
            final(self).wf(),
            r == old(self)@.contains_key(key_of(*map)),
            final(self)@ == old(self)@.remove(key_of(*map)),
    {
        let ghost old_entries = self.entries@;
        let ghost old_ports = self.ports@;
        let ghost k = key_of(*map);
        match self.find(map.prog, map.vers, map.prot) {
            Some(i) => {
                self.entries.remove(i);
                self.ports = Ghost(self.ports@.remove(k));
                proof {
                    let ii = i as int;
                    let n = old_entries.len() as int;
                    assert forall|j: int| 0 <= j < self.entries@.len() implies #[trigger]
                        self.entries@[j] == old_entries[if j < ii { j } else { j + 1 }] by {}
                    assert forall|j: int|
                        #![trigger self.entries@[j]]
                        0 <= j < self.entries@.len() implies self.ports@.contains_key(
                            key_of(self.entries@[j]),
                        ) && self.ports@[key_of(self.entries@[j])] == self.entries@[j].port by {
                        let jj = if j < ii { j } else { j + 1 };
                        assert(key_of(old_entries[jj]) != key_of(old_entries[ii]));
                    }
                    assert forall|a: int, b: int|
                        0 <= a < self.entries@.len() && 0 <= b < self.entries@.len() && a
                            != b implies key_of(#[trigger] self.entries@[a]) != key_of(
                        #[trigger] self.entries@[b],
                    ) by {
                        let ja = if a < ii { a } else { a + 1 };
                        let jb = if b < ii { b } else { b + 1 };
                        assert(key_of(old_entries[ja]) != key_of(old_entries[jb]));
                    }
                    assert forall|q: (u32, u32, u32)| #[trigger]
                        self.ports@.contains_key(q) implies exists|j: int|
                        0 <= j < self.entries@.len() && key_of(#[trigger] self.entries@[j]) == q by {
                        let j = choose|j: int|
                            0 <= j < n && key_of(#[trigger] old_entries[j]) == q;
                        assert(j != ii);
                        let m = if j < ii { j } else { j - 1 };
                        assert(self.entries@[m] == old_entries[j]);
                    }
                    assert(old_ports.contains_key(k));
                }
                true
            },
            None => {
                assert(old_ports.remove(k) =~= old_ports);
                false
            },
        }
    }

    /// The port of a service (GETPORT), or 0 if it is not registered. The
    /// mapping's port field is not looked at.
    pub fn getport(&self, map: &Mapping) -> (r: u32)
        requires
            self.wf(),
        ensures
            r == if self@.contains_key(key_of(*map)) {
                self@[key_of(*map)]
            } else {
                0
            },
    {
        match self.find(map.prog, map.vers, map.prot) {
            Some(i) => self.entries[i].port,
            None => 0,
        }
    }

    /// Every registered mapping (DUMP), each once.
    pub fn dump(&self) -> (r: Vec<Mapping>)
        requires
            self.wf(),
        ensures
            r@.len() == self@.len(),
            forall|i: int|
                0 <= i < r@.len() ==> self@.contains_key(key_of(#[trigger] r@[i]))
                    && self@[key_of(r@[i])] == r@[i].port,
            forall|i: int, j: int|
                0 <= i < r@.len() && 0 <= j < r@.len() && i != j ==> key_of(#[trigger] r@[i])
                    != key_of(#[trigger] r@[j]),
            forall|k: (u32, u32, u32)|
                #[trigger] self@.contains_key(k) ==> exists|i: int|
                    0 <= i < r@.len() && key_of(#[trigger] r@[i]) == k,
    {
        let mut out: Vec<Mapping> = Vec::new();
        let mut i: usize = 0;
        while i < self.entries.len()
            invariant
                self.wf(),
                i <= self.entries@.len(),
                out@ == self.entries@.subrange(0, i as int),
            decreases self.entries@.len() - i,
        {
            out.push(self.entries[i]);
            i = i + 1;
            assert(out@ =~= self.entries@.subrange(0, i as int));
        }
        assert(out@ =~= self.entries@);
        out
    }
}

} // verus!
