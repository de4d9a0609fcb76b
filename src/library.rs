use vstd::prelude::*;

verus! {

/// The 64-bit Fx hash of a name; it depends on the characters of the name alone.
pub uninterp spec fn fx_hash_of(name: Seq<char>) -> u64;

/// Relies on `fxhash::hash64`: an unseeded hash, so equal names always hash equally.
#[verifier::external_body]
fn fx_hash(name: &str) -> (r: u64)
    ensures
        r == fx_hash_of(name@),
{
    fxhash::hash64(name)
}

/// One slot of a library: a name, its cached hash and the handle stored under it.
pub struct LibraryEntry<H> {
    key_hash: u64,
    name: String,
    handle: H,
}

/// A store of handles keyed by unique names.
///
/// Each name is hashed once on insertion, so a lookup compares a hash before it
/// compares characters.
pub struct ResourceLibrary<H> {
    entries: Vec<LibraryEntry<H>>,
    contents: Ghost<Map<Seq<char>, H>>,
}

impl<H: Copy> ResourceLibrary<H> {
    /// The handles of the library, by name.
    pub closed spec fn view(&self) -> Map<Seq<char>, H> {
        self.contents@
    }

    /// Names are unique, every entry is in the map, every key of the map has an entry.
    pub closed spec fn wf(&self) -> bool {
        &&& self.contents@.dom().finite()
        &&& self.contents@.dom().len() == self.entries@.len()
        &&& forall|i: int, j: int|
            0 <= i < j < self.entries@.len() ==> (#[trigger] self.entries@[i]).name@
                != (#[trigger] self.entries@[j]).name@
        &&& forall|i: int|
            0 <= i < self.entries@.len() ==> {
                let e = #[trigger] self.entries@[i];
                &&& e.key_hash == fx_hash_of(e.name@)
                &&& self.contents@.contains_key(e.name@)
                &&& self.contents@[e.name@] == e.handle
            }
        &&& forall|k: Seq<char>|
            #[trigger] self.contents@.contains_key(k) ==> exists|i: int|
                0 <= i < self.entries@.len() && (#[trigger] self.entries@[i]).name@ == k
    }

    /// An empty library.
    pub fn new() -> (r: Self)
        ensures
            r.wf(),
            r@ == Map::<Seq<char>, H>::empty(),
    {
        ResourceLibrary { entries: Vec::new(), contents: Ghost(Map::empty()) }
    }

    /// The position of the entry named `name`, if there is one.
    fn find(&self, name: &str) -> (r: Option<usize>)
        requires
            self.wf(),
        ensures
            match r {
                Some(i) => i < self.entries@.len() && self.entries@[i as int].name@ == name@,
                None => !self@.contains_key(name@),
            },
    {
        let h = fx_hash(name);
        let key = name.to_owned();
        let mut i: usize = 0;
        while i < self.entries.len()
            invariant
                self.wf(),
                h == fx_hash_of(name@),
                key@ == name@,
                i <= self.entries@.len(),
                forall|j: int| 0 <= j < i ==> (#[trigger] self.entries@[j]).name@ != name@,
            decreases self.entries@.len() - i,
        {
            let e = &self.entries[i];
            if e.key_hash == h && e.name == key {
                return Some(i);
            }
            i = i + 1;
        }
        proof {
            if self@.contains_key(name@) {
                let j = choose|j: int| 0 <= j < self.entries@.len() && (#[trigger] self.entries@[j]).name@ == name@;
                assert(self.entries@[j].name@ != name@);
            }
        }
        None
    }

    /// The number of names in the library.
    pub fn len(&self) -> (r: usize)
        requires
            self.wf(),
        ensures
            r == self@.len(),
    {
        self.entries.len()
    }

    /// Whether a handle is stored under `name`.
    pub fn contains(&self, name: &str) -> (r: bool)
        requires
            self.wf(),
        ensures
            r == self@.contains_key(name@),
    {
        match self.find(name) {
            Some(_) => true,
            None => false,
        }
    }

    /// The handle stored under `name`, if any.
    pub fn get(&self, name: &str) -> (r: Option<H>)
        requires
            self.wf(),
        ensures
            match r {
                Some(h) => self@.contains_key(name@) && self@[name@] == h,
                None => !self@.contains_key(name@),
            },
    {
        match self.find(name) {
            Some(i) => Some(self.entries[i].handle),
            None => None,
        }
    }

    /// Stores `handle` under a name that is not in the library yet.
    pub fn insert(&mut self, name: &str, handle: H)
        requires
            old(self).wf(),
            !old(self)@.contains_key(name@),
        ensures
            final(self).wf(),
            final(self)@ == old(self)@.insert(name@, handle),
    {
        let key_hash = fx_hash(name);
        let entry = LibraryEntry { key_hash, name: name.to_owned(), handle };
        let ghost old_entries = self.entries@;
        self.entries.push(entry);
        self.contents = Ghost(self.contents@.insert(name@, handle));
        proof {
            let n = old_entries.len();
            assert(self.entries@[n as int].name@ == name@);
            assert forall|i: int| 0 <= i < n implies (#[trigger] self.entries@[i]).name@ != name@ by {
                assert(self.entries@[i] == old_entries[i]);
            }
            assert forall|k: Seq<char>| #[trigger] self.contents@.contains_key(k) implies exists|i: int|
                0 <= i < self.entries@.len() && (#[trigger] self.entries@[i]).name@ == k by {
                if k != name@ {
                    let j = choose|j: int| 0 <= j < old_entries.len() && (#[trigger] old_entries[j]).name@ == k;
                    assert(self.entries@[j] == old_entries[j]);
                }
            }
        }
    }

    /// Removes the entry named `name`; a name that is absent leaves the library as it was.
    pub fn remove(&mut self, name: &str)
        requires
            old(self).wf(),
        ensures
            final(self).wf(),
            final(self)@ == old(self)@.remove(name@),
    {
        match self.find(name) {
            None => {
                proof {
                    assert(self.contents@.remove(name@) =~= self.contents@);
                }
            },
            Some(i) => {
                let ghost old_entries = self.entries@;
                self.entries.remove(i);
                self.contents = Ghost(self.contents@.remove(name@));
                proof {
                    assert forall|a: int| 0 <= a < self.entries@.len() implies
                        #[trigger] self.entries@[a] == (if a < i { old_entries[a] } else { old_entries[a + 1] }) by {}
                    assert forall|a: int, b: int| 0 <= a < b < self.entries@.len() implies
                        (#[trigger] self.entries@[a]).name@ != (#[trigger] self.entries@[b]).name@ by {
                        let a0 = if a < i { a } else { a + 1 };
                        let b0 = if b < i { b } else { b + 1 };
                        assert(old_entries[a0] == self.entries@[a]);
                        assert(old_entries[b0] == self.entries@[b]);
                    }
                    assert forall|a: int| 0 <= a < self.entries@.len() implies
                        (#[trigger] self.entries@[a]).name@ != name@ by {
                        let a0 = if a < i { a } else { a + 1 };
                        assert(old_entries[a0] == self.entries@[a]);
                        assert(a0 != i);
                    }
                    assert forall|k: Seq<char>| #[trigger] self.contents@.contains_key(k) implies exists|a: int|
                        0 <= a < self.entries@.len() && (#[trigger] self.entries@[a]).name@ == k by {
                        let j = choose|j: int| 0 <= j < old_entries.len() && (#[trigger] old_entries[j]).name@ == k;
                        assert(j != i);
                        if j < i {
                            assert(self.entries@[j] == old_entries[j]);
                        } else {
                            assert(self.entries@[j - 1] == old_entries[j]);
                        }
                    }
                }
            },
        }
    }
}

} // verus!
