//! Saved scenes kept by name.
use crate::scene::SavedScene;
use vstd::prelude::*;

verus! {

/// Whether every scene of `scenes` stands under its own name.
pub open spec fn keyed_by_name<P: SavedScene>(scenes: Map<Seq<char>, P>) -> bool {
    forall|name: Seq<char>| #[trigger] scenes.contains_key(name) ==> scenes[name].spec_name() == name
}

/// One saved scene with the name it was filed under.
struct Entry<P> {
    key: String,
    saved: P,
}

/// Saved scenes by name, at most one for each name. A scene that is filed
/// under a name that is taken replaces the one that was there.
pub struct Registry<P: SavedScene> {
    entries: Vec<Entry<P>>,
}

impl<P: SavedScene> View for Registry<P> {
    type V = Map<Seq<char>, P>;

    closed spec fn view(&self) -> Map<Seq<char>, P> {
        Map::new(
            |name: Seq<char>| self.position(name) is Some,
            |name: Seq<char>| self.entries[self.position(name).unwrap()].saved,
        )
    }
}

impl<P: SavedScene> Registry<P> {
    /// Every entry is filed under its scene's own name, and no name is used
    /// twice.
    #[verifier::type_invariant]
    spec fn well_formed(&self) -> bool {
        &&& forall|i: int|
            0 <= i < self.entries.len() ==> (#[trigger] self.entries[i]).key@
                == self.entries[i].saved.spec_name()
        &&& forall|i: int, j: int|
            0 <= i < self.entries.len() && 0 <= j < self.entries.len() && i != j
                ==> (#[trigger] self.entries[i]).key@ != (#[trigger] self.entries[j]).key@
    }

    /// Whether the entry at `i` is filed under `name`.
    spec fn filed_at(&self, name: Seq<char>, i: int) -> bool {
        0 <= i < self.entries.len() && self.entries[i].key@ == name
    }

    /// Where the entry of `name` stands, if there is one.
    spec fn position(&self, name: Seq<char>) -> Option<int> {
        if exists|i: int| self.filed_at(name, i) {
            Some(choose|i: int| self.filed_at(name, i))
        } else {
            None
        }
    }

    /// A registry without entries.
    pub fn new() -> (registry: Self)
        ensures
            registry@ == Map::<Seq<char>, P>::empty(),
            keyed_by_name(registry@),
    {
        let registry = Registry { entries: Vec::new() };
        assert(registry@ =~= Map::<Seq<char>, P>::empty());
        registry
    }

    /// The index of the entry of `name`.
    fn find(&self, name: &String) -> (found: Option<usize>)
        ensures
            match found {
                Some(i) => self.filed_at(name@, i as int),
                None => forall|i: int| !self.filed_at(name@, i),
            },
    {
        let mut i: usize = 0;
        while i < self.entries.len()
            invariant
                i <= self.entries.len(),
                forall|k: int| 0 <= k < i ==> !self.filed_at(name@, k),
            decreases self.entries.len() - i,
        {
            if self.entries[i].key == *name {
                return Some(i);
            }
            i += 1;
        }
        None
    }

    /// The saved scene filed under `name`.
    pub fn get(&self, name: &str) -> (found: Option<&P>)
        ensures
            match found {
                Some(saved) => self@.contains_key(name@) && *saved == self@[name@],
                None => !self@.contains_key(name@),
            },
            keyed_by_name(self@),
    {
        proof {
            use_type_invariant(self);
            self.lemma_keyed_by_name();
        }
        let key = name.to_owned();
        match self.find(&key) {
            Some(i) => {
                proof {
                    self.lemma_position(name@, i as int);
                }
                Some(&self.entries[i].saved)
            },
            None => None,
        }
    }

    /// Files `saved` under its own name, in place of the scene that was
    /// there under that name, if there was one.
    pub fn insert(&mut self, saved: P)
        ensures
            final(self)@ == old(self)@.insert(saved.spec_name(), saved),
            keyed_by_name(final(self)@),
    {
        proof {
            use_type_invariant(&*self);
        }
        let key = saved.name().to_owned();
        let ghost name = key@;
        let ghost before = *self;
        let found = self.find(&key);
        // The entries are taken out while they change, and put back whole.
        let mut entries: Vec<Entry<P>> = Vec::new();
        std::mem::swap(&mut self.entries, &mut entries);
        let ghost at = match found {
            Some(i) => i as int,
            None => entries.len() as int,
        };
        match found {
            Some(i) => {
                entries.set(i, Entry { key, saved });
            },
            None => {
                entries.push(Entry { key, saved });
            },
        }
        proof {
            assert forall|k: int| 0 <= k < entries.len() implies (#[trigger] entries[k]).key@
                == entries[k].saved.spec_name() by {
                if k != at {
                    assert(entries[k] == before.entries[k]);
                }
            }
            assert forall|i: int, j: int|
                0 <= i < entries.len() && 0 <= j < entries.len() && i != j implies
                (#[trigger] entries[i]).key@ != (#[trigger] entries[j]).key@ by {
                if i != at {
                    assert(entries[i] == before.entries[i]);
                    assert(before.filed_at(before.entries[i].key@, i));
                }
                if j != at {
                    assert(entries[j] == before.entries[j]);
                    assert(before.filed_at(before.entries[j].key@, j));
                }
                if found is Some {
                    assert(before.filed_at(name, at));
                }
            }
        }
        self.entries = entries;
        proof {
            assert forall|n: Seq<char>, k: int| n != name implies
                (#[trigger] self.filed_at(n, k) <==> before.filed_at(n, k)) by {
                if 0 <= k < before.entries.len() && k != at {
                    assert(self.entries[k] == before.entries[k]);
                }
            }
            self.lemma_inserted(before, name, saved, at);
            self.lemma_keyed_by_name();
        }
    }

    /// In a well-formed registry the entry of a name stands where `position`
    /// says.
    proof fn lemma_position(&self, name: Seq<char>, i: int)
        requires
            self.well_formed(),
            self.filed_at(name, i),
        ensures
            self.position(name) == Some(i),
    {
        let j = choose|j: int| self.filed_at(name, j);
        if j != i {
            assert(self.entries[i].key@ != self.entries[j].key@);
        }
    }

    /// In a well-formed registry every scene stands under its own name.
    proof fn lemma_keyed_by_name(&self)
        requires
            self.well_formed(),
        ensures
            keyed_by_name(self@),
    {
        assert forall|name: Seq<char>| #[trigger] self@.contains_key(name) implies
            self@[name].spec_name() == name by {
            let i = self.position(name).unwrap();
            assert(self.filed_at(name, i));
        }
    }

    /// A registry that differs from `before` only in holding `saved` under
    /// `name`, at `i`, is `before` with that entry put in.
    proof fn lemma_inserted(&self, before: Self, name: Seq<char>, saved: P, i: int)
        requires
            before.well_formed(),
            self.well_formed(),
            self.filed_at(name, i),
            self.entries[i].saved == saved,
            forall|n: Seq<char>, k: int|
                n != name ==> (#[trigger] self.filed_at(n, k) <==> before.filed_at(n, k)),
            forall|k: int|
                0 <= k < before.entries.len() && k != i ==> #[trigger] self.entries[k]
                    == before.entries[k],
        ensures
            self@ == before@.insert(name, saved),
    {
        let target = before@.insert(name, saved);
        assert forall|n: Seq<char>| #[trigger] self@.contains_key(n) <==> target.contains_key(n) by {
            if n == name {
                self.lemma_position(name, i);
            } else {
                if self.position(n) is Some {
                    let k = self.position(n).unwrap();
                    assert(self.filed_at(n, k));
                    assert(before.filed_at(n, k));
                }
                if before.position(n) is Some {
                    let k = before.position(n).unwrap();
                    assert(before.filed_at(n, k));
                    assert(self.filed_at(n, k));
                }
            }
        }
        assert forall|n: Seq<char>| #[trigger] self@.contains_key(n) implies
            self@[n] == target[n] by {
            if n == name {
                self.lemma_position(name, i);
            } else {
                let k = self.position(n).unwrap();
                assert(self.filed_at(n, k));
                assert(before.filed_at(n, k));
                before.lemma_position(n, k);
                assert(k != i);
            }
        }
        assert(self@ =~= target);
    }
}

} // verus!
