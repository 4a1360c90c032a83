//! The per-row state store: a transient mapping from an entity's stable key
//! to its deletion progress, kept beside the document rather than on the
//! entities, so that reloading the document discards it wholesale. Rows are
//! independent: an operation on one key never touches another.

use vstd::prelude::*;
use crate::models::state::State;

verus! {

/// One row's entry: the entity's stable key and its deletion progress.
pub struct StoreEntry {
    pub id: String,
    pub state: State,
}

/// The store itself; viewed as a map from key to progress record.
pub struct StateStore {
    entries: Vec<StoreEntry>,
}

/// The map an entry list denotes; later entries would win, though a
/// well-formed store never holds a key twice.
pub open spec fn entries_map(s: Seq<StoreEntry>) -> Map<Seq<char>, State>
    decreases s.len(),
{
    if s.len() == 0 {
        Map::empty()
    } else {
        entries_map(s.drop_last()).insert(s.last().id@, s.last().state)
    }
}

/// No key occurs twice.
pub open spec fn unique_ids(s: Seq<StoreEntry>) -> bool {
    forall|i: int, j: int|
        0 <= i < s.len() && 0 <= j < s.len() && i != j ==> (#[trigger] s[i]).id@ != (
        #[trigger] s[j]).id@
}

impl View for StateStore {
    type V = Map<Seq<char>, State>;

    closed spec fn view(&self) -> Map<Seq<char>, State> {
        entries_map(self.entries@)
    }
}

/// A key is in the denoted map exactly when some entry holds it.
proof fn lemma_entries_map_domain(s: Seq<StoreEntry>, k: Seq<char>)
    ensures
        entries_map(s).contains_key(k) <==> exists|i: int|
            0 <= i < s.len() && (#[trigger] s[i]).id@ == k,
    decreases s.len(),
{
    if s.len() > 0 {
        lemma_entries_map_domain(s.drop_last(), k);
        if entries_map(s).contains_key(k) {
            if s.last().id@ != k {
                let rest = s.drop_last();
                let i = choose|i: int| 0 <= i < rest.len() && (#[trigger] rest[i]).id@ == k;
                assert(s[i].id@ == k);
            }
        }
        if exists|i: int| 0 <= i < s.len() && (#[trigger] s[i]).id@ == k {
            let i = choose|i: int| 0 <= i < s.len() && (#[trigger] s[i]).id@ == k;
            if i < s.len() - 1 {
                assert(s.drop_last()[i].id@ == k);
            }
        }
    }
}

/// With unique keys, the entry at any position gives the map's value at its
/// key.
proof fn lemma_entries_map_index(s: Seq<StoreEntry>, i: int)
    requires
        unique_ids(s),
        0 <= i < s.len(),
    ensures
        entries_map(s).contains_key(s[i].id@),
        entries_map(s)[s[i].id@] == s[i].state,
    decreases s.len(),
{
    if i < s.len() - 1 {
        assert(unique_ids(s.drop_last())) by {
            assert(forall|a: int, b: int|
                0 <= a < s.drop_last().len() && 0 <= b < s.drop_last().len() ==> s.drop_last()[a]
                    == s[a] && s.drop_last()[b] == s[b]);
        }
        lemma_entries_map_index(s.drop_last(), i);
        assert(s.drop_last()[i] == s[i]);
        assert(s.last().id@ != s[i].id@);
    }
}

/// Replacing the entry at a position, keeping its key, denotes a map insert.
proof fn lemma_entries_map_update(s: Seq<StoreEntry>, i: int, e: StoreEntry)
    requires
        unique_ids(s),
        0 <= i < s.len(),
        e.id@ == s[i].id@,
    ensures
        entries_map(s.update(i, e)) == entries_map(s).insert(e.id@, e.state),
    decreases s.len(),
{
    let s2 = s.update(i, e);
    if i == s.len() - 1 {
        assert(s2.drop_last() =~= s.drop_last());
        assert(s2.last() == e);
        assert(entries_map(s2) =~= entries_map(s).insert(e.id@, e.state));
    } else {
        assert(unique_ids(s.drop_last())) by {
            assert(forall|a: int, b: int|
                0 <= a < s.drop_last().len() && 0 <= b < s.drop_last().len() ==> s.drop_last()[a]
                    == s[a] && s.drop_last()[b] == s[b]);
        }
        lemma_entries_map_update(s.drop_last(), i, e);
        assert(s2.drop_last() =~= s.drop_last().update(i, e));
        assert(s2.last() == s.last());
        assert(s.last().id@ != e.id@);
        assert(entries_map(s2) =~= entries_map(s).insert(e.id@, e.state));
    }
}

/// Appending an entry denotes a map insert.
proof fn lemma_entries_map_push(s: Seq<StoreEntry>, e: StoreEntry)
    ensures
        entries_map(s.push(e)) == entries_map(s).insert(e.id@, e.state),
{
    assert(s.push(e).drop_last() =~= s);
    assert(s.push(e).last() == e);
}

/// Removing the entry at a position, with unique keys, denotes a map remove.
proof fn lemma_entries_map_remove(s: Seq<StoreEntry>, i: int)
    requires
        unique_ids(s),
        0 <= i < s.len(),
    ensures
        entries_map(s.remove(i)) == entries_map(s).remove(s[i].id@),
    decreases s.len(),
{
    let k = s[i].id@;
    if i == s.len() - 1 {
        let rest = s.drop_last();
        assert(s.remove(i) =~= rest);
        assert forall|j: int| 0 <= j < rest.len() implies (#[trigger] rest[j]).id@ != k by {
            assert(rest[j] == s[j]);
        }
        lemma_entries_map_domain(rest, k);
        assert(entries_map(rest) =~= entries_map(s).remove(k));
    } else {
        assert(unique_ids(s.drop_last())) by {
            assert(forall|a: int, b: int|
                0 <= a < s.drop_last().len() && 0 <= b < s.drop_last().len() ==> s.drop_last()[a]
                    == s[a] && s.drop_last()[b] == s[b]);
        }
        lemma_entries_map_remove(s.drop_last(), i);
        assert(s.remove(i).drop_last() =~= s.drop_last().remove(i));
        assert(s.remove(i).last() == s.last());
        assert(s.last().id@ != k);
        assert(entries_map(s.remove(i)) =~= entries_map(s).remove(k));
    }
}

impl StateStore {
    /// Well-formed: no key held twice.
    pub closed spec fn wf(&self) -> bool {
        unique_ids(self.entries@)
    }

    /// The empty store, as the application starts (and after every reload).
    pub fn new() -> (r: Self)
        ensures
            r.wf(),
            r@ == Map::<Seq<char>, State>::empty(),
    {
        StateStore { entries: Vec::new() }
    }

    /// Position of the entry holding the key, if any.
    fn find_index(&self, id: &String) -> (r: Option<usize>)
        requires
            self.wf(),
        ensures
            match r {
                Some(i) => i < self.entries@.len() && self.entries@[i as int].id@ == id@
                    && self@.contains_key(id@) && self@[id@] == self.entries@[i as int].state,
                None => !self@.contains_key(id@),
            },
    {
        let n = self.entries.len();
        for k in 0..n
            invariant
                self.wf(),
                n == self.entries@.len(),
                forall|i: int| 0 <= i < k ==> (#[trigger] self.entries@[i]).id@ != id@,
        {
            if self.entries[k].id.eq(id) {
                proof {
                    lemma_entries_map_index(self.entries@, k as int);
                }
                return Some(k);
            }
        }
        proof {
            lemma_entries_map_domain(self.entries@, id@);
        }
        None
    }

    /// The progress record under a key, if the row has one; a row with no
    /// record is implicitly active.
    pub fn get(&self, id: &String) -> (r: Option<State>)
        requires
            self.wf(),
        ensures
            match r {
                Some(st) => self@.contains_key(id@) && self@[id@] == st,
                None => !self@.contains_key(id@),
            },
    {
        match self.find_index(id) {
            Some(i) => Some(self.entries[i].state),
            None => None,
        }
    }

    /// Binds the key to the given record, replacing any previous one.
    pub fn set(&mut self, id: &String, st: State)
        requires
            old(self).wf(),
        ensures
            final(self).wf(),
            final(self)@ == old(self)@.insert(id@, st),
    {
        match self.find_index(id) {
            Some(i) => {
                proof {
                    lemma_entries_map_update(
                        self.entries@,
                        i as int,
                        StoreEntry { id: self.entries@[i as int].id, state: st },
                    );
                }
                self.entries[i].state = st;
            },
            None => {
                proof {
                    lemma_entries_map_push(self.entries@, StoreEntry { id: *id, state: st });
                    lemma_entries_map_domain(self.entries@, id@);
                }
                let entry = StoreEntry { id: id.clone(), state: st };
                proof {
                    assert forall|i: int|
                        0 <= i < self.entries@.len() implies (#[trigger] self.entries@[i]).id@
                        != id@ by {
                        if self.entries@[i].id@ == id@ {
                            lemma_entries_map_index(self.entries@, i);
                        }
                    }
                }
                self.entries.push(entry);
            },
        }
    }

    /// Unbinds the key; a no-op when the key has no record.
    pub fn remove(&mut self, id: &String)
        requires
            old(self).wf(),
        ensures
            final(self).wf(),
            final(self)@ == old(self)@.remove(id@),
    {
        match self.find_index(id) {
            Some(i) => {
                proof {
                    lemma_entries_map_remove(self.entries@, i as int);
                    let s2 = self.entries@.remove(i as int);
                    assert forall|a: int, b: int|
                        0 <= a < s2.len() && 0 <= b < s2.len() && a != b implies (
                        #[trigger] s2[a]).id@ != (#[trigger] s2[b]).id@ by {
                        let sa: int = if a < i {
                            a
                        } else {
                            a + 1
                        };
                        let sb: int = if b < i {
                            b
                        } else {
                            b + 1
                        };
                        assert(s2[a] == self.entries@[sa]);
                        assert(s2[b] == self.entries@[sb]);
                    }
                }
                self.entries.remove(i);
            },
            None => {
                proof {
                    assert(self@ =~= self@.remove(id@));
                }
            },
        }
    }
}

} // verus!
