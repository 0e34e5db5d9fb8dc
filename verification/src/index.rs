//! A small map from normalized text keys to card ids.
use vstd::prelude::*;

verus! {

/// The map that a list of (key, id) entries with distinct keys stands for.
pub open spec fn map_of(e: Seq<(String, String)>) -> Map<Seq<char>, Seq<char>>
    decreases e.len(),
{
    if e.len() == 0 {
        Map::empty()
    } else {
        map_of(e.drop_last()).insert(e.last().0@, e.last().1@)
    }
}

/// No two entries share a key.
pub open spec fn distinct_keys(e: Seq<(String, String)>) -> bool {
    forall|i: int, j: int| 0 <= i < e.len() && 0 <= j < e.len() && i != j ==> e[i].0@ != e[j].0@
}

proof fn lemma_map_of_absent(e: Seq<(String, String)>, k: Seq<char>)
    requires
        forall|i: int| 0 <= i < e.len() ==> e[i].0@ != k,
    ensures
        !map_of(e).contains_key(k),
    decreases e.len(),
{
    if e.len() > 0 {
        lemma_map_of_absent(e.drop_last(), k);
    }
}

proof fn lemma_map_of_at(e: Seq<(String, String)>, i: int)
    requires
        distinct_keys(e),
        0 <= i < e.len(),
    ensures
        map_of(e).contains_key(e[i].0@),
        map_of(e)[e[i].0@] == e[i].1@,
    decreases e.len(),
{
    if i < e.len() - 1 {
        lemma_map_of_at(e.drop_last(), i);
    }
}

proof fn lemma_map_of_update(e: Seq<(String, String)>, i: int, entry: (String, String))
    requires
        distinct_keys(e),
        0 <= i < e.len(),
        entry.0@ == e[i].0@,
    ensures
        map_of(e.update(i, entry)) == map_of(e).insert(entry.0@, entry.1@),
    decreases e.len(),
{
    let u = e.update(i, entry);
    if i == e.len() - 1 {
        assert(u.drop_last() =~= e.drop_last());
        assert(map_of(e.drop_last()).insert(entry.0@, e[i].1@).insert(entry.0@, entry.1@)
            =~= map_of(e.drop_last()).insert(entry.0@, entry.1@));
    } else {
        lemma_map_of_update(e.drop_last(), i, entry);
        assert(u.drop_last() =~= e.drop_last().update(i, entry));
        assert(e.last().0@ != entry.0@);
        assert(map_of(e.drop_last()).insert(entry.0@, entry.1@).insert(e.last().0@, e.last().1@)
            =~= map_of(e.drop_last()).insert(e.last().0@, e.last().1@).insert(entry.0@, entry.1@));
    }
}

/// A map from text keys to ids, keyed by the characters of the key.
pub struct TextIndex {
    entries: Vec<(String, String)>,
}

impl View for TextIndex {
    type V = Map<Seq<char>, Seq<char>>;

    closed spec fn view(&self) -> Map<Seq<char>, Seq<char>> {
        map_of(self.entries@)
    }
}

impl TextIndex {
    #[verifier::type_invariant]
    closed spec fn wf(self) -> bool {
        distinct_keys(self.entries@)
    }

    /// An empty index.
    pub fn new() -> (r: Self)
        ensures
            r@ == Map::<Seq<char>, Seq<char>>::empty(),
    {
        TextIndex { entries: Vec::new() }
    }

    fn position(&self, key: &String) -> (r: Option<usize>)
        ensures
            match r {
                Some(i) => i < self.entries@.len() && self.entries@[i as int].0@ == key@,
                None => forall|j: int| 0 <= j < self.entries@.len() ==> self.entries@[j].0@ != key@,
            },
    {
        let mut i: usize = 0;
        while i < self.entries.len()
            invariant
                i <= self.entries@.len(),
                forall|j: int| 0 <= j < i ==> self.entries@[j].0@ != key@,
            decreases self.entries@.len() - i,
        {
            if self.entries[i].0 == *key {
                return Some(i);
            }
            i = i + 1;
        }
        None
    }

    /// The id stored under `key`, if any.
    pub fn get(&self, key: &String) -> (r: Option<String>)
        ensures
            match r {
                Some(id) => self@.contains_key(key@) && id@ == self@[key@],
                None => !self@.contains_key(key@),
            },
    {
        proof {
            use_type_invariant(self);
        }
        match self.position(key) {
            Some(i) => {
                proof {
                    lemma_map_of_at(self.entries@, i as int);
                }
                Some(self.entries[i].1.clone())
            },
            None => {
                proof {
                    lemma_map_of_absent(self.entries@, key@);
                }
                None
            },
        }
    }

    /// Stores `id` under `key`, replacing what was stored there.
    pub fn insert(&mut self, key: String, id: String)
        ensures
            final(self)@ == old(self)@.insert(key@, id@),
    {
        proof {
            use_type_invariant(&*self);
        }
        match self.position(&key) {
            Some(i) => {
                let ghost k = key@;
                let ghost v = id@;
                proof {
                    lemma_map_of_update(self.entries@, i as int, (key, id));
                    assert forall|a: int, b: int|
                        0 <= a < self.entries@.len() && 0 <= b < self.entries@.len() && a != b
                        implies self.entries@.update(i as int, (key, id))[a].0@
                        != self.entries@.update(i as int, (key, id))[b].0@ by {}
                }
                let mut e: Vec<(String, String)> = Vec::new();
                std::mem::swap(&mut e, &mut self.entries);
                e.set(i, (key, id));
                self.entries = e;
            },
            None => {
                let ghost old_entries = self.entries@;
                proof {
                    assert forall|a: int, b: int|
                        0 <= a < old_entries.push((key, id)).len() && 0 <= b
                            < old_entries.push((key, id)).len() && a != b
                        implies old_entries.push((key, id))[a].0@ != old_entries.push(
                        (key, id),
                    )[b].0@ by {}
                    assert(old_entries.push((key, id)).drop_last() =~= old_entries);
                }
                let mut e: Vec<(String, String)> = Vec::new();
                std::mem::swap(&mut e, &mut self.entries);
                e.push((key, id));
                self.entries = e;
            },
        }
    }
}

} // verus!
