//! A string-keyed environment map (name to value), such as the command-line
//! overrides handed to the Fanwaave configuration resolver.
use vstd::prelude::*;

verus! {

/// The position of the entry whose name is `key`.
pub open spec fn key_index(entries: Seq<(String, String)>, key: Seq<char>) -> int {
    choose|i: int| 0 <= i < entries.len() && entries[i].0@ == key
}

/// Whether some entry is named `key`.
pub open spec fn has_key(entries: Seq<(String, String)>, key: Seq<char>) -> bool {
    exists|i: int| 0 <= i < entries.len() && entries[i].0@ == key
}

/// No two entries share a name.
pub open spec fn names_distinct(entries: Seq<(String, String)>) -> bool {
    forall|i: int, j: int|
        0 <= i < entries.len() && 0 <= j < entries.len() && i != j
            ==> #[trigger] entries[i].0@ != #[trigger] entries[j].0@
}

/// The map that a list of distinctly named entries stands for.
pub open spec fn entries_map(entries: Seq<(String, String)>) -> Map<Seq<char>, Seq<char>> {
    Map::new(|k: Seq<char>| has_key(entries, k), |k: Seq<char>| entries[key_index(entries, k)].1@)
}

/// The map that a list of (name, value) pairs yields when later pairs replace
/// earlier pairs of the same name.
pub open spec fn pairs_map(pairs: Seq<(String, String)>) -> Map<Seq<char>, Seq<char>>
    decreases pairs.len(),
{
    if pairs.len() == 0 {
        Map::empty()
    } else {
        pairs_map(pairs.drop_last()).insert(pairs.last().0@, pairs.last().1@)
    }
}

/// A map from variable names to values; each name occurs once.
#[derive(Debug)]
pub struct EnvMap {
    entries: Vec<(String, String)>,
}

impl View for EnvMap {
    type V = Map<Seq<char>, Seq<char>>;

    closed spec fn view(&self) -> Map<Seq<char>, Seq<char>> {
        entries_map(self.entries@)
    }
}

impl EnvMap {
    #[verifier::type_invariant]
    spec fn inv(self) -> bool {
        names_distinct(self.entries@)
    }

    /// An empty map.
    pub fn new() -> (m: EnvMap)
        ensures
            m@ == Map::<Seq<char>, Seq<char>>::empty(),
    {
        let m = EnvMap { entries: Vec::new() };
        assert(m@ =~= Map::<Seq<char>, Seq<char>>::empty());
        m
    }

    /// The number of names in the map.
    pub fn len(&self) -> (n: usize)
        ensures
            n == self@.dom().len(),
    {
        proof {
            use_type_invariant(self);
            lemma_entries_map_len(self.entries@);
        }
        self.entries.len()
    }

    /// Sets `key` to `value`, replacing any value it had.
    pub fn insert(&mut self, key: String, value: String)
        ensures
            final(self)@ == old(self)@.insert(key@, value@),
    {
        proof {
            use_type_invariant(&*self);
        }
        let ghost old_entries = self.entries@;
        let ghost gkey = key;
        let ghost gvalue = value;
        let n = self.entries.len();
        let mut i: usize = 0;
        while i < n
            invariant
                n == self.entries@.len(),
                self.entries@ == old_entries,
                names_distinct(old_entries),
                old(self)@ == entries_map(old_entries),
                gkey == key,
                gvalue == value,
                i <= n,
                forall|j: int| 0 <= j < i ==> self.entries@[j].0@ != key@,
            decreases n - i,
        {
            if self.entries[i].0 == key {
                let mut entries: Vec<(String, String)> = Vec::new();
                std::mem::swap(&mut entries, &mut self.entries);
                entries.set(i, (key, value));
                proof {
                    lemma_entries_map_update(old_entries, i as int, gkey, gvalue);
                }
                self.entries = entries;
                return;
            }
            i = i + 1;
        }
        let mut entries: Vec<(String, String)> = Vec::new();
        std::mem::swap(&mut entries, &mut self.entries);
        entries.push((key, value));
        proof {
            lemma_entries_map_push(old_entries, gkey, gvalue);
        }
        self.entries = entries;
    }

    /// The value of `key`, if the map names it.
    pub fn get(&self, key: &String) -> (r: Option<&String>)
        ensures
            match r {
                Some(v) => self@.contains_key(key@) && self@[key@] == v@,
                None => !self@.contains_key(key@),
            },
    {
        proof {
            use_type_invariant(self);
        }
        let n = self.entries.len();
        let mut i: usize = 0;
        while i < n
            invariant
                n == self.entries@.len(),
                names_distinct(self.entries@),
                i <= n,
                forall|j: int| 0 <= j < i ==> self.entries@[j].0@ != key@,
            decreases n - i,
        {
            if self.entries[i].0 == *key {
                proof {
                    lemma_key_index_unique(self.entries@, i as int);
                }
                return Some(&self.entries[i].1);
            }
            i = i + 1;
        }
        None
    }

    /// Builds a map from `pairs`; of two pairs with one name, the later one wins.
    pub fn from_pairs(pairs: Vec<(String, String)>) -> (m: EnvMap)
        ensures
            m@ == pairs_map(pairs@),
    {
        let mut m = EnvMap::new();
        let n = pairs.len();
        let mut i: usize = 0;
        while i < n
            invariant
                n == pairs@.len(),
                i <= n,
                m@ == pairs_map(pairs@.take(i as int)),
            decreases n - i,
        {
            let k = pairs[i].0.clone();
            let v = pairs[i].1.clone();
            m.insert(k, v);
            proof {
                assert(pairs@.take(i as int + 1).drop_last() =~= pairs@.take(i as int));
            }
            i = i + 1;
        }
        assert(pairs@.take(n as int) =~= pairs@);
        m
    }

    /// The (name, value) entries of the map, each name once.
    pub fn into_pairs(self) -> (pairs: Vec<(String, String)>)
        ensures
            names_distinct(pairs@),
            entries_map(pairs@) == self@,
    {
        proof {
            use_type_invariant(&self);
        }
        self.entries
    }
}

/// In a distinctly named list, the entry at `i` is the one found by its name.
proof fn lemma_key_index_unique(entries: Seq<(String, String)>, i: int)
    requires
        names_distinct(entries),
        0 <= i < entries.len(),
    ensures
        has_key(entries, entries[i].0@),
        key_index(entries, entries[i].0@) == i,
{
    let k = entries[i].0@;
    assert(has_key(entries, k));
    let j = key_index(entries, k);
    if j != i {
        assert(entries[i].0@ != entries[j].0@);
    }
}

proof fn lemma_entries_map_update(entries: Seq<(String, String)>, i: int, key: String, value: String)
    requires
        names_distinct(entries),
        0 <= i < entries.len(),
        entries[i].0@ == key@,
    ensures
        names_distinct(entries.update(i, (key, value))),
        entries_map(entries.update(i, (key, value))) == entries_map(entries).insert(key@, value@),
{
    let new = entries.update(i, (key, value));
    assert forall|a: int, b: int|
        0 <= a < new.len() && 0 <= b < new.len() && a != b implies #[trigger] new[a].0@ != #[trigger] new[b].0@ by {
        assert(entries[a].0@ != entries[b].0@);
    }
    lemma_key_index_unique(new, i);
    assert forall|k: Seq<char>| #[trigger] has_key(new, k) <==> has_key(entries, k) || k == key@ by {
        if has_key(new, k) {
            let j = key_index(new, k);
            if j != i {
                assert(entries[j].0@ == k);
            }
        }
        if has_key(entries, k) {
            let j = key_index(entries, k);
            assert(new[j].0@ == k);
        }
    }
    assert forall|k: Seq<char>| has_key(new, k) && k != key@ implies
        new[key_index(new, k)].1@ == entries[key_index(entries, k)].1@ by {
        let j = key_index(new, k);
        assert(j != i);
        assert(entries[j].0@ == k);
        lemma_key_index_unique(entries, j);
    }
    assert(entries_map(new) =~= entries_map(entries).insert(key@, value@));
}

proof fn lemma_entries_map_push(entries: Seq<(String, String)>, key: String, value: String)
    requires
        names_distinct(entries),
        forall|j: int| 0 <= j < entries.len() ==> entries[j].0@ != key@,
    ensures
        names_distinct(entries.push((key, value))),
        entries_map(entries.push((key, value))) == entries_map(entries).insert(key@, value@),
{
    let new = entries.push((key, value));
    let n = entries.len() as int;
    assert forall|a: int, b: int|
        0 <= a < new.len() && 0 <= b < new.len() && a != b implies #[trigger] new[a].0@ != #[trigger] new[b].0@ by {
        if a < n && b < n {
            assert(entries[a].0@ != entries[b].0@);
        }
    }
    lemma_key_index_unique(new, n);
    assert forall|k: Seq<char>| #[trigger] has_key(new, k) <==> has_key(entries, k) || k == key@ by {
        if has_key(new, k) {
            let j = key_index(new, k);
            if j != n {
                assert(entries[j].0@ == k);
            }
        }
        if has_key(entries, k) {
            let j = key_index(entries, k);
            assert(new[j].0@ == k);
        }
    }
    assert forall|k: Seq<char>| has_key(new, k) && k != key@ implies
        new[key_index(new, k)].1@ == entries[key_index(entries, k)].1@ by {
        let j = key_index(new, k);
        assert(j != n);
        assert(entries[j].0@ == k);
        lemma_key_index_unique(entries, j);
    }
    assert(entries_map(new) =~= entries_map(entries).insert(key@, value@));
}

/// A distinctly named list has as many names as entries.
proof fn lemma_entries_map_len(entries: Seq<(String, String)>)
    requires
        names_distinct(entries),
    ensures
        entries_map(entries).dom().finite(),
        entries_map(entries).dom().len() == entries.len(),
    decreases entries.len(),
{
    if entries.len() == 0 {
        assert(entries_map(entries).dom() =~= Set::<Seq<char>>::empty());
    } else {
        let init = entries.drop_last();
        let last = entries.last();
        assert forall|a: int, b: int|
            0 <= a < init.len() && 0 <= b < init.len() && a != b implies #[trigger] init[a].0@ != #[trigger] init[b].0@ by {
            assert(entries[a].0@ != entries[b].0@);
        }
        lemma_entries_map_len(init);
        assert(entries =~= init.push(last));
        lemma_entries_map_push(init, last.0, last.1);
        assert(!entries_map(init).dom().contains(last.0@)) by {
            if has_key(init, last.0@) {
                let j = key_index(init, last.0@);
                assert(entries[j].0@ != entries[entries.len() - 1].0@);
            }
        }
        assert(entries_map(entries).dom() =~= entries_map(init).dom().insert(last.0@));
    }
}

/// Read after write: once `key` is set to `value`, `key` reads `value` and every
/// other name reads what it read before.
pub proof fn lemma_read_after_insert(
    m: Map<Seq<char>, Seq<char>>,
    key: Seq<char>,
    value: Seq<char>,
    other: Seq<char>,
)
    requires
        other != key,
    ensures
        m.insert(key, value).contains_key(key),
        m.insert(key, value)[key] == value,
        m.insert(key, value).contains_key(other) == m.contains_key(other),
        m.contains_key(other) ==> m.insert(key, value)[other] == m[other],
{
}

/// The names that a list of pairs sets are exactly the names that occur in it.
pub proof fn lemma_pairs_map_names(pairs: Seq<(String, String)>, name: Seq<char>)
    ensures
        pairs_map(pairs).contains_key(name) <==> exists|j: int| 0 <= j < pairs.len() && #[trigger] pairs[j].0@ == name,
    decreases pairs.len(),
{
    if pairs.len() > 0 {
        let init = pairs.drop_last();
        lemma_pairs_map_names(init, name);
        if pairs_map(pairs).contains_key(name) && pairs.last().0@ != name {
            let j = choose|j: int| 0 <= j < init.len() && #[trigger] init[j].0@ == name;
            assert(pairs[j].0@ == name);
        }
        if exists|j: int| 0 <= j < pairs.len() && #[trigger] pairs[j].0@ == name {
            let j = choose|j: int| 0 <= j < pairs.len() && #[trigger] pairs[j].0@ == name;
            if j < pairs.len() - 1 {
                assert(init[j].0@ == name);
            }
        }
    }
}

/// The later pair wins: the value a list of pairs gives a name is the value of
/// the last pair with that name.
pub proof fn lemma_later_pair_wins(pairs: Seq<(String, String)>, i: int)
    requires
        0 <= i < pairs.len(),
        forall|j: int| i < j < pairs.len() ==> #[trigger] pairs[j].0@ != pairs[i].0@,
    ensures
        pairs_map(pairs).contains_key(pairs[i].0@),
        pairs_map(pairs)[pairs[i].0@] == pairs[i].1@,
    decreases pairs.len(),
{
    if i < pairs.len() - 1 {
        let init = pairs.drop_last();
        assert forall|j: int| i < j < init.len() implies #[trigger] init[j].0@ != init[i].0@ by {
            assert(pairs[j].0@ != pairs[i].0@);
        }
        lemma_later_pair_wins(init, i);
        assert(pairs.last().0@ != pairs[i].0@) by {
            assert(pairs[pairs.len() - 1].0@ != pairs[i].0@);
        }
    }
}

} // verus!
