//! A small association table whose keys are compared by their views: the
//! store behind the attribute buffer, the sequence numbers, the citizen name
//! cache and the hook registry. The keys of these stores are byte strings,
//! tuples holding byte strings, and enums; vstd specifies `HashMap` only for
//! key types whose hashing it models (integers and `bool`), so these stores
//! keep their entries in a vector instead.
use vstd::prelude::*;

verus! {

/// A key that can be compared at run time exactly as its view is compared.
pub trait TableKey: View + Sized {
    fn same_key(&self, other: &Self) -> (same: bool)
        ensures
            same == (self@ == other@),
    ;
}

/// Byte strings are compared byte by byte.
pub fn bytes_equal(a: &Vec<u8>, b: &Vec<u8>) -> (same: bool)
    ensures
        same == (a@ == b@),
{
    if a.len() != b.len() {
        return false;
    }
    let mut i: usize = 0;
    while i < a.len()
        invariant
            a@.len() == b@.len(),
            i <= a@.len(),
            forall|j: int| 0 <= j < i ==> a@[j] == b@[j],
        decreases a@.len() - i,
    {
        if a[i] != b[i] {
            return false;
        }
        i += 1;
    }
    assert(a@ =~= b@);
    true
}

impl TableKey for Vec<u8> {
    fn same_key(&self, other: &Self) -> (same: bool) {
        bytes_equal(self, other)
    }
}

impl TableKey for (Vec<u8>, i32, i32) {
    fn same_key(&self, other: &Self) -> (same: bool) {
        bytes_equal(&self.0, &other.0) && self.1 == other.1 && self.2 == other.2
    }
}

/// Whether no two entries of `s` hold keys with the same view.
pub open spec fn keys_distinct<K: View, V>(s: Seq<(K, V)>) -> bool {
    forall|i: int, j: int|
        0 <= i < j < s.len() ==> #[trigger] s[i].0@ != #[trigger] s[j].0@
}

/// Whether entry `i` of `s` holds a key whose view is `k`.
pub open spec fn holds_key_at<K: View, V>(s: Seq<(K, V)>, k: K::V, i: int) -> bool {
    0 <= i < s.len() && s[i].0@ == k
}

/// The entries of `s` as a map from the view of each key to its value.
pub open spec fn entries_map<K: View, V>(s: Seq<(K, V)>) -> Map<K::V, V> {
    Map::new(
        |k: K::V| exists|i: int| holds_key_at(s, k, i),
        |k: K::V| s[choose|i: int| holds_key_at(s, k, i)].1,
    )
}

proof fn lemma_entry<K: View, V>(s: Seq<(K, V)>, i: int)
    requires
        keys_distinct(s),
        0 <= i < s.len(),
    ensures
        entries_map(s).contains_key(s[i].0@),
        entries_map(s)[s[i].0@] == s[i].1,
{
    let k = s[i].0@;
    assert(holds_key_at(s, k, i));
    let j = choose|j: int| holds_key_at(s, k, j);
    assert(holds_key_at(s, k, j));
    if j < i {
        assert(s[j].0@ != s[i].0@);
    } else if i < j {
        assert(s[i].0@ != s[j].0@);
    }
}

proof fn lemma_update<K: View, V>(s: Seq<(K, V)>, i: int, key: K, value: V)
    requires
        keys_distinct(s),
        0 <= i < s.len(),
        s[i].0@ == key@,
    ensures
        keys_distinct(s.update(i, (key, value))),
        entries_map(s.update(i, (key, value))) == entries_map(s).insert(key@, value),
{
    let t = s.update(i, (key, value));
    assert(keys_distinct(t)) by {
        assert forall|a: int, b: int| 0 <= a < b < t.len() implies #[trigger] t[a].0@
            != #[trigger] t[b].0@ by {
            assert(s[a].0@ != s[b].0@);
        }
    }
    let m = entries_map(s).insert(key@, value);
    assert forall|k: K::V| #[trigger] entries_map(t).contains_key(k) <==> m.contains_key(k) by {
        if exists|j: int| holds_key_at(t, k, j) {
            let j = choose|j: int| holds_key_at(t, k, j);
            if j != i {
                assert(holds_key_at(s, k, j));
            }
        }
        if exists|j: int| holds_key_at(s, k, j) {
            let j = choose|j: int| holds_key_at(s, k, j);
            assert(holds_key_at(t, k, j));
        }
        if k == key@ {
            assert(holds_key_at(t, k, i));
        }
    }
    assert forall|k: K::V| #[trigger] entries_map(t).contains_key(k) implies entries_map(t)[k]
        == m[k] by {
        let j = choose|j: int| holds_key_at(t, k, j);
        lemma_entry(t, j);
        if j != i {
            lemma_entry(s, j);
        }
    }
    assert(entries_map(t) =~= m);
}

proof fn lemma_push<K: View, V>(s: Seq<(K, V)>, key: K, value: V)
    requires
        keys_distinct(s),
        !entries_map(s).contains_key(key@),
    ensures
        keys_distinct(s.push((key, value))),
        entries_map(s.push((key, value))) == entries_map(s).insert(key@, value),
{
    let t = s.push((key, value));
    assert(keys_distinct(t)) by {
        assert forall|a: int, b: int| 0 <= a < b < t.len() implies #[trigger] t[a].0@
            != #[trigger] t[b].0@ by {
            if b == s.len() {
                assert(!holds_key_at(s, key@, a));
            } else {
                assert(s[a].0@ != s[b].0@);
            }
        }
    }
    let m = entries_map(s).insert(key@, value);
    assert forall|k: K::V| #[trigger] entries_map(t).contains_key(k) <==> m.contains_key(k) by {
        if exists|j: int| holds_key_at(t, k, j) {
            let j = choose|j: int| holds_key_at(t, k, j);
            if j < s.len() {
                assert(holds_key_at(s, k, j));
            }
        }
        if exists|j: int| holds_key_at(s, k, j) {
            let j = choose|j: int| holds_key_at(s, k, j);
            assert(holds_key_at(t, k, j));
        }
        if k == key@ {
            assert(holds_key_at(t, k, s.len() as int));
        }
    }
    assert forall|k: K::V| #[trigger] entries_map(t).contains_key(k) implies entries_map(t)[k]
        == m[k] by {
        let j = choose|j: int| holds_key_at(t, k, j);
        lemma_entry(t, j);
        if j < s.len() {
            lemma_entry(s, j);
        }
    }
    assert(entries_map(t) =~= m);
}

proof fn lemma_remove<K: View, V>(s: Seq<(K, V)>, i: int)
    requires
        keys_distinct(s),
        0 <= i < s.len(),
    ensures
        keys_distinct(s.remove(i)),
        entries_map(s.remove(i)) == entries_map(s).remove(s[i].0@),
{
    let t = s.remove(i);
    let key = s[i].0@;
    assert(keys_distinct(t)) by {
        assert forall|a: int, b: int| 0 <= a < b < t.len() implies #[trigger] t[a].0@
            != #[trigger] t[b].0@ by {
            let a0 = if a < i { a } else { a + 1 };
            let b0 = if b < i { b } else { b + 1 };
            assert(s[a0].0@ != s[b0].0@);
        }
    }
    let m = entries_map(s).remove(key);
    assert forall|k: K::V| #[trigger] entries_map(t).contains_key(k) <==> m.contains_key(k) by {
        if exists|j: int| holds_key_at(t, k, j) {
            let j = choose|j: int| holds_key_at(t, k, j);
            let j0 = if j < i { j } else { j + 1 };
            assert(holds_key_at(s, k, j0));
            if k == key {
                if j0 < i {
                    assert(s[j0].0@ != s[i].0@);
                } else {
                    assert(s[i].0@ != s[j0].0@);
                }
            }
        }
        if exists|j: int| holds_key_at(s, k, j) && k != key {
            let j = choose|j: int| holds_key_at(s, k, j) && k != key;
            assert(j != i);
            let j1 = if j < i { j } else { j - 1 };
            assert(holds_key_at(t, k, j1));
        }
    }
    assert forall|k: K::V| #[trigger] entries_map(t).contains_key(k) implies entries_map(t)[k]
        == m[k] by {
        let j = choose|j: int| holds_key_at(t, k, j);
        lemma_entry(t, j);
        let j0 = if j < i { j } else { j + 1 };
        lemma_entry(s, j0);
    }
    assert(entries_map(t) =~= m);
}

/// A table of entries with pairwise distinct keys.
#[derive(Debug)]
pub struct KeyedTable<K: View, V> {
    entries: Vec<(K, V)>,
}

impl<K: View, V> View for KeyedTable<K, V> {
    type V = Map<K::V, V>;

    closed spec fn view(&self) -> Map<K::V, V> {
        entries_map(self.entries@)
    }
}

impl<K: View, V> KeyedTable<K, V> {
    #[verifier::type_invariant]
    spec fn well_formed(self) -> bool {
        keys_distinct(self.entries@)
    }
}

impl<K: TableKey, V> KeyedTable<K, V> {
    /// An empty table.
    pub fn new() -> (table: Self)
        ensures
            table@ == Map::<K::V, V>::empty(),
    {
        let table = KeyedTable { entries: Vec::new() };
        assert(entries_map(table.entries@) =~= Map::<K::V, V>::empty());
        table
    }

    /// Position of the entry holding `key`, if any.
    fn position(&self, key: &K) -> (found: Option<usize>)
        ensures
            match found {
                Some(i) => i < self.entries@.len() && self.entries@[i as int].0@ == key@,
                None => !self@.contains_key(key@),
            },
    {
        let mut i: usize = 0;
        while i < self.entries.len()
            invariant
                i <= self.entries@.len(),
                forall|j: int| 0 <= j < i ==> self.entries@[j].0@ != key@,
            decreases self.entries@.len() - i,
        {
            if self.entries[i].0.same_key(key) {
                return Some(i);
            }
            i += 1;
        }
        assert(forall|j: int| !holds_key_at(self.entries@, key@, j));
        None
    }

    /// The value stored under `key`, if there is one.
    pub fn get(&self, key: &K) -> (value: Option<&V>)
        ensures
            match value {
                Some(v) => self@.contains_key(key@) && *v == self@[key@],
                None => !self@.contains_key(key@),
            },
    {
        proof {
            use_type_invariant(self);
        }
        match self.position(key) {
            Some(i) => {
                proof {
                    lemma_entry(self.entries@, i as int);
                }
                Some(&self.entries[i].1)
            },
            None => None,
        }
    }

    /// Whether some value is stored under `key`.
    pub fn contains_key(&self, key: &K) -> (present: bool)
        ensures
            present == self@.contains_key(key@),
    {
        proof {
            use_type_invariant(self);
        }
        match self.position(key) {
            Some(i) => {
                proof {
                    lemma_entry(self.entries@, i as int);
                }
                true
            },
            None => false,
        }
    }

    /// Stores `value` under `key`, replacing any value stored there before.
    pub fn insert(&mut self, key: K, value: V)
        ensures
            final(self)@ == old(self)@.insert(key@, value),
    {
        proof {
            use_type_invariant(&*self);
        }
        let found = self.position(&key);
        let mut entries: Vec<(K, V)> = Vec::new();
        std::mem::swap(&mut entries, &mut self.entries);
        let ghost before = entries@;
        match found {
            Some(i) => {
                proof {
                    lemma_update(before, i as int, key, value);
                }
                entries.set(i, (key, value));
            },
            None => {
                proof {
                    lemma_push(before, key, value);
                }
                entries.push((key, value));
            },
        }
        self.entries = entries;
    }

    /// The keys of the table, each once.
    pub fn keys(&self) -> (keys: Vec<K>) where K: Copy
        ensures
            forall|k: K::V| self@.contains_key(k) <==> exists|i: int|
                0 <= i < keys@.len() && #[trigger] keys@[i]@ == k,
            forall|i: int, j: int|
                0 <= i < j < keys@.len() ==> #[trigger] keys@[i]@ != #[trigger] keys@[j]@,
    {
        proof {
            use_type_invariant(self);
        }
        let mut keys: Vec<K> = Vec::new();
        let mut i: usize = 0;
        while i < self.entries.len()
            invariant
                i <= self.entries@.len(),
                keys_distinct(self.entries@),
                keys@.len() == i,
                forall|j: int| 0 <= j < i ==> #[trigger] keys@[j]@ == self.entries@[j].0@,
            decreases self.entries@.len() - i,
        {
            let key = self.entries[i].0;
            keys.push(key);
            i += 1;
        }
        proof {
            assert forall|k: K::V| self@.contains_key(k) implies exists|i: int|
                0 <= i < keys@.len() && #[trigger] keys@[i]@ == k by {
                let j = choose|j: int| holds_key_at(self.entries@, k, j);
                assert(keys@[j]@ == k);
            }
            assert forall|k: K::V| (exists|i: int| 0 <= i < keys@.len() && #[trigger] keys@[i]@
                == k) implies self@.contains_key(k) by {
                let j = choose|j: int| 0 <= j < keys@.len() && #[trigger] keys@[j]@ == k;
                assert(holds_key_at(self.entries@, k, j));
            }
            assert forall|a: int, b: int| 0 <= a < b < keys@.len() implies #[trigger] keys@[a]@
                != #[trigger] keys@[b]@ by {
                assert(self.entries@[a].0@ != self.entries@[b].0@);
            }
        }
        keys
    }

    /// Removes the value stored under `key`, if any, and returns it.
    pub fn remove(&mut self, key: &K) -> (removed: Option<V>)
        ensures
            final(self)@ == old(self)@.remove(key@),
            removed == (if old(self)@.contains_key(key@) {
                Some(old(self)@[key@])
            } else {
                None::<V>
            }),
    {
        proof {
            use_type_invariant(&*self);
        }
        match self.position(key) {
            Some(i) => {
                let mut entries: Vec<(K, V)> = Vec::new();
                std::mem::swap(&mut entries, &mut self.entries);
                proof {
                    lemma_entry(entries@, i as int);
                    lemma_remove(entries@, i as int);
                }
                let (_, value) = entries.remove(i);
                self.entries = entries;
                Some(value)
            },
            None => {
                assert(old(self)@.remove(key@) =~= old(self)@);
                None
            },
        }
    }
}

} // verus!
