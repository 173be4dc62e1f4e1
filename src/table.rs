use vstd::prelude::*;

verus! {

/// The abstract contents of a table: its rows in order, each a key and a value.
pub type Rows<V> = Seq<(Seq<char>, V)>;

/// No two rows share a key.
pub open spec fn keys_unique<V>(s: Rows<V>) -> bool {
    forall|i: int, j: int|
        0 <= i < s.len() && 0 <= j < s.len() && i != j ==> #[trigger] s[i].0 != #[trigger] s[j].0
}

/// Some row has key `k`.
pub open spec fn has_key<V>(s: Rows<V>, k: Seq<char>) -> bool {
    exists|i: int| 0 <= i < s.len() && #[trigger] s[i].0 == k
}

/// The position of the row with key `k` (meaningful when `has_key(s, k)`).
pub open spec fn index_of<V>(s: Rows<V>, k: Seq<char>) -> int {
    choose|i: int| 0 <= i < s.len() && #[trigger] s[i].0 == k
}

/// The value stored under `k`, if any.
pub open spec fn lookup<V>(s: Rows<V>, k: Seq<char>) -> Option<V> {
    if has_key(s, k) {
        Some(s[index_of(s, k)].1)
    } else {
        None
    }
}

/// `s` with `k` mapped to `v`: the existing row is overwritten in place, or a new row is
/// appended at the end.
pub open spec fn insert_row<V>(s: Rows<V>, k: Seq<char>, v: V) -> Rows<V> {
    if has_key(s, k) {
        s.update(index_of(s, k), (k, v))
    } else {
        s.push((k, v))
    }
}

/// `s` without the row of key `k`; the other rows keep their order.
pub open spec fn remove_key<V>(s: Rows<V>, k: Seq<char>) -> Rows<V> {
    if has_key(s, k) {
        s.remove(index_of(s, k))
    } else {
        s
    }
}

/// The keys of the rows, in order.
pub open spec fn keys_of<V>(s: Rows<V>) -> Seq<Seq<char>> {
    s.map_values(|e: (Seq<char>, V)| e.0)
}

/// In a table with unique keys, the row holding `k` is the one `index_of` names.
pub proof fn lemma_index_of<V>(s: Rows<V>, i: int)
    requires
        keys_unique(s),
        0 <= i < s.len(),
    ensures
        has_key(s, s[i].0),
        index_of(s, s[i].0) == i,
{
    assert(s[i].0 == s[i].0);
}

/// Inserting keeps the keys unique, and the key then maps to the value inserted.
pub proof fn lemma_insert_row<V>(s: Rows<V>, k: Seq<char>, v: V)
    requires
        keys_unique(s),
    ensures
        keys_unique(insert_row(s, k, v)),
        lookup(insert_row(s, k, v), k) == Some(v),
        forall|k2: Seq<char>| k2 != k ==> lookup(insert_row(s, k, v), k2) == lookup(s, k2),
{
    let r = insert_row(s, k, v);
    if has_key(s, k) {
        let i = index_of(s, k);
        assert forall|a: int, b: int|
            0 <= a < r.len() && 0 <= b < r.len() && a != b implies #[trigger] r[a].0
            != #[trigger] r[b].0 by {
            assert(s[a].0 != s[b].0);
        }
        lemma_index_of(r, i);
        assert forall|k2: Seq<char>| k2 != k implies lookup(r, k2) == lookup(s, k2) by {
            if has_key(s, k2) {
                let j = index_of(s, k2);
                assert(j != i);
                assert(r[j].0 == k2);
                lemma_index_of(r, j);
            }
            if has_key(r, k2) {
                let j = index_of(r, k2);
                assert(s[j].0 == k2);
            }
        }
    } else {
        let n = s.len() as int;
        assert forall|a: int, b: int|
            0 <= a < r.len() && 0 <= b < r.len() && a != b implies #[trigger] r[a].0
            != #[trigger] r[b].0 by {
            if a < n && b < n {
                assert(s[a].0 != s[b].0);
            } else if a < n {
                assert(s[a].0 == r[a].0);
            } else {
                assert(s[b].0 == r[b].0);
            }
        }
        lemma_index_of(r, n);
        assert forall|k2: Seq<char>| k2 != k implies lookup(r, k2) == lookup(s, k2) by {
            if has_key(s, k2) {
                let j = index_of(s, k2);
                assert(r[j].0 == k2);
                lemma_index_of(r, j);
            }
            if has_key(r, k2) {
                let j = index_of(r, k2);
                assert(j != n);
                assert(s[j].0 == k2);
            }
        }
    }
}

/// Removing a key keeps the keys unique, the key is then absent, and every other key keeps
/// its value.
pub proof fn lemma_remove_key<V>(s: Rows<V>, k: Seq<char>)
    requires
        keys_unique(s),
    ensures
        keys_unique(remove_key(s, k)),
        lookup(remove_key(s, k), k) == None::<V>,
        forall|k2: Seq<char>| k2 != k ==> lookup(remove_key(s, k), k2) == lookup(s, k2),
{
    let r = remove_key(s, k);
    if has_key(s, k) {
        let i = index_of(s, k);
        assert forall|a: int, b: int|
            0 <= a < r.len() && 0 <= b < r.len() && a != b implies #[trigger] r[a].0
            != #[trigger] r[b].0 by {
            let a0 = if a < i { a } else { a + 1 };
            let b0 = if b < i { b } else { b + 1 };
            assert(r[a] == s[a0]);
            assert(r[b] == s[b0]);
            assert(s[a0].0 != s[b0].0);
        }
        if has_key(r, k) {
            let j = index_of(r, k);
            let j0 = if j < i { j } else { j + 1 };
            assert(r[j] == s[j0]);
            assert(s[j0].0 != s[i].0);
        }
        assert forall|k2: Seq<char>| k2 != k implies lookup(r, k2) == lookup(s, k2) by {
            if has_key(s, k2) {
                let j = index_of(s, k2);
                assert(j != i);
                let j1 = if j < i { j } else { j - 1 };
                assert(r[j1] == s[j]);
                lemma_index_of(r, j1);
            }
            if has_key(r, k2) {
                let j = index_of(r, k2);
                let j0 = if j < i { j } else { j + 1 };
                assert(r[j] == s[j0]);
                assert(s[j0].0 == k2);
            }
        }
    }
}

/// The rows of `s` with each value passed through `f`; keys and order are kept.
pub open spec fn map_rows<V, W>(s: Rows<V>, f: spec_fn(V) -> W) -> Rows<W> {
    s.map_values(|e: (Seq<char>, V)| (e.0, f(e.1)))
}

/// Mapping the values keeps the keys, so it commutes with lookups, inserts and removals.
pub proof fn lemma_map_rows<V, W>(s: Rows<V>, f: spec_fn(V) -> W, k: Seq<char>, v: V)
    requires
        keys_unique(s),
    ensures
        keys_unique(map_rows(s, f)),
        has_key(map_rows(s, f), k) == has_key(s, k),
        has_key(s, k) ==> index_of(map_rows(s, f), k) == index_of(s, k),
        map_rows(insert_row(s, k, v), f) == insert_row(map_rows(s, f), k, f(v)),
        map_rows(remove_key(s, k), f) == remove_key(map_rows(s, f), k),
{
    let m = map_rows(s, f);
    assert forall|a: int, b: int|
        0 <= a < m.len() && 0 <= b < m.len() && a != b implies #[trigger] m[a].0
        != #[trigger] m[b].0 by {
        assert(s[a].0 != s[b].0);
    }
    if has_key(s, k) {
        let i = index_of(s, k);
        assert(m[i].0 == k);
        lemma_index_of(m, i);
        assert(map_rows(insert_row(s, k, v), f) =~= insert_row(m, k, f(v)));
        assert(map_rows(remove_key(s, k), f) =~= remove_key(m, k));
    } else {
        if has_key(m, k) {
            let j = index_of(m, k);
            assert(s[j].0 == k);
        }
        assert(map_rows(insert_row(s, k, v), f) =~= insert_row(m, k, f(v)));
    }
}

/// A table of values keyed by strings. Keys are unique and rows keep the order in which
/// their keys were first inserted.
pub struct Table<V> {
    entries: Vec<(String, V)>,
}

impl<V> View for Table<V> {
    type V = Rows<V>;

    closed spec fn view(&self) -> Rows<V> {
        self.entries@.map_values(|e: (String, V)| (e.0@, e.1))
    }
}

impl<V> Table<V> {
    /// The table's invariant: no two rows share a key.
    pub open spec fn wf(&self) -> bool {
        keys_unique(self@)
    }

    /// An empty table.
    pub fn new() -> (r: Self)
        ensures
            r@ == Seq::<(Seq<char>, V)>::empty(),
            r.wf(),
    {
        let r = Table { entries: Vec::new() };
        assert(r@ =~= Seq::<(Seq<char>, V)>::empty());
        r
    }

    /// The number of rows.
    pub fn len(&self) -> (r: usize)
        ensures
            r == self@.len(),
    {
        self.entries.len()
    }

    /// Whether the table has no rows.
    pub fn is_empty(&self) -> (r: bool)
        ensures
            r == (self@.len() == 0),
    {
        self.entries.len() == 0
    }

    /// The key of row `i`.
    pub fn key_at(&self, i: usize) -> (r: &String)
        requires
            i < self@.len(),
        ensures
            r@ == self@[i as int].0,
    {
        &self.entries[i].0
    }

    /// The value of row `i`.
    pub fn value_at(&self, i: usize) -> (r: &V)
        requires
            i < self@.len(),
        ensures
            *r == self@[i as int].1,
    {
        &self.entries[i].1
    }

    /// The position of the row with key `k`, if there is one.
    pub fn find(&self, k: &String) -> (r: Option<usize>)
        requires
            self.wf(),
        ensures
            r.is_none() == !has_key(self@, k@),
            r matches Some(i) ==> i == index_of(self@, k@) && i < self@.len(),
    {
        let n = self.entries.len();
        let mut i: usize = 0;
        while i < n
            invariant
                n == self@.len(),
                i <= n,
                self.wf(),
                forall|j: int| 0 <= j < i ==> #[trigger] self@[j].0 != k@,
            decreases n - i,
        {
            assert(self@[i as int].0 == self.entries@[i as int].0@);
            if self.entries[i].0 == *k {
                proof {
                    lemma_index_of(self@, i as int);
                }
                return Some(i);
            }
            i = i + 1;
        }
        None
    }

    /// The value stored under `k`, if any.
    pub fn get(&self, k: &String) -> (r: Option<&V>)
        requires
            self.wf(),
        ensures
            r matches Some(v) ==> lookup(self@, k@) == Some(*v),
            r.is_none() ==> lookup(self@, k@).is_none(),
    {
        match self.find(k) {
            Some(i) => Some(&self.entries[i].1),
            None => None,
        }
    }

    /// Maps `k` to `v`, overwriting the value of an existing row in place or appending a row.
    pub fn insert(&mut self, k: String, v: V)
        requires
            old(self).wf(),
        ensures
            final(self)@ == insert_row(old(self)@, k@, v),
            final(self).wf(),
    {
        proof {
            lemma_insert_row(self@, k@, v);
        }
        match self.find(&k) {
            Some(i) => {
                self.entries.set(i, (k, v));
            },
            None => {
                self.entries.push((k, v));
            },
        }
        assert(self@ =~= insert_row(old(self)@, k@, v));
    }

    /// Removes row `i` and hands back its key and value; the other rows keep their order.
    pub fn remove_at(&mut self, i: usize) -> (r: (String, V))
        requires
            old(self).wf(),
            i < old(self)@.len(),
        ensures
            final(self)@ == old(self)@.remove(i as int),
            final(self)@ == remove_key(old(self)@, old(self)@[i as int].0),
            r.0@ == old(self)@[i as int].0,
            r.1 == old(self)@[i as int].1,
            final(self).wf(),
    {
        proof {
            lemma_index_of(self@, i as int);
            lemma_remove_key(self@, self@[i as int].0);
        }
        let r = self.entries.remove(i);
        assert(self@ =~= old(self)@.remove(i as int));
        r
    }

    /// Removes the row of key `k`, if there is one, and hands back its value.
    pub fn remove(&mut self, k: &String) -> (r: Option<V>)
        requires
            old(self).wf(),
        ensures
            final(self)@ == remove_key(old(self)@, k@),
            r == lookup(old(self)@, k@),
            final(self).wf(),
    {
        proof {
            lemma_remove_key(self@, k@);
        }
        match self.find(k) {
            Some(i) => {
                let e = self.remove_at(i);
                Some(e.1)
            },
            None => None,
        }
    }

    /// Mutable access to the value of row `i`; the key and the other rows stay as they are.
    pub fn value_mut(&mut self, i: usize) -> (r: &mut V)
        requires
            i < old(self)@.len(),
        ensures
            *r == old(self)@[i as int].1,
            final(self)@ == old(self)@.update(i as int, (old(self)@[i as int].0, *final(r))),
    {
        &mut self.entries[i].1
    }
}

} // verus!
