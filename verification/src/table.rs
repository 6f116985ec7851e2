//! A table of rows found by their key, each key occurring once.
use vstd::prelude::*;

verus! {

/// What a row is found by: a text or a pair of texts.
pub trait TableKey: Sized {
    type Key;

    spec fn key(&self) -> Self::Key;

    fn same(&self, other: &Self) -> (r: bool)
        ensures
            r == (self.key() == other.key()),
    ;
}

impl TableKey for String {
    type Key = Seq<char>;

    open spec fn key(&self) -> Seq<char> {
        self@
    }

    fn same(&self, other: &Self) -> (r: bool) {
        *self == *other
    }
}

impl TableKey for (String, String) {
    type Key = (Seq<char>, Seq<char>);

    open spec fn key(&self) -> (Seq<char>, Seq<char>) {
        (self.0@, self.1@)
    }

    fn same(&self, other: &Self) -> (r: bool) {
        self.0 == other.0 && self.1 == other.1
    }
}

/// One row of a table.
#[derive(Debug)]
pub struct Row<K, V> {
    pub key: K,
    pub value: V,
}

/// Rows in the order in which their keys first came.
#[derive(Debug)]
pub struct Table<K, V> {
    rows: Vec<Row<K, V>>,
}

impl<K: TableKey, V: DeepView> Table<K, V> {
    /// The rows, oldest key first.
    pub closed spec fn rows(&self) -> Seq<Row<K, V>> {
        self.rows@
    }

    /// No key occurs twice.
    pub closed spec fn wf(&self) -> bool {
        forall|i: int, j: int|
            0 <= i < self.rows@.len() && 0 <= j < self.rows@.len() && #[trigger] self.rows@[i].key.key()
                == #[trigger] self.rows@[j].key.key() ==> i == j
    }

    /// Whether row `i` is the one of `key`.
    pub open spec fn row_is(&self, i: int, key: K::Key) -> bool {
        0 <= i < self.rows().len() && self.rows()[i].key.key() == key
    }

    /// Where the row of `key` stands.
    pub open spec fn index_of(&self, key: K::Key) -> int {
        choose|i: int| self.row_is(i, key)
    }

    /// The table as a map from keys to values.
    pub open spec fn contents(&self) -> Map<K::Key, V::V> {
        Map::new(
            |key: K::Key| exists|i: int| self.row_is(i, key),
            |key: K::Key| self.rows()[self.index_of(key)].value.deep_view(),
        )
    }

    /// A row's key is in the map, with the row's value.
    pub proof fn row_in_contents(&self, i: int)
        requires
            self.wf(),
            0 <= i < self.rows().len(),
        ensures
            self.contents().dom().contains(self.rows()[i].key.key()),
            self.contents()[self.rows()[i].key.key()] == self.rows()[i].value.deep_view(),
            self.index_of(self.rows()[i].key.key()) == i,
    {
        let key = self.rows()[i].key.key();
        assert(self.row_is(i, key));
        let j = self.index_of(key);
        assert(self.row_is(j, key));
        assert(self.rows@[i].key.key() == self.rows@[j].key.key());
    }

    pub fn new() -> (r: Self)
        ensures
            r.wf(),
            r.rows().len() == 0,
            r.contents() == Map::<K::Key, V::V>::empty(),
    {
        let r = Table { rows: Vec::new() };
        assert(r.contents() =~= Map::<K::Key, V::V>::empty());
        r
    }

    /// How many rows there are.
    pub fn len(&self) -> (r: usize)
        ensures
            r == self.rows().len(),
    {
        self.rows.len()
    }

    /// Row `i`.
    pub fn row(&self, i: usize) -> (r: &Row<K, V>)
        requires
            i < self.rows().len(),
        ensures
            *r == self.rows()[i as int],
    {
        &self.rows[i]
    }

    /// Where the row of `key` stands, if there is one.
    pub fn find(&self, key: &K) -> (r: Option<usize>)
        requires
            self.wf(),
        ensures
            match r {
                Some(i) => self.row_is(i as int, key.key()) && self.contents().dom().contains(
                    key.key(),
                ) && self.contents()[key.key()] == self.rows()[i as int].value.deep_view()
                    && self.index_of(key.key()) == i,
                None => !self.contents().dom().contains(key.key()),
            },
    {
        for i in 0..self.rows.len()
            invariant
                self.wf(),
                forall|j: int| 0 <= j < i ==> !self.row_is(j, key.key()),
        {
            if self.rows[i].key.same(key) {
                proof {
                    self.row_in_contents(i as int);
                }
                return Some(i);
            }
        }
        None
    }

    /// The value of `key`.
    pub fn get(&self, key: &K) -> (r: Option<&V>)
        requires
            self.wf(),
        ensures
            match r {
                Some(value) => self.contents().dom().contains(key.key())
                    && self.contents()[key.key()] == value.deep_view(),
                None => !self.contents().dom().contains(key.key()),
            },
    {
        match self.find(key) {
            Some(i) => Some(&self.rows[i].value),
            None => None,
        }
    }

    /// Puts `value` into row `i`, and gives back what was there.
    pub fn replace(&mut self, i: usize, value: V) -> (r: V)
        requires
            old(self).wf(),
            i < old(self).rows().len(),
        ensures
            r == old(self).rows()[i as int].value,
            final(self).wf(),
            final(self).rows() == old(self).rows().update(
                i as int,
                Row { key: old(self).rows()[i as int].key, value },
            ),
            final(self).contents() == old(self).contents().insert(
                old(self).rows()[i as int].key.key(),
                value.deep_view(),
            ),
    {
        let ghost before = *self;
        let ghost shown = value.deep_view();
        let ghost row = Row { key: self.rows@[i as int].key, value };
        let mut value = value;
        std::mem::swap(&mut self.rows[i].value, &mut value);
        proof {
            let changed = before.rows()[i as int].key.key();
            assert(self.rows() =~= before.rows().update(i as int, row));
            assert forall|j: int| 0 <= j < self.rows@.len() implies #[trigger] self.rows@[j].key.key()
                == before.rows@[j].key.key() by {}
            assert(self.wf());
            before.row_in_contents(i as int);
            assert forall|key: K::Key|
                self.contents().dom().contains(key) == before.contents().dom().contains(key) by {
                if before.contents().dom().contains(key) {
                    let j = before.index_of(key);
                    assert(before.row_is(j, key));
                    assert(self.row_is(j, key));
                }
                if self.contents().dom().contains(key) {
                    let j = self.index_of(key);
                    assert(self.row_is(j, key));
                    assert(before.row_is(j, key));
                }
            }
            assert forall|key: K::Key| #[trigger] self.contents().dom().contains(key) implies
                self.contents()[key] == before.contents().insert(changed, shown)[key] by {
                let j = self.index_of(key);
                assert(self.row_is(j, key));
                assert(before.row_is(j, key));
                self.row_in_contents(j);
                before.row_in_contents(j);
            }
            assert(self.contents() =~= before.contents().insert(changed, shown));
        }
        value
    }

    /// Appends a row whose key is not there yet.
    pub fn push(&mut self, key: K, value: V)
        requires
            old(self).wf(),
            !old(self).contents().dom().contains(key.key()),
        ensures
            final(self).wf(),
            final(self).rows() == old(self).rows().push(Row { key, value }),
            final(self).contents() == old(self).contents().insert(key.key(), value.deep_view()),
    {
        let ghost before = *self;
        let ghost name = key.key();
        let ghost shown = value.deep_view();
        let ghost row = Row { key, value };
        self.rows.push(Row { key, value });
        proof {
            let last = before.rows@.len() as int;
            assert forall|i: int, j: int|
                0 <= i < self.rows@.len() && 0 <= j < self.rows@.len()
                    && #[trigger] self.rows@[i].key.key()
                    == #[trigger] self.rows@[j].key.key() implies i == j by {
                if i < last && j < last {
                    assert(before.rows@[i].key.key() == before.rows@[j].key.key());
                } else if i < last {
                    assert(before.row_is(i, name));
                } else if j < last {
                    assert(before.row_is(j, name));
                }
            }
            assert(self.rows() =~= before.rows().push(row));
            assert forall|key: K::Key|
                self.contents().dom().contains(key) == before.contents().insert(
                    name,
                    shown,
                ).dom().contains(key) by {
                if before.contents().dom().contains(key) {
                    let j = before.index_of(key);
                    assert(before.row_is(j, key));
                    assert(self.row_is(j, key));
                }
                if key == name {
                    assert(self.row_is(last, key));
                }
                if self.contents().dom().contains(key) {
                    let j = self.index_of(key);
                    assert(self.row_is(j, key));
                    if j < last {
                        assert(before.row_is(j, key));
                    }
                }
            }
            assert forall|key: K::Key| #[trigger] self.contents().dom().contains(key) implies
                self.contents()[key] == before.contents().insert(name, shown)[key] by {
                let j = self.index_of(key);
                assert(self.row_is(j, key));
                self.row_in_contents(j);
                if j < last {
                    assert(before.row_is(j, key));
                    before.row_in_contents(j);
                }
            }
            assert(self.contents() =~= before.contents().insert(name, shown));
        }
    }

    /// Gives `key` the value `value`, whether or not it had one.
    pub fn insert(&mut self, key: K, value: V)
        requires
            old(self).wf(),
        ensures
            final(self).wf(),
            final(self).contents() == old(self).contents().insert(key.key(), value.deep_view()),
    {
        match self.find(&key) {
            Some(i) => {
                let _ = self.replace(i, value);
            },
            None => self.push(key, value),
        }
    }

    /// Takes the row of `key` away, if there is one.
    pub fn remove(&mut self, key: &K)
        requires
            old(self).wf(),
        ensures
            final(self).wf(),
            final(self).contents() == old(self).contents().remove(key.key()),
    {
        let ghost before = *self;
        match self.find(key) {
            Some(i) => {
                let _ = self.rows.remove(i);
                proof {
                    let name = key.key();
                    assert forall|j: int, k: int|
                        0 <= j < self.rows@.len() && 0 <= k < self.rows@.len()
                            && #[trigger] self.rows@[j].key.key()
                            == #[trigger] self.rows@[k].key.key() implies j == k by {
                        let j0 = if j < i { j } else { j + 1 };
                        let k0 = if k < i { k } else { k + 1 };
                        assert(before.rows@[j0].key.key() == before.rows@[k0].key.key());
                    }
                    assert forall|other: K::Key|
                        self.contents().dom().contains(other) == before.contents().remove(
                            name,
                        ).dom().contains(other) by {
                        if before.contents().dom().contains(other) && other != name {
                            let j0 = before.index_of(other);
                            assert(before.row_is(j0, other));
                            assert(j0 != i);
                            let j = if j0 < i { j0 } else { j0 - 1 };
                            assert(self.row_is(j, other));
                        }
                        if self.contents().dom().contains(other) {
                            let j = self.index_of(other);
                            assert(self.row_is(j, other));
                            let j0 = if j < i { j } else { j + 1 };
                            assert(before.row_is(j0, other));
                            assert(before.rows@[j0].key.key() != before.rows@[i as int].key.key());
                        }
                    }
                    assert forall|other: K::Key| #[trigger] self.contents().dom().contains(
                        other,
                    ) implies
                        self.contents()[other] == before.contents().remove(name)[other] by {
                        let j = self.index_of(other);
                        assert(self.row_is(j, other));
                        self.row_in_contents(j);
                        let j0 = if j < i { j } else { j + 1 };
                        assert(before.row_is(j0, other));
                        before.row_in_contents(j0);
                    }
                    assert(self.contents() =~= before.contents().remove(name));
                }
            },
            None => {
                assert(before.contents().remove(key.key()) =~= before.contents());
            },
        }
    }
}

} // verus!
