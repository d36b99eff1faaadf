//! A store backed by a vector.

use crate::fields::Field;
use crate::kinds::{Key, Kind};
use crate::stores::{
    can_make_key, distinct_keys, fresh_key, greatest_key, has_key, is_place_of, keys_of,
    lemma_fresh_key_is_new, ObjectStore,
};
use vstd::prelude::*;

verus! {

/// Walks the rows of a table and hands out each row as three references.
pub struct PopTupleRefs<'a, A, B, C> {
    rows: &'a Vec<(A, B, C)>,
    at: usize,
}

impl<'a, A, B, C> PopTupleRefs<'a, A, B, C> {
    /// The rows that are walked.
    pub closed spec fn rows(&self) -> Seq<(A, B, C)> {
        self.rows@
    }

    /// The number of rows that were handed out.
    pub closed spec fn position(&self) -> nat {
        self.at as nat
    }

    /// A walk over `rows` that starts at the first row.
    pub fn new(rows: &'a Vec<(A, B, C)>) -> (walk: Self)
        ensures
            walk.rows() == rows@,
            walk.position() == 0,
    {
        PopTupleRefs { rows, at: 0 }
    }

    /// The next row, or `None` when all rows were handed out.
    pub fn next(&mut self) -> (item: Option<(&'a A, &'a B, &'a C)>)
        ensures
            final(self).rows() == old(self).rows(),
            old(self).position() < old(self).rows().len() ==> {
                &&& final(self).position() == old(self).position() + 1
                &&& item matches Some((a, b, c))
                &&& (*a, *b, *c) == old(self).rows()[old(self).position() as int]
            },
            old(self).position() >= old(self).rows().len() ==> {
                &&& final(self).position() == old(self).position()
                &&& item is None
            },
    {
        if self.at < self.rows.len() {
            let row = &self.rows[self.at];
            self.at = self.at + 1;
            Some((&row.0, &row.1, &row.2))
        } else {
            None
        }
    }
}

/// Walks the rows of a table and hands out the first element of each row.
pub struct FirstTupleElem<'a, A, B, C> {
    rows: &'a Vec<(A, B, C)>,
    at: usize,
}

impl<'a, A, B, C> FirstTupleElem<'a, A, B, C> {
    /// The rows that are walked.
    pub closed spec fn rows(&self) -> Seq<(A, B, C)> {
        self.rows@
    }

    /// The number of rows that were handed out.
    pub closed spec fn position(&self) -> nat {
        self.at as nat
    }

    /// A walk over `rows` that starts at the first row.
    pub fn new(rows: &'a Vec<(A, B, C)>) -> (walk: Self)
        ensures
            walk.rows() == rows@,
            walk.position() == 0,
    {
        FirstTupleElem { rows, at: 0 }
    }

    /// The first element of the next row, or `None` when all rows were
    /// handed out.
    pub fn next(&mut self) -> (item: Option<&'a A>)
        ensures
            final(self).rows() == old(self).rows(),
            old(self).position() < old(self).rows().len() ==> {
                &&& final(self).position() == old(self).position() + 1
                &&& item matches Some(a)
                &&& *a == old(self).rows()[old(self).position() as int].0
            },
            old(self).position() >= old(self).rows().len() ==> {
                &&& final(self).position() == old(self).position()
                &&& item is None
            },
    {
        if self.at < self.rows.len() {
            let row = &self.rows[self.at];
            self.at = self.at + 1;
            Some(&row.0)
        } else {
            None
        }
    }
}

/// Walks the rows of a table and hands out the second element of each row.
pub struct SecondTupleElem<'a, A, B, C> {
    rows: &'a Vec<(A, B, C)>,
    at: usize,
}

impl<'a, A, B, C> SecondTupleElem<'a, A, B, C> {
    /// The rows that are walked.
    pub closed spec fn rows(&self) -> Seq<(A, B, C)> {
        self.rows@
    }

    /// The number of rows that were handed out.
    pub closed spec fn position(&self) -> nat {
        self.at as nat
    }

    /// A walk over `rows` that starts at the first row.
    pub fn new(rows: &'a Vec<(A, B, C)>) -> (walk: Self)
        ensures
            walk.rows() == rows@,
            walk.position() == 0,
    {
        SecondTupleElem { rows, at: 0 }
    }

    /// The second element of the next row, or `None` when all rows were
    /// handed out.
    pub fn next(&mut self) -> (item: Option<&'a B>)
        ensures
            final(self).rows() == old(self).rows(),
            old(self).position() < old(self).rows().len() ==> {
                &&& final(self).position() == old(self).position() + 1
                &&& item matches Some(b)
                &&& *b == old(self).rows()[old(self).position() as int].1
            },
            old(self).position() >= old(self).rows().len() ==> {
                &&& final(self).position() == old(self).position()
                &&& item is None
            },
    {
        if self.at < self.rows.len() {
            let row = &self.rows[self.at];
            self.at = self.at + 1;
            Some(&row.1)
        } else {
            None
        }
    }
}

/// A store that keeps its records in a vector, in the order of their
/// arrival.
pub struct VecContainer<K: Kind>(Vec<(K::Key, K, <K::Field as Field>::WorkingValues)>);

impl<K: Kind> VecContainer<K> {
    /// The place of the record with the key `key`, if there is one.
    fn find(&self, key: &K::Key) -> (place: Option<usize>)
        ensures
            match place {
                Some(at) => is_place_of(self.0@, *key, at as int),
                None => !has_key(self.0@, *key),
            },
    {
        let mut at: usize = 0;
        while at < self.0.len()
            invariant
                at <= self.0.len(),
                forall|i: int| 0 <= i < at ==> !is_place_of(self.0@, *key, i),
            decreases self.0.len() - at,
        {
            if self.0[at].0.same_as(key) {
                return Some(at);
            }
            at = at + 1;
        }
        None
    }

    /// The greatest key in the store, which is not empty.
    fn last_key(&self) -> (greatest: K::Key)
        requires
            self.0.len() > 0,
        ensures
            greatest == greatest_key(keys_of(self.0@)),
    {
        let ghost keys = keys_of(self.0@);
        let mut greatest = self.0[0].0;
        let mut at: usize = 1;
        while at < self.0.len()
            invariant
                1 <= at <= self.0.len(),
                keys == keys_of(self.0@),
                greatest == greatest_key(keys.take(at as int)),
            decreases self.0.len() - at,
        {
            let key = self.0[at].0;
            proof {
                let upto = keys.take(at as int + 1);
                assert(upto.drop_last() =~= keys.take(at as int));
            }
            if greatest.comes_before(&key) {
                greatest = key;
            }
            at = at + 1;
        }
        assert(keys.take(at as int) =~= keys);
        greatest
    }
}

impl<K: Kind> ObjectStore<K> for VecContainer<K> {
    closed spec fn entries(&self) -> Seq<(K::Key, K, <K::Field as Field>::WorkingValues)> {
        self.0@
    }

    closed spec fn well_formed(&self) -> bool {
        distinct_keys(self.0@)
    }

    proof fn lemma_keys_are_distinct(&self) {
    }

    fn empty() -> (store: Self) {
        VecContainer(Vec::new())
    }

    fn add(&mut self) -> (key: K::Key) {
        let ghost before = self.0@;
        let next = if self.0.len() > 0 {
            let last = self.last_key();
            K::Key::next(&last)
        } else {
            K::Key::first()
        };
        self.0.push((next, K::default(), <K::Field as Field>::WorkingValues::default()));
        proof {
            lemma_fresh_key_is_new(keys_of(before));
            assert forall|i: int, j: int|
                0 <= i < self.0@.len() && 0 <= j < self.0@.len() && i != j implies (
            #[trigger] self.0@[i]).0 != (#[trigger] self.0@[j]).0 by {
                if i < before.len() && j >= before.len() {
                    assert(keys_of(before)[i] == self.0@[i].0);
                }
                if j < before.len() && i >= before.len() {
                    assert(keys_of(before)[j] == self.0@[j].0);
                }
            }
        }
        next
    }

    fn can_add(&self) -> (more: bool) {
        if self.0.len() > 0 {
            let last = self.last_key();
            K::Key::can_follow(&last)
        } else {
            true
        }
    }

    fn get(&self, key: &K::Key) -> (found: Option<(&K, &<K::Field as Field>::WorkingValues)>) {
        match self.find(key) {
            Some(at) => {
                let row = &self.0[at];
                assert(*row == self.entries()[at as int]);
                Some((&row.1, &row.2))
            },
            None => None,
        }
    }

    fn get_mut(&mut self, key: &K::Key) -> (found: Option<
        (&mut K, &mut <K::Field as Field>::WorkingValues),
    >) {
        match self.find(key) {
            Some(at) => {
                assert(self.entries()[at as int].0 == *key);
                let row = &mut self.0[at];
                Some((&mut row.1, &mut row.2))
            },
            None => None,
        }
    }

    fn contains(&self, key: &K::Key) -> (found: bool) {
        self.find(key).is_some()
    }

    fn count(&self) -> (n: usize) {
        self.0.len()
    }

    fn values(&self) -> (values: Vec<&K>) {
        let mut values: Vec<&K> = Vec::new();
        let mut walk = SecondTupleElem::new(&self.0);
        loop
            invariant
                walk.rows() == self.0@,
                walk.position() <= self.0@.len(),
                values@.len() == walk.position(),
                forall|i: int| 0 <= i < values@.len() ==> *#[trigger] values@[i] == self.0@[i].1,
            decreases self.0@.len() - walk.position(),
        {
            match walk.next() {
                Some(value) => {
                    values.push(value);
                },
                None => {
                    return values;
                },
            }
        }
    }

    fn items(&self) -> (items: Vec<(&K::Key, &K, &<K::Field as Field>::WorkingValues)>) {
        let mut items: Vec<(&K::Key, &K, &<K::Field as Field>::WorkingValues)> = Vec::new();
        let mut walk = PopTupleRefs::new(&self.0);
        loop
            invariant
                walk.rows() == self.0@,
                walk.position() <= self.0@.len(),
                items@.len() == walk.position(),
                forall|i: int|
                    0 <= i < items@.len() ==> {
                        let item = #[trigger] items@[i];
                        (*item.0, *item.1, *item.2) == self.0@[i]
                    },
            decreases self.0@.len() - walk.position(),
        {
            match walk.next() {
                Some(item) => {
                    items.push(item);
                },
                None => {
                    return items;
                },
            }
        }
    }

    fn keys(&self) -> (keys: Vec<K::Key>) {
        let mut keys: Vec<K::Key> = Vec::new();
        let mut walk = FirstTupleElem::new(&self.0);
        loop
            invariant
                walk.rows() == self.0@,
                walk.position() <= self.0@.len(),
                keys@ == keys_of(self.0@).take(walk.position() as int),
            decreases self.0@.len() - walk.position(),
        {
            match walk.next() {
                Some(key) => {
                    keys.push(*key);
                },
                None => {
                    return keys;
                },
            }
        }
    }
}

} // verus!
