//! Stores keep the records of a file while the editor is open.

pub mod vec;

pub use vec::VecContainer;

use crate::fields::Field;
use crate::kinds::{keys_suffice, lemma_keys_ascend, nth_key, Key, Kind};
use vstd::prelude::*;

verus! {

/// The keys of `entries`, in order.
pub open spec fn keys_of<Id, V, W>(entries: Seq<(Id, V, W)>) -> Seq<Id> {
    entries.map_values(|entry: (Id, V, W)| entry.0)
}

/// Whether no key occurs twice in `entries`.
pub open spec fn distinct_keys<Id, V, W>(entries: Seq<(Id, V, W)>) -> bool {
    forall|i: int, j: int|
        0 <= i < entries.len() && 0 <= j < entries.len() && i != j ==> (#[trigger] entries[i]).0
            != (#[trigger] entries[j]).0
}

/// Whether `at` is the place of the entry with the key `key`.
pub open spec fn is_place_of<Id, V, W>(entries: Seq<(Id, V, W)>, key: Id, at: int) -> bool {
    0 <= at < entries.len() && entries[at].0 == key
}

/// Whether `entries` has an entry with the key `key`.
pub open spec fn has_key<Id, V, W>(entries: Seq<(Id, V, W)>, key: Id) -> bool {
    exists|at: int| is_place_of(entries, key, at)
}

/// The key among `keys` that all the others come before; `keys` is not empty.
pub open spec fn greatest_key<Id: Key>(keys: Seq<Id>) -> Id
    recommends
        keys.len() > 0,
    decreases keys.len(),
{
    if keys.len() <= 1 {
        keys[0]
    } else {
        let greatest = greatest_key(keys.drop_last());
        if greatest.precedes(keys.last()) {
            keys.last()
        } else {
            greatest
        }
    }
}

/// Whether a store with the keys `keys` can make a key for one more record.
pub open spec fn can_make_key<Id: Key>(keys: Seq<Id>) -> bool {
    keys.len() > 0 ==> greatest_key(keys).has_next()
}

/// The key that a store with the keys `keys` gives to its next record: the
/// first key where there is none yet, else the one after the greatest.
pub open spec fn fresh_key<Id: Key>(keys: Seq<Id>) -> Id {
    if keys.len() == 0 {
        Id::spec_first()
    } else {
        Id::spec_next(greatest_key(keys))
    }
}

/// The greatest key is one of the keys, and every other key comes before it.
pub proof fn lemma_greatest_key<Id: Key>(keys: Seq<Id>)
    requires
        keys.len() > 0,
    ensures
        keys.contains(greatest_key(keys)),
        forall|i: int|
            0 <= i < keys.len() ==> #[trigger] keys[i] == greatest_key(keys) || keys[i].precedes(
                greatest_key(keys),
            ),
    decreases keys.len(),
{
    if keys.len() > 1 {
        let front = keys.drop_last();
        lemma_greatest_key(front);
        let before = greatest_key(front);
        let greatest = greatest_key(keys);
        assert forall|i: int| 0 <= i < keys.len() implies #[trigger] keys[i] == greatest
            || keys[i].precedes(greatest) by {
            if i < front.len() {
                assert(front[i] == keys[i]);
                if before.precedes(keys.last()) {
                    if keys[i] != before {
                        Id::lemma_precedes_transitive(keys[i], before, keys.last());
                    }
                }
            } else {
                if !before.precedes(keys.last()) {
                    Id::lemma_precedes_total(before, keys.last());
                }
            }
        }
    }
}

/// The key that a store makes next is none of the keys that it holds.
pub proof fn lemma_fresh_key_is_new<Id: Key>(keys: Seq<Id>)
    requires
        can_make_key(keys),
    ensures
        !keys.contains(fresh_key(keys)),
{
    if keys.len() > 0 {
        lemma_greatest_key(keys);
        let greatest = greatest_key(keys);
        let fresh = fresh_key(keys);
        Id::lemma_next_follows(greatest);
        if keys.contains(fresh) {
            let at = choose|at: int| 0 <= at < keys.len() && keys[at] == fresh;
            if keys[at] == greatest {
                Id::lemma_precedes_irreflexive(greatest);
            } else {
                Id::lemma_precedes_transitive(fresh, greatest, fresh);
                Id::lemma_precedes_irreflexive(fresh);
            }
        }
    }
}

/// The keys of a store that started empty and had `n` records added: each
/// record got the key that was fresh when it arrived.
pub open spec fn keys_after_adds<Id: Key>(n: nat) -> Seq<Id>
    decreases n,
{
    if n == 0 {
        Seq::empty()
    } else {
        let before = keys_after_adds::<Id>((n - 1) as nat);
        before.push(fresh_key(before))
    }
}

/// Where keys stand in the order of their making, the greatest is the last.
proof fn lemma_greatest_of_made_keys<Id: Key>(keys: Seq<Id>)
    requires
        keys.len() > 0,
        keys_suffice::<Id>(keys.len()),
        forall|i: int| 0 <= i < keys.len() ==> #[trigger] keys[i] == nth_key::<Id>(i as nat),
    ensures
        greatest_key(keys) == nth_key::<Id>((keys.len() - 1) as nat),
{
    lemma_greatest_key(keys);
    let greatest = greatest_key(keys);
    let last = (keys.len() - 1) as nat;
    let at = choose|at: int| 0 <= at < keys.len() && keys[at] == greatest;
    if at < last {
        lemma_keys_ascend::<Id>(at as nat, last);
        Id::lemma_precedes_irreflexive(greatest);
        if keys[last as int] != greatest {
            Id::lemma_precedes_transitive(greatest, keys[last as int], greatest);
        }
    }
}

/// Key generation: a store that starts empty and has `n` records added
/// holds `n` keys, no two of them equal, and they are the first key, the
/// next of the first, the next of that, and so on. It holds for every `n`
/// for which the kind has keys enough.
pub proof fn lemma_adds_make_keys_in_order<Id: Key>(n: nat)
    requires
        keys_suffice::<Id>(n),
    ensures
        keys_after_adds::<Id>(n).len() == n,
        forall|i: int| 0 <= i < n ==> #[trigger] keys_after_adds::<Id>(n)[i] == nth_key::<Id>(i as nat),
        forall|i: int, j: int|
            0 <= i < n && 0 <= j < n && i != j ==> #[trigger] keys_after_adds::<Id>(n)[i]
                != #[trigger] keys_after_adds::<Id>(n)[j],
        n > 0 ==> can_make_key(keys_after_adds::<Id>((n - 1) as nat)),
    decreases n,
{
    if n > 0 {
        let m = (n - 1) as nat;
        lemma_adds_make_keys_in_order::<Id>(m);
        if m > 0 {
            lemma_greatest_of_made_keys(keys_after_adds::<Id>(m));
        }
        let keys = keys_after_adds::<Id>(n);
        assert forall|i: int, j: int| 0 <= i < n && 0 <= j < n && i != j implies #[trigger] keys[i]
            != #[trigger] keys[j] by {
            crate::kinds::lemma_keys_are_distinct::<Id>(i as nat, j as nat, n);
        }
    }
}

/// A keyed collection of records of kind `K`, each with the working values
/// of its editor.
pub trait ObjectStore<K: Kind>: Sized {
    /// The records of the store with their keys and working values, in the
    /// order in which they were added.
    spec fn entries(&self) -> Seq<(K::Key, K, <K::Field as Field>::WorkingValues)>;

    /// Whether the store is in order. A store in order holds no key twice.
    spec fn well_formed(&self) -> bool;

    /// A store in order holds no key twice.
    proof fn lemma_keys_are_distinct(&self)
        requires
            self.well_formed(),
        ensures
            distinct_keys(self.entries()),
    ;

    /// A store without records.
    fn empty() -> (store: Self)
        ensures
            store.well_formed(),
            store.entries() == Seq::<(K::Key, K, <K::Field as Field>::WorkingValues)>::empty(),
    ;

    /// Adds a record with default contents under a fresh key, and returns
    /// the key.
    fn add(&mut self) -> (key: K::Key)
        requires
            old(self).well_formed(),
            can_make_key(keys_of(old(self).entries())),
        ensures
            final(self).well_formed(),
            key == fresh_key(keys_of(old(self).entries())),
            final(self).entries().len() == old(self).entries().len() + 1,
            final(self).entries().drop_last() == old(self).entries(),
            final(self).entries().last().0 == key,
            keys_of(final(self).entries()) == keys_of(old(self).entries()).push(key),
            call_ensures(K::default, (), final(self).entries().last().1),
            call_ensures(
                <K::Field as Field>::WorkingValues::default,
                (),
                final(self).entries().last().2,
            ),
    ;

    /// Whether one more record can be added: whether there is a key for it.
    fn can_add(&self) -> (more: bool)
        requires
            self.well_formed(),
        ensures
            more == can_make_key(keys_of(self.entries())),
    ;

    /// The record with the key `key` and its working values.
    fn get(&self, key: &K::Key) -> (found: Option<(&K, &<K::Field as Field>::WorkingValues)>)
        requires
            self.well_formed(),
        ensures
            match found {
                Some((value, working)) => exists|at: int|
                    #![trigger self.entries()[at]]
                    is_place_of(self.entries(), *key, at) && *value == self.entries()[at].1
                        && *working == self.entries()[at].2,
                None => !has_key(self.entries(), *key),
            },
    ;

    /// The record with the key `key` and its working values, for writing.
    /// What the caller leaves in the two references is what the store holds
    /// under that key afterwards; no other record changes, and no key does.
    fn get_mut(&mut self, key: &K::Key) -> (found: Option<
        (&mut K, &mut <K::Field as Field>::WorkingValues),
    >)
        requires
            old(self).well_formed(),
        ensures
            final(self).well_formed(),
            match found {
                Some((value, working)) => exists|at: int|
                    #![trigger old(self).entries()[at]]
                    {
                        &&& is_place_of(old(self).entries(), *key, at)
                        &&& *value == old(self).entries()[at].1
                        &&& *working == old(self).entries()[at].2
                        &&& final(self).entries() == old(self).entries().update(
                            at,
                            (*key, *final(value), *final(working)),
                        )
                    },
                None => !has_key(old(self).entries(), *key) && final(self).entries() == old(
                    self,
                ).entries(),
            },
    ;

    /// Whether there is a record with the key `key`.
    fn contains(&self, key: &K::Key) -> (found: bool)
        requires
            self.well_formed(),
        ensures
            found == has_key(self.entries(), *key),
    ;

    /// The number of records.
    fn count(&self) -> (n: usize)
        requires
            self.well_formed(),
        ensures
            n == self.entries().len(),
    ;

    /// The keys of all records, in the order of the records.
    fn keys(&self) -> (keys: Vec<K::Key>)
        requires
            self.well_formed(),
        ensures
            keys@ == keys_of(self.entries()),
    ;

    /// All records, in their order.
    fn values(&self) -> (values: Vec<&K>)
        requires
            self.well_formed(),
        ensures
            values@.len() == self.entries().len(),
            forall|i: int| 0 <= i < values@.len() ==> *#[trigger] values@[i] == self.entries()[i].1,
    ;

    /// All records with their keys and their working values, in their order.
    fn items(&self) -> (items: Vec<(&K::Key, &K, &<K::Field as Field>::WorkingValues)>)
        requires
            self.well_formed(),
        ensures
            items@.len() == self.entries().len(),
            forall|i: int|
                0 <= i < items@.len() ==> {
                    let item = #[trigger] items@[i];
                    (*item.0, *item.1, *item.2) == self.entries()[i]
                },
    ;
}

} // verus!
