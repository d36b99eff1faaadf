//! Kinds of records and the keys that identify their instances.

use crate::fields::Field;
use vstd::prelude::*;

verus! {

/// A type of record that a store can hold and an editor can edit.
pub trait Kind: Sized + Default {
    /// What identifies one record of this kind in a store.
    type Key: Key;

    /// The editor for the parts of a record.
    type Field: Field<Kind = Self>;
}

/// Identifies one record in a store, and says how fresh keys are made.
///
/// Keys are made in a fixed order: `first`, then `next` of the greatest key
/// made so far. `precedes` is that order. Since the next key comes after the
/// one it is made from, a key made this way is new.
pub trait Key: Sized + Copy {
    /// The key of the first record of a store.
    spec fn spec_first() -> Self;

    /// The key that is made after `last`.
    spec fn spec_next(last: Self) -> Self;

    /// Whether there is a key to make after this one.
    spec fn has_next(self) -> bool;

    /// Whether this key comes before `other` in the order of making.
    spec fn precedes(self, other: Self) -> bool;

    /// No key comes before itself.
    proof fn lemma_precedes_irreflexive(a: Self)
        ensures
            !a.precedes(a),
    ;

    /// What comes before a key comes before all that the key comes before.
    proof fn lemma_precedes_transitive(a: Self, b: Self, c: Self)
        requires
            a.precedes(b),
            b.precedes(c),
        ensures
            a.precedes(c),
    ;

    /// Of two different keys one comes first.
    proof fn lemma_precedes_total(a: Self, b: Self)
        ensures
            a == b || a.precedes(b) || b.precedes(a),
    ;

    /// The next key comes after the key it is made from.
    proof fn lemma_next_follows(last: Self)
        requires
            last.has_next(),
        ensures
            last.precedes(Self::spec_next(last)),
    ;

    /// The first key to use.
    fn first() -> (key: Self)
        ensures
            key == Self::spec_first(),
    ;

    /// The key to use after `last`, the greatest key made so far.
    fn next(last: &Self) -> (key: Self)
        requires
            last.has_next(),
        ensures
            key == Self::spec_next(*last),
    ;

    /// Whether `last` can be followed by another key.
    fn can_follow(last: &Self) -> (more: bool)
        ensures
            more == last.has_next(),
    ;

    /// Whether the two keys are the same key.
    fn same_as(&self, other: &Self) -> (same: bool)
        ensures
            same == (*self == *other),
    ;

    /// Whether this key was made before `other`.
    fn comes_before(&self, other: &Self) -> (before: bool)
        ensures
            before == self.precedes(*other),
    ;
}

impl Key for usize {
    open spec fn spec_first() -> usize {
        0
    }

    open spec fn spec_next(last: usize) -> usize {
        (last + 1) as usize
    }

    open spec fn has_next(self) -> bool {
        self < usize::MAX
    }

    open spec fn precedes(self, other: usize) -> bool {
        self < other
    }

    proof fn lemma_precedes_irreflexive(a: usize) {
    }

    proof fn lemma_precedes_transitive(a: usize, b: usize, c: usize) {
    }

    proof fn lemma_precedes_total(a: usize, b: usize) {
    }

    proof fn lemma_next_follows(last: usize) {
    }

    fn first() -> (key: usize) {
        0
    }

    fn next(last: &usize) -> (key: usize) {
        *last + 1
    }

    fn can_follow(last: &usize) -> (more: bool) {
        *last < usize::MAX
    }

    fn same_as(&self, other: &usize) -> (same: bool) {
        *self == *other
    }

    fn comes_before(&self, other: &usize) -> (before: bool) {
        *self < *other
    }
}

/// The key of the rectangles of the example editor: a number that counts
/// the records from zero.
#[derive(Debug, Clone, Copy, PartialEq, Eq, Structural, PartialOrd, Ord)]
pub struct RectId(pub usize);

impl Key for RectId {
    open spec fn spec_first() -> RectId {
        RectId(0)
    }

    open spec fn spec_next(last: RectId) -> RectId {
        RectId((last.0 + 1) as usize)
    }

    open spec fn has_next(self) -> bool {
        self.0 < usize::MAX
    }

    open spec fn precedes(self, other: RectId) -> bool {
        self.0 < other.0
    }

    proof fn lemma_precedes_irreflexive(a: RectId) {
    }

    proof fn lemma_precedes_transitive(a: RectId, b: RectId, c: RectId) {
    }

    proof fn lemma_precedes_total(a: RectId, b: RectId) {
    }

    proof fn lemma_next_follows(last: RectId) {
    }

    fn first() -> (key: RectId) {
        RectId(0)
    }

    fn next(last: &RectId) -> (key: RectId) {
        RectId(last.0 + 1)
    }

    fn can_follow(last: &RectId) -> (more: bool) {
        last.0 < usize::MAX
    }

    fn same_as(&self, other: &RectId) -> (same: bool) {
        self.0 == other.0
    }

    fn comes_before(&self, other: &RectId) -> (before: bool) {
        self.0 < other.0
    }
}

/// The `n`-th key that is ever made: `first`, then `next` of the one before.
pub open spec fn nth_key<K: Key>(n: nat) -> K
    decreases n,
{
    if n == 0 {
        K::spec_first()
    } else {
        K::spec_next(nth_key::<K>((n - 1) as nat))
    }
}

/// Whether the first `n` keys can all be made: each but the last has a next.
pub open spec fn keys_suffice<K: Key>(n: nat) -> bool {
    forall|i: nat| i + 1 < n ==> (#[trigger] nth_key::<K>(i)).has_next()
}

/// Keys are made in ascending order: an earlier one comes before a later one.
pub proof fn lemma_keys_ascend<K: Key>(i: nat, j: nat)
    requires
        i < j,
        keys_suffice::<K>(j + 1),
    ensures
        nth_key::<K>(i).precedes(nth_key::<K>(j)),
    decreases j,
{
    let before = nth_key::<K>((j - 1) as nat);
    K::lemma_next_follows(before);
    if i + 1 < j {
        lemma_keys_ascend::<K>(i, (j - 1) as nat);
        K::lemma_precedes_transitive(nth_key::<K>(i), before, nth_key::<K>(j));
    }
}

/// No key is made twice.
pub proof fn lemma_keys_are_distinct<K: Key>(i: nat, j: nat, n: nat)
    requires
        i < n,
        j < n,
        i != j,
        keys_suffice::<K>(n),
    ensures
        nth_key::<K>(i) != nth_key::<K>(j),
{
    let (lo, hi) = if i < j {
        (i, j)
    } else {
        (j, i)
    };
    lemma_keys_ascend::<K>(lo, hi);
    K::lemma_precedes_irreflexive(nth_key::<K>(lo));
}

} // verus!
