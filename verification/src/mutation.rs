//! Mutators: single-use commands that change a value in place.

use crate::lens::Lens;
use std::marker::PhantomData;
use vstd::prelude::*;

verus! {

/// A change that can be applied to a `T`.
///
/// A mutator is a plain value. Applying it consumes it; clone it first where
/// the same change has to reach several targets.
pub trait Mutator<T>: Sized {
    /// The value that `target` turns into.
    spec fn spec_apply(self, target: T) -> T;

    /// Applies the change to `target`.
    fn apply(self, target: &mut T)
        ensures
            *final(target) == self.spec_apply(*old(target)),
    ;
}

/// The change that changes nothing.
#[derive(Debug, Clone, Copy)]
pub struct NopMutator;

impl<T> Mutator<T> for NopMutator {
    open spec fn spec_apply(self, target: T) -> T {
        target
    }

    fn apply(self, target: &mut T) {
    }
}

/// Overwrites the part that the lens `L` addresses with a new value.
#[derive(Debug)]
pub struct LensSet<L: Lens>(L::Target);

impl<L: Lens> LensSet<L> {
    /// The value that will be written.
    pub closed spec fn value(self) -> L::Target {
        self.0
    }

    /// A mutator that writes `new` through `L`.
    pub fn new(new: L::Target) -> (set: Self)
        ensures
            set.value() == new,
    {
        LensSet(new)
    }
}

impl<L: Lens> Clone for LensSet<L> where L::Target: Clone {
    fn clone(&self) -> (copy: Self)
        ensures
            cloned(self.value(), copy.value()),
    {
        LensSet(self.0.clone())
    }
}

impl<L: Lens> Mutator<L::Source> for LensSet<L> {
    open spec fn spec_apply(self, target: L::Source) -> L::Source {
        L::spec_put(target, self.value())
    }

    fn apply(self, target: &mut L::Source) {
        *L::get_mut(target) = self.0;
    }
}

/// Applies an inner mutator to the part that the lens `L` addresses, so that
/// a change meant for a part can be sent to the whole.
#[derive(Debug)]
pub struct InnerMutation<L: Lens, M: Mutator<L::Target>>(M, PhantomData<L>);

impl<L: Lens, M: Mutator<L::Target>> InnerMutation<L, M> {
    /// The mutator that is applied to the part.
    pub closed spec fn inner(self) -> M {
        self.0
    }

    /// Wraps `m`, which changes an `L::Target`, into a change of `L::Source`.
    pub fn new(m: M) -> (wrapped: Self)
        ensures
            wrapped.inner() == m,
    {
        InnerMutation(m, PhantomData)
    }
}

impl<L: Lens, M: Mutator<L::Target> + Clone> Clone for InnerMutation<L, M> {
    fn clone(&self) -> (copy: Self)
        ensures
            cloned(self.inner(), copy.inner()),
    {
        InnerMutation(self.0.clone(), PhantomData)
    }
}

impl<L: Lens, M: Mutator<L::Target>> Mutator<L::Source> for InnerMutation<L, M> {
    open spec fn spec_apply(self, target: L::Source) -> L::Source {
        L::spec_put(target, self.inner().spec_apply(L::spec_get(target)))
    }

    fn apply(self, target: &mut L::Source) {
        self.0.apply(L::get_mut(target));
    }
}

/// One of two mutators of the same target. This is how two sources of
/// changes, each with its own mutator type, share one message type.
#[derive(Debug, Clone)]
pub enum EitherMutator<A, B> {
    /// A change of the first kind.
    Left(A),
    /// A change of the second kind.
    Right(B),
}

impl<T, A: Mutator<T>, B: Mutator<T>> Mutator<T> for EitherMutator<A, B> {
    open spec fn spec_apply(self, target: T) -> T {
        match self {
            EitherMutator::Left(a) => a.spec_apply(target),
            EitherMutator::Right(b) => b.spec_apply(target),
        }
    }

    fn apply(self, target: &mut T) {
        match self {
            EitherMutator::Left(a) => a.apply(target),
            EitherMutator::Right(b) => b.apply(target),
        }
    }
}

/// A reusable form of [`LensSet`]: it keeps its value and writes a clone of
/// it each time, so one mutator can reach several targets.
#[derive(Debug)]
pub struct LensMutator<L: Lens>(L::Target);

impl<L: Lens> LensMutator<L> {
    /// The value whose clones are written.
    pub closed spec fn value(self) -> L::Target {
        self.0
    }

    /// A mutator that writes clones of `new` through `L`.
    pub fn new(new: L::Target) -> (set: Self)
        ensures
            set.value() == new,
    {
        LensMutator(new)
    }

    /// Writes a clone of the value into the part of `target` that `L`
    /// addresses and leaves the rest of `target` as it was.
    pub fn mutate(&self, target: &mut L::Source) where L::Target: Clone
        ensures
            cloned(self.value(), L::spec_get(*final(target))),
            *final(target) == L::spec_put(*old(target), L::spec_get(*final(target))),
    {
        let slot = L::get_mut(target);
        *slot = self.0.clone();
        proof {
            L::lemma_put_get(*old(target), *slot);
        }
    }
}

/// What `target` becomes when `m` is applied to it `times` times over.
pub open spec fn spec_apply_times<T, M: Mutator<T>>(m: M, times: nat, target: T) -> T
    decreases times,
{
    if times == 0 {
        target
    } else {
        m.spec_apply(spec_apply_times(m, (times - 1) as nat, target))
    }
}

/// However often [`NopMutator`] is applied, the target stays what it was.
pub proof fn lemma_nop_any_number_of_times<T>(times: nat, target: T)
    ensures
        spec_apply_times(NopMutator, times, target) == target,
    decreases times,
{
    if times > 0 {
        lemma_nop_any_number_of_times((times - 1) as nat, target);
    }
}

/// A change sent through a lens is local to the addressed part: reading the
/// part afterwards shows the inner change, and putting the old part back
/// restores the whole target.
pub proof fn lemma_inner_mutation_is_local<L: Lens, M: Mutator<L::Target>>(
    m: InnerMutation<L, M>,
    target: L::Source,
)
    ensures
        L::spec_get(m.spec_apply(target)) == m.inner().spec_apply(L::spec_get(target)),
        L::spec_put(m.spec_apply(target), L::spec_get(target)) == target,
{
    crate::lens::lemma_write_is_local::<L>(target, m.inner().spec_apply(L::spec_get(target)));
}

} // verus!
