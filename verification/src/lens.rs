//! Lenses: stateless descriptions of a path from a whole to one of its parts.

use std::marker::PhantomData;
use vstd::prelude::*;

verus! {

/// A way to borrow one part, the target, out of a larger value, the source.
///
/// A lens holds no data. Its meaning is the pair `spec_get` / `spec_put`,
/// which every implementation proves to be a well-behaved lens: what was put
/// is what is read, putting back what was read changes nothing, and a second
/// put overwrites the first.
pub trait Lens {
    /// The whole that the lens looks into.
    type Source;

    /// The part that it borrows.
    type Target;

    /// The part of `source` that the lens addresses.
    spec fn spec_get(source: Self::Source) -> Self::Target;

    /// `source` with the addressed part replaced by `target`.
    spec fn spec_put(source: Self::Source, target: Self::Target) -> Self::Source;

    /// Reading after a write yields what was written.
    proof fn lemma_put_get(source: Self::Source, target: Self::Target)
        ensures
            Self::spec_get(Self::spec_put(source, target)) == target,
    ;

    /// Writing back what is already there changes nothing.
    proof fn lemma_get_put(source: Self::Source)
        ensures
            Self::spec_put(source, Self::spec_get(source)) == source,
    ;

    /// Of two writes in a row only the second one shows.
    proof fn lemma_put_put(source: Self::Source, first: Self::Target, second: Self::Target)
        ensures
            Self::spec_put(Self::spec_put(source, first), second) == Self::spec_put(source, second),
    ;

    /// Borrows the addressed part.
    fn get<'a>(source: &'a Self::Source) -> (target: &'a Self::Target)
        ensures
            *target == Self::spec_get(*source),
    ;

    /// Borrows the addressed part for writing. Whatever the caller leaves in
    /// the returned reference is put into the source, and the rest of the
    /// source stays as it was.
    fn get_mut<'a>(source: &'a mut Self::Source) -> (target: &'a mut Self::Target)
        ensures
            *target == Self::spec_get(*old(source)),
            *final(source) == Self::spec_put(*old(source), *final(target)),
    ;
}

/// The lens that applies `A` and then `B` to what `A` found.
#[derive(Debug)]
pub struct CompositeLens<A: Lens, B: Lens>(PhantomData<(A, B)>);

impl<A: Lens, B: Lens> Clone for CompositeLens<A, B> {
    fn clone(&self) -> (copy: Self)
        ensures
            copy == *self,
    {
        CompositeLens(PhantomData)
    }
}

impl<A: Lens<Target = M>, M: 'static, B: Lens<Source = M>> Lens for CompositeLens<A, B> {
    type Source = A::Source;

    type Target = B::Target;

    open spec fn spec_get(source: A::Source) -> B::Target {
        B::spec_get(A::spec_get(source))
    }

    open spec fn spec_put(source: A::Source, target: B::Target) -> A::Source {
        A::spec_put(source, B::spec_put(A::spec_get(source), target))
    }

    proof fn lemma_put_get(source: A::Source, target: B::Target) {
        A::lemma_put_get(source, B::spec_put(A::spec_get(source), target));
        B::lemma_put_get(A::spec_get(source), target);
    }

    proof fn lemma_get_put(source: A::Source) {
        B::lemma_get_put(A::spec_get(source));
        A::lemma_get_put(source);
    }

    proof fn lemma_put_put(source: A::Source, first: B::Target, second: B::Target) {
        let mid = A::spec_get(source);
        A::lemma_put_get(source, B::spec_put(mid, first));
        B::lemma_put_put(mid, first, second);
        A::lemma_put_put(source, B::spec_put(mid, first), B::spec_put(mid, second));
    }

    fn get<'a>(source: &'a A::Source) -> (target: &'a B::Target) {
        B::get(A::get(source))
    }

    fn get_mut<'a>(source: &'a mut A::Source) -> (target: &'a mut B::Target) {
        B::get_mut(A::get_mut(source))
    }
}

/// The lens that hands back the value it is given.
#[derive(Debug)]
pub struct RootLens<A>(PhantomData<A>);

impl<A> Clone for RootLens<A> {
    fn clone(&self) -> (copy: Self)
        ensures
            copy == *self,
    {
        RootLens(PhantomData)
    }
}

impl<A> Lens for RootLens<A> {
    type Source = A;

    type Target = A;

    open spec fn spec_get(source: A) -> A {
        source
    }

    open spec fn spec_put(source: A, target: A) -> A {
        target
    }

    proof fn lemma_put_get(source: A, target: A) {
    }

    proof fn lemma_get_put(source: A) {
    }

    proof fn lemma_put_put(source: A, first: A, second: A) {
    }

    fn get<'a>(source: &'a A) -> (target: &'a A) {
        source
    }

    fn get_mut<'a>(source: &'a mut A) -> (target: &'a mut A) {
        source
    }
}

/// The lens onto the first element of a pair.
#[derive(Debug)]
pub struct TupleHeadLens<A, B>(PhantomData<(A, B)>);

impl<A, B> Clone for TupleHeadLens<A, B> {
    fn clone(&self) -> (copy: Self)
        ensures
            copy == *self,
    {
        TupleHeadLens(PhantomData)
    }
}

impl<A, B> Lens for TupleHeadLens<A, B> {
    type Source = (A, B);

    type Target = A;

    open spec fn spec_get(source: (A, B)) -> A {
        source.0
    }

    open spec fn spec_put(source: (A, B), target: A) -> (A, B) {
        (target, source.1)
    }

    proof fn lemma_put_get(source: (A, B), target: A) {
    }

    proof fn lemma_get_put(source: (A, B)) {
    }

    proof fn lemma_put_put(source: (A, B), first: A, second: A) {
    }

    fn get<'a>(source: &'a (A, B)) -> (target: &'a A) {
        &source.0
    }

    fn get_mut<'a>(source: &'a mut (A, B)) -> (target: &'a mut A) {
        &mut source.0
    }
}

/// The lens onto the second element of a pair.
#[derive(Debug)]
pub struct TupleTailLens<A, B>(PhantomData<(A, B)>);

impl<A, B> Clone for TupleTailLens<A, B> {
    fn clone(&self) -> (copy: Self)
        ensures
            copy == *self,
    {
        TupleTailLens(PhantomData)
    }
}

impl<A, B> Lens for TupleTailLens<A, B> {
    type Source = (A, B);

    type Target = B;

    open spec fn spec_get(source: (A, B)) -> B {
        source.1
    }

    open spec fn spec_put(source: (A, B), target: B) -> (A, B) {
        (source.0, target)
    }

    proof fn lemma_put_get(source: (A, B), target: B) {
    }

    proof fn lemma_get_put(source: (A, B)) {
    }

    proof fn lemma_put_put(source: (A, B), first: B, second: B) {
    }

    fn get<'a>(source: &'a (A, B)) -> (target: &'a B) {
        &source.1
    }

    fn get_mut<'a>(source: &'a mut (A, B)) -> (target: &'a mut B) {
        &mut source.1
    }
}

/// A write through a lens is local: the written value is what a later read
/// sees, and writing the previous value back restores the whole source, so
/// nothing but the addressed part was touched.
pub proof fn lemma_write_is_local<L: Lens>(source: L::Source, written: L::Target)
    ensures
        L::spec_get(L::spec_put(source, written)) == written,
        L::spec_put(L::spec_put(source, written), L::spec_get(source)) == source,
{
    L::lemma_put_get(source, written);
    L::lemma_put_put(source, written, L::spec_get(source));
    L::lemma_get_put(source);
}

/// Two writes through the head and the tail lens of a pair do not disturb
/// each other, in either order.
pub proof fn lemma_head_and_tail_are_independent<A, B>(source: (A, B), head: A, tail: B)
    ensures
        TupleTailLens::<A, B>::spec_get(TupleHeadLens::<A, B>::spec_put(source, head))
            == source.1,
        TupleHeadLens::<A, B>::spec_get(TupleTailLens::<A, B>::spec_put(source, tail))
            == source.0,
        TupleTailLens::<A, B>::spec_put(TupleHeadLens::<A, B>::spec_put(source, head), tail)
            == TupleHeadLens::<A, B>::spec_put(TupleTailLens::<A, B>::spec_put(source, tail), head),
{
}

/// Composition reads from the outside in, at any depth: a composite of three
/// lenses reads `C` in what `B` finds in what `A` finds, however the three
/// are grouped, and both groupings write alike.
pub proof fn lemma_composition_is_associative<A, B, C, M, N>(source: A::Source, target: C::Target) where
    A: Lens<Target = M>,
    B: Lens<Source = M, Target = N>,
    C: Lens<Source = N>,
    M: 'static,
    N: 'static,

    ensures
        CompositeLens::<CompositeLens<A, B>, C>::spec_get(source) == C::spec_get(
            B::spec_get(A::spec_get(source)),
        ),
        CompositeLens::<A, CompositeLens<B, C>>::spec_get(source) == C::spec_get(
            B::spec_get(A::spec_get(source)),
        ),
        CompositeLens::<CompositeLens<A, B>, C>::spec_put(source, target) == CompositeLens::<
            A,
            CompositeLens<B, C>,
        >::spec_put(source, target),
{
}

} // verus!
