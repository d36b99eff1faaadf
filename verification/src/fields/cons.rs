//! Two fields side by side, behaving as one.

use crate::fields::{shown, Field, ShownInput, TextInput};
use crate::lens::{Lens, TupleHeadLens, TupleTailLens};
use crate::message::Message;
use crate::mutation::{EitherMutator, InnerMutation, Mutator};
use vstd::prelude::*;

verus! {

/// One field, then the other.
///
/// The working values of the pair are the pair of the working values. The
/// inputs of the first field come first; a message of either field is passed
/// on with its working mutator redirected to that field's half of the pair.
#[derive(Debug, Clone)]
pub struct ConsFields<A, B>(A, B);

impl<A, B> ConsFields<A, B> {
    /// The first field.
    pub closed spec fn head(&self) -> A {
        self.0
    }

    /// The second field.
    pub closed spec fn tail(&self) -> B {
        self.1
    }

    /// The field that shows `a` and then `b`.
    pub fn new(a: A, b: B) -> (both: Self)
        ensures
            both.head() == a,
            both.tail() == b,
    {
        ConsFields(a, b)
    }
}

impl<A: Field, B: Field<Kind = A::Kind>> ConsFields<A, B> {
    /// Whether `lifted` is `message` as the pair passes it on for its first
    /// field: a `Mutate` keeps its value mutator and has its working mutator
    /// sent to the head of the working pair; anything else is unchanged.
    pub open spec fn is_head_lift<P, Id>(
        message: Message<P, Id, A::ValueMutator, A::WorkingMutator>,
        lifted: Message<
            P,
            Id,
            EitherMutator<A::ValueMutator, B::ValueMutator>,
            EitherMutator<
                InnerMutation<TupleHeadLens<A::WorkingValues, B::WorkingValues>, A::WorkingMutator>,
                InnerMutation<TupleTailLens<A::WorkingValues, B::WorkingValues>, B::WorkingMutator>,
            >,
        >,
    ) -> bool {
        match message {
            Message::Mutate(v, w) => {
                &&& lifted matches Message::Mutate(
                    EitherMutator::Left(value),
                    EitherMutator::Left(working),
                )
                &&& value == v
                &&& working.inner() == w
            },
            Message::PaneMessage(p) => lifted matches Message::PaneMessage(q) && q == p,
            Message::Select(s) => lifted matches Message::Select(t) && t == s,
            Message::NewObject => lifted is NewObject,
            Message::Nop => lifted is Nop,
        }
    }

    /// Whether `lifted` is `message` as the pair passes it on for its second
    /// field: a `Mutate` keeps its value mutator and has its working mutator
    /// sent to the tail of the working pair; anything else is unchanged.
    pub open spec fn is_tail_lift<P, Id>(
        message: Message<P, Id, B::ValueMutator, B::WorkingMutator>,
        lifted: Message<
            P,
            Id,
            EitherMutator<A::ValueMutator, B::ValueMutator>,
            EitherMutator<
                InnerMutation<TupleHeadLens<A::WorkingValues, B::WorkingValues>, A::WorkingMutator>,
                InnerMutation<TupleTailLens<A::WorkingValues, B::WorkingValues>, B::WorkingMutator>,
            >,
        >,
    ) -> bool {
        match message {
            Message::Mutate(v, w) => {
                &&& lifted matches Message::Mutate(
                    EitherMutator::Right(value),
                    EitherMutator::Right(working),
                )
                &&& value == v
                &&& working.inner() == w
            },
            Message::PaneMessage(p) => lifted matches Message::PaneMessage(q) && q == p,
            Message::Select(s) => lifted matches Message::Select(t) && t == s,
            Message::NewObject => lifted is NewObject,
            Message::Nop => lifted is Nop,
        }
    }

    /// Passes on a message of the first field.
    pub fn lift_head<P, Id>(message: Message<P, Id, A::ValueMutator, A::WorkingMutator>) -> (lifted:
        Message<
            P,
            Id,
            EitherMutator<A::ValueMutator, B::ValueMutator>,
            EitherMutator<
                InnerMutation<TupleHeadLens<A::WorkingValues, B::WorkingValues>, A::WorkingMutator>,
                InnerMutation<TupleTailLens<A::WorkingValues, B::WorkingValues>, B::WorkingMutator>,
            >,
        >)
        ensures
            Self::is_head_lift(message, lifted),
    {
        match message {
            Message::Mutate(v, w) => Message::Mutate(
                EitherMutator::Left(v),
                EitherMutator::Left(InnerMutation::new(w)),
            ),
            Message::PaneMessage(m) => Message::PaneMessage(m),
            Message::Select(s) => Message::Select(s),
            Message::NewObject => Message::NewObject,
            Message::Nop => Message::Nop,
        }
    }

    /// Passes on a message of the second field.
    pub fn lift_tail<P, Id>(message: Message<P, Id, B::ValueMutator, B::WorkingMutator>) -> (lifted:
        Message<
            P,
            Id,
            EitherMutator<A::ValueMutator, B::ValueMutator>,
            EitherMutator<
                InnerMutation<TupleHeadLens<A::WorkingValues, B::WorkingValues>, A::WorkingMutator>,
                InnerMutation<TupleTailLens<A::WorkingValues, B::WorkingValues>, B::WorkingMutator>,
            >,
        >)
        ensures
            Self::is_tail_lift(message, lifted),
    {
        match message {
            Message::Mutate(v, w) => Message::Mutate(
                EitherMutator::Right(v),
                EitherMutator::Right(InnerMutation::new(w)),
            ),
            Message::PaneMessage(m) => Message::PaneMessage(m),
            Message::Select(s) => Message::Select(s),
            Message::NewObject => Message::NewObject,
            Message::Nop => Message::Nop,
        }
    }
}

impl<A: Field, B: Field<Kind = A::Kind>> Field for ConsFields<A, B> {
    type Kind = A::Kind;

    type WorkingValues = (A::WorkingValues, B::WorkingValues);

    type ValueMutator = EitherMutator<A::ValueMutator, B::ValueMutator>;

    type WorkingMutator = EitherMutator<
        InnerMutation<TupleHeadLens<A::WorkingValues, B::WorkingValues>, A::WorkingMutator>,
        InnerMutation<TupleTailLens<A::WorkingValues, B::WorkingValues>, B::WorkingMutator>,
    >;

    open spec fn slots() -> nat {
        A::slots() + B::slots()
    }

    open spec fn spec_view(
        &self,
        val: A::Kind,
        working: (A::WorkingValues, B::WorkingValues),
    ) -> Seq<ShownInput> {
        self.head().spec_view(val, working.0) + self.tail().spec_view(val, working.1)
    }

    open spec fn emits(
        slot: nat,
        text: Seq<char>,
        value: Self::ValueMutator,
        working: Self::WorkingMutator,
    ) -> bool {
        if slot < A::slots() {
            &&& value matches EitherMutator::Left(v)
            &&& working matches EitherMutator::Left(w)
            &&& A::emits(slot, text, v, w.inner())
        } else {
            &&& value matches EitherMutator::Right(v)
            &&& working matches EitherMutator::Right(w)
            &&& B::emits((slot - A::slots()) as nat, text, v, w.inner())
        }
    }

    proof fn lemma_view_len(&self, val: A::Kind, working: (A::WorkingValues, B::WorkingValues)) {
        self.head().lemma_view_len(val, working.0);
        self.tail().lemma_view_len(val, working.1);
    }

    fn view(&mut self, val: &A::Kind, working: &(A::WorkingValues, B::WorkingValues)) -> (inputs:
        Vec<TextInput>) {
        let mut inputs = self.0.view(val, &working.0);
        let mut rest = self.1.view(val, &working.1);
        inputs.append(&mut rest);
        inputs
    }

    fn on_input<P, Id>(slot: usize, new: &str) -> (answer: Result<
        Message<P, Id, Self::ValueMutator, Self::WorkingMutator>,
        usize,
    >) {
        match A::on_input::<P, Id>(slot, new) {
            Ok(message) => Ok(Self::lift_head(message)),
            Err(rest) => match B::on_input::<P, Id>(rest, new) {
                Ok(message) => Ok(Self::lift_tail(message)),
                Err(rest) => Err(rest),
            },
        }
    }
}

/// A message that the pair passes on for one of its fields reaches that
/// field's half of the working pair and leaves the other half alone, and
/// changes the committed value exactly as the field's own mutator does.
pub proof fn lemma_cons_routing<A: Field, B: Field<Kind = A::Kind>>(
    slot: nat,
    text: Seq<char>,
    value: <ConsFields<A, B> as Field>::ValueMutator,
    working: <ConsFields<A, B> as Field>::WorkingMutator,
    val: A::Kind,
    staged: (A::WorkingValues, B::WorkingValues),
)
    requires
        ConsFields::<A, B>::emits(slot, text, value, working),
    ensures
        slot < A::slots() ==> {
            &&& value matches EitherMutator::Left(v)
            &&& working matches EitherMutator::Left(w)
            &&& A::emits(slot, text, v, w.inner())
            &&& value.spec_apply(val) == v.spec_apply(val)
            &&& working.spec_apply(staged) == (w.inner().spec_apply(staged.0), staged.1)
        },
        slot >= A::slots() ==> {
            &&& value matches EitherMutator::Right(v)
            &&& working matches EitherMutator::Right(w)
            &&& B::emits((slot - A::slots()) as nat, text, v, w.inner())
            &&& value.spec_apply(val) == v.spec_apply(val)
            &&& working.spec_apply(staged) == (staged.0, w.inner().spec_apply(staged.1))
        },
{
}

/// Pairing is associative: three fields show the same inputs in the same
/// order whether the first two or the last two are paired first, and so it
/// goes on to any depth.
pub proof fn lemma_cons_is_associative<A, B, C>(
    left: ConsFields<ConsFields<A, B>, C>,
    right: ConsFields<A, ConsFields<B, C>>,
    val: A::Kind,
    wa: A::WorkingValues,
    wb: B::WorkingValues,
    wc: C::WorkingValues,
) where A: Field, B: Field<Kind = A::Kind>, C: Field<Kind = A::Kind>
    requires
        left.head().head() == right.head(),
        left.head().tail() == right.tail().head(),
        left.tail() == right.tail().tail(),
    ensures
        ConsFields::<ConsFields<A, B>, C>::slots() == ConsFields::<A, ConsFields<B, C>>::slots(),
        left.spec_view(val, ((wa, wb), wc)) == right.spec_view(val, (wa, (wb, wc))),
{
}

} // verus!
