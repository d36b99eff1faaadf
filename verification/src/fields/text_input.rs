//! Text inputs that commit only what survives a round trip through text.

use crate::fields::{shown, Field, ShownInput, TextInput};
use crate::lens::{Lens, RootLens};
use crate::message::Message;
use crate::mutation::{EitherMutator, LensSet, Mutator, NopMutator};
use std::marker::PhantomData;
use vstd::prelude::*;

verus! {

/// The characters of a text, as contracts speak of them.
pub type Text = Seq<char>;

/// A type that can be typed into a text input.
///
/// `parse` and `format` say how text is read and how a value is displayed.
/// `from_input` guards the committed value: it accepts a text only if the
/// value it parses to is displayed as that very text, so a commit never
/// rewrites what the user typed.
pub trait FromTextInput: Sized {
    /// The value that `text` denotes, if it denotes one.
    spec fn spec_parse(text: Text) -> Option<Self>;

    /// The text that displays the value.
    spec fn spec_format(self) -> Text;

    /// Reads a value from text.
    fn parse(s: &str) -> (parsed: Option<Self>)
        ensures
            parsed == Self::spec_parse(s@),
    ;

    /// Displays the value.
    fn format(&self) -> (text: String)
        ensures
            text@ == self.spec_format(),
    ;

    /// The value to commit for the input `s`: the parsed value, if
    /// displaying it gives `s` back character by character.
    fn from_input(s: &str) -> (accepted: Option<Self>)
        ensures
            accepted == (match Self::spec_parse(s@) {
                Some(x) => if x.spec_format() == s@ {
                    Some(x)
                } else {
                    None
                },
                None => None,
            }),
    {
        match Self::parse(s) {
            Some(x) => {
                let displayed = x.format();
                let typed = String::from_str(s);
                if displayed == typed {
                    Some(x)
                } else {
                    None
                }
            },
            None => None,
        }
    }
}

/// What [`FromTextInput::from_input`] accepts for `text`.
pub open spec fn spec_from_input<T: FromTextInput>(text: Seq<char>) -> Option<T> {
    match T::spec_parse(text) {
        Some(x) => if x.spec_format() == text {
            Some(x)
        } else {
            None
        },
        None => None,
    }
}

/// A field that edits the part addressed by the lens `L` as a line of text.
///
/// Its working value is `None` while the input is in sync with the committed
/// value, and `Some(text)` while it holds text that was not committed.
#[derive(Debug)]
pub struct TextInputField<L> {
    label: String,
    string_value: String,
    _d: PhantomData<L>,
}

impl<L> TextInputField<L> {
    /// The caption of the input.
    pub closed spec fn label(&self) -> Seq<char> {
        self.label@
    }

    /// The text that the field rendered last.
    pub closed spec fn string_value(&self) -> Seq<char> {
        self.string_value@
    }

    /// A field with the caption `label` that has not rendered yet.
    pub fn new(label: &str) -> (field: Self)
        ensures
            field.label() == label@,
            field.string_value() == Seq::<char>::empty(),
    {
        TextInputField { label: String::from_str(label), string_value: String::new(), _d: PhantomData }
    }
}

impl<L> Clone for TextInputField<L> {
    fn clone(&self) -> (copy: Self)
        ensures
            copy.label() == self.label(),
            copy.string_value() == self.string_value(),
    {
        TextInputField {
            label: self.label.clone(),
            string_value: self.string_value.clone(),
            _d: PhantomData,
        }
    }
}

/// The text that a text input shows: the staged text while there is one,
/// else the committed part, displayed.
pub open spec fn spec_shown_text<L: Lens>(val: L::Source, working: Option<String>) -> Text where
    L::Target: FromTextInput,
 {
    match working {
        Some(staged) => staged@,
        None => L::spec_get(val).spec_format(),
    }
}

impl<L: Lens> Field for TextInputField<L> where L::Target: FromTextInput {
    type Kind = L::Source;

    type WorkingValues = Option<String>;

    type ValueMutator = EitherMutator<LensSet<L>, NopMutator>;

    type WorkingMutator = LensSet<RootLens<Option<String>>>;

    open spec fn slots() -> nat {
        1
    }

    open spec fn spec_view(&self, val: L::Source, working: Option<String>) -> Seq<ShownInput> {
        seq![
            ShownInput {
                label: self.label(),
                text: spec_shown_text::<L>(val, working),
                out_of_sync: working is Some,
            },
        ]
    }

    open spec fn emits(
        slot: nat,
        text: Seq<char>,
        value: Self::ValueMutator,
        working: Self::WorkingMutator,
    ) -> bool {
        &&& slot == 0
        &&& match spec_from_input::<L::Target>(text) {
            Some(x) => {
                &&& value matches EitherMutator::Left(set)
                &&& set.value() == x
                &&& working.value() is None
            },
            None => {
                &&& value is Right
                &&& working.value() matches Some(staged)
                &&& staged@ == text
            },
        }
    }

    proof fn lemma_view_len(&self, val: L::Source, working: Option<String>) {
    }

    fn view(&mut self, val: &L::Source, working: &Option<String>) -> (inputs: Vec<TextInput>)
        ensures
            final(self).label() == old(self).label(),
            final(self).string_value() == spec_shown_text::<L>(*val, *working),
    {
        let out_of_sync = match working {
            Some(staged) => {
                self.string_value = staged.clone();
                true
            },
            None => {
                self.string_value = L::get(val).format();
                false
            },
        };
        let input = TextInput {
            label: self.label.clone(),
            text: self.string_value.clone(),
            out_of_sync,
        };
        let inputs = vec![input];
        inputs
    }

    fn on_input<P, Id>(slot: usize, new: &str) -> (answer: Result<
        Message<P, Id, Self::ValueMutator, Self::WorkingMutator>,
        usize,
    >) {
        if slot != 0 {
            return Err(slot - 1);
        }
        match L::Target::from_input(new) {
            Some(v) => Ok(
                Message::Mutate(EitherMutator::Left(LensSet::new(v)), LensSet::new(None)),
            ),
            None => Ok(
                Message::Mutate(
                    EitherMutator::Right(NopMutator),
                    LensSet::new(Some(String::from_str(new))),
                ),
            ),
        }
    }
}

/// The commit rule of a text input. If the typed text parses to a value
/// that is displayed as that very text, the value is committed through the
/// lens and the staged text is cleared; otherwise the committed value is
/// left alone and the typed text is staged as it is. Either way the input
/// goes on to show exactly what was typed.
pub proof fn lemma_commit_law<L: Lens>(
    text: Seq<char>,
    value: EitherMutator<LensSet<L>, NopMutator>,
    working: LensSet<RootLens<Option<String>>>,
    val: L::Source,
    staged: Option<String>,
) where L::Target: FromTextInput
    requires
        TextInputField::<L>::emits(0, text, value, working),
    ensures
        match spec_from_input::<L::Target>(text) {
            Some(x) => {
                &&& value.spec_apply(val) == L::spec_put(val, x)
                &&& L::spec_get(value.spec_apply(val)) == x
                &&& working.spec_apply(staged) is None
            },
            None => {
                &&& value.spec_apply(val) == val
                &&& working.spec_apply(staged) matches Some(kept)
                &&& kept@ == text
            },
        },
        spec_shown_text::<L>(value.spec_apply(val), working.spec_apply(staged)) == text,
{
    match spec_from_input::<L::Target>(text) {
        Some(x) => {
            L::lemma_put_get(val, x);
        },
        None => {},
    }
}

} // verus!
