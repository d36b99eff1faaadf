//! Fields: the editors of the parts of a record.

pub mod cons;
pub mod numbers;
pub mod text_input;

pub use cons::ConsFields;
pub use text_input::{FromTextInput, TextInputField};

use crate::message::Message;
use crate::mutation::Mutator;
use vstd::prelude::*;

verus! {

/// What an editor shows for one slot: a labelled line of text.
#[derive(Debug, Clone)]
pub struct TextInput {
    /// The caption beside the input.
    pub label: String,
    /// The text in the input.
    pub text: String,
    /// Whether the text is staged input that has not been committed.
    pub out_of_sync: bool,
}

/// The mathematical content of a [`TextInput`].
pub struct ShownInput {
    /// The caption beside the input.
    pub label: Seq<char>,
    /// The text in the input.
    pub text: Seq<char>,
    /// Whether the text is staged input that has not been committed.
    pub out_of_sync: bool,
}

impl View for TextInput {
    type V = ShownInput;

    open spec fn view(&self) -> ShownInput {
        ShownInput { label: self.label@, text: self.text@, out_of_sync: self.out_of_sync }
    }
}

/// The views of the inputs in `inputs`, in order.
pub open spec fn shown(inputs: Seq<TextInput>) -> Seq<ShownInput> {
    inputs.map_values(|input: TextInput| input@)
}

/// An editor for one or more parts of a record of type `Kind`.
///
/// A field owns no data of the record. It renders from the committed value
/// and the working values it is handed, one input per slot, and it turns text
/// typed into a slot into a message that carries one mutator for the value
/// and one for the working values.
pub trait Field: Sized {
    /// The record type that is edited.
    type Kind;

    /// The staging storage of this field, one place per slot.
    type WorkingValues: Default;

    /// The mutators of the committed value that this field emits.
    type ValueMutator: Mutator<Self::Kind>;

    /// The mutators of the working values that this field emits.
    type WorkingMutator: Mutator<Self::WorkingValues>;

    /// The number of inputs that the field shows.
    spec fn slots() -> nat;

    /// What the field shows for a value and its working values.
    spec fn spec_view(&self, val: Self::Kind, working: Self::WorkingValues) -> Seq<ShownInput>;

    /// Whether the pair of `value` and `working` is what the field answers
    /// when `text` is typed into the input at `slot`.
    spec fn emits(
        slot: nat,
        text: Seq<char>,
        value: Self::ValueMutator,
        working: Self::WorkingMutator,
    ) -> bool;

    /// The field shows one input per slot.
    proof fn lemma_view_len(&self, val: Self::Kind, working: Self::WorkingValues)
        ensures
            self.spec_view(val, working).len() == Self::slots(),
    ;

    /// Renders the field. What is shown depends on the value and the working
    /// values alone, never on what the field showed before.
    fn view(&mut self, val: &Self::Kind, working: &Self::WorkingValues) -> (inputs: Vec<TextInput>)
        ensures
            shown(inputs@) == old(self).spec_view(*val, *working),
            forall|v: Self::Kind, w: Self::WorkingValues|
                #[trigger] final(self).spec_view(v, w) == old(self).spec_view(v, w),
    ;

    /// The message for `new` typed into the input at `slot`: always a
    /// `Mutate`, with one mutator for the value and one for the working
    /// values. A slot that the field does not have is answered with its
    /// distance past the last one.
    fn on_input<P, Id>(slot: usize, new: &str) -> (answer: Result<
        Message<P, Id, Self::ValueMutator, Self::WorkingMutator>,
        usize,
    >)
        ensures
            slot < Self::slots() ==> (answer matches Ok(Message::Mutate(value, working))
                && Self::emits(slot as nat, new@, value, working)),
            slot >= Self::slots() ==> answer == Err::<
                Message<P, Id, Self::ValueMutator, Self::WorkingMutator>,
                usize,
            >((slot - Self::slots()) as usize),
    ;
}

} // verus!
