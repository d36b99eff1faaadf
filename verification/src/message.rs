//! The messages that an editor passes from its widgets to its update step.

use vstd::prelude::*;

verus! {

/// The panes that an empty pane can be turned into.
#[derive(Debug, Clone, Copy, PartialEq, Eq, Structural)]
pub enum NewPane {
    /// The list of all objects in the store.
    Outline,
    /// The fields of the selected object.
    Inspector,
}

/// Everything that can happen in an editor.
///
/// `P` is the host's own message for its pane layout, which the pipeline
/// carries and never looks into. `Id` is the key of the edited kind, `V` a
/// mutator of its values and `W` a mutator of its working values.
#[derive(Debug, Clone)]
pub enum Message<P, Id, V, W> {
    /// Something for the pane layout.
    PaneMessage(P),
    /// Select the object with this key.
    Select(Id),
    /// Create an object and select it.
    NewObject,
    /// Change the selected object: the first mutator is for the committed
    /// value, the second one for its working values.
    Mutate(V, W),
    /// Nothing.
    Nop,
}

} // verus!
