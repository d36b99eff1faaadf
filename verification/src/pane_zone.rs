//! What a layout of panes does with the messages that its controls send.
//!
//! The layout itself, with its panes, splits and sizes, belongs to the host
//! and its toolkit. Here is only the decision: which change of the layout a
//! message asks for. The toolkit's own values, an axis, the identity of a
//! pane, a resize, pass through as they are.

use crate::message::NewPane;
use vstd::prelude::*;

verus! {

/// What dragging a pane reports.
#[derive(Debug, Clone, Copy)]
pub enum DragEvent<P> {
    /// A pane was picked up.
    Picked { pane: P },
    /// A pane was dropped on top of another pane.
    Dropped { pane: P, target: P },
    /// A pane was picked up and then let go in place.
    Canceled { pane: P },
}

/// A message related to a pane zone. `A` is an axis, `P` identifies a pane
/// and `R` describes a resize.
#[derive(Debug, Clone, Copy)]
pub enum PaneMessage<A, P, R> {
    /// Split a pane along an axis.
    Split(A, P),
    /// A pane is being dragged.
    Drag(DragEvent<P>),
    /// A split was moved.
    Resize(R),
    /// Close a pane.
    Close(P),
    /// Turn a pane into another kind of pane.
    SetPane(P, NewPane),
}

/// A change of the layout.
#[derive(Debug, Clone, Copy)]
pub enum PaneAction<A, P, R> {
    /// Split the pane along the axis; the new half is an empty pane.
    Split(A, P),
    /// Resize as described.
    Resize(R),
    /// Let the two panes change places.
    Swap(P, P),
    /// Close the pane.
    Close(P),
    /// Replace the content of the pane, if the layout has the pane.
    SetPane(P, NewPane),
    /// Leave the layout as it is.
    Nothing,
}

/// The change that `msg` asks for.
pub open spec fn spec_update<A, P, R>(msg: PaneMessage<A, P, R>) -> PaneAction<A, P, R> {
    match msg {
        PaneMessage::Split(axis, pane) => PaneAction::Split(axis, pane),
        PaneMessage::Resize(e) => PaneAction::Resize(e),
        PaneMessage::Drag(DragEvent::Dropped { pane, target }) => PaneAction::Swap(pane, target),
        PaneMessage::Drag(_) => PaneAction::Nothing,
        PaneMessage::Close(pane) => PaneAction::Close(pane),
        PaneMessage::SetPane(pane, new) => PaneAction::SetPane(pane, new),
    }
}

/// Process the given message: decides what a layout with `panes` panes does
/// with it. Only a drag that ends on another pane moves anything, and then
/// the two panes swap. A layout is never without a pane, so there is one to
/// close whenever closing is asked for.
pub fn update<A, P, R>(msg: PaneMessage<A, P, R>, panes: usize) -> (action: PaneAction<A, P, R>)
    requires
        msg is Close ==> panes > 0,
    ensures
        action == spec_update(msg),
{
    match msg {
        PaneMessage::Split(axis, pane) => PaneAction::Split(axis, pane),
        PaneMessage::Resize(e) => PaneAction::Resize(e),
        PaneMessage::Drag(e) => match e {
            DragEvent::Dropped { pane, target } => PaneAction::Swap(pane, target),
            _ => PaneAction::Nothing,
        },
        PaneMessage::Close(p) => PaneAction::Close(p),
        PaneMessage::SetPane(p, new) => PaneAction::SetPane(p, new),
    }
}

} // verus!
