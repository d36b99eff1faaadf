//! A field-mutation pipeline for object editors.
//!
//! Record types expose their editable parts through lenses, edits travel as
//! mutators, and text that has not been committed yet is staged in working
//! values beside the record.
//!
//! - [`lens`]: how to borrow one part out of a whole, and how lenses compose.
//! - [`mutation`]: single-use changes of a value, sent through lenses.
//! - [`fields`]: editors that render a record as text inputs and answer typed
//!   text with a pair of mutators; two editors side by side act as one.
//! - [`kinds`]: record types and the keys of their instances.
//! - [`stores`]: keyed collections of records with their working values.
//! - [`message`] and [`app`]: what can happen in an editor, and the step
//!   that applies it to the store and the selection.
//! - [`pane_zone`]: what a layout of panes does with its messages.
//! - [`codegen`]: lenses for the fields of a struct, as source text.

pub mod app;
pub mod codegen;
pub mod fields;
pub mod kinds;
pub mod lens;
pub mod message;
pub mod mutation;
pub mod pane_zone;
pub mod stores;

pub use app::AppState;
pub use fields::{ConsFields, Field, FromTextInput, TextInputField};
pub use kinds::{Key, Kind, RectId};
pub use lens::{CompositeLens, Lens, RootLens, TupleHeadLens, TupleTailLens};
pub use message::{Message, NewPane};
pub use mutation::{EitherMutator, InnerMutation, LensMutator, LensSet, Mutator, NopMutator};
pub use stores::{ObjectStore, VecContainer};
