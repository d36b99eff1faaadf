//! The state of an editor and the step that applies a message to it.

use crate::fields::{shown, Field, TextInput};
use crate::kinds::{Key, Kind};
use crate::message::Message;
use crate::mutation::Mutator;
use crate::stores::{can_make_key, fresh_key, has_key, is_place_of, keys_of, ObjectStore};
use vstd::prelude::*;

verus! {

/// The state of an editor: a store of records and the key of the record that
/// is selected, if one is.
pub struct AppState<K: Kind, C: ObjectStore<K>> {
    /// Currently selected object
    selected: Option<K::Key>,
    /// Volatile container for our objects
    container: C,
}

/// What the entries of a store become when a pair of mutators is applied to
/// the record under `selected`: that record and its working values change
/// as the mutators say, and every other record stays as it is.
pub open spec fn spec_mutate<Id, T, S, V: Mutator<T>, W: Mutator<S>>(
    entries: Seq<(Id, T, S)>,
    selected: Option<Id>,
    value: V,
    working: W,
) -> Seq<(Id, T, S)> {
    match selected {
        Some(key) => entries.map_values(
            |entry: (Id, T, S)|
                if entry.0 == key {
                    (entry.0, value.spec_apply(entry.1), working.spec_apply(entry.2))
                } else {
                    entry
                },
        ),
        None => entries,
    }
}

impl<K: Kind, C: ObjectStore<K>> AppState<K, C> {
    /// The key of the selected record.
    pub closed spec fn selection(&self) -> Option<K::Key> {
        self.selected
    }

    /// The store.
    pub closed spec fn store(&self) -> C {
        self.container
    }

    /// Whether the state is in order: whether its store is.
    pub open spec fn well_formed(&self) -> bool {
        self.store().well_formed()
    }

    /// The state of an editor that was just opened: an empty store and no
    /// selection.
    pub fn empty() -> (state: Self)
        ensures
            state.well_formed(),
            state.selection() is None,
            state.store().entries() == Seq::<
                (K::Key, K, <K::Field as Field>::WorkingValues),
            >::empty(),
    {
        AppState { selected: None, container: C::empty() }
    }

    /// Set the new selected object, if it exists. Otherwise, selection is
    /// cleared.
    pub fn select(&mut self, selected: Option<K::Key>)
        requires
            old(self).well_formed(),
        ensures
            final(self).store() == old(self).store(),
            final(self).selection() == (match selected {
                Some(key) => if has_key(old(self).store().entries(), key) {
                    Some(key)
                } else {
                    None
                },
                None => None,
            }),
    {
        self.selected = match selected {
            Some(x) => if self.container.contains(&x) {
                Some(x)
            } else {
                None
            },
            None => None,
        }
    }

    /// The selected record with its key and its working values, if a record
    /// is selected and the store still holds it.
    pub fn selected(&self) -> (found: Option<(&K::Key, &K, &<K::Field as Field>::WorkingValues)>)
        requires
            self.well_formed(),
        ensures
            match found {
                Some((key, value, working)) => exists|at: int|
                    #![trigger self.store().entries()[at]]
                    {
                        &&& self.selection() == Some(*key)
                        &&& is_place_of(self.store().entries(), *key, at)
                        &&& *value == self.store().entries()[at].1
                        &&& *working == self.store().entries()[at].2
                    },
                None => self.selection() matches Some(key) ==> !has_key(
                    self.store().entries(),
                    key,
                ),
            },
    {
        match &self.selected {
            Some(key) => match self.container.get(key) {
                Some((value, working)) => Some((key, value, working)),
                None => None,
            },
            None => None,
        }
    }

    /// The selected record and its working values, for writing.
    pub fn selected_mut(&mut self) -> (found: Option<
        (&mut K, &mut <K::Field as Field>::WorkingValues),
    >)
        requires
            old(self).well_formed(),
        ensures
            final(self).well_formed(),
            final(self).selection() == old(self).selection(),
            match found {
                Some((value, working)) => exists|at: int|
                    #![trigger old(self).store().entries()[at]]
                    {
                        &&& old(self).selection() matches Some(key)
                        &&& is_place_of(old(self).store().entries(), key, at)
                        &&& *value == old(self).store().entries()[at].1
                        &&& *working == old(self).store().entries()[at].2
                        &&& final(self).store().entries() == old(self).store().entries().update(
                            at,
                            (key, *final(value), *final(working)),
                        )
                    },
                None => {
                    &&& old(self).selection() matches Some(key) ==> !has_key(
                        old(self).store().entries(),
                        key,
                    )
                    &&& final(self).store().entries() == old(self).store().entries()
                },
            },
    {
        match &self.selected {
            Some(key) => self.container.get_mut(key),
            None => None,
        }
    }

    /// Get the currently selected key
    pub fn selected_key(&self) -> (key: Option<&K::Key>)
        ensures
            match key {
                Some(key) => self.selection() == Some(*key),
                None => self.selection() is None,
            },
    {
        self.selected.as_ref()
    }

    /// Whether `key` is the selected key.
    pub fn is_selected(&self, key: &K::Key) -> (selected: bool)
        ensures
            selected == (self.selection() == Some(*key)),
    {
        match &self.selected {
            Some(x) => x.same_as(key),
            None => false,
        }
    }

    /// Get a reference to the object container.
    pub fn container(&self) -> (store: &C)
        ensures
            *store == self.store(),
    {
        &self.container
    }

    /// Get a mutable reference to the object container.
    pub fn container_mut(&mut self) -> (store: &mut C)
        ensures
            *store == old(self).store(),
            final(self).store() == *final(store),
            final(self).selection() == old(self).selection(),
    {
        &mut self.container
    }

    /// Create a new object, and select it
    pub fn new(&mut self)
        requires
            old(self).well_formed(),
            can_make_key(keys_of(old(self).store().entries())),
        ensures
            final(self).well_formed(),
            final(self).selection() == Some(fresh_key(keys_of(old(self).store().entries()))),
            final(self).store().entries().len() == old(self).store().entries().len() + 1,
            final(self).store().entries().drop_last() == old(self).store().entries(),
            final(self).store().entries().last().0 == fresh_key(
                keys_of(old(self).store().entries()),
            ),
            call_ensures(K::default, (), final(self).store().entries().last().1),
            call_ensures(
                <K::Field as Field>::WorkingValues::default,
                (),
                final(self).store().entries().last().2,
            ),
    {
        let k = self.container.add();
        proof {
            let entries = self.container.entries();
            assert(is_place_of(entries, k, entries.len() - 1));
        }
        self.select(Some(k));
    }

    /// The rows of an outline of the store: the key of every record, in the
    /// order of the records, each with whether it is the selected one.
    pub fn outline(&self) -> (rows: Vec<(K::Key, bool)>)
        requires
            self.well_formed(),
        ensures
            rows@.len() == self.store().entries().len(),
            forall|i: int|
                0 <= i < rows@.len() ==> #[trigger] rows@[i] == (
                    self.store().entries()[i].0,
                    self.selection() == Some(self.store().entries()[i].0),
                ),
    {
        let keys = self.container.keys();
        let mut rows: Vec<(K::Key, bool)> = Vec::new();
        let mut i: usize = 0;
        while i < keys.len()
            invariant
                i <= keys.len(),
                keys@ == keys_of(self.container.entries()),
                rows@.len() == i,
                forall|j: int|
                    0 <= j < i ==> #[trigger] rows@[j] == (
                        keys@[j],
                        self.selected == Some(keys@[j]),
                    ),
            decreases keys.len() - i,
        {
            let key = keys[i];
            let selected = self.is_selected(&key);
            rows.push((key, selected));
            i = i + 1;
        }
        rows
    }

    /// What an inspector shows: the inputs of `fields` for the selected
    /// record, or nothing where no record is selected or the selected one is
    /// not in the store any more.
    pub fn inspect(&self, fields: &mut K::Field) -> (inputs: Option<Vec<TextInput>>)
        requires
            self.well_formed(),
        ensures
            forall|v: K, w: <K::Field as Field>::WorkingValues|
                #[trigger] final(fields).spec_view(v, w) == old(fields).spec_view(v, w),
            match inputs {
                Some(inputs) => exists|at: int|
                    #![trigger self.store().entries()[at]]
                    {
                        &&& self.selection() matches Some(key)
                        &&& is_place_of(self.store().entries(), key, at)
                        &&& shown(inputs@) == old(fields).spec_view(
                            self.store().entries()[at].1,
                            self.store().entries()[at].2,
                        )
                    },
                None => self.selection() matches Some(key) ==> !has_key(
                    self.store().entries(),
                    key,
                ),
            },
    {
        match self.selected() {
            Some((_key, val, working)) => Some(fields.view(val, working)),
            None => None,
        }
    }

    /// Applies a message to the state. A message for the pane layout is not
    /// for this state and is handed back.
    pub fn update<P, V: Mutator<K>, W: Mutator<<K::Field as Field>::WorkingValues>>(
        &mut self,
        message: Message<P, K::Key, V, W>,
    ) -> (for_panes: Option<P>)
        requires
            old(self).well_formed(),
            message is NewObject ==> can_make_key(keys_of(old(self).store().entries())),
        ensures
            final(self).well_formed(),
            match message {
                Message::Nop => {
                    &&& for_panes is None
                    &&& final(self).selection() == old(self).selection()
                    &&& final(self).store().entries() == old(self).store().entries()
                },
                Message::PaneMessage(p) => {
                    &&& for_panes == Some(p)
                    &&& final(self).selection() == old(self).selection()
                    &&& final(self).store().entries() == old(self).store().entries()
                },
                Message::Select(key) => {
                    &&& for_panes is None
                    &&& final(self).store().entries() == old(self).store().entries()
                    &&& final(self).selection() == if has_key(old(self).store().entries(), key) {
                        Some(key)
                    } else {
                        None
                    }
                },
                Message::NewObject => {
                    &&& for_panes is None
                    &&& final(self).selection() == Some(
                        fresh_key(keys_of(old(self).store().entries())),
                    )
                    &&& final(self).store().entries().len() == old(self).store().entries().len()
                        + 1
                    &&& final(self).store().entries().drop_last() == old(self).store().entries()
                    &&& final(self).store().entries().last().0 == fresh_key(
                        keys_of(old(self).store().entries()),
                    )
                    &&& call_ensures(K::default, (), final(self).store().entries().last().1)
                    &&& call_ensures(
                        <K::Field as Field>::WorkingValues::default,
                        (),
                        final(self).store().entries().last().2,
                    )
                },
                Message::Mutate(value, working) => {
                    &&& for_panes is None
                    &&& final(self).selection() == old(self).selection()
                    &&& final(self).store().entries() == spec_mutate(
                        old(self).store().entries(),
                        old(self).selection(),
                        value,
                        working,
                    )
                },
            },
    {
        match message {
            Message::Nop => None,
            Message::PaneMessage(msg) => Some(msg),
            Message::Select(x) => {
                self.select(Some(x));
                None
            },
            Message::NewObject => {
                self.new();
                None
            },
            Message::Mutate(vm, wm) => {
                proof {
                    self.container.lemma_keys_are_distinct();
                }
                let ghost before = self.container.entries();
                let ghost after = spec_mutate(before, self.selected, vm, wm);
                if let Some((v, w)) = self.selected_mut() {
                    vm.apply(v);
                    wm.apply(w);
                }
                proof {
                    let now = self.container.entries();
                    if let Some(key) = old(self).selection() {
                        assert forall|i: int| 0 <= i < before.len() implies now[i]
                            == after[i] by {
                            if !has_key(before, key) {
                                assert(!is_place_of(before, key, i));
                            }
                        }
                    }
                }
                None
            },
        }
    }
}

} // verus!
