use iroh::app::AppState;
use iroh::fields::{ConsFields, TextInputField};
use iroh::kinds::{Key, Kind};
use iroh::lens::{Lens, TupleHeadLens, TupleTailLens};
use iroh::message::Message;
use iroh::mutation::{LensSet, NopMutator};
use iroh::stores::vec::{FirstTupleElem, PopTupleRefs, SecondTupleElem};
use iroh::stores::{ObjectStore, VecContainer};

#[derive(Debug, Clone, PartialEq, Eq)]
struct Size(u64, u64);

impl Default for Size {
    fn default() -> Self {
        Size(1, 1)
    }
}

struct SizeWidth;

impl Lens for SizeWidth {
    type Source = Size;
    type Target = u64;

    fn spec_get(_: Size) -> u64 {
        unreachable!()
    }

    fn spec_put(_: Size, _: u64) -> Size {
        unreachable!()
    }

    fn lemma_put_get(_: Size, _: u64) {}

    fn lemma_get_put(_: Size) {}

    fn lemma_put_put(_: Size, _: u64, _: u64) {}

    fn get<'a>(source: &'a Size) -> &'a u64 {
        &source.0
    }

    fn get_mut<'a>(source: &'a mut Size) -> &'a mut u64 {
        &mut source.0
    }
}

struct SizeHeight;

impl Lens for SizeHeight {
    type Source = Size;
    type Target = u64;

    fn spec_get(_: Size) -> u64 {
        unreachable!()
    }

    fn spec_put(_: Size, _: u64) -> Size {
        unreachable!()
    }

    fn lemma_put_get(_: Size, _: u64) {}

    fn lemma_get_put(_: Size) {}

    fn lemma_put_put(_: Size, _: u64, _: u64) {}

    fn get<'a>(source: &'a Size) -> &'a u64 {
        &source.1
    }

    fn get_mut<'a>(source: &'a mut Size) -> &'a mut u64 {
        &mut source.1
    }
}

impl Kind for Size {
    type Key = usize;
    type Field = ConsFields<TextInputField<SizeWidth>, TextInputField<SizeHeight>>;
}

type Working = (Option<String>, Option<String>);
type Store = VecContainer<Size>;
type State = AppState<Size, Store>;
type SetWorking = LensSet<TupleHeadLens<Option<String>, Option<String>>>;
type Msg = Message<&'static str, usize, LensSet<SizeWidth>, SetWorking>;

#[test]
fn an_empty_store_holds_nothing() {
    let store = Store::empty();
    assert_eq!(0, store.count());
    assert!(!store.contains(&0));
    assert!(store.get(&0).is_none());
    assert!(store.keys().is_empty());
    assert!(store.can_add());
}

#[test]
fn add_makes_the_keys_in_order() {
    let mut store = Store::empty();
    let mut made = Vec::new();
    for _ in 0..50 {
        made.push(store.add());
    }
    let mut expected = vec![usize::first()];
    while expected.len() < 50 {
        let next = usize::next(expected.last().unwrap());
        expected.push(next);
    }
    assert_eq!(expected, made);
    assert_eq!((0..50).collect::<Vec<usize>>(), made);
    assert_eq!(made, store.keys());
    assert_eq!(50, store.count());
    for i in 0..made.len() {
        for j in 0..i {
            assert_ne!(made[i], made[j]);
        }
    }
}

#[test]
fn a_new_record_has_default_contents() {
    let mut store = Store::empty();
    let key = store.add();
    let (value, working) = store.get(&key).unwrap();
    assert_eq!(&Size(1, 1), value);
    assert_eq!(&(None, None), working);
}

#[test]
fn get_mut_writes_one_record() {
    let mut store = Store::empty();
    let a = store.add();
    let b = store.add();
    {
        let (value, working) = store.get_mut(&b).unwrap();
        value.0 = 5;
        working.1 = Some(String::from("w"));
    }
    assert_eq!(&Size(1, 1), store.get(&a).unwrap().0);
    assert_eq!(&(None, None), store.get(&a).unwrap().1);
    assert_eq!(&Size(5, 1), store.get(&b).unwrap().0);
    assert_eq!(&(None, Some(String::from("w"))), store.get(&b).unwrap().1);
    assert!(store.get_mut(&7).is_none());
    assert_eq!(vec![a, b], store.keys());
}

#[test]
fn contains_tells_the_keys_apart() {
    let mut store = Store::empty();
    let a = store.add();
    assert!(store.contains(&a));
    assert!(!store.contains(&(a + 1)));
}

#[test]
fn items_and_values_come_in_the_order_of_the_records() {
    let mut store = Store::empty();
    assert!(store.items().is_empty());
    assert!(store.values().is_empty());
    store.add();
    store.add();
    store.get_mut(&1).unwrap().0 .1 = 9;
    let no_working: Working = (None, None);
    assert_eq!(
        vec![(&0, &Size(1, 1), &no_working), (&1, &Size(1, 9), &no_working)],
        store.items()
    );
    assert_eq!(vec![&Size(1, 1), &Size(1, 9)], store.values());
    assert_eq!(vec![0, 1], store.keys());
}

#[test]
fn the_key_space_of_usize_ends() {
    assert!(usize::can_follow(&0));
    assert!(usize::can_follow(&(usize::MAX - 1)));
    assert!(!usize::can_follow(&usize::MAX));
    assert!(0usize.comes_before(&1));
    assert!(!1usize.comes_before(&1));
    assert!(1usize.same_as(&1));
    assert!(!1usize.same_as(&2));
}

#[test]
fn selecting_a_key_that_is_not_there_clears_the_selection() {
    let mut state = State::empty();
    assert_eq!(None, state.selected_key());
    state.new();
    assert_eq!(Some(&0), state.selected_key());
    state.select(Some(4));
    assert_eq!(None, state.selected_key());
    state.select(Some(0));
    assert!(state.is_selected(&0));
    assert!(!state.is_selected(&1));
    state.select(None);
    assert_eq!(None, state.selected_key());
    assert!(state.selected().is_none());
}

#[test]
fn new_selects_the_record_it_creates() {
    let mut state = State::empty();
    state.new();
    state.new();
    assert_eq!(Some(&1), state.selected_key());
    assert_eq!(2, state.container().count());
    let (key, value, working) = state.selected().unwrap();
    assert_eq!((&1, &Size(1, 1), &(None, None)), (key, value, working));
}

#[test]
fn update_applies_both_mutators_to_the_selected_record() {
    let mut state = State::empty();
    state.new();
    state.new();
    state.select(Some(0));
    let message: Msg = Message::Mutate(LensSet::new(6), SetWorking::new(Some(String::from("6"))));
    assert_eq!(None, state.update(message));
    assert_eq!(Some(&0), state.selected_key());
    let store = state.container();
    assert_eq!(&Size(6, 1), store.get(&0).unwrap().0);
    assert_eq!(&(Some(String::from("6")), None), store.get(&0).unwrap().1);
    assert_eq!(&Size(1, 1), store.get(&1).unwrap().0);
    assert_eq!(&(None, None), store.get(&1).unwrap().1);
}

#[test]
fn update_without_a_selection_changes_nothing() {
    let mut state = State::empty();
    state.new();
    state.select(None);
    let message: Msg = Message::Mutate(LensSet::new(6), SetWorking::new(Some(String::from("6"))));
    assert_eq!(None, state.update(message));
    assert_eq!(&Size(1, 1), state.container().get(&0).unwrap().0);
    assert_eq!(&(None, None), state.container().get(&0).unwrap().1);
}

#[test]
fn update_hands_a_pane_message_back() {
    let mut state = State::empty();
    let message: Msg = Message::PaneMessage("split");
    assert_eq!(Some("split"), state.update(message));
    assert_eq!(0, state.container().count());
}

#[test]
fn update_selects_creates_and_does_nothing() {
    let mut state = State::empty();
    let nop: Message<(), usize, NopMutator, NopMutator> = Message::Nop;
    assert_eq!(None, state.update(nop));
    assert_eq!(0, state.container().count());
    let create: Message<(), usize, NopMutator, NopMutator> = Message::NewObject;
    assert_eq!(None, state.update(create));
    assert_eq!(Some(&0), state.selected_key());
    let create: Message<(), usize, NopMutator, NopMutator> = Message::NewObject;
    assert_eq!(None, state.update(create));
    assert_eq!(Some(&1), state.selected_key());
    let select: Message<(), usize, NopMutator, NopMutator> = Message::Select(0);
    assert_eq!(None, state.update(select));
    assert_eq!(Some(&0), state.selected_key());
    let stale: Message<(), usize, NopMutator, NopMutator> = Message::Select(9);
    assert_eq!(None, state.update(stale));
    assert_eq!(None, state.selected_key());
}

#[test]
fn selected_mut_and_container_mut_write_through() {
    let mut state = State::empty();
    state.new();
    state.selected_mut().unwrap().0 .1 = 3;
    assert_eq!(&Size(1, 3), state.selected().unwrap().1);
    let key = state.container_mut().add();
    assert_eq!(1, key);
    assert_eq!(Some(&0), state.selected_key());
    state.select(None);
    assert!(state.selected_mut().is_none());
}

#[test]
fn tail_lens_reaches_the_second_working_value() {
    let mut working: Working = (None, None);
    *TupleTailLens::<Option<String>, Option<String>>::get_mut(&mut working) = Some(String::new());
    assert_eq!((None, Some(String::new())), working);
}

#[test]
fn a_walk_over_first_elements() {
    let rows = vec![(1u8, 'a', true), (2u8, 'b', false)];
    let mut walk = FirstTupleElem::new(&rows);
    assert_eq!(Some(&1), walk.next());
    assert_eq!(Some(&2), walk.next());
    assert_eq!(None, walk.next());
    assert_eq!(None, walk.next());
    let empty: Vec<(u8, u8, u8)> = Vec::new();
    assert_eq!(None, FirstTupleElem::new(&empty).next());
}

#[test]
fn walks_over_rows_and_second_elements() {
    let rows = vec![(1u8, 'a', true), (2u8, 'b', false)];
    let mut all = PopTupleRefs::new(&rows);
    assert_eq!(Some((&1, &'a', &true)), all.next());
    assert_eq!(Some((&2, &'b', &false)), all.next());
    assert_eq!(None, all.next());
    let mut second = SecondTupleElem::new(&rows);
    assert_eq!(Some(&'a'), second.next());
    assert_eq!(Some(&'b'), second.next());
    assert_eq!(None, second.next());
}

#[test]
fn the_outline_lists_every_key_and_marks_the_selected_one() {
    let mut state = State::empty();
    assert!(state.outline().is_empty());
    state.new();
    state.new();
    state.new();
    assert_eq!(vec![(0, false), (1, false), (2, true)], state.outline());
    state.select(Some(1));
    assert_eq!(vec![(0, false), (1, true), (2, false)], state.outline());
    state.select(None);
    assert_eq!(vec![(0, false), (1, false), (2, false)], state.outline());
}

#[test]
fn the_inspector_shows_the_fields_of_the_selected_record() {
    let mut fields = ConsFields::new(TextInputField::new("Width"), TextInputField::new("Height"));
    let mut state = State::empty();
    assert!(state.inspect(&mut fields).is_none());
    state.new();
    state.selected_mut().unwrap().0 .0 = 12;
    *state.selected_mut().unwrap().1 = (None, Some(String::from("1e")));
    let inputs = state.inspect(&mut fields).unwrap();
    assert_eq!(2, inputs.len());
    assert_eq!(("Width", "12", false), (inputs[0].label.as_str(), inputs[0].text.as_str(), inputs[0].out_of_sync));
    assert_eq!(("Height", "1e", true), (inputs[1].label.as_str(), inputs[1].text.as_str(), inputs[1].out_of_sync));
    state.select(None);
    assert!(state.inspect(&mut fields).is_none());
}
