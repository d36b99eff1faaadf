use iroh::lens::{CompositeLens, Lens, RootLens, TupleHeadLens, TupleTailLens};

pub struct Rect {
    width: f32,
    height: f32,
}

#[derive(Debug, Clone)]
pub struct RectWidthLens;
impl iroh::lens::Lens for RectWidthLens {
    type Source = Rect;
    type Target = f32;
    fn spec_get(_: Self::Source) -> Self::Target {
        unreachable!()
    }
    fn spec_put(_: Self::Source, _: Self::Target) -> Self::Source {
        unreachable!()
    }
    fn lemma_put_get(_: Self::Source, _: Self::Target) {}
    fn lemma_get_put(_: Self::Source) {}
    fn lemma_put_put(_: Self::Source, _: Self::Target, _: Self::Target) {}
    fn get<'a>(source: &'a Self::Source) -> &'a Self::Target {
        &source.width
    }
    fn get_mut<'a>(source: &'a mut Self::Source) -> &'a mut Self::Target {
        &mut source.width
    }
}

#[derive(Debug, Clone)]
pub struct RectHeightLens;
impl iroh::lens::Lens for RectHeightLens {
    type Source = Rect;
    type Target = f32;
    fn spec_get(_: Self::Source) -> Self::Target {
        unreachable!()
    }
    fn spec_put(_: Self::Source, _: Self::Target) -> Self::Source {
        unreachable!()
    }
    fn lemma_put_get(_: Self::Source, _: Self::Target) {}
    fn lemma_get_put(_: Self::Source) {}
    fn lemma_put_put(_: Self::Source, _: Self::Target, _: Self::Target) {}
    fn get<'a>(source: &'a Self::Source) -> &'a Self::Target {
        &source.height
    }
    fn get_mut<'a>(source: &'a mut Self::Source) -> &'a mut Self::Target {
        &mut source.height
    }
}

pub struct Vec2(f32, f32);

#[derive(Debug, Clone)]
pub struct Vec20Lens;
impl iroh::lens::Lens for Vec20Lens {
    type Source = Vec2;
    type Target = f32;
    fn spec_get(_: Self::Source) -> Self::Target {
        unreachable!()
    }
    fn spec_put(_: Self::Source, _: Self::Target) -> Self::Source {
        unreachable!()
    }
    fn lemma_put_get(_: Self::Source, _: Self::Target) {}
    fn lemma_get_put(_: Self::Source) {}
    fn lemma_put_put(_: Self::Source, _: Self::Target, _: Self::Target) {}
    fn get<'a>(source: &'a Self::Source) -> &'a Self::Target {
        &source.0
    }
    fn get_mut<'a>(source: &'a mut Self::Source) -> &'a mut Self::Target {
        &mut source.0
    }
}

#[derive(Debug, Clone)]
pub struct Vec21Lens;
impl iroh::lens::Lens for Vec21Lens {
    type Source = Vec2;
    type Target = f32;
    fn spec_get(_: Self::Source) -> Self::Target {
        unreachable!()
    }
    fn spec_put(_: Self::Source, _: Self::Target) -> Self::Source {
        unreachable!()
    }
    fn lemma_put_get(_: Self::Source, _: Self::Target) {}
    fn lemma_get_put(_: Self::Source) {}
    fn lemma_put_put(_: Self::Source, _: Self::Target, _: Self::Target) {}
    fn get<'a>(source: &'a Self::Source) -> &'a Self::Target {
        &source.1
    }
    fn get_mut<'a>(source: &'a mut Self::Source) -> &'a mut Self::Target {
        &mut source.1
    }
}

#[test]
fn test_struct_lenses() {
    let r = Rect {
        width: 1.0,
        height: 2.0,
    };

    assert_eq!(1.0, *RectWidthLens::get(&r));
    assert_eq!(2.0, *RectHeightLens::get(&r));
}

#[test]
fn test_tuple_lenses() {
    let v = Vec2(1.0, 2.0);

    assert_eq!(1.0, *Vec20Lens::get(&v));
    assert_eq!(2.0, *Vec21Lens::get(&v));
}

#[test]
fn a_field_lens_writes_its_field_only() {
    let mut r = Rect {
        width: 1.0,
        height: 2.0,
    };
    *RectWidthLens::get_mut(&mut r) = 2.5;
    assert_eq!(2.5, r.width);
    assert_eq!(2.0, r.height);
    assert_eq!(2.5, *RectWidthLens::get(&r));
}

#[test]
fn root_lens_is_the_identity() {
    let mut x = 7u32;
    assert_eq!(7, *RootLens::<u32>::get(&x));
    *RootLens::<u32>::get_mut(&mut x) = 9;
    assert_eq!(9, x);
}

#[test]
fn head_and_tail_project_into_a_pair() {
    let p = (3u8, String::from("three"));
    assert_eq!(3, *TupleHeadLens::<u8, String>::get(&p));
    assert_eq!("three", TupleTailLens::<u8, String>::get(&p).as_str());
}

#[test]
fn a_write_through_a_lens_is_local() {
    let mut p = (1u32, 2u32);
    *TupleHeadLens::<u32, u32>::get_mut(&mut p) = 10;
    assert_eq!((10, 2), p);
    assert_eq!(10, *TupleHeadLens::<u32, u32>::get(&p));
    *TupleTailLens::<u32, u32>::get_mut(&mut p) = 20;
    assert_eq!((10, 20), p);
    *TupleHeadLens::<u32, u32>::get_mut(&mut p) = 1;
    *TupleTailLens::<u32, u32>::get_mut(&mut p) = 2;
    assert_eq!((1, 2), p);
}

type Inner = (u8, u16);
type Outer = (Inner, u32);
type Nested = ((Outer, u64), bool);

#[test]
fn a_composite_reads_what_its_parts_read_in_turn() {
    let s: Outer = ((1, 2), 3);
    type HeadThenTail = CompositeLens<TupleHeadLens<Inner, u32>, TupleTailLens<u8, u16>>;
    assert_eq!(2, *HeadThenTail::get(&s));
    assert_eq!(
        *TupleTailLens::<u8, u16>::get(TupleHeadLens::<Inner, u32>::get(&s)),
        *HeadThenTail::get(&s)
    );
}

#[test]
fn composition_holds_over_three_levels_in_both_groupings() {
    type A = TupleHeadLens<(Outer, u64), bool>;
    type B = TupleHeadLens<Outer, u64>;
    type C = TupleHeadLens<Inner, u32>;
    type D = TupleTailLens<u8, u16>;
    type Left = CompositeLens<CompositeLens<CompositeLens<A, B>, C>, D>;
    type Right = CompositeLens<A, CompositeLens<B, CompositeLens<C, D>>>;
    let mut s: Nested = ((((1, 2), 3), 4), true);
    assert_eq!(2, *Left::get(&s));
    assert_eq!(2, *Right::get(&s));
    *Left::get_mut(&mut s) = 20;
    assert_eq!(((((1, 20), 3), 4), true), s);
    *Right::get_mut(&mut s) = 21;
    assert_eq!(((((1, 21), 3), 4), true), s);
}

#[test]
fn lenses_can_be_cloned() {
    fn cloned<L: Lens + Clone>() {}
    cloned::<RootLens<u8>>();
    cloned::<TupleHeadLens<u8, u8>>();
    cloned::<TupleTailLens<u8, u8>>();
    cloned::<CompositeLens<TupleHeadLens<(u8, u8), u8>, TupleTailLens<u8, u8>>>();
}
