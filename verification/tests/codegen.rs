use iroh::codegen::{lens, lens_name, Fields, LensDesc};

#[test]
fn a_lens_is_named_after_the_struct_and_the_field() {
    assert_eq!("RectWidthLens", lens_name("Rect", "Width"));
    assert_eq!("Vec20Lens", lens_name("Vec2", "0"));
    assert_eq!("Lens", lens_name("", ""));
}

#[test]
fn from_field_puts_the_field_in_pascal_case() {
    let desc = LensDesc::from_field("width", "f32", "Rect");
    assert_eq!("width", desc.field);
    assert_eq!("f32", desc.ty);
    assert_eq!("RectWidthLens", desc.name);
    assert_eq!("Rect", desc.target);
    let desc = LensDesc::from_field("line_height", "u8", "Text");
    assert_eq!("TextLineHeightLens", desc.name);
    let desc = LensDesc::from_field("1", "f32", "Vec2");
    assert_eq!("Vec21Lens", desc.name);
}

const VEC20: &str = "#[derive(Debug, Clone)]
pub struct Vec20Lens;
impl iroh::lens::Lens for Vec20Lens {
    type Source = Vec2;
    type Target = f32;
    fn spec_get(_: Self::Source) -> Self::Target {
        unreachable!()
    }
    fn spec_put(_: Self::Source, _: Self::Target) -> Self::Source {
        unreachable!()
    }
    fn lemma_put_get(_: Self::Source, _: Self::Target) {}
    fn lemma_get_put(_: Self::Source) {}
    fn lemma_put_put(_: Self::Source, _: Self::Target, _: Self::Target) {}
    fn get<'a>(source: &'a Self::Source) -> &'a Self::Target {
        &source.0
    }
    fn get_mut<'a>(source: &'a mut Self::Source) -> &'a mut Self::Target {
        &mut source.0
    }
}
";

const VEC21: &str = "#[derive(Debug, Clone)]
pub struct Vec21Lens;
impl iroh::lens::Lens for Vec21Lens {
    type Source = Vec2;
    type Target = f32;
    fn spec_get(_: Self::Source) -> Self::Target {
        unreachable!()
    }
    fn spec_put(_: Self::Source, _: Self::Target) -> Self::Source {
        unreachable!()
    }
    fn lemma_put_get(_: Self::Source, _: Self::Target) {}
    fn lemma_get_put(_: Self::Source) {}
    fn lemma_put_put(_: Self::Source, _: Self::Target, _: Self::Target) {}
    fn get<'a>(source: &'a Self::Source) -> &'a Self::Target {
        &source.1
    }
    fn get_mut<'a>(source: &'a mut Self::Source) -> &'a mut Self::Target {
        &mut source.1
    }
}
";

#[test]
fn into_lens_writes_the_lens_out() {
    let desc = LensDesc {
        field: String::from("0"),
        ty: String::from("f32"),
        name: String::from("Vec20Lens"),
        target: String::from("Vec2"),
    };
    assert_eq!(VEC20, desc.into_lens());
}

#[test]
fn a_tuple_struct_gets_a_lens_for_each_position() {
    let fields = Fields::Unnamed(vec![String::from("f32"), String::from("f32")]);
    assert_eq!(format!("{}{}", VEC20, VEC21), lens("Vec2", &fields));
}

#[test]
fn a_struct_gets_a_lens_for_each_named_field() {
    let fields = Fields::Named(vec![
        (String::from("width"), String::from("f32")),
        (String::from("height"), String::from("f32")),
    ]);
    let text = lens("Rect", &fields);
    let width = LensDesc::from_field("width", "f32", "Rect").into_lens();
    let height = LensDesc::from_field("height", "f32", "Rect").into_lens();
    assert_eq!(format!("{}{}", width, height), text);
    assert!(text.contains("pub struct RectWidthLens;"));
    assert!(text.contains("pub struct RectHeightLens;"));
    assert!(text.contains("&mut source.height"));
}

#[test]
fn a_unit_struct_gets_no_lens() {
    assert_eq!("", lens("Nothing", &Fields::Unit));
    assert_eq!("", lens("Nothing", &Fields::Named(vec![])));
}

#[test]
fn positions_past_nine_are_written_in_decimal() {
    let fields = Fields::Unnamed(vec![String::from("u8"); 11]);
    let text = lens("Wide", &fields);
    assert!(text.contains("pub struct Wide10Lens;"));
    assert!(text.contains("&source.10\n"));
}
