//! Lenses for the fields of a struct, generated as source text.
//!
//! For a struct `S` with a field `f` of type `T` the generated lens is a unit
//! struct named after both, `S` followed by `f` in Pascal case and `Lens`,
//! that implements [`crate::lens::Lens`] from `S` to `T`.

use crate::fields::numbers::{
    decimal_text, format_u64, is_decimal_digit, lemma_decimal_text_denotes,
};
use convert_case::{Case, Casing};
use vstd::prelude::*;
use vstd::string::*;
use vstd::utf8::is_ascii_chars;

verus! {

/// The Pascal-case form of `text` that the `convert_case` crate computes:
/// the words of `text`, each with a capital first letter, without
/// separators.
pub uninterp spec fn pascal_case(text: Seq<char>) -> Seq<char>;

/// `Casing::to_case` of `convert_case` with `Case::Pascal`. The conversion
/// depends on the text alone. It is asked for ASCII text only, on which its
/// word splitting cuts at character boundaries.
#[verifier::external_body]
fn to_pascal_case(text: &str) -> (cased: String)
    requires
        is_ascii_chars(text@),
    ensures
        cased@ == pascal_case(text@),
{
    text.to_case(Case::Pascal)
}

/// The fields of a struct, as far as lenses depend on them.
pub enum Fields {
    /// Named fields: the name and the type of each.
    Named(Vec<(String, String)>),
    /// The fields of a tuple struct: the type of each.
    Unnamed(Vec<String>),
    /// No fields.
    Unit,
}

/// The mathematical content of [`Fields`].
pub enum FieldTexts {
    /// Named fields: the name and the type of each.
    Named(Seq<(Seq<char>, Seq<char>)>),
    /// The fields of a tuple struct: the type of each.
    Unnamed(Seq<Seq<char>>),
    /// No fields.
    Unit,
}

impl View for Fields {
    type V = FieldTexts;

    open spec fn view(&self) -> FieldTexts {
        match self {
            Fields::Named(named) => FieldTexts::Named(
                named@.map_values(|field: (String, String)| (field.0@, field.1@)),
            ),
            Fields::Unnamed(unnamed) => FieldTexts::Unnamed(
                unnamed@.map_values(|ty: String| ty@),
            ),
            Fields::Unit => FieldTexts::Unit,
        }
    }
}

impl FieldTexts {
    /// The number of fields.
    pub open spec fn len(self) -> nat {
        match self {
            FieldTexts::Named(named) => named.len(),
            FieldTexts::Unnamed(unnamed) => unnamed.len(),
            FieldTexts::Unit => 0,
        }
    }

    /// How field `i` is written in an access to it: its name, or its
    /// position in decimal.
    pub open spec fn accessor(self, i: int) -> Seq<char> {
        match self {
            FieldTexts::Named(named) => named[i].0,
            FieldTexts::Unnamed(unnamed) => decimal_text(i as nat),
            FieldTexts::Unit => Seq::empty(),
        }
    }

    /// The type of field `i`.
    pub open spec fn ty(self, i: int) -> Seq<char> {
        match self {
            FieldTexts::Named(named) => named[i].1,
            FieldTexts::Unnamed(unnamed) => unnamed[i],
            FieldTexts::Unit => Seq::empty(),
        }
    }

    /// Whether all field names are ASCII text. Positions always are.
    pub open spec fn is_ascii(self) -> bool {
        match self {
            FieldTexts::Named(named) => forall|i: int|
                0 <= i < named.len() ==> is_ascii_chars(#[trigger] named[i].0),
            FieldTexts::Unnamed(unnamed) => true,
            FieldTexts::Unit => true,
        }
    }
}

/// What a lens is generated from.
pub struct LensDesc {
    /// How the field is written in an access to it.
    pub field: String,
    /// The type of the field.
    pub ty: String,
    /// The name of the lens.
    pub name: String,
    /// The name of the struct that has the field.
    pub target: String,
}

/// The mathematical content of a [`LensDesc`].
pub struct LensText {
    /// How the field is written in an access to it.
    pub field: Seq<char>,
    /// The type of the field.
    pub ty: Seq<char>,
    /// The name of the lens.
    pub name: Seq<char>,
    /// The name of the struct that has the field.
    pub target: Seq<char>,
}

impl View for LensDesc {
    type V = LensText;

    open spec fn view(&self) -> LensText {
        LensText { field: self.field@, ty: self.ty@, name: self.name@, target: self.target@ }
    }
}

/// The name of the lens for a field of `struct_name`, given the field's
/// name in Pascal case.
pub open spec fn spec_lens_name(struct_name: Seq<char>, cased_field: Seq<char>) -> Seq<char> {
    struct_name + cased_field + "Lens"@
}

/// The description of the lens onto `field`, of type `ty`, of `struct_name`.
pub open spec fn spec_from_field(
    field: Seq<char>,
    ty: Seq<char>,
    struct_name: Seq<char>,
) -> LensText {
    LensText {
        field,
        ty,
        name: spec_lens_name(struct_name, pascal_case(field)),
        target: struct_name,
    }
}

/// The text in front of the name of the lens, where the lens is declared.
pub const DECLARATION: &'static str = "#[derive(Debug, Clone)]\npub struct ";

/// The text between the declaration and the implementation of the trait.
pub const IMPLEMENTATION: &'static str = ";\nimpl iroh::lens::Lens for ";

/// The text in front of the name of the struct.
pub const SOURCE: &'static str = " {\n    type Source = ";

/// The text in front of the type of the field.
pub const TARGET: &'static str = ";\n    type Target = ";

/// The text from the type of the field to the field in `get`. The
/// specification functions of the trait have nothing to run; the lens fills
/// them with code that is never reached.
pub const GET: &'static str = ";\n    fn spec_get(_: Self::Source) -> Self::Target {\n        unreachable!()\n    }\n    fn spec_put(_: Self::Source, _: Self::Target) -> Self::Source {\n        unreachable!()\n    }\n    fn lemma_put_get(_: Self::Source, _: Self::Target) {}\n    fn lemma_get_put(_: Self::Source) {}\n    fn lemma_put_put(_: Self::Source, _: Self::Target, _: Self::Target) {}\n    fn get<'a>(source: &'a Self::Source) -> &'a Self::Target {\n        &source.";

/// The text from the field in `get` to the field in `get_mut`.
pub const GET_MUT: &'static str = "\n    }\n    fn get_mut<'a>(source: &'a mut Self::Source) -> &'a mut Self::Target {\n        &mut source.";

/// The text after the field in `get_mut`.
pub const END: &'static str = "\n    }\n}\n";

/// The source text of the lens that `desc` describes: a unit struct with
/// the name of the lens, and its implementation of the lens trait, which
/// borrows the field out of the struct.
pub open spec fn spec_lens_text(desc: LensText) -> Seq<char> {
    DECLARATION@ + desc.name + IMPLEMENTATION@ + desc.name + SOURCE@ + desc.target + TARGET@
        + desc.ty + GET@ + desc.field + GET_MUT@ + desc.field + END@
}

/// The descriptions of the lenses for the fields `fields` of `struct_name`,
/// one for each field, in the order of the fields.
pub open spec fn spec_descs(struct_name: Seq<char>, fields: FieldTexts) -> Seq<LensText> {
    Seq::new(fields.len(), |i: int| spec_from_field(fields.accessor(i), fields.ty(i), struct_name))
}

/// The texts of the lenses `descs`, one after the other.
pub open spec fn spec_lens_texts(descs: Seq<LensText>) -> Seq<char>
    decreases descs.len(),
{
    if descs.len() == 0 {
        Seq::empty()
    } else {
        spec_lens_texts(descs.drop_last()) + spec_lens_text(descs.last())
    }
}

/// The name of the lens for a field of `struct_name`, given the field's
/// name in Pascal case: the two joined, with `Lens` at the end.
pub fn lens_name(struct_name: &str, cased_field: &str) -> (name: String)
    ensures
        name@ == spec_lens_name(struct_name@, cased_field@),
{
    let mut name = String::from_str(struct_name);
    name.append(cased_field);
    name.append("Lens");
    name
}

impl LensDesc {
    /// Describes the lens onto `field`, of type `ty`, of the struct
    /// `struct_name`.
    pub fn from_field(field: &str, ty: &str, struct_name: &str) -> (desc: Self)
        requires
            is_ascii_chars(field@),
        ensures
            desc@ == spec_from_field(field@, ty@, struct_name@),
    {
        let cased = to_pascal_case(field);
        LensDesc {
            field: String::from_str(field),
            ty: String::from_str(ty),
            name: lens_name(struct_name, cased.as_str()),
            target: String::from_str(struct_name),
        }
    }

    /// Writes the lens out as source text.
    pub fn into_lens(self) -> (text: String)
        ensures
            text@ == spec_lens_text(self@),
    {
        let mut text = String::from_str(DECLARATION);
        text.append(self.name.as_str());
        text.append(IMPLEMENTATION);
        text.append(self.name.as_str());
        text.append(SOURCE);
        text.append(self.target.as_str());
        text.append(TARGET);
        text.append(self.ty.as_str());
        text.append(GET);
        text.append(self.field.as_str());
        text.append(GET_MUT);
        text.append(self.field.as_str());
        text.append(END);
        text
    }
}

/// Decimal digits are ASCII text.
proof fn lemma_decimal_text_is_ascii(n: nat)
    ensures
        is_ascii_chars(decimal_text(n)),
{
    lemma_decimal_text_denotes(n);
}

/// Describes the lens onto field `i` of `fields`.
fn field_desc(struct_name: &str, fields: &Fields, i: usize) -> (desc: LensDesc)
    requires
        i < fields@.len(),
        fields@.is_ascii(),
    ensures
        desc@ == spec_descs(struct_name@, fields@)[i as int],
{
    match fields {
        Fields::Named(named) => {
            let field = &named[i];
            assert(fields@.accessor(i as int) == named@[i as int].0@);
            LensDesc::from_field(field.0.as_str(), field.1.as_str(), struct_name)
        },
        Fields::Unnamed(unnamed) => {
            let index = format_u64(i as u64);
            proof {
                lemma_decimal_text_is_ascii(i as nat);
            }
            LensDesc::from_field(index.as_str(), unnamed[i].as_str(), struct_name)
        },
        Fields::Unit => {
            LensDesc::from_field("", "", struct_name)
        },
    }
}

/// Generates a lens for each field of a struct: the source text of all of
/// them, in the order of the fields.
pub fn lens(struct_name: &str, fields: &Fields) -> (text: String)
    requires
        fields@.is_ascii(),
    ensures
        text@ == spec_lens_texts(spec_descs(struct_name@, fields@)),
{
    let count = match fields {
        Fields::Named(named) => named.len(),
        Fields::Unnamed(unnamed) => unnamed.len(),
        Fields::Unit => 0,
    };
    let ghost descs = spec_descs(struct_name@, fields@);
    let mut text = String::new();
    let mut i: usize = 0;
    while i < count
        invariant
            i <= count,
            count == fields@.len(),
            fields@.is_ascii(),
            descs == spec_descs(struct_name@, fields@),
            text@ == spec_lens_texts(descs.take(i as int)),
        decreases count - i,
    {
        let desc = field_desc(struct_name, fields, i);
        let one = desc.into_lens();
        text.append(one.as_str());
        proof {
            let upto = descs.take(i as int + 1);
            assert(upto.drop_last() =~= descs.take(i as int));
        }
        i = i + 1;
    }
    assert(descs.take(i as int) =~= descs);
    text
}

} // verus!
