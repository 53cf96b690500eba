//! The syntax tree of a declaration, and its mathematical view.
//!
//! Every type here has a view in which strings are sequences of characters
//! and vectors are sequences; the grammar and the generators are stated over
//! these views.

use vstd::prelude::*;

verus! {

/// One retained metadata block: the marker's name and its arguments, either a
/// single flag word or alternating keys and unquoted values.
#[derive(Debug, PartialEq, Eq)]
pub struct Attribute {
    pub name: String,
    pub tokens: Vec<String>,
}

/// The view of an [`Attribute`].
pub struct AttributeView {
    pub name: Seq<char>,
    pub tokens: Seq<Seq<char>>,
}

impl DeepView for Attribute {
    type V = AttributeView;

    open spec fn deep_view(&self) -> AttributeView {
        AttributeView { name: self.name@, tokens: self.tokens.deep_view() }
    }
}

impl View for Attribute {
    type V = AttributeView;

    open spec fn view(&self) -> AttributeView {
        self.deep_view()
    }
}

/// How far a field can be seen. The parser reads visibility modifiers over
/// and records every field as public.
#[derive(Debug, Clone, Copy, PartialEq, Eq, Structural)]
pub enum Visibility {
    Public,
    Crate,
    Restricted,
    Private,
}

/// A field's declared type. For an optional field `path` is the type inside
/// the wrapper and `is_option` is set.
#[derive(Debug, PartialEq, Eq)]
pub struct Type {
    pub is_option: bool,
    pub path: String,
}

/// The view of a [`Type`].
pub struct TypeView {
    pub is_option: bool,
    pub path: Seq<char>,
}

impl DeepView for Type {
    type V = TypeView;

    open spec fn deep_view(&self) -> TypeView {
        TypeView { is_option: self.is_option, path: self.path@ }
    }
}

impl View for Type {
    type V = TypeView;

    open spec fn view(&self) -> TypeView {
        self.deep_view()
    }
}

/// A field of a struct or of an enum variant; positional fields have no name.
#[derive(Debug, PartialEq, Eq)]
pub struct Field {
    pub attributes: Vec<Attribute>,
    pub vis: Visibility,
    pub field_name: Option<String>,
    pub ty: Type,
}

/// The view of a [`Field`].
pub struct FieldView {
    pub attributes: Seq<AttributeView>,
    pub vis: Visibility,
    pub field_name: Option<Seq<char>>,
    pub ty: TypeView,
}

impl DeepView for Field {
    type V = FieldView;

    open spec fn deep_view(&self) -> FieldView {
        FieldView {
            attributes: self.attributes.deep_view(),
            vis: self.vis,
            field_name: self.field_name.deep_view(),
            ty: self.ty.deep_view(),
        }
    }
}

impl View for Field {
    type V = FieldView;

    open spec fn view(&self) -> FieldView {
        self.deep_view()
    }
}

/// A struct declaration. No fields and `named == false` is a unit struct.
#[derive(Debug, PartialEq, Eq)]
pub struct Struct {
    pub name: String,
    pub named: bool,
    pub fields: Vec<Field>,
    pub attributes: Vec<Attribute>,
}

/// The view of a [`Struct`].
pub struct StructView {
    pub name: Seq<char>,
    pub named: bool,
    pub fields: Seq<FieldView>,
    pub attributes: Seq<AttributeView>,
}

impl DeepView for Struct {
    type V = StructView;

    open spec fn deep_view(&self) -> StructView {
        StructView {
            name: self.name@,
            named: self.named,
            fields: self.fields.deep_view(),
            attributes: self.attributes.deep_view(),
        }
    }
}

impl View for Struct {
    type V = StructView;

    open spec fn view(&self) -> StructView {
        self.deep_view()
    }
}

/// A variant of an enum. Without fields it is a unit variant.
#[derive(Debug, PartialEq, Eq)]
pub struct EnumVariant {
    pub name: String,
    pub named: bool,
    pub fields: Vec<Field>,
}

/// The view of an [`EnumVariant`].
pub struct EnumVariantView {
    pub name: Seq<char>,
    pub named: bool,
    pub fields: Seq<FieldView>,
}

impl DeepView for EnumVariant {
    type V = EnumVariantView;

    open spec fn deep_view(&self) -> EnumVariantView {
        EnumVariantView { name: self.name@, named: self.named, fields: self.fields.deep_view() }
    }
}

impl View for EnumVariant {
    type V = EnumVariantView;

    open spec fn view(&self) -> EnumVariantView {
        self.deep_view()
    }
}

/// An enum declaration.
#[derive(Debug, PartialEq, Eq)]
pub struct Enum {
    pub name: String,
    pub variants: Vec<EnumVariant>,
    pub attributes: Vec<Attribute>,
}

/// The view of an [`Enum`].
pub struct EnumView {
    pub name: Seq<char>,
    pub variants: Seq<EnumVariantView>,
    pub attributes: Seq<AttributeView>,
}

impl DeepView for Enum {
    type V = EnumView;

    open spec fn deep_view(&self) -> EnumView {
        EnumView {
            name: self.name@,
            variants: self.variants.deep_view(),
            attributes: self.attributes.deep_view(),
        }
    }
}

impl View for Enum {
    type V = EnumView;

    open spec fn view(&self) -> EnumView {
        self.deep_view()
    }
}

/// A parsed declaration. Unions are recognised only to be refused.
#[derive(Debug, PartialEq, Eq)]
pub enum Data {
    Struct(Struct),
    Enum(Enum),
    Union(()),
}

/// The view of a [`Data`].
pub enum DataView {
    Struct(StructView),
    Enum(EnumView),
    Union,
}

impl DeepView for Data {
    type V = DataView;

    open spec fn deep_view(&self) -> DataView {
        match self {
            Data::Struct(s) => DataView::Struct(s.deep_view()),
            Data::Enum(e) => DataView::Enum(e.deep_view()),
            Data::Union(_) => DataView::Union,
        }
    }
}

impl View for Data {
    type V = DataView;

    open spec fn view(&self) -> DataView {
        self.deep_view()
    }
}

impl DataView {
    /// The declared type's name.
    pub open spec fn name(self) -> Seq<char>
        recommends
            !(self is Union),
    {
        match self {
            DataView::Struct(s) => s.name,
            DataView::Enum(e) => e.name,
            DataView::Union => Seq::empty(),
        }
    }

    /// The attributes attached to the declaration itself.
    pub open spec fn attributes(self) -> Seq<AttributeView>
        recommends
            !(self is Union),
    {
        match self {
            DataView::Struct(s) => s.attributes,
            DataView::Enum(e) => e.attributes,
            DataView::Union => Seq::empty(),
        }
    }
}

impl Data {
    /// The declared type's name. A union has none.
    pub fn name(&self) -> (name: &str)
        requires
            !(self is Union),
        ensures
            name@ == self@.name(),
    {
        match self {
            Data::Struct(s) => s.name.as_str(),
            Data::Enum(e) => e.name.as_str(),
            Data::Union(_) => "",
        }
    }

    /// The attributes attached to the declaration itself. A union has none.
    pub fn attributes(&self) -> (attributes: &[Attribute])
        requires
            !(self is Union),
        ensures
            attributes.deep_view() == self@.attributes(),
    {
        match self {
            Data::Struct(s) => s.attributes.as_slice(),
            Data::Enum(e) => e.attributes.as_slice(),
            Data::Union(_) => {
                let empty: &[Attribute] = &[];
                empty
            },
        }
    }
}

} // verus!
