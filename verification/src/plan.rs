//! The conversion plan: what the generated routines do with each field and
//! each variant, resolved once from the declaration's annotations.
//!
//! A plan is plain data. [`crate::codegen`] prints it as source text and
//! [`crate::convert`] carries it out on dynamic values.

use crate::ast::{EnumVariant, EnumVariantView, Field, FieldView};
use crate::shared::{attrs_default, attrs_rename, has_flag, pair_value};
use vstd::prelude::*;

verus! {

/// What reading a field does when its key is missing from the input.
#[derive(Debug, Clone, Copy, PartialEq, Eq, Structural)]
pub enum Presence {
    /// The field's type is optional: a missing key gives the empty value, and
    /// an empty value writes no key.
    Optional,
    /// A missing key gives the default value of the field's type.
    Defaulted,
    /// A missing key is an error.
    Required,
}

/// The plan for one named field.
#[derive(Debug, PartialEq, Eq)]
pub struct FieldPlan {
    /// The field's name in the declaration.
    pub member: String,
    /// The key under which the field is read and written.
    pub key: String,
    pub presence: Presence,
}

/// The view of a [`FieldPlan`].
pub struct FieldPlanView {
    pub member: Seq<char>,
    pub key: Seq<char>,
    pub presence: Presence,
}

impl DeepView for FieldPlan {
    type V = FieldPlanView;

    open spec fn deep_view(&self) -> FieldPlanView {
        FieldPlanView { member: self.member@, key: self.key@, presence: self.presence }
    }
}

impl View for FieldPlan {
    type V = FieldPlanView;

    open spec fn view(&self) -> FieldPlanView {
        self.deep_view()
    }
}

/// The fields that a variant carries.
#[derive(Debug, PartialEq, Eq)]
pub enum VariantShape {
    /// No fields.
    Unit,
    /// Named fields, read from a mapping.
    Named(Vec<FieldPlan>),
    /// This many positional fields, read from a sequence.
    Unnamed(usize),
}

/// The view of a [`VariantShape`].
pub enum VariantShapeView {
    Unit,
    Named(Seq<FieldPlanView>),
    Unnamed(nat),
}

impl DeepView for VariantShape {
    type V = VariantShapeView;

    open spec fn deep_view(&self) -> VariantShapeView {
        match self {
            VariantShape::Unit => VariantShapeView::Unit,
            VariantShape::Named(fields) => VariantShapeView::Named(fields.deep_view()),
            VariantShape::Unnamed(arity) => VariantShapeView::Unnamed(*arity as nat),
        }
    }
}

impl View for VariantShape {
    type V = VariantShapeView;

    open spec fn view(&self) -> VariantShapeView {
        self.deep_view()
    }
}

/// The plan for one variant of an enum.
#[derive(Debug, PartialEq, Eq)]
pub struct VariantPlan {
    pub name: String,
    pub shape: VariantShape,
}

/// The view of a [`VariantPlan`].
pub struct VariantPlanView {
    pub name: Seq<char>,
    pub shape: VariantShapeView,
}

impl DeepView for VariantPlan {
    type V = VariantPlanView;

    open spec fn deep_view(&self) -> VariantPlanView {
        VariantPlanView { name: self.name@, shape: self.shape.deep_view() }
    }
}

impl View for VariantPlan {
    type V = VariantPlanView;

    open spec fn view(&self) -> VariantPlanView {
        self.deep_view()
    }
}

/// Whether every field has a name.
pub open spec fn all_named(fields: Seq<FieldView>) -> bool {
    forall|i: int| 0 <= i < fields.len() ==> (#[trigger] fields[i]).field_name is Some
}

/// The key under which a field is read and written: the value of its
/// `rename`, else its own name.
pub open spec fn external_key(field: FieldView) -> Seq<char>
    recommends
        field.field_name is Some,
{
    match pair_value(field.attributes, "rename"@) {
        Some(key) => key,
        None => field.field_name->0,
    }
}

/// What a missing key means for a field, in this order: an optional type
/// makes the field optional; else `default`, on the field or on the whole
/// declaration (`defaults`), makes it defaulted; else it is required.
pub open spec fn presence_of(defaults: bool, field: FieldView) -> Presence {
    if field.ty.is_option {
        Presence::Optional
    } else if defaults || has_flag(field.attributes, "default"@) {
        Presence::Defaulted
    } else {
        Presence::Required
    }
}

/// The plan for a named field.
pub open spec fn field_plan(defaults: bool, field: FieldView) -> FieldPlanView
    recommends
        field.field_name is Some,
{
    FieldPlanView {
        member: field.field_name->0,
        key: external_key(field),
        presence: presence_of(defaults, field),
    }
}

/// The plans for a list of named fields, in order.
pub open spec fn field_plans(defaults: bool, fields: Seq<FieldView>) -> Seq<FieldPlanView>
    recommends
        all_named(fields),
{
    Seq::new(fields.len(), |i: int| field_plan(defaults, fields[i]))
}

/// The shape of a variant: without fields it is a unit, whatever brackets it
/// was written with.
pub open spec fn variant_shape(variant: EnumVariantView) -> VariantShapeView {
    if variant.fields.len() == 0 {
        VariantShapeView::Unit
    } else if variant.named {
        VariantShapeView::Named(field_plans(false, variant.fields))
    } else {
        VariantShapeView::Unnamed(variant.fields.len())
    }
}

/// The plan for a variant.
pub open spec fn variant_plan(variant: EnumVariantView) -> VariantPlanView {
    VariantPlanView { name: variant.name, shape: variant_shape(variant) }
}

/// The plans for the variants of an enum, in order.
pub open spec fn variant_plans(variants: Seq<EnumVariantView>) -> Seq<VariantPlanView> {
    Seq::new(variants.len(), |i: int| variant_plan(variants[i]))
}

/// Whether every variant with named fields names all of them.
pub open spec fn variants_named(variants: Seq<EnumVariantView>) -> bool {
    forall|i: int|
        0 <= i < variants.len() && (#[trigger] variants[i]).named ==> all_named(variants[i].fields)
}

/// Says whether every field has a name.
pub fn fields_all_named(fields: &[Field]) -> (r: bool)
    ensures
        r == all_named(fields.deep_view()),
{
    let ghost views = fields.deep_view();
    let mut i: usize = 0;
    while i < fields.len()
        invariant
            i <= fields.len(),
            views == fields.deep_view(),
            views.len() == fields.len(),
            forall|j: int| 0 <= j < i ==> (#[trigger] views[j]).field_name is Some,
        decreases fields.len() - i,
    {
        assert(views[i as int] == fields[i as int]@);
        if fields[i].field_name.is_none() {
            return false;
        }
        i = i + 1;
    }
    true
}

/// Says whether every variant with named fields names all of them.
pub fn variants_all_named(variants: &[EnumVariant]) -> (r: bool)
    ensures
        r == variants_named(variants.deep_view()),
{
    let ghost views = variants.deep_view();
    let mut i: usize = 0;
    while i < variants.len()
        invariant
            i <= variants.len(),
            views == variants.deep_view(),
            views.len() == variants.len(),
            forall|j: int|
                0 <= j < i && (#[trigger] views[j]).named ==> all_named(views[j].fields),
        decreases variants.len() - i,
    {
        assert(views[i as int] == variants[i as int]@);
        if variants[i].named && !fields_all_named(variants[i].fields.as_slice()) {
            return false;
        }
        i = i + 1;
    }
    true
}

/// Plans one named field.
pub fn plan_field(defaults: bool, field: &Field) -> (plan: FieldPlan)
    requires
        field.field_name is Some,
    ensures
        plan@ == field_plan(defaults, field@),
{
    let member = match &field.field_name {
        Some(name) => name.clone(),
        None => String::new(),
    };
    let key = match attrs_rename(field.attributes.as_slice()) {
        Some(key) => key,
        None => member.clone(),
    };
    let presence = if field.ty.is_option {
        Presence::Optional
    } else if defaults || attrs_default(field.attributes.as_slice()) {
        Presence::Defaulted
    } else {
        Presence::Required
    };
    FieldPlan { member, key, presence }
}

/// Plans a list of named fields.
pub fn plan_fields(defaults: bool, fields: &[Field]) -> (plans: Vec<FieldPlan>)
    requires
        all_named(fields.deep_view()),
    ensures
        plans.deep_view() == field_plans(defaults, fields.deep_view()),
{
    let ghost views = fields.deep_view();
    let mut plans: Vec<FieldPlan> = Vec::new();
    let mut i: usize = 0;
    while i < fields.len()
        invariant
            i <= fields.len(),
            views == fields.deep_view(),
            views.len() == fields.len(),
            all_named(views),
            plans.len() == i,
            forall|j: int| 0 <= j < i ==> (#[trigger] plans[j])@ == field_plan(defaults, views[j]),
        decreases fields.len() - i,
    {
        assert(views[i as int] == fields[i as int]@);
        let plan = plan_field(defaults, &fields[i]);
        plans.push(plan);
        i = i + 1;
    }
    plans
}

/// Plans one variant.
pub fn plan_variant(variant: &EnumVariant) -> (plan: VariantPlan)
    requires
        variant.named ==> all_named(variant.fields.deep_view()),
    ensures
        plan@ == variant_plan(variant@),
{
    let shape = if variant.fields.len() == 0 {
        VariantShape::Unit
    } else if variant.named {
        VariantShape::Named(plan_fields(false, variant.fields.as_slice()))
    } else {
        VariantShape::Unnamed(variant.fields.len())
    };
    VariantPlan { name: variant.name.clone(), shape }
}

/// Plans the variants of an enum.
pub fn plan_variants(variants: &[EnumVariant]) -> (plans: Vec<VariantPlan>)
    requires
        variants_named(variants.deep_view()),
    ensures
        plans.deep_view() == variant_plans(variants.deep_view()),
{
    let ghost views = variants.deep_view();
    let mut plans: Vec<VariantPlan> = Vec::new();
    let mut i: usize = 0;
    while i < variants.len()
        invariant
            i <= variants.len(),
            views == variants.deep_view(),
            views.len() == variants.len(),
            variants_named(views),
            plans.len() == i,
            forall|j: int| 0 <= j < i ==> (#[trigger] plans[j])@ == variant_plan(views[j]),
        decreases variants.len() - i,
    {
        assert(views[i as int] == variants[i as int]@);
        let plan = plan_variant(&variants[i]);
        plans.push(plan);
        i = i + 1;
    }
    plans
}

} // verus!
