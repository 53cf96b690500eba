//! Carrying out a plan on dynamic values: what the generated routines do
//! for a whole declaration, with every field standing for the dynamic value
//! that its own type is written as.
//!
//! A record is written from one slot per field, `None` where an optional
//! field holds nothing. Reading gives one [`Slot`] per field. The routines
//! themselves go field by field through [`crate::internal`], which agrees
//! with this, as [`crate::laws`] shows.

use crate::error::{DeJsErr, DeJsErrView};
use crate::plan::{
    FieldPlan, FieldPlanView, Presence, VariantPlan, VariantPlanView, VariantShape,
    VariantShapeView,
};
use crate::token::str_eq;
use crate::value::{assign, distinct_keys, lookup, Object, Value, ValueView};
use vstd::prelude::*;

verus! {

/// What reading one field gave.
#[derive(Debug, PartialEq, Eq)]
pub enum Slot<'a> {
    /// The value found under the field's key.
    Value(&'a Value),
    /// Nothing was found, and the optional field stays empty.
    Missing,
    /// Nothing was found, and the field takes the default value of its type.
    Default,
}

/// The view of a [`Slot`].
pub enum SlotView {
    Value(ValueView),
    Missing,
    Default,
}

impl<'a> View for Slot<'a> {
    type V = SlotView;

    open spec fn view(&self) -> SlotView {
        match self {
            Slot::Value(value) => SlotView::Value(value@),
            Slot::Missing => SlotView::Missing,
            Slot::Default => SlotView::Default,
        }
    }
}

/// The views of the slots of a record that is to be written.
pub open spec fn record_view(record: Seq<Option<Value>>) -> Seq<Option<ValueView>> {
    Seq::new(
        record.len(),
        |i: int|
            match record[i] {
                Some(value) => Some(value@),
                None => None,
            },
    )
}

/// The views of the slots that reading gave.
pub open spec fn slots_view(slots: Seq<Slot>) -> Seq<SlotView> {
    Seq::new(slots.len(), |i: int| slots[i]@)
}

/// The mapping that writing a record gives: going through the fields in
/// order, each slot that holds a value is set under its field's key.
pub open spec fn written(fields: Seq<FieldPlanView>, record: Seq<Option<ValueView>>) -> Seq<
    (Seq<char>, ValueView),
>
    recommends
        record.len() == fields.len(),
    decreases fields.len(),
{
    if fields.len() == 0 || record.len() == 0 {
        Seq::empty()
    } else {
        let before = written(fields.drop_last(), record.drop_last());
        match record.last() {
            Some(value) => assign(before, fields.last().key, value),
            None => before,
        }
    }
}

/// What reading one field out of a mapping gives: the value under the
/// field's key; where the key is missing, in this order, nothing for an
/// optional field, the default for a defaulted one, and else an error that
/// names the field.
pub open spec fn read_field(field: FieldPlanView, entries: Seq<(Seq<char>, ValueView)>) -> Result<
    SlotView,
    DeJsErrView,
> {
    match lookup(entries, field.key) {
        Some(value) => Ok(SlotView::Value(value)),
        None => match field.presence {
            Presence::Optional => Ok(SlotView::Missing),
            Presence::Defaulted => Ok(SlotView::Default),
            Presence::Required => Err(DeJsErrView::MissingField(field.member)),
        },
    }
}

/// What reading the fields in order gives: a slot for each, or the error of
/// the first field that fails.
pub open spec fn read_fields(
    fields: Seq<FieldPlanView>,
    entries: Seq<(Seq<char>, ValueView)>,
) -> Result<Seq<SlotView>, DeJsErrView>
    decreases fields.len(),
{
    if fields.len() == 0 {
        Ok(Seq::empty())
    } else {
        match read_fields(fields.drop_last(), entries) {
            Err(e) => Err(e),
            Ok(slots) => match read_field(fields.last(), entries) {
                Err(e) => Err(e),
                Ok(slot) => Ok(slots.push(slot)),
            },
        }
    }
}

/// What reading a record out of `source` gives; anything but a mapping is a
/// type mismatch.
pub open spec fn read_record_spec(fields: Seq<FieldPlanView>, source: ValueView) -> Result<
    Seq<SlotView>,
    DeJsErrView,
> {
    match source {
        ValueView::Object(entries) => read_fields(fields, entries),
        _ => Err(DeJsErrView::TypeMismatch),
    }
}

/// The position of the first variant from `i` on with the name `tag`; the
/// number of variants where there is none.
pub open spec fn variant_index_from(variants: Seq<VariantPlanView>, tag: Seq<char>, i: int) -> int
    decreases variants.len() - i,
{
    if i < 0 || i >= variants.len() {
        variants.len() as int
    } else if variants[i].name == tag {
        i
    } else {
        variant_index_from(variants, tag, i + 1)
    }
}

/// What reading the fields of a variant out of its payload gives: nothing
/// out of a mapping for a unit, the named fields out of a mapping, the
/// positional fields out of the front of a sequence.
pub open spec fn read_payload(shape: VariantShapeView, payload: ValueView) -> Result<
    Seq<SlotView>,
    DeJsErrView,
> {
    match shape {
        VariantShapeView::Unit => read_record_spec(Seq::empty(), payload),
        VariantShapeView::Named(fields) => read_record_spec(fields, payload),
        VariantShapeView::Unnamed(arity) => match payload {
            ValueView::Array(items) => {
                if arity <= items.len() {
                    Ok(Seq::new(arity, |i: int| SlotView::Value(items[i])))
                } else {
                    Err(DeJsErrView::TypeMismatch)
                }
            },
            _ => Err(DeJsErrView::TypeMismatch),
        },
    }
}

/// What reading a value of an enum out of `source` gives: `source` must be a
/// mapping with one key; the key selects the first variant of that name, and
/// the value under it is the variant's payload.
pub open spec fn read_variant_spec(variants: Seq<VariantPlanView>, source: ValueView) -> Result<
    (int, Seq<SlotView>),
    DeJsErrView,
> {
    match source {
        ValueView::Object(entries) => {
            if entries.len() == 1 {
                let index = variant_index_from(variants, entries[0].0, 0);
                if index < variants.len() {
                    match read_payload(variants[index].shape, entries[0].1) {
                        Ok(slots) => Ok((index, slots)),
                        Err(e) => Err(e),
                    }
                } else {
                    Err(DeJsErrView::UnknownVariant(entries[0].0))
                }
            } else {
                Err(DeJsErrView::TypeMismatch)
            }
        },
        _ => Err(DeJsErrView::TypeMismatch),
    }
}

/// Writes a record: one slot per field, `None` where an optional field holds
/// nothing.
pub fn write_fields(fields: &Vec<FieldPlan>, record: &Vec<Option<Value>>) -> (object: Object)
    requires
        record.len() == fields.len(),
    ensures
        object@ == written(fields.deep_view(), record_view(record@)),
        distinct_keys(object@),
{
    let ghost plans = fields.deep_view();
    let ghost slots = record_view(record@);
    let mut object = Object::new();
    let mut i: usize = 0;
    while i < fields.len()
        invariant
            i <= fields.len(),
            record.len() == fields.len(),
            plans == fields.deep_view(),
            slots == record_view(record@),
            object@ == written(plans.take(i as int), slots.take(i as int)),
            distinct_keys(object@),
        decreases fields.len() - i,
    {
        proof {
            assert(plans.take(i + 1).drop_last() =~= plans.take(i as int));
            assert(slots.take(i + 1).drop_last() =~= slots.take(i as int));
        }
        match &record[i] {
            Some(value) => {
                object.set(fields[i].key.as_str(), value.duplicate());
            },
            None => {},
        }
        i = i + 1;
    }
    proof {
        assert(plans.take(i as int) =~= plans);
        assert(slots.take(i as int) =~= slots);
    }
    object
}

/// Reads the fields out of a mapping's entries.
fn read_entries<'a>(fields: &Vec<FieldPlan>, object: &'a Object) -> (r: Result<
    Vec<Slot<'a>>,
    DeJsErr,
>)
    ensures
        match read_fields(fields.deep_view(), object@) {
            Ok(slots) => r is Ok && slots_view(r->Ok_0@) == slots,
            Err(e) => r is Err && r->Err_0@ == e,
        },
{
    let ghost plans = fields.deep_view();
    let mut slots: Vec<Slot<'a>> = Vec::new();
    let mut i: usize = 0;
    assert(slots_view(slots@) =~= Seq::<SlotView>::empty());
    while i < fields.len()
        invariant
            i <= fields.len(),
            plans == fields.deep_view(),
            read_fields(plans.take(i as int), object@) == Ok::<Seq<SlotView>, DeJsErrView>(
                slots_view(slots@),
            ),
        decreases fields.len() - i,
    {
        proof {
            assert(plans.take(i + 1).drop_last() =~= plans.take(i as int));
        }
        let ghost before = slots_view(slots@);
        let slot = match object.get(fields[i].key.as_str()) {
            Some(value) => Slot::Value(value),
            None => match fields[i].presence {
                Presence::Optional => Slot::Missing,
                Presence::Defaulted => Slot::Default,
                Presence::Required => {
                    proof {
                        lemma_read_fields_prefix_error(plans, object@, i + 1);
                    }
                    return Err(DeJsErr::MissingField(fields[i].member.clone()));
                },
            },
        };
        slots.push(slot);
        assert(slots_view(slots@) =~= before.push(slot@));
        i = i + 1;
    }
    proof {
        assert(plans.take(i as int) =~= plans);
    }
    Ok(slots)
}

/// Where reading a prefix of the fields fails, reading all of them fails the
/// same way.
pub proof fn lemma_read_fields_prefix_error(
    fields: Seq<FieldPlanView>,
    entries: Seq<(Seq<char>, ValueView)>,
    n: int,
)
    requires
        0 <= n <= fields.len(),
        read_fields(fields.take(n), entries) is Err,
    ensures
        read_fields(fields, entries) == read_fields(fields.take(n), entries),
    decreases fields.len() - n,
{
    if n < fields.len() {
        assert(fields.take(n + 1).drop_last() =~= fields.take(n));
        lemma_read_fields_prefix_error(fields, entries, n + 1);
    } else {
        assert(fields.take(n) =~= fields);
    }
}

/// Reads a record out of `source`: one slot per field, in order.
pub fn read_record<'a>(fields: &Vec<FieldPlan>, source: &'a Value) -> (r: Result<
    Vec<Slot<'a>>,
    DeJsErr,
>)
    ensures
        match read_record_spec(fields.deep_view(), source@) {
            Ok(slots) => r is Ok && slots_view(r->Ok_0@) == slots,
            Err(e) => r is Err && r->Err_0@ == e,
        },
{
    match source {
        Value::Object(object) => read_entries(fields, object),
        _ => Err(DeJsErr::TypeMismatch),
    }
}

/// Reads the fields of a variant out of its payload.
fn read_shape<'a>(shape: &VariantShape, payload: &'a Value) -> (r: Result<Vec<Slot<'a>>, DeJsErr>)
    ensures
        match read_payload(shape@, payload@) {
            Ok(slots) => r is Ok && slots_view(r->Ok_0@) == slots,
            Err(e) => r is Err && r->Err_0@ == e,
        },
{
    match shape {
        VariantShape::Unit => match payload {
            Value::Object(_) => {
                let slots: Vec<Slot<'a>> = Vec::new();
                Ok(slots)
            },
            _ => Err(DeJsErr::TypeMismatch),
        },
        VariantShape::Named(fields) => read_record(fields, payload),
        VariantShape::Unnamed(arity) => match payload {
            Value::Array(items) => {
                if *arity <= items.len() {
                    let mut slots: Vec<Slot<'a>> = Vec::new();
                    let mut i: usize = 0;
                    while i < *arity
                        invariant
                            i <= *arity <= items.len(),
                            slots.len() == i,
                            forall|j: int|
                                0 <= j < i ==> (#[trigger] slots[j])@ == SlotView::Value(
                                    items[j]@,
                                ),
                        decreases *arity - i,
                    {
                        slots.push(Slot::Value(&items[i]));
                        i = i + 1;
                    }
                    Ok(slots)
                } else {
                    Err(DeJsErr::TypeMismatch)
                }
            },
            _ => Err(DeJsErr::TypeMismatch),
        },
    }
}

/// Reads a value of an enum out of `source`: the position of the variant
/// that the one key of `source` names, and the slots of its fields.
#[verifier::loop_isolation(false)]
pub fn read_variant<'a>(variants: &Vec<VariantPlan>, source: &'a Value) -> (r: Result<
    (usize, Vec<Slot<'a>>),
    DeJsErr,
>)
    ensures
        match read_variant_spec(variants.deep_view(), source@) {
            Ok((index, slots)) => r is Ok && r->Ok_0.0 == index && slots_view(r->Ok_0.1@) == slots,
            Err(e) => r is Err && r->Err_0@ == e,
        },
{
    let (tag, payload) = match crate::internal::enum_entry(source) {
        Ok(entry) => entry,
        Err(e) => {
            return Err(e);
        },
    };
    let ghost plans = variants.deep_view();
    let mut i: usize = 0;
    while i < variants.len()
        invariant
            i <= variants.len(),
            plans == variants.deep_view(),
            variant_index_from(plans, tag@, 0) == variant_index_from(plans, tag@, i as int),
        decreases variants.len() - i,
    {
        if str_eq(variants[i].name.as_str(), tag) {
            return match read_shape(&variants[i].shape, payload) {
                Ok(slots) => Ok((i, slots)),
                Err(e) => Err(e),
            };
        }
        i = i + 1;
    }
    Err(DeJsErr::UnknownVariant(tag.to_owned()))
}

} // verus!
