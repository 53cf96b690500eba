//! What holds of the generated routines, proved of the plans and of what
//! [`crate::convert`] makes of them, and of the conversions of the built-in
//! types.

use crate::ast::{DataView, FieldView};
use crate::codegen::{de_proxy_text, ser_proxy_text};
use crate::convert::{
    read_field, read_fields, read_payload, read_record_spec, read_variant_spec,
    variant_index_from, written, SlotView,
};
use crate::de::{de_all, DeJs};
use crate::derive::{de_text, ser_text, DeriveError};
use crate::error::{DeJsErr, DeJsErrView};
use crate::internal::{field_optional_spec, field_or_default_spec, field_spec, put_optional_spec};
use crate::plan::{external_key, field_plan, FieldPlanView, Presence, VariantPlanView};
use crate::ser::{ser_models, SerJs};
use crate::shared::{has_flag, pair_value};
use crate::string_map::{de_entries, ser_entries, StringMap};
use crate::value::{
    assign, distinct_keys, lemma_assign_distinct, lemma_lookup_assign_other,
    lemma_lookup_assign_same, lemma_lookup_none, lookup, ValueView,
};
use vstd::prelude::*;

verus! {

/// Whether the fields are read and written under keys that all differ.
pub open spec fn keys_distinct(fields: Seq<FieldPlanView>) -> bool {
    forall|i: int, j: int|
        0 <= i < j < fields.len() ==> (#[trigger] fields[i]).key != (#[trigger] fields[j]).key
}

/// Whether `record` is a value of the declaration with the fields `fields`:
/// one slot per field, and only optional fields hold nothing.
pub open spec fn fits(fields: Seq<FieldPlanView>, record: Seq<Option<ValueView>>) -> bool {
    &&& record.len() == fields.len()
    &&& forall|i: int|
        0 <= i < fields.len() && (#[trigger] record[i]) is None ==> fields[i].presence
            == Presence::Optional
}

/// The slot that reading gives back for a slot that was written.
pub open spec fn slot_of(slot: Option<ValueView>) -> SlotView {
    match slot {
        Some(value) => SlotView::Value(value),
        None => SlotView::Missing,
    }
}

/// A written record has nothing under a key that is no field's.
pub proof fn lemma_written_absent(
    fields: Seq<FieldPlanView>,
    record: Seq<Option<ValueView>>,
    key: Seq<char>,
)
    requires
        record.len() == fields.len(),
        forall|j: int| 0 <= j < fields.len() ==> (#[trigger] fields[j]).key != key,
    ensures
        lookup(written(fields, record), key) is None,
    decreases fields.len(),
{
    if fields.len() > 0 {
        let before = written(fields.drop_last(), record.drop_last());
        lemma_written_absent(fields.drop_last(), record.drop_last(), key);
        if let Some(value) = record.last() {
            lemma_lookup_assign_other(before, fields.last().key, value, key);
        }
    }
}

/// In a written record every key occurs once.
pub proof fn law_written_keys_distinct(
    fields: Seq<FieldPlanView>,
    record: Seq<Option<ValueView>>,
)
    ensures
        distinct_keys(written(fields, record)),
    decreases fields.len(),
{
    if fields.len() > 0 && record.len() > 0 {
        law_written_keys_distinct(fields.drop_last(), record.drop_last());
        if let Some(value) = record.last() {
            lemma_assign_distinct(
                written(fields.drop_last(), record.drop_last()),
                fields.last().key,
                value,
            );
        }
    }
}

/// Under the key of each field a written record has what the field's slot
/// held, and nothing where the slot held nothing.
pub proof fn lemma_written_lookup(
    fields: Seq<FieldPlanView>,
    record: Seq<Option<ValueView>>,
    i: int,
)
    requires
        keys_distinct(fields),
        record.len() == fields.len(),
        0 <= i < fields.len(),
    ensures
        lookup(written(fields, record), fields[i].key) == record[i],
    decreases fields.len(),
{
    let last = fields.len() - 1;
    let head = fields.drop_last();
    let before = written(head, record.drop_last());
    if i == last {
        match record.last() {
            Some(value) => {
                lemma_lookup_assign_same(before, fields.last().key, value);
            },
            None => {
                lemma_written_absent(head, record.drop_last(), fields[i].key);
            },
        }
    } else {
        lemma_written_lookup(head, record.drop_last(), i);
        if let Some(value) = record.last() {
            lemma_lookup_assign_other(before, fields.last().key, value, fields[i].key);
        }
    }
}

/// Writing a record and reading the result gives the record back, field by
/// field: for every declaration whose fields have keys that all differ, and
/// every value of it.
pub proof fn law_round_trip(fields: Seq<FieldPlanView>, record: Seq<Option<ValueView>>)
    requires
        keys_distinct(fields),
        fits(fields, record),
    ensures
        read_record_spec(fields, ValueView::Object(written(fields, record))) == Ok::<
            Seq<SlotView>,
            DeJsErrView,
        >(Seq::new(record.len(), |i: int| slot_of(record[i]))),
{
    let entries = written(fields, record);
    lemma_read_back(fields, record, entries, fields.len() as int);
    assert(fields.take(fields.len() as int) =~= fields);
}

/// Reading the first `n` fields out of what the whole record was written as
/// gives the first `n` slots back.
proof fn lemma_read_back(
    fields: Seq<FieldPlanView>,
    record: Seq<Option<ValueView>>,
    entries: Seq<(Seq<char>, ValueView)>,
    n: int,
)
    requires
        keys_distinct(fields),
        fits(fields, record),
        entries == written(fields, record),
        0 <= n <= fields.len(),
    ensures
        read_fields(fields.take(n), entries) == Ok::<Seq<SlotView>, DeJsErrView>(
            Seq::new(n as nat, |i: int| slot_of(record[i])),
        ),
    decreases n,
{
    if n == 0 {
        assert(Seq::new(0nat, |i: int| slot_of(record[i])) =~= Seq::<SlotView>::empty());
    } else {
        lemma_read_back(fields, record, entries, n - 1);
        assert(fields.take(n).drop_last() =~= fields.take(n - 1));
        lemma_written_lookup(fields, record, n - 1);
        assert(Seq::new((n - 1) as nat, |i: int| slot_of(record[i])).push(slot_of(record[n - 1]))
            =~= Seq::new(n as nat, |i: int| slot_of(record[i])));
    }
}

/// An optional field that holds nothing is written as no entry at all: no
/// entry of the result has its key.
pub proof fn law_optional_absence_written(
    fields: Seq<FieldPlanView>,
    record: Seq<Option<ValueView>>,
    i: int,
)
    requires
        keys_distinct(fields),
        record.len() == fields.len(),
        0 <= i < fields.len(),
        record[i] is None,
    ensures
        forall|j: int|
            0 <= j < written(fields, record).len() ==> (#[trigger] written(fields, record)[j]).0
                != fields[i].key,
{
    lemma_written_lookup(fields, record, i);
    lemma_lookup_none(written(fields, record), fields[i].key);
}

/// A field of an optional type whose key is missing from the input is read
/// as holding nothing, and that is no error.
pub proof fn law_optional_absence_read(
    defaults: bool,
    field: FieldView,
    entries: Seq<(Seq<char>, ValueView)>,
)
    requires
        field.ty.is_option,
        lookup(entries, external_key(field)) is None,
    ensures
        read_field(field_plan(defaults, field), entries) == Ok::<SlotView, DeJsErrView>(
            SlotView::Missing,
        ),
{
}

/// A field marked `default` whose key is missing from the input is read as
/// the default value of its type; the same field without the mark fails on
/// the same input, and the error names the field.
pub proof fn law_default_substitution(
    marked: FieldView,
    plain: FieldView,
    entries: Seq<(Seq<char>, ValueView)>,
)
    requires
        marked.field_name is Some,
        !marked.ty.is_option,
        has_flag(marked.attributes, "default"@),
        plain.field_name == marked.field_name,
        plain.ty == marked.ty,
        pair_value(plain.attributes, "rename"@) == pair_value(marked.attributes, "rename"@),
        !has_flag(plain.attributes, "default"@),
        lookup(entries, external_key(marked)) is None,
    ensures
        read_field(field_plan(false, marked), entries) == Ok::<SlotView, DeJsErrView>(
            SlotView::Default,
        ),
        read_field(field_plan(false, plain), entries) == Err::<SlotView, DeJsErrView>(
            DeJsErrView::MissingField(marked.field_name->0),
        ),
{
}

/// A field with `rename = "x"` is written under `x` and nowhere else, and is
/// read from under `x` alone: what stands under its own name, where that
/// differs from `x`, makes no difference.
pub proof fn law_rename_fidelity(
    defaults: bool,
    field: FieldView,
    x: Seq<char>,
    value: ValueView,
    entries: Seq<(Seq<char>, ValueView)>,
)
    requires
        field.field_name is Some,
        pair_value(field.attributes, "rename"@) == Some(x),
        x != field.field_name->0,
    ensures
        field_plan(defaults, field).key == x,
        written(seq![field_plan(defaults, field)], seq![Some(value)]) == seq![(x, value)],
        read_field(field_plan(defaults, field), assign(entries, field.field_name->0, value))
            == read_field(field_plan(defaults, field), entries),
        read_field(field_plan(defaults, field), assign(entries, x, value)) == Ok::<
            SlotView,
            DeJsErrView,
        >(SlotView::Value(value)),
{
    let plan = field_plan(defaults, field);
    let fields = seq![plan];
    let record = seq![Some(value)];
    assert(written(fields.drop_last(), record.drop_last()) =~= Seq::<
        (Seq<char>, ValueView),
    >::empty());
    lemma_lookup_assign_other(entries, field.field_name->0, value, x);
    lemma_lookup_assign_same(entries, x, value);
}

/// The position of the first variant with a name lies inside the variants
/// and holds the name; no variant before it does.
pub proof fn lemma_variant_index(variants: Seq<VariantPlanView>, tag: Seq<char>, i: int)
    requires
        0 <= i <= variants.len(),
    ensures
        i <= variant_index_from(variants, tag, i) <= variants.len(),
        variant_index_from(variants, tag, i) < variants.len() ==> variants[variant_index_from(
            variants,
            tag,
            i,
        )].name == tag,
        forall|j: int|
            i <= j < variant_index_from(variants, tag, i) ==> (#[trigger] variants[j]).name != tag,
    decreases variants.len() - i,
{
    if i < variants.len() && variants[i].name != tag {
        lemma_variant_index(variants, tag, i + 1);
    }
}

/// A mapping whose one key names a variant is read as that variant, with
/// its fields taken from the value under the key.
pub proof fn law_enum_dispatch(variants: Seq<VariantPlanView>, k: int, payload: ValueView)
    requires
        0 <= k < variants.len(),
        forall|j: int| 0 <= j < k ==> (#[trigger] variants[j]).name != variants[k].name,
    ensures
        read_variant_spec(variants, ValueView::Object(seq![(variants[k].name, payload)])) == (
        match read_payload(variants[k].shape, payload) {
            Ok(slots) => Ok((k, slots)),
            Err(e) => Err(e),
        }),
{
    lemma_variant_index(variants, variants[k].name, 0);
}

/// A mapping whose one key names no variant fails as an unknown variant,
/// whatever stands under the key.
pub proof fn law_unknown_variant(
    variants: Seq<VariantPlanView>,
    tag: Seq<char>,
    payload: ValueView,
)
    requires
        forall|j: int| 0 <= j < variants.len() ==> (#[trigger] variants[j]).name != tag,
    ensures
        read_variant_spec(variants, ValueView::Object(seq![(tag, payload)])) == Err::<
            (int, Seq<SlotView>),
            DeJsErrView,
        >(DeJsErrView::UnknownVariant(tag)),
{
    lemma_variant_index(variants, tag, 0);
}

/// Whether reading what `x` is written as succeeds and gives a value that
/// is written as `x` is.
pub open spec fn round_trips<T: SerJs + DeJs>(x: T) -> bool {
    forall|r: Result<T, DeJsErr>| #[trigger]
        T::de_spec(x.ser_model(), r) ==> r is Ok && r->Ok_0.ser_model() == x.ser_model()
}

/// A boolean is read back as it was written.
pub proof fn law_bool_round_trip(x: bool)
    ensures
        round_trips(x),
{
}

/// A string is read back as it was written.
pub proof fn law_string_round_trip(x: String)
    ensures
        round_trips(x),
{
}

/// An optional value is read back as it was written, where the value inside
/// is and is not itself written as null. An empty optional always is.
pub proof fn law_option_round_trip<T: SerJs + DeJs>(x: Option<T>)
    requires
        x is Some ==> round_trips(x->0) && x->0.ser_model() != ValueView::Null,
    ensures
        round_trips(x),
{
}

/// A sequence is read back as it was written, where each of its items is.
pub proof fn law_vec_round_trip<T: SerJs + DeJs>(x: Vec<T>)
    requires
        forall|i: int| 0 <= i < x@.len() ==> round_trips(#[trigger] x@[i]),
    ensures
        round_trips(x),
{
    let items = ser_models(x@);
    assert forall|r: Result<Vec<T>, DeJsErr>| #[trigger]
        Vec::<T>::de_spec(x.ser_model(), r) implies r is Ok && r->Ok_0.ser_model()
        == x.ser_model() by {
        match r {
            Ok(back) => {
                assert(ser_models(back@) =~= items);
            },
            Err(e) => {
                let (i, before) = choose|i: int, before: Seq<T>|
                    0 <= i < items.len() && T::de_spec(#[trigger] items[i], Err(e))
                        && #[trigger] de_all(items.take(i), before);
            },
        }
    }
}

/// A boxed value is read back as it was written, where the value inside is.
pub proof fn law_box_round_trip<T: SerJs + DeJs>(x: Box<T>)
    requires
        round_trips(*x),
    ensures
        round_trips(x),
{
}

/// A pair is read back as it was written, where both of its parts are.
pub proof fn law_pair_round_trip<A: SerJs + DeJs, B: SerJs + DeJs>(x: (A, B))
    requires
        round_trips(x.0),
        round_trips(x.1),
    ensures
        round_trips(x),
{
}

/// A mapping from strings is read back as it was written, key by key,
/// where each of its values is.
pub proof fn law_string_map_round_trip<V: SerJs + DeJs>(x: StringMap<V>)
    requires
        forall|i: int| 0 <= i < x.entries@.len() ==> round_trips((#[trigger] x.entries@[i]).1),
    ensures
        round_trips(x),
{
    let entries = ser_entries(x.entries@);
    assert forall|r: Result<StringMap<V>, DeJsErr>| #[trigger]
        StringMap::<V>::de_spec(x.ser_model(), r) implies r is Ok && r->Ok_0.ser_model()
        == x.ser_model() by {
        match r {
            Ok(back) => {
                assert(ser_entries(back.entries@) =~= entries);
            },
            Err(e) => {
                let (i, before) = choose|i: int, before: Seq<(String, V)>|
                    0 <= i < entries.len() && V::de_spec((#[trigger] entries[i]).1, Err(e))
                        && #[trigger] de_entries(entries.take(i), before);
            },
        }
    }
}

/// A triple is read back as it was written, where each of its parts is.
pub proof fn law_triple_round_trip<A: SerJs + DeJs, B: SerJs + DeJs, C: SerJs + DeJs>(
    x: (A, B, C),
)
    requires
        round_trips(x.0),
        round_trips(x.1),
        round_trips(x.2),
    ensures
        round_trips(x),
{
}

/// A quadruple is read back as it was written, where each of its parts is.
pub proof fn law_quadruple_round_trip<
    A: SerJs + DeJs,
    B: SerJs + DeJs,
    C: SerJs + DeJs,
    D: SerJs + DeJs,
>(x: (A, B, C, D))
    requires
        round_trips(x.0),
        round_trips(x.1),
        round_trips(x.2),
        round_trips(x.3),
    ensures
        round_trips(x),
{
}

/// A field that was written under a key is read back from under that key
/// as it was written, where its value is.
pub proof fn law_field_round_trip<T: SerJs + DeJs>(
    entries: Seq<(Seq<char>, ValueView)>,
    key: Seq<char>,
    member: Seq<char>,
    x: T,
    r: Result<T, DeJsErr>,
)
    requires
        round_trips(x),
        field_spec::<T>(
            ValueView::Object(assign(entries, key, x.ser_model())),
            key,
            member,
            r,
        ),
    ensures
        r is Ok,
        r->Ok_0.ser_model() == x.ser_model(),
{
    lemma_lookup_assign_same(entries, key, x.ser_model());
}

/// Writing one field makes no difference to reading a field with another
/// key.
pub proof fn law_fields_independent<T: DeJs>(
    entries: Seq<(Seq<char>, ValueView)>,
    key: Seq<char>,
    value: ValueView,
    other: Seq<char>,
    member: Seq<char>,
    r: Result<T, DeJsErr>,
)
    requires
        other != key,
    ensures
        field_spec::<T>(ValueView::Object(assign(entries, key, value)), other, member, r)
            == field_spec::<T>(ValueView::Object(entries), other, member, r),
{
    lemma_lookup_assign_other(entries, key, value, other);
}

/// An optional field that holds nothing is written as no entry, and a
/// mapping without the key is read as the optional field holding nothing;
/// so an optional field is read back as it was written.
pub proof fn law_optional_field_round_trip<T: SerJs + DeJs>(
    entries: Seq<(Seq<char>, ValueView)>,
    key: Seq<char>,
    x: Option<T>,
    r: Result<Option<T>, DeJsErr>,
)
    requires
        lookup(entries, key) is None,
        round_trips(x),
        field_optional_spec::<T>(
            ValueView::Object(put_optional_spec(entries, key, x)),
            key,
            r,
        ),
    ensures
        x is None ==> put_optional_spec(entries, key, x) == entries,
        r is Ok,
        r->Ok_0.ser_model() == x.ser_model(),
{
    if let Some(inner) = x {
        lemma_lookup_assign_same(entries, key, inner.ser_model());
        assert(x.ser_model() == inner.ser_model());
        assert(Option::<T>::de_spec(x.ser_model(), r));
    }
}

/// Where the key is missing, a defaulted field is read as the default value
/// of its type, and a required field fails with an error that names it.
pub proof fn law_default_or_missing<T: DeJs + Default>(
    entries: Seq<(Seq<char>, ValueView)>,
    key: Seq<char>,
    member: Seq<char>,
    defaulted: Result<T, DeJsErr>,
    required: Result<T, DeJsErr>,
)
    requires
        lookup(entries, key) is None,
        field_or_default_spec::<T>(ValueView::Object(entries), key, defaulted),
        field_spec::<T>(ValueView::Object(entries), key, member, required),
    ensures
        defaulted is Ok,
        call_ensures(T::default, (), defaulted->Ok_0),
        required is Err,
        required->Err_0@ == DeJsErrView::MissingField(member),
{
}

/// Each statement of a serializing routine takes the record written from
/// the fields before it to the record written from the fields up to it:
/// `put` sets the field's value under its key, and `put_optional` does so
/// where the field holds a value and nothing where it holds none.
pub proof fn law_written_step<T: SerJs>(
    fields: Seq<FieldPlanView>,
    record: Seq<Option<ValueView>>,
    next: FieldPlanView,
    x: Option<T>,
)
    requires
        record.len() == fields.len(),
    ensures
        written(
            fields.push(next),
            record.push(
                match x {
                    Some(inner) => Some(inner.ser_model()),
                    None => None,
                },
            ),
        ) == put_optional_spec(written(fields, record), next.key, x),
        x is Some ==> put_optional_spec(written(fields, record), next.key, x) == assign(
            written(fields, record),
            next.key,
            x->0.ser_model(),
        ),
{
    let slot = match x {
        Some(inner) => Some(inner.ser_model()),
        None => None,
    };
    assert(fields.push(next).drop_last() =~= fields);
    assert(record.push(slot).drop_last() =~= record);
}

/// In a record written from all of its fields, each field is read back from
/// under its key as it was written: for every declaration whose fields have
/// keys that all differ, every field of it that holds a value, and every
/// type of that field whose own values are read back as written.
pub proof fn law_record_field_round_trip<T: SerJs + DeJs>(
    fields: Seq<FieldPlanView>,
    record: Seq<Option<ValueView>>,
    i: int,
    x: T,
    r: Result<T, DeJsErr>,
)
    requires
        keys_distinct(fields),
        record.len() == fields.len(),
        0 <= i < fields.len(),
        record[i] == Some(x.ser_model()),
        round_trips(x),
        field_spec::<T>(
            ValueView::Object(written(fields, record)),
            fields[i].key,
            fields[i].member,
            r,
        ),
    ensures
        r is Ok,
        r->Ok_0.ser_model() == x.ser_model(),
{
    lemma_written_lookup(fields, record, i);
}

/// In a record written from all of its fields, an optional field is read
/// back from under its key as it was written, empty where it was empty.
pub proof fn law_record_optional_field_round_trip<T: SerJs + DeJs>(
    fields: Seq<FieldPlanView>,
    record: Seq<Option<ValueView>>,
    i: int,
    x: Option<T>,
    r: Result<Option<T>, DeJsErr>,
)
    requires
        keys_distinct(fields),
        record.len() == fields.len(),
        0 <= i < fields.len(),
        x is Some ==> record[i] == Some(x->0.ser_model()),
        x is None ==> record[i] is None,
        round_trips(x),
        field_optional_spec::<T>(
            ValueView::Object(written(fields, record)),
            fields[i].key,
            r,
        ),
    ensures
        r is Ok,
        x is None ==> r->Ok_0 is None,
        r->Ok_0.ser_model() == x.ser_model(),
{
    lemma_written_lookup(fields, record, i);
    if let Some(inner) = x {
        assert(x.ser_model() == inner.ser_model());
        assert(Option::<T>::de_spec(x.ser_model(), r));
    }
}

/// What is written of a value that is read back as written, is read back
/// as it: so `from_value` undoes `to_value` for every such value.
pub proof fn law_from_value_undoes_to_value<T: SerJs + DeJs>(
    x: T,
    written_as: ValueView,
    r: Result<T, DeJsErr>,
)
    requires
        round_trips(x),
        written_as == x.ser_model(),
        T::de_spec(written_as, r),
    ensures
        r is Ok,
        r->Ok_0.ser_model() == x.ser_model(),
{
}

/// Reading a field as its plan says agrees with what the routines call for
/// it: whatever is found under the key is what gets read as the field's
/// type, and where nothing is found, a required field fails as missing, an
/// optional one is empty, and a defaulted one takes the default.
pub proof fn law_plan_agrees_with_routines<T: DeJs + Default>(
    plan: FieldPlanView,
    entries: Seq<(Seq<char>, ValueView)>,
    required: Result<T, DeJsErr>,
    optional: Result<Option<T>, DeJsErr>,
    defaulted: Result<T, DeJsErr>,
)
    requires
        field_spec::<T>(ValueView::Object(entries), plan.key, plan.member, required),
        field_optional_spec::<T>(ValueView::Object(entries), plan.key, optional),
        field_or_default_spec::<T>(ValueView::Object(entries), plan.key, defaulted),
    ensures
        match read_field(plan, entries) {
            Ok(SlotView::Value(found)) => {
                &&& T::de_spec(found, required)
                &&& Option::<T>::de_spec(found, optional)
                &&& T::de_spec(found, defaulted)
            },
            Ok(SlotView::Missing) => plan.presence == Presence::Optional && optional is Ok
                && optional->Ok_0 is None,
            Ok(SlotView::Default) => plan.presence == Presence::Defaulted && defaulted is Ok
                && call_ensures(T::default, (), defaulted->Ok_0),
            Err(e) => plan.presence == Presence::Required && required is Err
                && required->Err_0@ == e,
        },
{
}

/// A declaration with `proxy = "P"` gets the two delegating routines,
/// whatever its fields or variants are.
pub proof fn law_proxy_delegation(data: DataView, proxy: Seq<char>)
    requires
        pair_value(data.attributes(), "proxy"@) == Some(proxy),
    ensures
        ser_text(data) == Ok::<Seq<char>, DeriveError>(ser_proxy_text(proxy, data.name())),
        de_text(data) == Ok::<Seq<char>, DeriveError>(de_proxy_text(proxy, data.name())),
{
}

} // verus!
