//! The two generators: the source text of the routine that converts a value
//! of the declared type to a dynamic value, and of the one that builds it
//! back from a dynamic value.
//!
//! Each text is a function of the plan alone, written down once as a
//! specification; the printers are proved to produce exactly that text. The
//! routines themselves are short: what is done with a field, they leave to
//! the functions of [`crate::internal`].

use crate::ast::{Enum, Field, Struct};
use crate::plan::{
    all_named, field_plans, plan_fields, plan_variants, variant_plans, variants_named, FieldPlan,
    FieldPlanView, Presence, VariantPlan, VariantPlanView, VariantShape, VariantShapeView,
};
use crate::shared::{attrs_default, has_flag};
use vstd::prelude::*;
use vstd::string::*;

verus! {

/// The implementation of the trait `trait_name` for the type `name`, with
/// the one method that `signature` declares and `body` fills.
pub open spec fn impl_text(
    trait_name: Seq<char>,
    name: Seq<char>,
    signature: Seq<char>,
    body: Seq<char>,
) -> Seq<char> {
    "const _: () = {\n    impl "@ + trait_name + " for "@ + name + " {\n        "@ + signature
        + " {\n"@ + body + "        }\n    }\n};"@
}

/// The implementation of `SerJs` for the type `name`.
pub open spec fn ser_impl_text(name: Seq<char>, body: Seq<char>) -> Seq<char> {
    impl_text("SerJs"@, name, "fn ser_js(&self) -> Value"@, body)
}

/// The implementation of `DeJs` for the type `name`.
pub open spec fn de_impl_text(name: Seq<char>, body: Seq<char>) -> Seq<char> {
    impl_text(
        "DeJs"@,
        name,
        "fn de_js(value: &Value) -> std::result::Result<Self, picoserde::DeJsErr>"@,
        body,
    )
}

/// The statement that writes one field into the mapping `object`: an
/// optional field is written only when it holds a value.
pub open spec fn ser_line(field: FieldPlanView) -> Seq<char> {
    if field.presence == Presence::Optional {
        "            picoserde::internal::put_optional(&mut object, \""@ + field.key
            + "\", &self."@ + field.member + ");\n"@
    } else {
        "            picoserde::internal::put(&mut object, \""@ + field.key + "\", &self."@
            + field.member + ");\n"@
    }
}

/// The statements that write the fields, in order.
pub open spec fn ser_lines(fields: Seq<FieldPlanView>) -> Seq<char>
    decreases fields.len(),
{
    if fields.len() == 0 {
        Seq::empty()
    } else {
        ser_lines(fields.drop_last()) + ser_line(fields.last())
    }
}

/// The serializing routine of a struct with named fields.
pub open spec fn ser_record_text(name: Seq<char>, fields: Seq<FieldPlanView>) -> Seq<char> {
    ser_impl_text(
        name,
        "            let mut object = self.ser_object();\n"@ + ser_lines(fields)
            + "            Value::Object(object)\n"@,
    )
}

/// The serializing routine of a type that converts through `proxy`.
pub open spec fn ser_proxy_text(proxy: Seq<char>, name: Seq<char>) -> Seq<char> {
    ser_impl_text(
        name,
        "            let proxy: "@ + proxy + " = self.into();\n            proxy.ser_js()\n"@,
    )
}

/// The initializer of one field in the value that is built: the field is
/// read from under its key, and a missing key is an error, the empty value
/// or the default value, as the plan says.
pub open spec fn de_init(field: FieldPlanView) -> Seq<char> {
    match field.presence {
        Presence::Required => field.member + ": picoserde::internal::field(value, \""@
            + field.key + "\", \""@ + field.member + "\")?, "@,
        Presence::Optional => field.member + ": picoserde::internal::field_optional(value, \""@
            + field.key + "\")?, "@,
        Presence::Defaulted => field.member
            + ": picoserde::internal::field_or_default(value, \""@ + field.key + "\")?, "@,
    }
}

/// The initializers of the fields, in order.
pub open spec fn de_inits(fields: Seq<FieldPlanView>) -> Seq<char>
    decreases fields.len(),
{
    if fields.len() == 0 {
        Seq::empty()
    } else {
        de_inits(fields.drop_last()) + de_init(fields.last())
    }
}

/// The expression that builds a value with named fields out of `value`,
/// which must be a mapping: `name` is the path of the struct or variant to
/// build.
pub open spec fn de_named_text(name: Seq<char>, fields: Seq<FieldPlanView>) -> Seq<char> {
    "picoserde::internal::expect_object(value)?; "@ + name + " { "@ + de_inits(fields) + "}"@
}

/// The deserializing routine of a struct with named fields.
pub open spec fn de_record_text(name: Seq<char>, fields: Seq<FieldPlanView>) -> Seq<char> {
    de_impl_text(
        name,
        "            std::result::Result::Ok({ "@ + de_named_text(name, fields) + " })\n"@,
    )
}

/// The deserializing routine of a type that converts through `proxy`.
pub open spec fn de_proxy_text(proxy: Seq<char>, name: Seq<char>) -> Seq<char> {
    de_impl_text(
        name,
        "            let proxy: "@ + proxy
            + " = DeJs::de_js(value)?;\n            std::result::Result::Ok(Into::into(&proxy))\n"@,
    )
}

/// The expressions that read `arity` positional fields from `items`.
pub open spec fn de_items(arity: nat) -> Seq<char>
    decreases arity,
{
    if arity == 0 {
        Seq::empty()
    } else {
        de_items((arity - 1) as nat) + "picoserde::internal::item(&mut items)?, "@
    }
}

/// What a match arm builds one variant with, out of its payload `value`.
pub open spec fn de_arm_body(variant: VariantPlanView) -> Seq<char> {
    match variant.shape {
        VariantShapeView::Unit => "picoserde::internal::expect_object(value)?; Self::"@
            + variant.name + " {}"@,
        VariantShapeView::Named(fields) => de_named_text("Self::"@ + variant.name, fields),
        VariantShapeView::Unnamed(arity) =>
            "let mut items = picoserde::internal::seq_items(value)?; Self::"@ + variant.name
            + "("@ + de_items(arity) + ")"@,
    }
}

/// The match arm that builds one variant out of its payload `value`.
pub open spec fn de_arm(variant: VariantPlanView) -> Seq<char> {
    "                \""@ + variant.name + "\" => { "@ + de_arm_body(variant) + " },\n"@
}

/// The match arms of the variants, in order.
pub open spec fn de_arms(variants: Seq<VariantPlanView>) -> Seq<char>
    decreases variants.len(),
{
    if variants.len() == 0 {
        Seq::empty()
    } else {
        de_arms(variants.drop_last()) + de_arm(variants.last())
    }
}

/// The deserializing routine of an enum: the input is a mapping with one
/// key, which selects the variant; a key that names no variant is an error.
pub open spec fn de_variants_text(name: Seq<char>, variants: Seq<VariantPlanView>) -> Seq<char> {
    de_impl_text(
        name,
        "            let (tag, value) = picoserde::internal::enum_entry(value)?;\n"@
            + "            std::result::Result::Ok(match tag {\n"@ + de_arms(variants)
            + "                _ => return std::result::Result::Err("@
            + "picoserde::DeJsErr::UnknownVariant(tag.to_string())),\n"@ + "            })\n"@,
    )
}

/// Prints an implementation of a trait with one method.
fn print_impl(trait_name: &str, name: &str, signature: &str, body: &str) -> (out: String)
    ensures
        out@ == impl_text(trait_name@, name@, signature@, body@),
{
    let mut out = "const _: () = {\n    impl ".to_owned();
    out.append(trait_name);
    out.append(" for ");
    out.append(name);
    out.append(" {\n        ");
    out.append(signature);
    out.append(" {\n");
    out.append(body);
    out.append("        }\n    }\n};");
    out
}

/// Prints an implementation of `SerJs`.
fn print_ser_impl(name: &str, body: &str) -> (out: String)
    ensures
        out@ == ser_impl_text(name@, body@),
{
    print_impl("SerJs", name, "fn ser_js(&self) -> Value", body)
}

/// Prints an implementation of `DeJs`.
fn print_de_impl(name: &str, body: &str) -> (out: String)
    ensures
        out@ == de_impl_text(name@, body@),
{
    print_impl(
        "DeJs",
        name,
        "fn de_js(value: &Value) -> std::result::Result<Self, picoserde::DeJsErr>",
        body,
    )
}

/// Prints the serializing routine of the type `type_` that converts through
/// `proxy_type`.
pub fn derive_ser_js_proxy(proxy_type: &str, type_: &str) -> (out: String)
    ensures
        out@ == ser_proxy_text(proxy_type@, type_@),
{
    let mut body = "            let proxy: ".to_owned();
    body.append(proxy_type);
    body.append(" = self.into();\n            proxy.ser_js()\n");
    print_ser_impl(type_, body.as_str())
}

/// Prints the statement that writes one field.
fn print_ser_line(field: &FieldPlan) -> (out: String)
    ensures
        out@ == ser_line(field@),
{
    let mut out = match field.presence {
        Presence::Optional => "            picoserde::internal::put_optional(&mut object, \""
            .to_owned(),
        _ => "            picoserde::internal::put(&mut object, \"".to_owned(),
    };
    out.append(field.key.as_str());
    out.append("\", &self.");
    out.append(field.member.as_str());
    out.append(");\n");
    out
}

/// Prints the serializing routine of a record from its plan.
pub fn print_ser_record(name: &str, fields: &Vec<FieldPlan>) -> (out: String)
    ensures
        out@ == ser_record_text(name@, fields.deep_view()),
{
    let ghost views = fields.deep_view();
    let mut lines = String::new();
    let mut i: usize = 0;
    while i < fields.len()
        invariant
            i <= fields.len(),
            views == fields.deep_view(),
            views.len() == fields.len(),
            lines@ == ser_lines(views.take(i as int)),
        decreases fields.len() - i,
    {
        let line = print_ser_line(&fields[i]);
        lines.append(line.as_str());
        assert(views.take(i + 1).drop_last() =~= views.take(i as int));
        i = i + 1;
    }
    assert(views.take(i as int) =~= views);
    let mut body = "            let mut object = self.ser_object();\n".to_owned();
    body.append(lines.as_str());
    body.append("            Value::Object(object)\n");
    print_ser_impl(name, body.as_str())
}

/// Prints the serializing routine of a struct with named fields: every field
/// is written under its external key, an optional field only when it holds a
/// value.
pub fn derive_ser_js_struct(struct_: &Struct) -> (out: String)
    requires
        all_named(struct_@.fields),
    ensures
        out@ == ser_record_text(struct_@.name, field_plans(false, struct_@.fields)),
{
    let fields = plan_fields(false, struct_.fields.as_slice());
    print_ser_record(struct_.name.as_str(), &fields)
}

/// Prints the initializer of one field.
fn print_de_init(field: &FieldPlan) -> (out: String)
    ensures
        out@ == de_init(field@),
{
    let mut out = field.member.clone();
    match field.presence {
        Presence::Required => {
            out.append(": picoserde::internal::field(value, \"");
            out.append(field.key.as_str());
            out.append("\", \"");
            out.append(field.member.as_str());
            out.append("\")?, ");
        },
        Presence::Optional => {
            out.append(": picoserde::internal::field_optional(value, \"");
            out.append(field.key.as_str());
            out.append("\")?, ");
        },
        Presence::Defaulted => {
            out.append(": picoserde::internal::field_or_default(value, \"");
            out.append(field.key.as_str());
            out.append("\")?, ");
        },
    }
    out
}

/// Prints the expression that builds a value with named fields from its
/// plan.
pub fn print_de_named(name: &str, fields: &Vec<FieldPlan>) -> (out: String)
    ensures
        out@ == de_named_text(name@, fields.deep_view()),
{
    let ghost views = fields.deep_view();
    let mut inits = String::new();
    let mut i: usize = 0;
    while i < fields.len()
        invariant
            i <= fields.len(),
            views == fields.deep_view(),
            views.len() == fields.len(),
            inits@ == de_inits(views.take(i as int)),
        decreases fields.len() - i,
    {
        let init = print_de_init(&fields[i]);
        inits.append(init.as_str());
        assert(views.take(i + 1).drop_last() =~= views.take(i as int));
        i = i + 1;
    }
    assert(views.take(i as int) =~= views);
    let mut out = "picoserde::internal::expect_object(value)?; ".to_owned();
    out.append(name);
    out.append(" { ");
    out.append(inits.as_str());
    out.append("}");
    out
}

/// Prints the expression that builds the struct or variant `name` out of a
/// mapping: every field is read under its external key; where the key is
/// missing, an optional field is left empty, a field with `default` (its own
/// or, with `defaults`, the declaration's) takes its type's default value,
/// and any other field fails the routine, which names the field.
pub fn derive_de_js_named(name: &str, defaults: bool, fields: &[Field]) -> (out: String)
    requires
        all_named(fields.deep_view()),
    ensures
        out@ == de_named_text(name@, field_plans(defaults, fields.deep_view())),
{
    let plans = plan_fields(defaults, fields);
    print_de_named(name, &plans)
}

/// Prints the deserializing routine of the type `type_` that converts
/// through `proxy_type`.
pub fn derive_de_js_proxy(proxy_type: &str, type_: &str) -> (out: String)
    ensures
        out@ == de_proxy_text(proxy_type@, type_@),
{
    let mut body = "            let proxy: ".to_owned();
    body.append(proxy_type);
    body.append(
        " = DeJs::de_js(value)?;\n            std::result::Result::Ok(Into::into(&proxy))\n",
    );
    print_de_impl(type_, body.as_str())
}

/// Prints the deserializing routine of a struct with named fields.
pub fn derive_de_js_struct(struct_: &Struct) -> (out: String)
    requires
        all_named(struct_@.fields),
    ensures
        out@ == de_record_text(
            struct_@.name,
            field_plans(has_flag(struct_@.attributes, "default"@), struct_@.fields),
        ),
{
    let built = derive_de_js_named(
        struct_.name.as_str(),
        attrs_default(struct_.attributes.as_slice()),
        struct_.fields.as_slice(),
    );
    let mut body = "            std::result::Result::Ok({ ".to_owned();
    body.append(built.as_str());
    body.append(" })\n");
    print_de_impl(struct_.name.as_str(), body.as_str())
}

/// Prints what a match arm builds one variant with.
fn print_de_arm_body(variant: &VariantPlan) -> (out: String)
    ensures
        out@ == de_arm_body(variant@),
{
    match &variant.shape {
        VariantShape::Unit => {
            let mut out = "picoserde::internal::expect_object(value)?; Self::".to_owned();
            out.append(variant.name.as_str());
            out.append(" {}");
            out
        },
        VariantShape::Named(fields) => {
            let mut path = "Self::".to_owned();
            path.append(variant.name.as_str());
            print_de_named(path.as_str(), fields)
        },
        VariantShape::Unnamed(arity) => {
            let mut items = String::new();
            let mut i: usize = 0;
            while i < *arity
                invariant
                    i <= *arity,
                    items@ == de_items(i as nat),
                decreases *arity - i,
            {
                items.append("picoserde::internal::item(&mut items)?, ");
                i = i + 1;
            }
            let mut out = "let mut items = picoserde::internal::seq_items(value)?; Self::"
                .to_owned();
            out.append(variant.name.as_str());
            out.append("(");
            out.append(items.as_str());
            out.append(")");
            out
        },
    }
}

/// Prints the match arm of one variant.
fn print_de_arm(variant: &VariantPlan) -> (out: String)
    ensures
        out@ == de_arm(variant@),
{
    let body = print_de_arm_body(variant);
    let mut out = "                \"".to_owned();
    out.append(variant.name.as_str());
    out.append("\" => { ");
    out.append(body.as_str());
    out.append(" },\n");
    out
}

/// Prints the deserializing routine of an enum from its plan.
pub fn print_de_variants(name: &str, variants: &Vec<VariantPlan>) -> (out: String)
    ensures
        out@ == de_variants_text(name@, variants.deep_view()),
{
    let ghost views = variants.deep_view();
    let mut arms = String::new();
    let mut i: usize = 0;
    while i < variants.len()
        invariant
            i <= variants.len(),
            views == variants.deep_view(),
            views.len() == variants.len(),
            arms@ == de_arms(views.take(i as int)),
        decreases variants.len() - i,
    {
        let arm = print_de_arm(&variants[i]);
        arms.append(arm.as_str());
        assert(views.take(i + 1).drop_last() =~= views.take(i as int));
        i = i + 1;
    }
    assert(views.take(i as int) =~= views);
    let mut body = "            let (tag, value) = picoserde::internal::enum_entry(value)?;\n"
        .to_owned();
    body.append("            std::result::Result::Ok(match tag {\n");
    body.append(arms.as_str());
    body.append("                _ => return std::result::Result::Err(");
    body.append("picoserde::DeJsErr::UnknownVariant(tag.to_string())),\n");
    body.append("            })\n");
    print_de_impl(name, body.as_str())
}

/// Prints the deserializing routine of an enum: the input is a mapping with
/// one key, which names the variant, and whose value holds the variant's
/// fields, a mapping for named fields and a sequence for positional ones.
pub fn derive_de_js_enum(enum_: &Enum) -> (out: String)
    requires
        variants_named(enum_@.variants),
    ensures
        out@ == de_variants_text(enum_@.name, variant_plans(enum_@.variants)),
{
    let variants = plan_variants(enum_.variants.as_slice());
    print_de_variants(enum_.name.as_str(), &variants)
}

} // verus!
