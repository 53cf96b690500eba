use picoserde::ast::{Attribute, Data, EnumVariant, Field, Struct, Type, Visibility};
use picoserde::codegen::{
    derive_de_js_enum, derive_de_js_named, derive_de_js_proxy, derive_de_js_struct,
    derive_ser_js_proxy, derive_ser_js_struct, print_de_named, print_de_variants,
    print_ser_record,
};
use picoserde::derive::{derive_de_js, derive_ser_js, DeriveError};
use picoserde::grammar::ParseError;
use picoserde::parse::parse_data;
use picoserde::plan::{
    fields_all_named, plan_field, plan_fields, plan_variant, plan_variants, variants_all_named,
    FieldPlan, Presence, VariantPlan, VariantShape,
};
use picoserde::token::{Delimiter, Group, Token};

fn close_of(open: char) -> char {
    match open {
        '(' => ')',
        '{' => '}',
        _ => ']',
    }
}

fn delimiter_of(open: char) -> Delimiter {
    match open {
        '(' => Delimiter::Parenthesis,
        '{' => Delimiter::Brace,
        _ => Delimiter::Bracket,
    }
}

fn lex_until(chars: &[char], pos: &mut usize, close: Option<char>) -> Vec<Token> {
    let mut out = Vec::new();
    while *pos < chars.len() {
        let c = chars[*pos];
        if Some(c) == close {
            *pos += 1;
            return out;
        }
        if c.is_whitespace() {
            *pos += 1;
        } else if c.is_alphabetic() || c == '_' {
            let start = *pos;
            while *pos < chars.len() && (chars[*pos].is_alphanumeric() || chars[*pos] == '_') {
                *pos += 1;
            }
            out.push(Token::Ident(chars[start..*pos].iter().collect()));
        } else if c == '"' {
            let start = *pos;
            *pos += 1;
            while chars[*pos] != '"' {
                *pos += 1;
            }
            *pos += 1;
            out.push(Token::Literal(chars[start..*pos].iter().collect()));
        } else if c.is_ascii_digit() {
            let start = *pos;
            while *pos < chars.len() && chars[*pos].is_ascii_digit() {
                *pos += 1;
            }
            out.push(Token::Literal(chars[start..*pos].iter().collect()));
        } else if c == '(' || c == '{' || c == '[' {
            *pos += 1;
            let stream = lex_until(chars, pos, Some(close_of(c)));
            out.push(Token::Group(Group { delimiter: delimiter_of(c), stream }));
        } else {
            *pos += 1;
            out.push(Token::Punct(c.to_string()));
        }
    }
    out
}

/// Splits a declaration into tokens, every bracketed part folded into a
/// group.
fn lex(source: &str) -> Vec<Token> {
    let chars: Vec<char> = source.chars().collect();
    let mut pos = 0;
    lex_until(&chars, &mut pos, None)
}

fn attribute(tokens: &[&str]) -> Attribute {
    Attribute {
        name: "picoserde".to_string(),
        tokens: tokens.iter().map(|t| t.to_string()).collect(),
    }
}

fn field(name: &str, path: &str, is_option: bool, attributes: Vec<Attribute>) -> Field {
    Field {
        attributes,
        vis: Visibility::Public,
        field_name: Some(name.to_string()),
        ty: Type { is_option, path: path.to_string() },
    }
}

fn plan(member: &str, key: &str, presence: Presence) -> FieldPlan {
    FieldPlan { member: member.to_string(), key: key.to_string(), presence }
}

fn parsed_struct(source: &str) -> Struct {
    match parse_data(&lex(source)).unwrap() {
        Data::Struct(parsed) => parsed,
        _ => panic!("a struct was declared"),
    }
}

const DE_HEAD: &str = "const _: () = {\n    impl DeJs for ";
const DE_SIGNATURE: &str = " {\n        fn de_js(value: &Value) -> std::result::Result<Self, picoserde::DeJsErr> {\n            ";
const DE_TAIL: &str = "\n        }\n    }\n};";
const SER_HEAD: &str = "const _: () = {\n    impl SerJs for ";
const SER_SIGNATURE: &str = " {\n        fn ser_js(&self) -> Value {\n            ";
const SER_TAIL: &str = "\n        }\n    }\n};";

#[test]
fn field_plan_takes_the_name_as_key() {
    let planned = plan_field(false, &field("count", "u8", false, Vec::new()));
    assert_eq!(planned, plan("count", "count", Presence::Required));
}

#[test]
fn field_plan_takes_the_rename_as_key() {
    let planned =
        plan_field(false, &field("count", "u8", false, vec![attribute(&["rename", "n"])]));
    assert_eq!(planned, plan("count", "n", Presence::Required));
}

#[test]
fn field_plan_resolves_presence_in_order() {
    let marked = vec![attribute(&["default"])];
    assert_eq!(plan_field(false, &field("a", "u8", true, Vec::new())).presence, Presence::Optional);
    assert_eq!(plan_field(true, &field("a", "u8", true, Vec::new())).presence, Presence::Optional);
    assert_eq!(
        plan_field(false, &field("a", "u8", true, vec![attribute(&["default"])])).presence,
        Presence::Optional
    );
    assert_eq!(plan_field(false, &field("a", "u8", false, marked)).presence, Presence::Defaulted);
    assert_eq!(plan_field(true, &field("a", "u8", false, Vec::new())).presence, Presence::Defaulted);
    assert_eq!(plan_field(false, &field("a", "u8", false, Vec::new())).presence, Presence::Required);
}

#[test]
fn fields_are_planned_in_order() {
    let fields = vec![
        field("a", "u8", false, Vec::new()),
        field("b", "String", true, vec![attribute(&["rename", "bee"])]),
    ];
    assert_eq!(
        plan_fields(true, &fields),
        vec![plan("a", "a", Presence::Defaulted), plan("b", "bee", Presence::Optional)]
    );
    assert_eq!(plan_fields(false, &[]), Vec::new());
}

#[test]
fn variants_are_planned_by_shape() {
    let unit = EnumVariant { name: "A".to_string(), named: false, fields: Vec::new() };
    let empty = EnumVariant { name: "B".to_string(), named: true, fields: Vec::new() };
    let record = EnumVariant {
        name: "C".to_string(),
        named: true,
        fields: vec![field("x", "u8", false, vec![attribute(&["default"])])],
    };
    let tuple = EnumVariant {
        name: "D".to_string(),
        named: false,
        fields: vec![
            Field {
                attributes: Vec::new(),
                vis: Visibility::Public,
                field_name: None,
                ty: Type { is_option: false, path: "u8".to_string() },
            },
            Field {
                attributes: Vec::new(),
                vis: Visibility::Public,
                field_name: None,
                ty: Type { is_option: true, path: "u8".to_string() },
            },
        ],
    };
    assert_eq!(plan_variant(&unit).shape, VariantShape::Unit);
    assert_eq!(plan_variant(&empty).shape, VariantShape::Unit);
    assert_eq!(
        plan_variant(&record),
        VariantPlan {
            name: "C".to_string(),
            shape: VariantShape::Named(vec![plan("x", "x", Presence::Defaulted)])
        }
    );
    assert_eq!(plan_variant(&tuple).shape, VariantShape::Unnamed(2));
    let planned = plan_variants(&[unit, tuple]);
    assert_eq!(planned.len(), 2);
    assert_eq!(planned[0].name, "A");
    assert_eq!(planned[1].name, "D");
}

#[test]
fn serializer_of_a_proxy() {
    assert_eq!(
        derive_ser_js_proxy("Wire", "Value3"),
        format!(
            "{}Value3{}let proxy: Wire = self.into();\n            proxy.ser_js(){}",
            SER_HEAD, SER_SIGNATURE, SER_TAIL
        )
    );
}

#[test]
fn deserializer_of_a_proxy() {
    assert_eq!(
        derive_de_js_proxy("Wire", "Value3"),
        format!(
            "{}Value3{}let proxy: Wire = DeJs::de_js(value)?;\n            std::result::Result::Ok(Into::into(&proxy)){}",
            DE_HEAD, DE_SIGNATURE, DE_TAIL
        )
    );
}

const FOO: &str = "struct Foo { #[picoserde(rename = \"x\")] a: u8, b: Option<String>, #[picoserde(default)] c: Vec<u8> }";

#[test]
fn serializer_of_a_struct() {
    assert_eq!(
        derive_ser_js_struct(&parsed_struct(FOO)),
        format!(
            "{}Foo{}let mut object = self.ser_object();\n            picoserde::internal::put(&mut object, \"x\", &self.a);\n            picoserde::internal::put_optional(&mut object, \"b\", &self.b);\n            picoserde::internal::put(&mut object, \"c\", &self.c);\n            Value::Object(object){}",
            SER_HEAD, SER_SIGNATURE, SER_TAIL
        )
    );
}

#[test]
fn serializer_of_a_struct_without_fields() {
    assert_eq!(
        derive_ser_js_struct(&parsed_struct("struct Empty {}")),
        format!(
            "{}Empty{}let mut object = self.ser_object();\n            Value::Object(object){}",
            SER_HEAD, SER_SIGNATURE, SER_TAIL
        )
    );
}

#[test]
fn serializer_writes_an_optional_field_only_when_present() {
    let text = print_ser_record("T", &vec![plan("a", "k", Presence::Optional)]);
    assert!(text.contains("picoserde::internal::put_optional(&mut object, \"k\", &self.a);"));
    assert!(!text.contains("internal::put(&mut"));
    let text = print_ser_record("T", &vec![plan("a", "k", Presence::Defaulted)]);
    assert!(text.contains("picoserde::internal::put(&mut object, \"k\", &self.a);"));
    assert!(!text.contains("put_optional"));
    let text = print_ser_record("T", &vec![plan("a", "k", Presence::Required)]);
    assert!(text.contains("picoserde::internal::put(&mut object, \"k\", &self.a);"));
}

#[test]
fn serializer_uses_the_external_key_only() {
    let text = print_ser_record("T", &vec![plan("inner", "outer", Presence::Required)]);
    assert!(text.contains("picoserde::internal::put(&mut object, \"outer\", &self.inner);"));
    assert!(!text.contains("\"inner\""));
}

const NAMED_BODY: &str = "picoserde::internal::expect_object(value)?; Foo { a: picoserde::internal::field(value, \"x\", \"a\")?, b: picoserde::internal::field_optional(value, \"b\")?, c: picoserde::internal::field_or_default(value, \"c\")?, }";

#[test]
fn named_fields_are_read_under_their_keys() {
    assert_eq!(derive_de_js_named("Foo", false, &parsed_struct(FOO).fields), NAMED_BODY);
}

#[test]
fn named_fields_of_a_defaulting_container() {
    let parsed = parsed_struct("struct Foo { a: u8, b: Option<u8> }");
    assert_eq!(
        derive_de_js_named("Self::V", true, &parsed.fields),
        "picoserde::internal::expect_object(value)?; Self::V { a: picoserde::internal::field_or_default(value, \"a\")?, b: picoserde::internal::field_optional(value, \"b\")?, }"
    );
}

#[test]
fn no_named_fields() {
    assert_eq!(
        derive_de_js_named("Foo", false, &[]),
        "picoserde::internal::expect_object(value)?; Foo { }"
    );
    assert_eq!(
        print_de_named("Foo", &Vec::new()),
        "picoserde::internal::expect_object(value)?; Foo { }"
    );
}

#[test]
fn deserializer_of_a_struct() {
    assert_eq!(
        derive_de_js_struct(&parsed_struct(FOO)),
        format!(
            "{}Foo{}std::result::Result::Ok({{ {} }}){}",
            DE_HEAD, DE_SIGNATURE, NAMED_BODY, DE_TAIL
        )
    );
}

#[test]
fn deserializer_of_a_struct_marked_default() {
    let parsed = parsed_struct("#[picoserde(default)] struct Foo { a: u8 }");
    let text = derive_de_js_struct(&parsed);
    assert!(text.contains("a: picoserde::internal::field_or_default(value, \"a\")?,"));
    assert!(!text.contains("internal::field(value"));
    let parsed = parsed_struct("struct Foo { a: u8 }");
    let text = derive_de_js_struct(&parsed);
    assert!(text.contains("a: picoserde::internal::field(value, \"a\", \"a\")?,"));
    assert!(!text.contains("field_or_default"));
}

#[test]
fn deserializer_names_the_field_and_reads_the_key() {
    let text = print_de_named("T", &vec![plan("inner", "outer", Presence::Required)]);
    assert_eq!(
        text,
        "picoserde::internal::expect_object(value)?; T { inner: picoserde::internal::field(value, \"outer\", \"inner\")?, }"
    );
    let text = print_de_named("T", &vec![plan("inner", "outer", Presence::Optional)]);
    assert!(!text.contains("\"inner\""));
}

const ARMS: &str = "                \"A\" => { picoserde::internal::expect_object(value)?; Self::A {} },\n                \"B\" => { picoserde::internal::expect_object(value)?; Self::B { x: picoserde::internal::field(value, \"x\", \"x\")?, } },\n                \"C\" => { let mut items = picoserde::internal::seq_items(value)?; Self::C(picoserde::internal::item(&mut items)?, picoserde::internal::item(&mut items)?, ) },\n                \"D\" => { picoserde::internal::expect_object(value)?; Self::D {} },\n";

#[test]
fn deserializer_of_an_enum() {
    let parsed = match parse_data(&lex("enum E { A, B { x: u8 }, C(u8, String), D() }")).unwrap() {
        Data::Enum(parsed) => parsed,
        _ => panic!("an enum was declared"),
    };
    assert_eq!(
        derive_de_js_enum(&parsed),
        format!(
            "{}E{}let (tag, value) = picoserde::internal::enum_entry(value)?;\n            std::result::Result::Ok(match tag {{\n{}                _ => return std::result::Result::Err(picoserde::DeJsErr::UnknownVariant(tag.to_string())),\n            }}){}",
            DE_HEAD, DE_SIGNATURE, ARMS, DE_TAIL
        )
    );
}

#[test]
fn deserializer_of_an_enum_without_variants() {
    let text = print_de_variants("Never", &Vec::new());
    assert!(text.contains(
        "std::result::Result::Ok(match tag {\n                _ => return std::result::Result::Err("
    ));
}

#[test]
fn derive_serializer_from_tokens() {
    let tokens = lex("pub struct Foo { a: u8 }");
    assert_eq!(
        derive_ser_js(&tokens),
        Ok(format!(
            "{}Foo{}let mut object = self.ser_object();\n            picoserde::internal::put(&mut object, \"a\", &self.a);\n            Value::Object(object){}",
            SER_HEAD, SER_SIGNATURE, SER_TAIL
        ))
    );
}

#[test]
fn derive_serializer_ignores_the_container_default() {
    let plain = derive_ser_js(&lex("struct Foo { a: u8 }")).unwrap();
    let marked = derive_ser_js(&lex("#[picoserde(default)] struct Foo { a: u8 }")).unwrap();
    assert_eq!(plain, marked);
}

#[test]
fn derive_serializer_is_for_named_structs_only() {
    assert_eq!(derive_ser_js(&lex("enum E { A }")), Err(DeriveError::OnlyNamedStructs));
    assert_eq!(derive_ser_js(&lex("struct P(u8);")), Err(DeriveError::OnlyNamedStructs));
    assert_eq!(derive_ser_js(&lex("struct Unit")), Err(DeriveError::OnlyNamedStructs));
    assert!(derive_ser_js(&lex("struct Empty {}")).is_ok());
}

#[test]
fn derive_with_proxy_generates_no_field_logic() {
    let tokens = lex("#[picoserde(proxy = \"Wire\")] struct Foo { a: u8, b: &str }");
    assert_eq!(derive_ser_js(&tokens), Err(DeriveError::Parse(ParseError::ExpectedFieldType)));
    let tokens = lex("#[picoserde(proxy = \"Wire\")] struct Foo { a: u8, b: Option<u8> }");
    assert_eq!(derive_ser_js(&tokens), Ok(derive_ser_js_proxy("Wire", "Foo")));
    assert_eq!(derive_de_js(&tokens), Ok(derive_de_js_proxy("Wire", "Foo")));
    let text = derive_de_js(&tokens).unwrap();
    assert!(!text.contains("internal::field"));
    let text = derive_ser_js(&tokens).unwrap();
    assert!(!text.contains("internal::put"));
    let tokens = lex("#[picoserde(proxy = \"Wire\")] enum E { A, B(u8) }");
    assert_eq!(derive_ser_js(&tokens), Ok(derive_ser_js_proxy("Wire", "E")));
    assert_eq!(derive_de_js(&tokens), Ok(derive_de_js_proxy("Wire", "E")));
    let tokens = lex("#[picoserde(proxy = \"Wire\")] struct P(u8);");
    assert_eq!(derive_ser_js(&tokens), Ok(derive_ser_js_proxy("Wire", "P")));
    assert_eq!(derive_de_js(&tokens), Ok(derive_de_js_proxy("Wire", "P")));
}

#[test]
fn derive_deserializer_from_tokens() {
    let tokens = lex("#[picoserde(default)] pub struct Foo { a: u8 }");
    assert_eq!(
        derive_de_js(&tokens),
        Ok(format!(
            "{}Foo{}std::result::Result::Ok({{ picoserde::internal::expect_object(value)?; Foo {{ a: picoserde::internal::field_or_default(value, \"a\")?, }} }}){}",
            DE_HEAD, DE_SIGNATURE, DE_TAIL
        ))
    );
    let parsed = match parse_data(&lex("enum E { A }")).unwrap() {
        Data::Enum(parsed) => parsed,
        _ => panic!("an enum was declared"),
    };
    assert_eq!(derive_de_js(&lex("enum E { A }")), Ok(derive_de_js_enum(&parsed)));
}

#[test]
fn derive_deserializer_refuses_positional_fields() {
    assert_eq!(derive_de_js(&lex("struct P(u8);")), Err(DeriveError::PositionalFields));
    assert!(derive_de_js(&lex("struct P();")).is_ok());
    assert!(derive_de_js(&lex("struct Unit")).is_ok());
}

#[test]
fn derive_reads_over_a_restricted_visibility() {
    assert_eq!(
        derive_ser_js(&lex("pub(crate) struct Foo { pub(crate) a: u8 }")),
        derive_ser_js(&lex("struct Foo { a: u8 }"))
    );
    assert_eq!(
        derive_de_js(&lex("pub(crate) enum E { A }")),
        derive_de_js(&lex("enum E { A }"))
    );
    assert!(derive_ser_js(&lex("pub(crate) struct Foo { a: u8 }")).is_ok());
}

#[test]
fn derive_reports_grammar_errors() {
    assert_eq!(
        derive_ser_js(&lex("union U { a: u8 }")),
        Err(DeriveError::Parse(ParseError::UnsupportedUnion))
    );
    assert_eq!(
        derive_de_js(&lex("union U { a: u8 }")),
        Err(DeriveError::Parse(ParseError::UnsupportedUnion))
    );
    assert_eq!(
        derive_de_js(&lex("struct A { a: u8 } extra")),
        Err(DeriveError::Parse(ParseError::TrailingTokens))
    );
    assert_eq!(
        derive_ser_js(&lex("struct A { a: [u8; 4] }")),
        Err(DeriveError::Parse(ParseError::ExpectedFieldType))
    );
}

#[test]
fn named_fields_are_told_from_positional_ones() {
    let named = field("a", "u8", false, Vec::new());
    let positional = Field {
        attributes: Vec::new(),
        vis: Visibility::Public,
        field_name: None,
        ty: Type { is_option: false, path: "u8".to_string() },
    };
    assert!(fields_all_named(&[]));
    assert!(fields_all_named(&[field("a", "u8", false, Vec::new())]));
    assert!(!fields_all_named(&[field("a", "u8", false, Vec::new()), positional.clone_field()]));
    let tuple = EnumVariant { name: "T".to_string(), named: false, fields: vec![positional.clone_field()] };
    let record = EnumVariant { name: "R".to_string(), named: true, fields: vec![named] };
    let broken = EnumVariant { name: "B".to_string(), named: true, fields: vec![positional] };
    assert!(variants_all_named(&[]));
    assert!(variants_all_named(&[tuple, record]));
    assert!(!variants_all_named(&[broken]));
}

trait CloneField {
    fn clone_field(&self) -> Field;
}

impl CloneField for Field {
    fn clone_field(&self) -> Field {
        Field {
            attributes: Vec::new(),
            vis: Visibility::Public,
            field_name: self.field_name.clone(),
            ty: Type { is_option: self.ty.is_option, path: self.ty.path.clone() },
        }
    }
}

#[test]
fn errors_name_the_unmet_expectation() {
    assert_eq!(ParseError::ExpectedSecondColon.message(), "Expecting second :");
    assert_eq!(ParseError::ExpectedPathSegment.message(), "Expecting next path part after ::");
    assert_eq!(ParseError::ExpectedGenericArgument.message(), "Expecting generic argument");
    assert_eq!(ParseError::ExpectedClosingBracket.message(), "Expecting closing generic bracket");
    assert_eq!(ParseError::ExpectedAttributeBody.message(), "Expecting attribute body");
    assert_eq!(ParseError::ExpectedAttributeName.message(), "Attributes should start with a name");
    assert_eq!(ParseError::ExpectedArgumentName.message(), "Expecting attribute name");
    assert_eq!(
        ParseError::ExpectedEquals.message(),
        "Expecting = after attribute argument name"
    );
    assert_eq!(ParseError::ExpectedArgumentValue.message(), "Expecting argument value");
    assert_eq!(ParseError::ExpectedFieldName.message(), "Field name expected");
    assert_eq!(ParseError::ExpectedFieldSeparator.message(), "Delimiter after field name expected");
    assert_eq!(ParseError::ExpectedFieldType.message(), "Expected field type");
    assert_eq!(ParseError::ExpectedStructName.message(), "Unnamed structs are not supported");
    assert_eq!(ParseError::UnsupportedDelimiter.message(), "Unsupported delimiter");
    assert_eq!(ParseError::ExpectedSemicolon.message(), "Expected ; on the end of tuple struct");
    assert_eq!(ParseError::ExpectedEnumName.message(), "Unnamed enums are not supported");
    assert_eq!(ParseError::ExpectedVariantName.message(), "Unnamed variants are not supported");
    assert_eq!(ParseError::ExpectedKeyword.message(), "Not an ident");
    assert_eq!(ParseError::UnsupportedUnion.message(), "Unions are not supported");
    assert_eq!(ParseError::UnexpectedKeyword.message(), "Unexpected keyword");
    assert_eq!(
        ParseError::TrailingTokens.message(),
        "Unexpected data after end of the declaration"
    );
    assert_eq!(
        DeriveError::Parse(ParseError::UnsupportedUnion).message(),
        "Unions are not supported"
    );
    assert_eq!(DeriveError::OnlyNamedStructs.message(), "Only named structs are supported");
    assert_eq!(DeriveError::PositionalFields.message(), "Positional fields are not supported");
}
