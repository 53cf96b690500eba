use picoserde::internal::{
    enum_entry, expect_object, field, field_optional, field_or_default, item, label, obj_get, put,
    put_optional, seq_items,
};
use picoserde::numbers::{is_safe_integer, MAX_SAFE_INTEGER};
use picoserde::{from_value, to_value, DeJs, DeJsErr, Object, SerJs, StringMap, Value};

fn text(s: &str) -> Value {
    Value::String(s.to_string())
}

fn object(entries: Vec<(&str, Value)>) -> Value {
    Value::Object(Object {
        entries: entries.into_iter().map(|(key, value)| (key.to_string(), value)).collect(),
    })
}

#[test]
fn booleans_are_written_and_read() {
    assert_eq!(true.ser_js(), Value::Bool(true));
    assert_eq!(false.ser_js(), Value::Bool(false));
    assert_eq!(bool::de_js(&Value::Bool(true)), Ok(true));
    assert_eq!(bool::de_js(&Value::Number(1)), Err(DeJsErr::TypeMismatch));
    assert_eq!(bool::de_js(&Value::Null), Err(DeJsErr::TypeMismatch));
}

#[test]
fn strings_are_written_and_read() {
    assert_eq!("h\u{e9}".to_string().ser_js(), text("h\u{e9}"));
    assert_eq!(String::de_js(&text("abc")), Ok("abc".to_string()));
    assert_eq!(String::de_js(&Value::Number(3)), Err(DeJsErr::TypeMismatch));
}

#[test]
fn integers_are_written_as_whole_numbers() {
    assert_eq!(200u8.ser_js(), Value::Number(200));
    assert_eq!(u64::MAX.ser_js(), Value::Number(18446744073709551615));
    assert_eq!(i64::MIN.ser_js(), Value::Number(-9223372036854775808));
    assert_eq!((-1i8).ser_js(), Value::Number(-1));
    assert_eq!(usize::MAX.ser_js(), Value::Number(usize::MAX as i128));
    assert_eq!(7u16.ser_js(), Value::Number(7));
    assert_eq!(7u32.ser_js(), Value::Number(7));
    assert_eq!((-7i16).ser_js(), Value::Number(-7));
    assert_eq!((-7i32).ser_js(), Value::Number(-7));
}

#[test]
fn integers_are_read_inside_their_range() {
    assert_eq!(u8::de_js(&Value::Number(0)), Ok(0));
    assert_eq!(u8::de_js(&Value::Number(255)), Ok(255));
    assert_eq!(u16::de_js(&Value::Number(65535)), Ok(65535));
    assert_eq!(u32::de_js(&Value::Number(4294967295)), Ok(4294967295));
    assert_eq!(u64::de_js(&Value::Number(18446744073709551615)), Ok(u64::MAX));
    assert_eq!(usize::de_js(&Value::Number(usize::MAX as i128)), Ok(usize::MAX));
    assert_eq!(i8::de_js(&Value::Number(-128)), Ok(-128));
    assert_eq!(i8::de_js(&Value::Number(127)), Ok(127));
    assert_eq!(i16::de_js(&Value::Number(-32768)), Ok(-32768));
    assert_eq!(i32::de_js(&Value::Number(-2147483648)), Ok(i32::MIN));
    assert_eq!(i64::de_js(&Value::Number(9223372036854775807)), Ok(i64::MAX));
}

#[test]
fn integers_outside_their_range_overflow() {
    assert_eq!(u8::de_js(&Value::Number(256)), Err(DeJsErr::NumericOverflow));
    assert_eq!(u8::de_js(&Value::Number(-1)), Err(DeJsErr::NumericOverflow));
    assert_eq!(u16::de_js(&Value::Number(65536)), Err(DeJsErr::NumericOverflow));
    assert_eq!(u32::de_js(&Value::Number(4294967296)), Err(DeJsErr::NumericOverflow));
    assert_eq!(u64::de_js(&Value::Number(18446744073709551616)), Err(DeJsErr::NumericOverflow));
    assert_eq!(u64::de_js(&Value::Number(-1)), Err(DeJsErr::NumericOverflow));
    assert_eq!(usize::de_js(&Value::Number(usize::MAX as i128 + 1)), Err(DeJsErr::NumericOverflow));
    assert_eq!(i8::de_js(&Value::Number(128)), Err(DeJsErr::NumericOverflow));
    assert_eq!(i8::de_js(&Value::Number(-129)), Err(DeJsErr::NumericOverflow));
    assert_eq!(i16::de_js(&Value::Number(32768)), Err(DeJsErr::NumericOverflow));
    assert_eq!(i32::de_js(&Value::Number(2147483648)), Err(DeJsErr::NumericOverflow));
    assert_eq!(i64::de_js(&Value::Number(9223372036854775808)), Err(DeJsErr::NumericOverflow));
    assert_eq!(i64::de_js(&Value::Number(i128::MIN)), Err(DeJsErr::NumericOverflow));
    assert_eq!(u8::de_js(&Value::Number(256 + 7)), Err(DeJsErr::NumericOverflow));
}

#[test]
fn integers_are_read_from_whole_numbers_only() {
    assert_eq!(u8::de_js(&text("1")), Err(DeJsErr::TypeMismatch));
    assert_eq!(i64::de_js(&Value::Bool(true)), Err(DeJsErr::TypeMismatch));
    assert_eq!(u32::de_js(&Value::Null), Err(DeJsErr::TypeMismatch));
    assert_eq!(u32::de_js(&Value::Float(1.5f64.to_bits())), Err(DeJsErr::TypeMismatch));
}

#[test]
fn optional_is_null_when_empty() {
    assert_eq!(None::<u8>.ser_js(), Value::Null);
    assert_eq!(Some(3u8).ser_js(), Value::Number(3));
    assert_eq!(Option::<u8>::de_js(&Value::Null), Ok(None));
    assert_eq!(Option::<u8>::de_js(&Value::Number(3)), Ok(Some(3)));
    assert_eq!(Option::<u8>::de_js(&Value::Number(300)), Err(DeJsErr::NumericOverflow));
    assert_eq!(Option::<u8>::de_js(&text("x")), Err(DeJsErr::TypeMismatch));
    assert_eq!(Some(None::<u8>).ser_js(), Value::Null);
    assert_eq!(Option::<Option<u8>>::de_js(&Value::Null), Ok(None));
}

#[test]
fn sequences_keep_their_order() {
    assert_eq!(
        vec![1u8, 2, 3].ser_js(),
        Value::Array(vec![Value::Number(1), Value::Number(2), Value::Number(3)])
    );
    assert_eq!(Vec::<u8>::new().ser_js(), Value::Array(Vec::new()));
    assert_eq!([true, false][..].ser_js(), Value::Array(vec![Value::Bool(true), Value::Bool(false)]));
    assert_eq!(
        Vec::<u8>::de_js(&Value::Array(vec![Value::Number(1), Value::Number(2)])),
        Ok(vec![1, 2])
    );
    assert_eq!(Vec::<u8>::de_js(&Value::Array(Vec::new())), Ok(Vec::new()));
    assert_eq!(Vec::<u8>::de_js(&Value::Number(1)), Err(DeJsErr::TypeMismatch));
    assert_eq!(Vec::<u8>::de_js(&object(Vec::new())), Err(DeJsErr::TypeMismatch));
}

#[test]
fn sequences_fail_with_their_first_bad_item() {
    let items = Value::Array(vec![Value::Number(1), Value::Number(900), text("x")]);
    assert_eq!(Vec::<u8>::de_js(&items), Err(DeJsErr::NumericOverflow));
    let items = Value::Array(vec![Value::Number(1), text("x"), Value::Number(900)]);
    assert_eq!(Vec::<u8>::de_js(&items), Err(DeJsErr::TypeMismatch));
}

#[test]
fn tuples_are_sequences() {
    assert_eq!(
        (1u8, "a".to_string()).ser_js(),
        Value::Array(vec![Value::Number(1), text("a")])
    );
    assert_eq!(
        (1u8, true, -2i32).ser_js(),
        Value::Array(vec![Value::Number(1), Value::Bool(true), Value::Number(-2)])
    );
    assert_eq!(
        (1u8, 2u8, 3u8, 4u8).ser_js(),
        Value::Array(vec![Value::Number(1), Value::Number(2), Value::Number(3), Value::Number(4)])
    );
    let pair = Value::Array(vec![Value::Number(1), text("a")]);
    assert_eq!(<(u8, String)>::de_js(&pair), Ok((1, "a".to_string())));
    let triple = Value::Array(vec![Value::Number(1), Value::Bool(true), Value::Number(-2)]);
    assert_eq!(<(u8, bool, i32)>::de_js(&triple), Ok((1, true, -2)));
    let four = Value::Array(vec![Value::Number(1), Value::Number(2), Value::Number(3), Value::Number(4)]);
    assert_eq!(<(u8, u8, u8, u8)>::de_js(&four), Ok((1, 2, 3, 4)));
}

#[test]
fn tuples_read_null_past_the_end_and_ignore_what_is_left() {
    let short = Value::Array(vec![Value::Number(1)]);
    assert_eq!(<(u8, Option<u8>)>::de_js(&short), Ok((1, None)));
    assert_eq!(<(u8, u8)>::de_js(&short), Err(DeJsErr::TypeMismatch));
    let long = Value::Array(vec![Value::Number(1), Value::Number(2), Value::Number(3)]);
    assert_eq!(<(u8, u8)>::de_js(&long), Ok((1, 2)));
    assert_eq!(<(u8, u8)>::de_js(&Value::Number(1)), Err(DeJsErr::TypeMismatch));
    assert_eq!(<(u8, u8, u8)>::de_js(&Value::Null), Err(DeJsErr::TypeMismatch));
    assert_eq!(<(u8, u8, u8, u8)>::de_js(&text("x")), Err(DeJsErr::TypeMismatch));
}

#[test]
fn tuples_fail_with_their_first_bad_part() {
    let items = Value::Array(vec![Value::Number(900), text("x")]);
    assert_eq!(<(u8, u8)>::de_js(&items), Err(DeJsErr::NumericOverflow));
    let items = Value::Array(vec![Value::Number(1), text("x"), Value::Number(900)]);
    assert_eq!(<(u8, u8, u8)>::de_js(&items), Err(DeJsErr::TypeMismatch));
    let items = Value::Array(vec![Value::Number(1), Value::Number(2), Value::Number(900), text("x")]);
    assert_eq!(<(u8, u8, u8, u8)>::de_js(&items), Err(DeJsErr::NumericOverflow));
    let items = Value::Array(vec![Value::Number(1), Value::Number(2), Value::Number(3), text("x")]);
    assert_eq!(<(u8, u8, u8, u8)>::de_js(&items), Err(DeJsErr::TypeMismatch));
}

#[test]
fn boxes_are_transparent() {
    assert_eq!(Box::new(5u8).ser_js(), Value::Number(5));
    assert_eq!(Box::<u8>::de_js(&Value::Number(5)), Ok(Box::new(5)));
    assert_eq!(Box::<u8>::de_js(&Value::Number(500)), Err(DeJsErr::NumericOverflow));
}

#[test]
fn top_level_conversions() {
    assert_eq!(to_value(&vec![Some(1u8), None]), Ok(Value::Array(vec![Value::Number(1), Value::Null])));
    assert_eq!(from_value::<Vec<Option<u8>>>(Value::Array(vec![Value::Number(1), Value::Null])), Ok(vec![Some(1), None]));
    assert_eq!(from_value::<u8>(Value::Number(-1)), Err(DeJsErr::NumericOverflow));
    assert_eq!(5u8.serialize_js(), Value::Number(5));
}

#[test]
fn provided_methods_of_the_trait() {
    assert_eq!(5u8.label("key"), text("key"));
    assert_eq!(5u8.ser_object(), Object { entries: Vec::new() });
    assert_eq!(label("key"), text("key"));
}

#[test]
fn mapping_sets_and_gets() {
    let mut map = Object::new();
    assert_eq!(map.len(), 0);
    assert_eq!(map.get("a"), None);
    map.set("a", Value::Number(1));
    map.set("b", Value::Number(2));
    assert_eq!(map.len(), 2);
    assert_eq!(map.get("a"), Some(&Value::Number(1)));
    assert_eq!(map.get("b"), Some(&Value::Number(2)));
    assert_eq!(map.get("c"), None);
    assert_eq!(map.get(""), None);
    map.set("a", Value::Null);
    assert_eq!(map.len(), 2);
    assert_eq!(map.get("a"), Some(&Value::Null));
    assert_eq!(
        map.entries,
        vec![("a".to_string(), Value::Null), ("b".to_string(), Value::Number(2))]
    );
}

#[test]
fn values_are_copied_whole() {
    let value = object(vec![
        ("a", Value::Array(vec![Value::Number(1), text("x"), Value::Null])),
        ("b", object(vec![("c", Value::Bool(true)), ("d", Value::Float(7))])),
    ]);
    assert_eq!(value.duplicate(), value);
    assert_eq!(value.clone(), value);
    assert_eq!(Value::Null.duplicate(), Value::Null);
}

#[test]
fn lookup_in_a_mapping() {
    let value = object(vec![("a", Value::Number(1))]);
    assert_eq!(obj_get(&value, "a"), Ok(Some(&Value::Number(1))));
    assert_eq!(obj_get(&value, "b"), Ok(None));
    assert_eq!(obj_get(&Value::Null, "a"), Err(DeJsErr::TypeMismatch));
    assert_eq!(obj_get(&Value::Array(Vec::new()), "a"), Err(DeJsErr::TypeMismatch));
    assert_eq!(expect_object(&value), Ok(()));
    assert_eq!(expect_object(&object(Vec::new())), Ok(()));
    assert_eq!(expect_object(&Value::Array(Vec::new())), Err(DeJsErr::TypeMismatch));
    assert_eq!(expect_object(&Value::Null), Err(DeJsErr::TypeMismatch));
}

#[test]
fn enum_entry_needs_one_key() {
    let value = object(vec![("A", Value::Number(1))]);
    assert_eq!(enum_entry(&value), Ok(("A", &Value::Number(1))));
    assert_eq!(enum_entry(&object(Vec::new())), Err(DeJsErr::TypeMismatch));
    let two = object(vec![("A", Value::Null), ("B", Value::Null)]);
    assert_eq!(enum_entry(&two), Err(DeJsErr::TypeMismatch));
    assert_eq!(enum_entry(&text("A")), Err(DeJsErr::TypeMismatch));
}

#[test]
fn sequence_items_come_from_the_front() {
    let value = Value::Array(vec![Value::Number(1), Value::Number(2)]);
    let mut items = seq_items(&value).unwrap();
    assert_eq!(items.next_item(), Ok(&Value::Number(1)));
    assert_eq!(items.next_item(), Ok(&Value::Number(2)));
    assert_eq!(items.next_item(), Err(DeJsErr::TypeMismatch));
    assert_eq!(items.next_item(), Err(DeJsErr::TypeMismatch));
    assert!(seq_items(&Value::Null).is_err());
    assert!(seq_items(&object(Vec::new())).is_err());
}

#[test]
fn errors_in_words() {
    assert_eq!(DeJsErr::MissingField("a".to_string()).message(), "missing required field: a");
    assert_eq!(DeJsErr::UnknownVariant("Z".to_string()).message(), "unknown variant: Z");
    assert_eq!(DeJsErr::TypeMismatch.message(), "type mismatch");
    assert_eq!(DeJsErr::NumericOverflow.message(), "numeric overflow");
    assert_eq!(DeJsErr::new("broken").message(), "broken");
    assert_eq!(DeJsErr::new("broken"), DeJsErr::Custom("broken".to_string()));
}

// What the generators print for
//
//     struct Sample {
//         #[picoserde(rename = "x")] a: u8,
//         b: Option<String>,
//         #[picoserde(default)] c: Vec<u8>,
//     }
#[derive(Debug, PartialEq)]
struct Sample {
    a: u8,
    b: Option<String>,
    c: Vec<u8>,
}

const _: () = {
    impl SerJs for Sample {
        fn ser_js(&self) -> Value {
            let mut object = self.ser_object();
            picoserde::internal::put(&mut object, "x", &self.a);
            picoserde::internal::put_optional(&mut object, "b", &self.b);
            picoserde::internal::put(&mut object, "c", &self.c);
            Value::Object(object)
        }
    }
};

const _: () = {
    impl DeJs for Sample {
        fn de_js(value: &Value) -> std::result::Result<Self, picoserde::DeJsErr> {
            std::result::Result::Ok({ picoserde::internal::expect_object(value)?; Sample { a: picoserde::internal::field(value, "x", "a")?, b: picoserde::internal::field_optional(value, "b")?, c: picoserde::internal::field_or_default(value, "c")?, } })
        }
    }
};

#[test]
fn generated_routines_round_trip() {
    let full = Sample { a: 7, b: Some("text".to_string()), c: vec![1, 2] };
    assert_eq!(Sample::de_js(&full.ser_js()), Ok(full));
    let sparse = Sample { a: 0, b: None, c: Vec::new() };
    assert_eq!(Sample::de_js(&sparse.ser_js()), Ok(sparse));
}

#[test]
fn generated_serializer_leaves_an_empty_optional_out() {
    let sparse = Sample { a: 1, b: None, c: vec![9] };
    assert_eq!(
        sparse.ser_js(),
        object(vec![("x", Value::Number(1)), ("c", Value::Array(vec![Value::Number(9)]))])
    );
    let full = Sample { a: 1, b: Some("s".to_string()), c: Vec::new() };
    assert_eq!(
        full.ser_js(),
        object(vec![("x", Value::Number(1)), ("b", text("s")), ("c", Value::Array(Vec::new()))])
    );
}

#[test]
fn generated_deserializer_reads_a_missing_optional_as_empty() {
    let value = object(vec![("x", Value::Number(1)), ("c", Value::Array(Vec::new()))]);
    assert_eq!(Sample::de_js(&value), Ok(Sample { a: 1, b: None, c: Vec::new() }));
    let value = object(vec![("x", Value::Number(1)), ("b", Value::Null)]);
    assert_eq!(Sample::de_js(&value), Ok(Sample { a: 1, b: None, c: Vec::new() }));
}

#[test]
fn generated_deserializer_substitutes_the_default() {
    let value = object(vec![("x", Value::Number(1))]);
    assert_eq!(Sample::de_js(&value), Ok(Sample { a: 1, b: None, c: Vec::new() }));
}

#[test]
fn generated_deserializer_fails_on_a_missing_required_field() {
    let value = object(vec![("c", Value::Array(Vec::new()))]);
    assert_eq!(Sample::de_js(&value), Err(DeJsErr::MissingField("a".to_string())));
    assert_eq!(Sample::de_js(&object(Vec::new())), Err(DeJsErr::MissingField("a".to_string())));
}

#[test]
fn generated_routines_use_the_renamed_key_only() {
    let value = object(vec![("a", Value::Number(1))]);
    assert_eq!(Sample::de_js(&value), Err(DeJsErr::MissingField("a".to_string())));
    let value = object(vec![("a", Value::Number(1)), ("x", Value::Number(2))]);
    assert_eq!(Sample::de_js(&value).unwrap().a, 2);
    let written = Sample { a: 5, b: None, c: Vec::new() }.ser_js();
    assert_eq!(obj_get(&written, "a"), Ok(None));
    assert_eq!(obj_get(&written, "x"), Ok(Some(&Value::Number(5))));
}

#[test]
fn generated_deserializer_passes_nested_failures_on() {
    let value = object(vec![("x", Value::Number(300))]);
    assert_eq!(Sample::de_js(&value), Err(DeJsErr::NumericOverflow));
    let value = object(vec![("x", text("1"))]);
    assert_eq!(Sample::de_js(&value), Err(DeJsErr::TypeMismatch));
    let value = object(vec![("x", Value::Number(1)), ("c", Value::Array(vec![Value::Number(-1)]))]);
    assert_eq!(Sample::de_js(&value), Err(DeJsErr::NumericOverflow));
    assert_eq!(Sample::de_js(&Value::Null), Err(DeJsErr::TypeMismatch));
    assert_eq!(Sample::de_js(&Value::Array(Vec::new())), Err(DeJsErr::TypeMismatch));
    let nested = Value::Array(vec![object(vec![("x", Value::Number(1))]), object(Vec::new())]);
    assert_eq!(Vec::<Sample>::de_js(&nested), Err(DeJsErr::MissingField("a".to_string())));
}

// What the generator prints for
//
//     enum Shape { Dot, Circle { radius: u32 }, Line(u32, Option<u32>), Gap() }
#[derive(Debug, PartialEq)]
enum Shape {
    Dot,
    Circle { radius: u32 },
    Line(u32, Option<u32>),
    Gap(),
}

const _: () = {
    impl DeJs for Shape {
        fn de_js(value: &Value) -> std::result::Result<Self, picoserde::DeJsErr> {
            let (tag, value) = picoserde::internal::enum_entry(value)?;
            std::result::Result::Ok(match tag {
                "Dot" => { picoserde::internal::expect_object(value)?; Self::Dot {} },
                "Circle" => { picoserde::internal::expect_object(value)?; Self::Circle { radius: picoserde::internal::field(value, "radius", "radius")?, } },
                "Line" => { let mut items = picoserde::internal::seq_items(value)?; Self::Line(picoserde::internal::item(&mut items)?, picoserde::internal::item(&mut items)?, ) },
                "Gap" => { picoserde::internal::expect_object(value)?; Self::Gap {} },
                _ => return std::result::Result::Err(picoserde::DeJsErr::UnknownVariant(tag.to_string())),
            })
        }
    }
};

#[test]
fn generated_enum_reader_selects_the_variant() {
    let dot = object(vec![("Dot", object(Vec::new()))]);
    assert_eq!(Shape::de_js(&dot), Ok(Shape::Dot));
    let circle = object(vec![("Circle", object(vec![("radius", Value::Number(3))]))]);
    assert_eq!(Shape::de_js(&circle), Ok(Shape::Circle { radius: 3 }));
    let line = object(vec![("Line", Value::Array(vec![Value::Number(1), Value::Number(2)]))]);
    assert_eq!(Shape::de_js(&line), Ok(Shape::Line(1, Some(2))));
    let line = object(vec![("Line", Value::Array(vec![Value::Number(1), Value::Null, text("more")]))]);
    assert_eq!(Shape::de_js(&line), Ok(Shape::Line(1, None)));
    let gap = object(vec![("Gap", object(Vec::new()))]);
    assert_eq!(Shape::de_js(&gap), Ok(Shape::Gap()));
}

#[test]
fn generated_enum_reader_refuses_an_unknown_variant() {
    let value = object(vec![("NoSuchVariant", object(Vec::new()))]);
    assert_eq!(Shape::de_js(&value), Err(DeJsErr::UnknownVariant("NoSuchVariant".to_string())));
    let value = object(vec![("dot", Value::Null)]);
    assert_eq!(Shape::de_js(&value), Err(DeJsErr::UnknownVariant("dot".to_string())));
}

#[test]
fn generated_enum_reader_checks_the_payload() {
    let value = object(vec![("Dot", Value::Null)]);
    assert_eq!(Shape::de_js(&value), Err(DeJsErr::TypeMismatch));
    let value = object(vec![("Circle", object(Vec::new()))]);
    assert_eq!(Shape::de_js(&value), Err(DeJsErr::MissingField("radius".to_string())));
    let value = object(vec![("Circle", Value::Array(vec![Value::Number(3)]))]);
    assert_eq!(Shape::de_js(&value), Err(DeJsErr::TypeMismatch));
    let value = object(vec![("Line", Value::Array(vec![Value::Number(1)]))]);
    assert_eq!(Shape::de_js(&value), Err(DeJsErr::TypeMismatch));
    let value = object(vec![("Line", object(Vec::new()))]);
    assert_eq!(Shape::de_js(&value), Err(DeJsErr::TypeMismatch));
    assert_eq!(Shape::de_js(&text("Dot")), Err(DeJsErr::TypeMismatch));
    assert_eq!(Shape::de_js(&object(Vec::new())), Err(DeJsErr::TypeMismatch));
    let two = object(vec![("Dot", object(Vec::new())), ("Gap", object(Vec::new()))]);
    assert_eq!(Shape::de_js(&two), Err(DeJsErr::TypeMismatch));
}

// What the generators print for
//
//     #[picoserde(proxy = "Wire")]
//     struct Account { id: u32, name: String, secret: String }
//
// next to a proxy with fewer fields.
#[derive(Debug, PartialEq, Clone)]
struct Account {
    id: u32,
    name: String,
    secret: String,
}

#[derive(Debug, PartialEq)]
struct Wire {
    id: u32,
    name: String,
}

impl From<&Account> for Wire {
    fn from(account: &Account) -> Wire {
        Wire { id: account.id, name: account.name.clone() }
    }
}

impl From<&Wire> for Account {
    fn from(wire: &Wire) -> Account {
        Account { id: wire.id, name: wire.name.clone(), secret: String::new() }
    }
}

const _: () = {
    impl SerJs for Wire {
        fn ser_js(&self) -> Value {
            let mut object = self.ser_object();
            picoserde::internal::put(&mut object, "id", &self.id);
            picoserde::internal::put(&mut object, "name", &self.name);
            Value::Object(object)
        }
    }
};

const _: () = {
    impl DeJs for Wire {
        fn de_js(value: &Value) -> std::result::Result<Self, picoserde::DeJsErr> {
            std::result::Result::Ok({ picoserde::internal::expect_object(value)?; Wire { id: picoserde::internal::field(value, "id", "id")?, name: picoserde::internal::field(value, "name", "name")?, } })
        }
    }
};

const _: () = {
    impl SerJs for Account {
        fn ser_js(&self) -> Value {
            let proxy: Wire = self.into();
            proxy.ser_js()
        }
    }
};

const _: () = {
    impl DeJs for Account {
        fn de_js(value: &Value) -> std::result::Result<Self, picoserde::DeJsErr> {
            let proxy: Wire = DeJs::de_js(value)?;
            std::result::Result::Ok(Into::into(&proxy))
        }
    }
};

#[test]
fn generated_proxy_routines_go_through_the_proxy() {
    let account = Account { id: 9, name: "n".to_string(), secret: "s".to_string() };
    assert_eq!(account.ser_js(), Wire::from(&account).ser_js());
    assert_eq!(account.ser_js(), object(vec![("id", Value::Number(9)), ("name", text("n"))]));
    let value = object(vec![("id", Value::Number(9)), ("name", text("n")), ("secret", text("s"))]);
    assert_eq!(
        Account::de_js(&value),
        Ok(Account::from(&Wire::de_js(&value).unwrap()))
    );
    assert_eq!(
        Account::de_js(&value),
        Ok(Account { id: 9, name: "n".to_string(), secret: String::new() })
    );
    let value = object(vec![("id", Value::Number(9))]);
    assert_eq!(Account::de_js(&value), Err(DeJsErr::MissingField("name".to_string())));
    assert_eq!(Account::de_js(&value).err(), Wire::de_js(&value).err());
}

#[test]
fn string_maps_are_mappings() {
    let mut map = StringMap::new();
    assert_eq!(map.len(), 0);
    map.insert("a".to_string(), 1u8);
    map.insert("b".to_string(), 2u8);
    map.insert("a".to_string(), 3u8);
    assert_eq!(map.len(), 2);
    assert_eq!(map.get("a"), Some(&3));
    assert_eq!(map.get("b"), Some(&2));
    assert_eq!(map.get("c"), None);
    assert_eq!(map.entries, vec![("a".to_string(), 3), ("b".to_string(), 2)]);
    assert_eq!(map.ser_js(), object(vec![("a", Value::Number(3)), ("b", Value::Number(2))]));
    assert_eq!(StringMap::<u8>::de_js(&map.ser_js()), Ok(map));
    assert_eq!(StringMap::<u8>::new().ser_js(), object(Vec::new()));
}

#[test]
fn string_maps_are_read_out_of_mappings_only() {
    let value = object(vec![("k", text("v")), ("", Value::Null)]);
    assert_eq!(
        StringMap::<Option<String>>::de_js(&value),
        Ok(StringMap { entries: vec![("k".to_string(), Some("v".to_string())), (String::new(), None)] })
    );
    assert_eq!(StringMap::<u8>::de_js(&Value::Array(Vec::new())), Err(DeJsErr::TypeMismatch));
    assert_eq!(StringMap::<u8>::de_js(&Value::Null), Err(DeJsErr::TypeMismatch));
    let value = object(vec![("a", Value::Number(1)), ("b", Value::Number(900)), ("c", text("x"))]);
    assert_eq!(StringMap::<u8>::de_js(&value), Err(DeJsErr::NumericOverflow));
    let value = object(vec![("a", Value::Number(1)), ("b", text("x")), ("c", Value::Number(900))]);
    assert_eq!(StringMap::<u8>::de_js(&value), Err(DeJsErr::TypeMismatch));
}

#[test]
fn fields_are_put_under_their_keys() {
    let mut map = Object::new();
    put(&mut map, "a", &7u8);
    put(&mut map, "b", &"s".to_string());
    put(&mut map, "a", &8u8);
    assert_eq!(Value::Object(map), object(vec![("a", Value::Number(8)), ("b", text("s"))]));
}

#[test]
fn empty_optional_fields_are_not_put() {
    let mut map = Object::new();
    put_optional(&mut map, "a", &None::<u8>);
    assert_eq!(map.len(), 0);
    assert_eq!(map.get("a"), None);
    put_optional(&mut map, "a", &Some(7u8));
    assert_eq!(map.get("a"), Some(&Value::Number(7)));
    put_optional(&mut map, "a", &None::<u8>);
    assert_eq!(map.get("a"), Some(&Value::Number(7)));
}

#[test]
fn required_field_must_be_there() {
    let source = object(vec![("k", Value::Number(7))]);
    assert_eq!(field::<u8>(&source, "k", "member"), Ok(7));
    assert_eq!(
        field::<u8>(&source, "member", "member"),
        Err(DeJsErr::MissingField("member".to_string()))
    );
    assert_eq!(field::<String>(&source, "k", "member"), Err(DeJsErr::TypeMismatch));
    assert_eq!(field::<u8>(&Value::Null, "k", "member"), Err(DeJsErr::TypeMismatch));
    let source = object(vec![("k", Value::Number(700))]);
    assert_eq!(field::<u8>(&source, "k", "member"), Err(DeJsErr::NumericOverflow));
}

#[test]
fn optional_field_may_be_missing() {
    let source = object(vec![("k", Value::Number(7)), ("n", Value::Null)]);
    assert_eq!(field_optional::<u8>(&source, "k"), Ok(Some(7)));
    assert_eq!(field_optional::<u8>(&source, "missing"), Ok(None));
    assert_eq!(field_optional::<u8>(&source, "n"), Ok(None));
    assert_eq!(field_optional::<String>(&source, "k"), Err(DeJsErr::TypeMismatch));
    assert_eq!(field_optional::<u8>(&Value::Array(Vec::new()), "k"), Err(DeJsErr::TypeMismatch));
}

#[test]
fn defaulted_field_takes_the_default_when_missing() {
    let source = object(vec![("k", Value::Number(7))]);
    assert_eq!(field_or_default::<u8>(&source, "k"), Ok(7));
    assert_eq!(field_or_default::<u8>(&source, "missing"), Ok(0));
    assert_eq!(field_or_default::<String>(&source, "missing"), Ok(String::new()));
    assert_eq!(field_or_default::<Vec<u8>>(&source, "missing"), Ok(Vec::new()));
    assert_eq!(field_or_default::<bool>(&source, "missing"), Ok(false));
    assert_eq!(field::<u8>(&source, "missing", "m"), Err(DeJsErr::MissingField("m".to_string())));
    assert_eq!(field_or_default::<String>(&source, "k"), Err(DeJsErr::TypeMismatch));
    assert_eq!(field_or_default::<u8>(&text("x"), "k"), Err(DeJsErr::TypeMismatch));
}

#[test]
fn positional_items_are_read_in_order() {
    let value = Value::Array(vec![Value::Number(1), text("two")]);
    let mut items = seq_items(&value).unwrap();
    assert_eq!(item::<u8>(&mut items), Ok(1));
    assert_eq!(item::<String>(&mut items), Ok("two".to_string()));
    assert_eq!(item::<u8>(&mut items), Err(DeJsErr::TypeMismatch));
    let mut items = seq_items(&value).unwrap();
    assert_eq!(item::<String>(&mut items), Err(DeJsErr::TypeMismatch));
    assert_eq!(item::<String>(&mut items), Ok("two".to_string()));
}

#[test]
fn generated_routines_round_trip_through_the_top_level() {
    let full = Sample { a: 255, b: Some("text".to_string()), c: vec![0, 255] };
    let written = to_value(&full).unwrap();
    assert_eq!(from_value::<Sample>(written), Ok(full));
    let sparse = Sample { a: 0, b: None, c: Vec::new() };
    let written = to_value(&sparse).unwrap();
    assert_eq!(obj_get(&written, "b"), Ok(None));
    assert_eq!(from_value::<Sample>(written), Ok(sparse));
    let account = Account { id: 1, name: "n".to_string(), secret: String::new() };
    assert_eq!(from_value::<Account>(to_value(&account).unwrap()), Ok(account));
    let many = vec![
        Sample { a: 1, b: None, c: vec![1] },
        Sample { a: 2, b: Some(String::new()), c: Vec::new() },
    ];
    let written = to_value(&many).unwrap();
    assert_eq!(from_value::<Vec<Sample>>(written), Ok(many));
}

#[test]
fn whole_numbers_that_doubles_hold_exactly() {
    assert_eq!(MAX_SAFE_INTEGER, 9007199254740991);
    assert_eq!(MAX_SAFE_INTEGER, (1i128 << 53) - 1);
    assert!(is_safe_integer(0));
    assert!(is_safe_integer(9007199254740991));
    assert!(is_safe_integer(-9007199254740991));
    assert!(!is_safe_integer(9007199254740992));
    assert!(!is_safe_integer(-9007199254740992));
    assert!(!is_safe_integer(u64::MAX as i128));
    assert!(!is_safe_integer(i64::MIN as i128));
    assert!(is_safe_integer(u32::MAX as i128));
    assert!(!is_safe_integer(i128::MAX));
    assert!(!is_safe_integer(i128::MIN));
}
