use vda5050_types::ParameterValue;
use vda5050_types::WireValue;

fn float_value(text: &str) -> WireValue {
    WireValue::Float(String::from(text))
}

#[test]
fn decode_integer_yields_integer() {
    let v = ParameterValue::decode(WireValue::Int(42));
    assert_eq!(v, ParameterValue::Integer(42));
    assert_eq!(v.as_integer(), Some(42));
}

#[test]
fn decode_float_yields_float() {
    let v = ParameterValue::decode(float_value("42.0"));
    assert_eq!(v, ParameterValue::Float(String::from("42.0")));
    assert_eq!(v.as_float(), Some(&String::from("42.0")));
}

#[test]
fn integer_and_float_are_distinguishable() {
    let i = ParameterValue::Integer(42);
    let f = ParameterValue::Float(String::from("42.0"));
    assert_ne!(i, f);
    assert!(i.as_float().is_none());
    assert!(f.as_integer().is_none());
}

#[test]
fn decode_null_yields_null() {
    let v = ParameterValue::decode(WireValue::Null);
    assert_eq!(v, ParameterValue::Null);
    assert!(v.is_null());
}

#[test]
fn is_null_is_true_only_for_null() {
    assert!(ParameterValue::Null.is_null());
    assert!(!ParameterValue::Bool(false).is_null());
    assert!(!ParameterValue::Integer(0).is_null());
    assert!(!ParameterValue::Float(String::from("0.0")).is_null());
    assert!(!ParameterValue::Number(String::from("0.0")).is_null());
    assert!(!ParameterValue::String(String::new()).is_null());
    assert!(!ParameterValue::Object(Vec::new()).is_null());
    assert!(!ParameterValue::Array(Vec::new()).is_null());
}

#[test]
fn decode_string_yields_string() {
    let v = ParameterValue::decode(WireValue::Text(String::from("Hello World")));
    assert_eq!(v, ParameterValue::String(String::from("Hello World")));
    assert_eq!(v.get_value(), "Hello World");
    assert_eq!(v.as_string(), Some(&String::from("Hello World")));
}

#[test]
fn decode_bool_yields_boolean() {
    let v = ParameterValue::decode(WireValue::Bool(true));
    assert_eq!(v, ParameterValue::Bool(true));
    assert_eq!(v.get_value(), "true");
    assert_eq!(v.as_bool(), Some(true));
}

#[test]
fn round_trip_scalar_shapes() {
    assert_eq!(ParameterValue::decode(WireValue::Null).encode(), WireValue::Null);
    assert_eq!(ParameterValue::decode(WireValue::Bool(false)).encode(), WireValue::Bool(false));
    assert_eq!(ParameterValue::decode(WireValue::Int(-7)).encode(), WireValue::Int(-7));
    assert_eq!(
        ParameterValue::decode(float_value("2.5")).encode(),
        float_value("2.5")
    );
    assert_eq!(
        ParameterValue::decode(WireValue::Text(String::from("hi"))).encode(),
        WireValue::Text(String::from("hi"))
    );
}

fn sample_object() -> WireValue {
    WireValue::Dict(vec![
        (String::from("b"), WireValue::Int(1)),
        (String::from("a"), WireValue::Text(String::from("x"))),
    ])
}

fn sample_array() -> WireValue {
    WireValue::List(vec![
        WireValue::Int(1),
        WireValue::Text(String::from("hi")),
        WireValue::Null,
    ])
}

#[test]
fn round_trip_object_preserves_key_order() {
    let v = ParameterValue::decode(sample_object());
    assert_eq!(v.encode(), sample_object());
    let reordered = WireValue::Dict(vec![
        (String::from("a"), WireValue::Text(String::from("x"))),
        (String::from("b"), WireValue::Int(1)),
    ]);
    let w = ParameterValue::decode(sample_object()).encode();
    assert_ne!(w, reordered);
}

#[test]
fn round_trip_array_preserves_element_order() {
    let v = ParameterValue::decode(sample_array());
    assert_eq!(v.encode(), sample_array());
    let reordered = WireValue::List(vec![
        WireValue::Null,
        WireValue::Text(String::from("hi")),
        WireValue::Int(1),
    ]);
    let w = ParameterValue::decode(sample_array()).encode();
    assert_ne!(w, reordered);
}

#[test]
fn number_encodes_like_float() {
    let n = ParameterValue::Number(String::from("3.5"));
    assert_eq!(n.encode(), float_value("3.5"));
    let back = ParameterValue::decode(ParameterValue::Number(String::from("3.5")).encode());
    assert_eq!(back, ParameterValue::Float(String::from("3.5")));
}

#[test]
fn get_value_scalars() {
    assert_eq!(ParameterValue::Null.get_value(), "null");
    assert_eq!(ParameterValue::Bool(false).get_value(), "false");
    assert_eq!(ParameterValue::Integer(42).get_value(), "42");
    assert_eq!(ParameterValue::Integer(0).get_value(), "0");
    assert_eq!(ParameterValue::Integer(-17).get_value(), "-17");
    assert_eq!(
        ParameterValue::Integer(i64::MIN).get_value(),
        "-9223372036854775808"
    );
    assert_eq!(
        ParameterValue::Integer(i64::MAX).get_value(),
        "9223372036854775807"
    );
    assert_eq!(ParameterValue::Float(String::from("3.14159")).get_value(), "3.14159");
    assert_eq!(ParameterValue::Number(String::from("2.5")).get_value(), "2.5");
    assert_eq!(ParameterValue::String(String::from("hello")).get_value(), "hello");
    assert_eq!(ParameterValue::String(String::new()).get_value(), "");
}

#[test]
fn get_value_object_renders_wire_text() {
    let v = ParameterValue::decode(sample_object());
    assert_eq!(v.get_value(), "{\"b\":1,\"a\":\"x\"}");
    assert_eq!(ParameterValue::Object(Vec::new()).get_value(), "{}");
}

#[test]
fn get_value_array_separates_with_comma_and_space() {
    let v = ParameterValue::decode(sample_array());
    assert_eq!(v.get_value(), "[1, \"hi\", null]");
    assert_eq!(ParameterValue::Array(Vec::new()).get_value(), "[]");
}

#[test]
fn get_value_escapes_nested_text() {
    let v = ParameterValue::Object(vec![(
        String::from("k"),
        WireValue::Text(String::from("a\"b\\c\nd\u{1}e")),
    )]);
    assert_eq!(v.get_value(), "{\"k\":\"a\\\"b\\\\c\\nd\\u0001e\"}");
}

#[test]
fn get_value_escapes_keys_and_control_characters() {
    let v = ParameterValue::Object(vec![(
        String::from("tab\tkey"),
        WireValue::Text(String::from("\r\u{8}\u{c}\u{1f}")),
    )]);
    assert_eq!(v.get_value(), "{\"tab\\tkey\":\"\\r\\b\\f\\u001f\"}");
}

#[test]
fn get_value_nested_structures() {
    let v = ParameterValue::Array(vec![
        WireValue::Dict(vec![(String::from("n"), WireValue::Float(String::from("1.5")))]),
        WireValue::List(vec![WireValue::Bool(true), WireValue::Int(-2)]),
    ]);
    assert_eq!(v.get_value(), "[{\"n\":1.5}, [true,-2]]");
}

#[test]
fn get_internal_value_matches_get_value() {
    let v = ParameterValue::decode(sample_object());
    assert_eq!(v.get_internal_value(), v.get_value());
    assert_eq!(ParameterValue::Integer(9).get_internal_value(), "9");
}

#[test]
fn accessors_reject_other_variants() {
    let bool_value = ParameterValue::Bool(false);
    let int_value = ParameterValue::Integer(100);
    let string_value = ParameterValue::String(String::from("test"));

    assert_eq!(bool_value.as_bool(), Some(false));
    assert_eq!(bool_value.as_integer(), None);
    assert_eq!(bool_value.as_string(), None);

    assert_eq!(int_value.as_integer(), Some(100));
    assert_eq!(int_value.as_bool(), None);
    assert_eq!(int_value.as_string(), None);

    assert_eq!(string_value.as_string(), Some(&String::from("test")));
    assert_eq!(string_value.as_bool(), None);
    assert_eq!(string_value.as_integer(), None);

    assert!(bool_value.as_number().is_none());
    assert!(bool_value.as_float().is_none());
    assert!(bool_value.as_object().is_none());
    assert!(bool_value.as_array().is_none());
}

#[test]
fn object_and_array_accessors() {
    let v = ParameterValue::decode(sample_object());
    let fields = v.as_object().expect("object content");
    assert_eq!(fields.len(), 2);
    assert_eq!(fields[0].0, "b");
    assert_eq!(v.as_object_string(), Some(String::from("{\"b\":1,\"a\":\"x\"}")));
    assert!(v.as_array().is_none());
    assert!(v.as_array_strings().is_none());

    let a = ParameterValue::decode(sample_array());
    let items = a.as_array().expect("array content");
    assert_eq!(items.len(), 3);
    let texts = a.as_array_strings().expect("array texts");
    assert_eq!(texts, vec![String::from("1"), String::from("\"hi\""), String::from("null")]);
    assert!(a.as_object().is_none());
    assert!(a.as_object_string().is_none());
}

#[test]
fn widening_constructors() {
    assert_eq!(WireValue::from_i8(-5), WireValue::Int(-5));
    assert_eq!(WireValue::from_i16(-300), WireValue::Int(-300));
    assert_eq!(WireValue::from_i32(70000), WireValue::Int(70000));
    assert_eq!(WireValue::from_u8(255), WireValue::Int(255));
    assert_eq!(WireValue::from_u16(65535), WireValue::Int(65535));
    assert_eq!(WireValue::from_u32(4000000000), WireValue::Int(4000000000));
    assert_eq!(WireValue::from_u64(9000000000), WireValue::Int(9000000000));
}

#[test]
fn single_character_text_is_ordinary_text() {
    let w = WireValue::from_char('A');
    assert_eq!(w, WireValue::Text(String::from("A")));
    let v = ParameterValue::decode(w);
    assert_eq!(v, ParameterValue::String(String::from("A")));
    assert_eq!(v.get_value(), "A");
}

#[test]
fn value_equality_is_structural() {
    let val1 = ParameterValue::Integer(42);
    let val2 = ParameterValue::Integer(42);
    let val3 = ParameterValue::Integer(43);
    assert_eq!(val1, val2);
    assert_ne!(val1, val3);

    assert_eq!(
        ParameterValue::decode(sample_object()),
        ParameterValue::decode(sample_object())
    );
    let shorter = ParameterValue::Object(vec![(String::from("b"), WireValue::Int(1))]);
    assert_ne!(ParameterValue::decode(sample_object()), shorter);

    let changed_key = ParameterValue::Object(vec![
        (String::from("c"), WireValue::Int(1)),
        (String::from("a"), WireValue::Text(String::from("x"))),
    ]);
    assert_ne!(ParameterValue::decode(sample_object()), changed_key);

    let changed_value = ParameterValue::Object(vec![
        (String::from("b"), WireValue::Int(2)),
        (String::from("a"), WireValue::Text(String::from("x"))),
    ]);
    assert_ne!(ParameterValue::decode(sample_object()), changed_value);

    assert_eq!(
        ParameterValue::decode(sample_array()),
        ParameterValue::decode(sample_array())
    );
    let changed_item = ParameterValue::Array(vec![
        WireValue::Int(1),
        WireValue::Text(String::from("ho")),
        WireValue::Null,
    ]);
    assert_ne!(ParameterValue::decode(sample_array()), changed_item);
}

#[test]
fn float_text_convention_matches_wire_encoder() {
    // The canonical decimal text of a 64-bit float keeps its fractional
    // part, as the wire encoder renders it, so an integral float stays
    // distinguishable from an integer.
    assert_eq!(serde_json::Number::from_f64(42.0).unwrap().to_string(), "42.0");
    assert_eq!(serde_json::Number::from_f64(42.73).unwrap().to_string(), "42.73");
    let text = serde_json::Number::from_f64(2.5).unwrap().to_string();
    let v = ParameterValue::decode(WireValue::Float(text));
    assert_eq!(v, ParameterValue::Float(String::from("2.5")));
    assert_eq!(v.get_value(), "2.5");
    assert_eq!(v.get_value().parse::<f64>().unwrap(), 2.5);
}

#[test]
fn number_and_float_are_distinct_variants() {
    let n = ParameterValue::Number(String::from("1.0"));
    let f = ParameterValue::Float(String::from("1.0"));
    assert_ne!(n, f);
    assert_eq!(n.as_number(), Some(&String::from("1.0")));
    assert!(n.as_float().is_none());
    assert!(f.as_number().is_none());
    assert_eq!(f.as_float(), Some(&String::from("1.0")));
}
