use vda5050_types::Action;
use vda5050_types::ActionParameter;
use vda5050_types::ActionParameterValue;
use vda5050_types::BlockingType;
use vda5050_types::ParameterValue;
use vda5050_types::SimpleActionParameter;
use vda5050_types::ValueDataType;
use vda5050_types::WireValue;
use vda5050_types::wire::push_wire_text;

fn wire_string(w: &WireValue) -> String {
    let mut s = String::new();
    push_wire_text(&mut s, w);
    s
}

#[test]
fn default_record_is_empty() {
    let p = ActionParameter::default();
    assert_eq!(p.key, "");
    assert!(p.value_data_type.is_none());
    assert_eq!(p.value, ParameterValue::Null);
    assert!(p.description.is_none());
    assert!(p.is_optional.is_none());
}

#[test]
fn absent_optional_fields_are_suppressed() {
    let p = ActionParameter {
        key: String::from("my-null"),
        value_data_type: None,
        value: ParameterValue::Null,
        description: None,
        is_optional: None,
    };
    let w = p.to_wire();
    assert_eq!(
        w,
        WireValue::Dict(vec![
            (String::from("key"), WireValue::Text(String::from("my-null"))),
            (String::from("value"), WireValue::Null),
        ])
    );
    let text = wire_string(&w);
    assert_eq!(text, "{\"key\":\"my-null\",\"value\":null}");
    assert!(!text.contains("valueDataType"));
    assert!(!text.contains("description"));
    assert!(!text.contains("isOptional"));
    assert!(text.contains("null"));
}

#[test]
fn present_optional_fields_are_rendered() {
    let p = ActionParameter {
        key: String::from("my-integer"),
        value_data_type: Some(ValueDataType::Integer),
        value: ParameterValue::Integer(42),
        description: Some(String::from("a count")),
        is_optional: Some(true),
    };
    let text = wire_string(&p.to_wire());
    assert_eq!(
        text,
        "{\"key\":\"my-integer\",\"valueDataType\":\"INTEGER\",\"value\":42,\
         \"description\":\"a count\",\"isOptional\":true}"
    );
}

#[test]
fn data_type_tokens_are_upper_case() {
    assert_eq!(ValueDataType::Bool.wire_token(), "BOOL");
    assert_eq!(ValueDataType::Number.wire_token(), "NUMBER");
    assert_eq!(ValueDataType::Integer.wire_token(), "INTEGER");
    assert_eq!(ValueDataType::Float.wire_token(), "FLOAT");
    assert_eq!(ValueDataType::String.wire_token(), "STRING");
    assert_eq!(ValueDataType::Object.wire_token(), "OBJECT");
    assert_eq!(ValueDataType::Array.wire_token(), "ARRAY");
}

#[test]
fn hint_and_value_may_disagree() {
    let p = ActionParameter {
        key: String::from("loose"),
        value_data_type: Some(ValueDataType::Bool),
        value: ParameterValue::Integer(7),
        description: None,
        is_optional: None,
    };
    let text = wire_string(&p.to_wire());
    assert_eq!(text, "{\"key\":\"loose\",\"valueDataType\":\"BOOL\",\"value\":7}");
}

#[test]
fn record_equality_is_structural() {
    let param1 = ActionParameter {
        key: String::from("test"),
        value_data_type: None,
        value: ParameterValue::Bool(true),
        description: None,
        is_optional: None,
    };
    let param2 = ActionParameter {
        key: String::from("test"),
        value_data_type: None,
        value: ParameterValue::Bool(true),
        description: None,
        is_optional: None,
    };
    let param3 = ActionParameter {
        key: String::from("test"),
        value_data_type: None,
        value: ParameterValue::Bool(false),
        description: None,
        is_optional: None,
    };
    assert_eq!(param1, param2);
    assert_ne!(param1, param3);

    let changed_key = ActionParameter { key: String::from("other"), ..ActionParameter::default() };
    let base = ActionParameter { key: String::from("other2"), ..ActionParameter::default() };
    assert_ne!(changed_key, base);

    let with_hint = ActionParameter {
        key: String::from("test"),
        value_data_type: Some(ValueDataType::Bool),
        value: ParameterValue::Bool(true),
        description: None,
        is_optional: None,
    };
    assert_ne!(param1, with_hint);

    let with_description = ActionParameter {
        key: String::from("test"),
        value_data_type: None,
        value: ParameterValue::Bool(true),
        description: Some(String::from("d")),
        is_optional: None,
    };
    assert_ne!(param1, with_description);

    let with_flag = ActionParameter {
        key: String::from("test"),
        value_data_type: None,
        value: ParameterValue::Bool(true),
        description: None,
        is_optional: Some(false),
    };
    assert_ne!(param1, with_flag);
}

#[test]
fn deep_clone_preserves_contents() {
    let parameter = ActionParameter {
        key: String::from("test-key"),
        value_data_type: Some(ValueDataType::String),
        value: ParameterValue::String(String::from("test-value")),
        description: None,
        is_optional: None,
    };
    let cloned_parameter = parameter.deep_clone();
    assert_eq!(parameter.key, cloned_parameter.key);
    assert_eq!(parameter, cloned_parameter);

    let nested = ParameterValue::Object(vec![(
        String::from("inner"),
        WireValue::List(vec![WireValue::Int(1), WireValue::Text(String::from("x"))]),
    )]);
    assert_eq!(nested.deep_clone(), nested);

    let action = sample_action(ParameterValue::Integer(3));
    assert_eq!(action.deep_clone(), action);
}

#[test]
fn blocking_type_tokens() {
    assert_eq!(BlockingType::NoBlocking.wire_token(), "NONE");
    assert_eq!(BlockingType::Soft.wire_token(), "SOFT");
    assert_eq!(BlockingType::Hard.wire_token(), "HARD");
    let copied = BlockingType::Hard;
    let cloned = copied.clone();
    assert!(matches!(copied, BlockingType::Hard));
    assert!(matches!(cloned, BlockingType::Hard));
    assert_eq!(BlockingType::Hard, BlockingType::Hard);
    assert_ne!(BlockingType::Hard, BlockingType::Soft);
}

fn sample_action(value: ParameterValue) -> Action {
    Action {
        action_type: String::from("move"),
        action_id: String::from("1"),
        action_description: None,
        blocking_type: BlockingType::NoBlocking,
        action_parameters: vec![ActionParameter {
            key: String::from("test"),
            value_data_type: None,
            value,
            description: None,
            is_optional: None,
        }],
    }
}

#[test]
fn action_equality_is_structural() {
    let action1 = sample_action(ParameterValue::Bool(true));
    let action2 = sample_action(ParameterValue::Bool(true));
    assert_eq!(action1, action2);
    let action3 = sample_action(ParameterValue::Bool(false));
    assert_ne!(sample_action(ParameterValue::Bool(true)), action3);
}

#[test]
fn action_renders_to_wire() {
    let text = wire_string(&sample_action(ParameterValue::Integer(5)).to_wire());
    assert_eq!(
        text,
        "{\"actionType\":\"move\",\"actionId\":\"1\",\"blockingType\":\"NONE\",\
         \"actionParameters\":[{\"key\":\"test\",\"value\":5}]}"
    );

    let described = Action {
        action_description: Some(String::from("go")),
        action_parameters: Vec::new(),
        ..sample_action(ParameterValue::Null)
    };
    let text = wire_string(&described.to_wire());
    assert_eq!(
        text,
        "{\"actionType\":\"move\",\"actionId\":\"1\",\"actionDescription\":\"go\",\
         \"blockingType\":\"NONE\",\"actionParameters\":[]}"
    );
}

#[test]
fn minimal_family_decode_and_encode() {
    assert_eq!(
        ActionParameterValue::decode(WireValue::Bool(true)),
        Some(ActionParameterValue::Bool(true))
    );
    assert_eq!(
        ActionParameterValue::decode(WireValue::Int(8)),
        Some(ActionParameterValue::Integer(8))
    );
    assert_eq!(
        ActionParameterValue::decode(WireValue::Float(String::from("1.5"))),
        Some(ActionParameterValue::Number(String::from("1.5")))
    );
    assert_eq!(
        ActionParameterValue::decode(WireValue::Text(String::from("s"))),
        Some(ActionParameterValue::String(String::from("s")))
    );
    assert_eq!(ActionParameterValue::decode(WireValue::Null), None);
    assert_eq!(ActionParameterValue::decode(WireValue::Dict(Vec::new())), None);
    assert_eq!(ActionParameterValue::decode(WireValue::List(Vec::new())), None);

    let v = ActionParameterValue::decode(WireValue::Int(8)).unwrap();
    assert_eq!(v.encode(), WireValue::Int(8));
}

#[test]
fn minimal_record_renders_key_and_value() {
    let p = SimpleActionParameter {
        key: String::from("speed"),
        value: ActionParameterValue::Number(String::from("0.5")),
    };
    let text = wire_string(&p.to_wire());
    assert_eq!(text, "{\"key\":\"speed\",\"value\":0.5}");

    let p1 = SimpleActionParameter {
        key: String::from("k"),
        value: ActionParameterValue::String(String::from("v")),
    };
    let p2 = SimpleActionParameter {
        key: String::from("k"),
        value: ActionParameterValue::String(String::from("v")),
    };
    assert_eq!(p1, p2);
    let p3 = SimpleActionParameter {
        key: String::from("k"),
        value: ActionParameterValue::String(String::from("w")),
    };
    assert_ne!(p1, p3);
}
