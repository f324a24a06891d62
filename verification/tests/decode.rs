use scene_bridge::command::{DecodeError, SceneCommand};
use scene_bridge::decode::{
    command_from_value, decode, ACTION_KEY, FADE_TIME_KEY, SCENE_ID_KEY,
};
use serde_json::{Number, Value};

fn accepted(text: &str) -> SceneCommand {
    match decode(text) {
        Ok(command) => command,
        Err(error) => panic!("{:?} is no command: {:?}", text, error),
    }
}

fn refusal(text: &str) -> DecodeError {
    match decode(text) {
        Ok(command) => panic!("{:?} is a command: {:?}", text, command),
        Err(error) => error,
    }
}

fn object(members: Vec<(&str, Value)>) -> Value {
    let mut map = serde_json::Map::new();
    for (key, value) in members {
        map.insert(key.to_string(), value);
    }
    Value::Object(map)
}

#[test]
fn keys_are_those_of_the_wire() {
    assert_eq!(ACTION_KEY, "action");
    assert_eq!(SCENE_ID_KEY, "scene_id");
    assert_eq!(FADE_TIME_KEY, "fade_time");
}

#[test]
fn full_command_is_decoded() {
    let command = accepted(r#"{"action":"change_scene","scene_id":"intro","fade_time":500}"#);
    assert_eq!(command.action(), "change_scene");
    assert_eq!(command.scene_id(), Some("intro"));
    assert_eq!(command.fade_time(), Some(500));
}

#[test]
fn action_alone_leaves_the_rest_unset() {
    for name in ["play", "change_scene", "x", " ", "szene wechseln", "\u{5834}\u{9762}"] {
        let text = format!("{{\"action\": {}}}", Value::String(name.to_string()));
        let command = accepted(&text);
        assert_eq!(command.action(), name);
        assert_eq!(command.scene_id(), None);
        assert_eq!(command.fade_time(), None);
    }
}

#[test]
fn escapes_in_the_action_are_resolved() {
    let command = accepted(r#"{"action":"a\"bA\n"}"#);
    assert_eq!(command.action(), "a\"bA\n");
}

#[test]
fn space_around_the_object_is_allowed() {
    let command = accepted(" \n\t{ \"action\" : \"stop\" }\r\n ");
    assert_eq!(command.action(), "stop");
}

#[test]
fn missing_action_is_refused() {
    assert_eq!(refusal(r#"{}"#), DecodeError::MissingAction);
    assert_eq!(refusal(r#"{"scene_id":"intro","fade_time":500}"#), DecodeError::MissingAction);
    assert_eq!(refusal(r#"{"Action":"change_scene"}"#), DecodeError::MissingAction);
    assert_eq!(refusal(r#"{"command":{"action":"change_scene"}}"#), DecodeError::MissingAction);
}

#[test]
fn empty_action_is_refused() {
    assert_eq!(refusal(r#"{"action":""}"#), DecodeError::MissingAction);
    assert_eq!(
        refusal(r#"{"action":"","scene_id":"intro","fade_time":500}"#),
        DecodeError::MissingAction
    );
}

#[test]
fn action_of_another_type_is_refused() {
    for text in [
        r#"{"action":5}"#,
        r#"{"action":null}"#,
        r#"{"action":true}"#,
        r#"{"action":["change_scene"]}"#,
        r#"{"action":{"name":"change_scene"}}"#,
        r#"{"action":1.5,"scene_id":"intro"}"#,
    ] {
        assert_eq!(refusal(text), DecodeError::MissingAction, "{}", text);
    }
}

#[test]
fn json_that_is_no_object_is_refused() {
    for text in [r#"["action"]"#, r#""action""#, "42", "null", "true", r#"[{"action":"a"}]"#] {
        assert_eq!(refusal(text), DecodeError::MissingAction, "{}", text);
    }
}

#[test]
fn bare_word_is_malformed() {
    assert_eq!(refusal("hello"), DecodeError::Malformed);
}

#[test]
fn truncated_text_is_malformed() {
    for text in [
        r#"{"action":"change_scene""#,
        r#"{"action":"change_sc"#,
        r#"{"action":"#,
        r#"{"action""#,
        "{",
        "",
        "   ",
    ] {
        assert_eq!(refusal(text), DecodeError::Malformed, "{:?}", text);
    }
}

#[test]
fn text_after_the_object_is_malformed() {
    assert_eq!(refusal(r#"{"action":"a"} x"#), DecodeError::Malformed);
    assert_eq!(refusal(r#"{"action":"a"}{"action":"b"}"#), DecodeError::Malformed);
    assert_eq!(refusal(r#"{'action':'a'}"#), DecodeError::Malformed);
    assert_eq!(refusal(r#"{"action":"a",}"#), DecodeError::Malformed);
}

#[test]
fn members_under_other_keys_are_ignored() {
    let command = accepted(
        r#"{"id":17,"action":"change_scene","tags":["a","b"],"scene_id":"outro","nested":{"action":""},"fade_time":250}"#,
    );
    assert_eq!(command.action(), "change_scene");
    assert_eq!(command.scene_id(), Some("outro"));
    assert_eq!(command.fade_time(), Some(250));
}

#[test]
fn null_optionals_are_unset() {
    let command = accepted(r#"{"action":"cut","scene_id":null,"fade_time":null}"#);
    assert_eq!(command.action(), "cut");
    assert_eq!(command.scene_id(), None);
    assert_eq!(command.fade_time(), None);
}

#[test]
fn optionals_of_another_type_are_unset() {
    let command = accepted(r#"{"action":"cut","scene_id":7,"fade_time":"500"}"#);
    assert_eq!(command.action(), "cut");
    assert_eq!(command.scene_id(), None);
    assert_eq!(command.fade_time(), None);

    let command = accepted(r#"{"action":"cut","scene_id":["intro"],"fade_time":true}"#);
    assert_eq!(command.scene_id(), None);
    assert_eq!(command.fade_time(), None);
}

#[test]
fn one_optional_does_not_need_the_other() {
    let command = accepted(r#"{"action":"cut","scene_id":"intro"}"#);
    assert_eq!(command.scene_id(), Some("intro"));
    assert_eq!(command.fade_time(), None);

    let command = accepted(r#"{"fade_time":0,"action":"cut"}"#);
    assert_eq!(command.scene_id(), None);
    assert_eq!(command.fade_time(), Some(0));
}

#[test]
fn empty_scene_id_is_kept() {
    let command = accepted(r#"{"action":"cut","scene_id":""}"#);
    assert_eq!(command.scene_id(), Some(""));
}

#[test]
fn fade_time_is_a_count_of_at_most_32_bits() {
    let cases: [(&str, Option<u32>); 10] = [
        ("0", Some(0)),
        ("1", Some(1)),
        ("500", Some(500)),
        ("4294967295", Some(u32::MAX)),
        ("4294967296", None),
        ("18446744073709551615", None),
        ("18446744073709551616", None),
        ("-1", None),
        ("1.5", None),
        ("500.0", None),
    ];
    for (number, expected) in cases {
        let text = format!(r#"{{"action":"fade","fade_time":{}}}"#, number);
        let command = accepted(&text);
        assert_eq!(command.action(), "fade");
        assert_eq!(command.fade_time(), expected, "{}", number);
    }
}

#[test]
fn the_last_of_two_members_under_one_key_counts() {
    let command = accepted(r#"{"action":"first","action":"second"}"#);
    assert_eq!(command.action(), "second");
}

#[test]
fn value_with_all_members_is_read() {
    let value = object(vec![
        ("action", Value::String("change_scene".to_string())),
        ("scene_id", Value::String("intro".to_string())),
        ("fade_time", Value::Number(Number::from(500u64))),
    ]);
    let command = command_from_value(&value).unwrap();
    assert_eq!(command.action(), "change_scene");
    assert_eq!(command.scene_id(), Some("intro"));
    assert_eq!(command.fade_time(), Some(500));
}

#[test]
fn value_is_read_by_key_and_by_type() {
    let swapped = object(vec![
        ("action", Value::Number(Number::from(500u64))),
        ("scene_id", Value::String("intro".to_string())),
        ("fade_time", Value::String("change_scene".to_string())),
    ]);
    assert_eq!(command_from_value(&swapped), Err(DecodeError::MissingAction));

    let renamed = object(vec![("name", Value::String("change_scene".to_string()))]);
    assert_eq!(command_from_value(&renamed), Err(DecodeError::MissingAction));

    let negative = object(vec![
        ("action", Value::String("fade".to_string())),
        ("fade_time", Value::Number(Number::from(-3i64))),
    ]);
    let command = command_from_value(&negative).unwrap();
    assert_eq!(command.action(), "fade");
    assert_eq!(command.fade_time(), None);
}

#[test]
fn value_that_is_no_object_is_refused() {
    assert_eq!(
        command_from_value(&Value::String("action".to_string())),
        Err(DecodeError::MissingAction)
    );
    assert_eq!(command_from_value(&Value::Null), Err(DecodeError::MissingAction));
    assert_eq!(
        command_from_value(&Value::Array(vec![Value::String("action".to_string())])),
        Err(DecodeError::MissingAction)
    );
}

#[test]
fn decoding_agrees_with_reading_the_parsed_value() {
    for text in [
        r#"{"action":"change_scene","scene_id":"intro","fade_time":500}"#,
        r#"{"action":"a"}"#,
        r#"{"action":""}"#,
        r#"{"scene_id":"intro"}"#,
        r#"[1,2,3]"#,
    ] {
        let value: Value = serde_json::from_str(text).unwrap();
        assert_eq!(decode(text), command_from_value(&value), "{}", text);
    }
}
