use flow::implementation::{DONT_RUN_AGAIN, RUN_AGAIN};
use flow::json::{JsonNumber, JsonValue};
use flow::runtime::image_buffer::{Command, ImageBuffer};
use flow::runtime::stdin::{Stdin, StdinReply};
use flow::run_list::{after_run, deliveries};
use flow::value::Value;

fn get<'a>(value: &'a JsonValue, key: &str) -> Option<&'a JsonValue> {
    match value {
        JsonValue::Object(entries) => entries.iter().find(|(k, _)| k == key).map(|(_, v)| v),
        _ => None,
    }
}

fn num(n: u64) -> JsonValue {
    JsonValue::Number(JsonNumber::PosInt(n))
}

#[test]
fn gets_a_line_of_text() {
    let stdin = &Stdin;
    let (value, run_again) = stdin.run_line("line of text".into());

    assert_eq!(run_again, RUN_AGAIN);

    let val = value.expect("Could not get value returned from implementation");
    assert!(matches!(val, JsonValue::Object(_)), "Could not get map of output values");
    assert_eq!(
        get(&val, "string").expect("Could not get string args"),
        &JsonValue::String("line of text".into())
    );
}

#[test]
fn bad_reply_message() {
    let stdin = &Stdin;
    let (value, run_again) = stdin.run(StdinReply::Other);

    assert_eq!(run_again, DONT_RUN_AGAIN);
    assert_eq!(value, None);
}

#[test]
fn gets_json() {
    let stdin = &Stdin;
    let (value, run_again) = stdin.run_line("\"json text\"".into());

    assert_eq!(run_again, RUN_AGAIN);

    let val = value.expect("Could not get value returned from implementation");
    assert!(matches!(val, JsonValue::Object(_)), "Could not get map of output values");
    assert_eq!(
        get(&val, "json").expect("Could not get json args"),
        &JsonValue::String("json text".into())
    );
}

#[test]
fn get_eof() {
    let stdin = &Stdin;
    let (value, run_again) = stdin.run(StdinReply::Eof);

    assert_eq!(run_again, DONT_RUN_AGAIN);
    let val = value.expect("Could not get value returned from implementation");
    assert!(matches!(val, JsonValue::Object(_)), "Could not get map of output values");
    assert_eq!(get(&val, "json").expect("Could not get json args"), &JsonValue::Null);
    assert_eq!(get(&val, "string").expect("Could not get string args"), &JsonValue::Null);
}

#[test]
fn text_that_is_not_json_has_no_json_entry() {
    let (value, _) = Stdin.run_line("not json".into());
    let val = value.unwrap();
    assert!(get(&val, "json").is_none());
    assert_eq!(get(&val, "string"), Some(&JsonValue::String("not json".into())));
}

#[test]
fn line_of_json_is_parsed() {
    let (value, run_again) = Stdin.run_line("{\"a\": [1, -2, 2.5], \"b\": null}".into());
    assert_eq!(run_again, RUN_AGAIN);
    let val = value.unwrap();
    assert_eq!(
        get(&val, "json"),
        Some(&JsonValue::Object(vec![
            (
                "a".to_string(),
                JsonValue::Array(vec![
                    num(1),
                    JsonValue::Number(JsonNumber::NegInt(-2)),
                    JsonValue::Number(JsonNumber::Float("2.5".into())),
                ])
            ),
            ("b".to_string(), JsonValue::Null),
        ]))
    );
}

#[test]
fn reply_with_a_line_and_its_value() {
    let (value, run_again) = Stdin.run(StdinReply::Line { contents: "7".into(), json: Some(num(7)) });
    assert_eq!(run_again, RUN_AGAIN);
    let val = value.unwrap();
    assert_eq!(get(&val, "json"), Some(&num(7)));
    assert_eq!(get(&val, "string"), Some(&JsonValue::String("7".into())));
}

#[test]
fn image_buffer_command_truncates() {
    let inputs = vec![
        JsonValue::Array(vec![num(1), num(2)]),
        JsonValue::Array(vec![num(255), num(256), num(3)]),
        JsonValue::Array(vec![num(640), num(480)]),
        JsonValue::String("image.png".into()),
    ];
    let command = ImageBuffer.command(&inputs);
    assert_eq!(
        command,
        Command::PixelWrite((1, 2), (255, 0, 3), (640, 480), "\"image.png\"".to_string())
    );
    assert_eq!(ImageBuffer.run_result(), (None, RUN_AGAIN));
}

#[test]
fn image_buffer_file_name_is_json_text() {
    let inputs = vec![
        JsonValue::Array(vec![num(0), num(0)]),
        JsonValue::Array(vec![num(0), num(0), num(0)]),
        JsonValue::Array(vec![num(1), num(1)]),
        JsonValue::Array(vec![num(1), JsonValue::String("a\"b".into())]),
    ];
    let Command::PixelWrite(_, _, _, filename) = ImageBuffer.command(&inputs);
    assert_eq!(filename, "[1,\"a\\\"b\"]");
}

#[test]
fn value_initialization_and_run() {
    let mut value = Value::new("v".into(), 1, 3, Some(num(9)), vec![("".into(), 1, 0)]);
    assert_eq!(value.name(), "v");
    assert_eq!(value.id(), 3);
    assert_eq!(value.number_of_inputs(), 1);
    assert!(!value.inputs_satisfied());
    assert!(value.init());
    assert!(value.inputs_satisfied());
    assert_eq!(value.take_inputs(), vec![num(9)]);
    assert!(!value.inputs_satisfied());
    value.write_input(0, JsonValue::Null);
    assert!(!value.inputs_satisfied());
    value.write_input(0, num(4));
    assert!(value.inputs_satisfied());
    assert_eq!(value.output_destinations(), &vec![("".to_string(), 1, 0)]);
}

#[test]
fn value_without_initial_value_is_not_ready() {
    let mut value = Value::new("v".into(), 1, 0, None, vec![]);
    assert!(!value.init());
}

/// The value a JSON pointer leads to inside a value, as an output route delivers it.
fn at(v: &JsonValue, pointer: &str) -> Option<JsonValue> {
    deliveries(v, &vec![(pointer.to_string(), 0, 0)]).remove(0).2
}

#[test]
fn destructure_output_base_route() {
    let json = JsonValue::String("my_value".into());
    let mut value = Value::new("test_value".to_string(), 1, 0, Some(json.deep_clone()), vec![("".into(), 1, 0)]);
    value.write_input(0, json);

    let output = value.run(|mut inputs: Vec<JsonValue>| inputs.remove(0));

    assert_eq!(at(&output, "").unwrap(), JsonValue::String("my_value".into()));
}

#[test]
fn destructure_json_value() {
    let json = JsonValue::Object(vec![("sub_route".into(), JsonValue::String("sub_value".into()))]);
    let mut value = Value::new(
        "test_value".to_string(),
        1,
        0,
        Some(json.deep_clone()),
        vec![("".into(), 1, 0), ("sub_route".into(), 2, 0)],
    );
    value.write_input(0, json);

    let output = value.run(|mut inputs: Vec<JsonValue>| inputs.remove(0));
    assert_eq!(at(&output, "/sub_route").unwrap(), JsonValue::String("sub_value".into()));
}

#[test]
fn run_consumes_the_value() {
    let mut value = Value::new("v".into(), 1, 0, None, vec![]);
    value.write_input(0, num(5));
    let output = value.run(|inputs: Vec<JsonValue>| JsonValue::Array(inputs));
    assert_eq!(output, JsonValue::Array(vec![num(5)]));
    assert!(!value.inputs_satisfied());
}

#[test]
fn pointer_into_nested_values() {
    let v = JsonValue::Object(vec![
        ("a".into(), JsonValue::Array(vec![num(10), JsonValue::Object(vec![("b".into(), num(7))])])),
        ("c/d".into(), num(1)),
        ("e~f".into(), num(2)),
        ("".into(), num(3)),
    ]);
    assert!(at(&v, "").is_some());
    assert_eq!(at(&num(4), ""), Some(num(4)));
    assert_eq!(at(&v, "/a/0"), Some(num(10)));
    assert_eq!(at(&v, "/a/1/b"), Some(num(7)));
    assert_eq!(at(&v, "/c~1d"), Some(num(1)));
    assert_eq!(at(&v, "/e~0f"), Some(num(2)));
    assert_eq!(at(&v, "/"), Some(num(3)));
    assert_eq!(at(&v, "/a/01"), None);
    assert_eq!(at(&v, "/a/+1"), None);
    assert_eq!(at(&v, "/a/2"), None);
    assert_eq!(at(&v, "/x"), None);
    assert_eq!(at(&v, "a"), None);
    assert_eq!(at(&v, "/a/0/z"), None);
}

#[test]
fn deliveries_follow_the_routes_in_order() {
    let output = JsonValue::Object(vec![("a".into(), num(1)), ("b".into(), num(2))]);
    let routes = vec![("/b".to_string(), 5, 0), ("".to_string(), 6, 1), ("/z".to_string(), 7, 2)];
    assert_eq!(
        deliveries(&output, &routes),
        vec![(5, 0, Some(num(2))), (6, 1, Some(output.clone())), (7, 2, None)]
    );
}

#[test]
fn after_run_requeues_only_when_it_can() {
    assert_eq!(after_run(Some(num(1)), true, true), (Some(num(1)), true));
    assert_eq!(after_run(None, true, false), (None, false));
    assert_eq!(after_run(None, false, true), (None, false));
}
