use flow::deserializers::{FlowJsonLoader, FlowYamlLoader, JsonDeserializer};
use flow::description::{Flow, FlowRef, Value};
use flow::json::{JsonNumber, JsonValue};
use flow::loader::FlowYamlLoader as YamlFunctionLoader;
use flow::metrics::Metrics;
use flow::text::{i64_to_decimal, strip_dir_prefix, u64_to_decimal};

#[test]
fn deserializer_names() {
    assert_eq!(JsonDeserializer.name(), "Json");
    assert_eq!(FlowJsonLoader.name(), "Json");
    assert_eq!(FlowYamlLoader.name(), "Yaml");
}

#[test]
fn yaml_loader_gives_placeholder_function() {
    let f = YamlFunctionLoader.load_function("anything").unwrap();
    assert_eq!(f.name, "fake");
    assert_eq!(f.route, "fake/fake");
    assert!(f.inputs.is_none() && f.outputs.is_none());
}

#[test]
fn description_display() {
    let r = FlowRef { name: "sub".into(), source: "sub.toml".into() };
    assert_eq!(r.to_display_string(), "FlowRef:\n\tname: sub\n\tsource: sub.toml");
    let v = Value { name: "v".into(), datatype: "String".into(), value: "x".into() };
    assert_eq!(v.to_display_string(), "Value:\n\tname: v\n\tdatatype: String\n\tvalue: x");
    let f = Flow { source: String::new(), name: "f".into(), flow: None, value: None, flows: vec![] };
    assert!(f.verify().is_ok());
}

#[test]
fn metrics_count() {
    let mut m = Metrics::new();
    assert_eq!(m.num_processes(), 0);
    assert_eq!(m.outputs_sent(), 0);
    m.set_num_processes(4);
    m.increment_outputs_sent();
    m.increment_outputs_sent();
    assert_eq!(m.num_processes(), 4);
    assert_eq!(m.outputs_sent(), 2);
}

#[test]
fn decimal_formatting() {
    for n in [0u64, 7, 10, 99, 100, 4096, u64::MAX] {
        assert_eq!(u64_to_decimal(n), n.to_string());
    }
    for i in [0i64, -1, 42, -42, i64::MAX, i64::MIN] {
        assert_eq!(i64_to_decimal(i), i.to_string());
    }
}

#[test]
fn strip_prefix_only_in_front() {
    assert_eq!(strip_dir_prefix("/test/x", "/test"), "/x");
    assert_eq!(strip_dir_prefix("x/test", "/test"), "x/test");
    assert_eq!(strip_dir_prefix("abc", ""), "abc");
    assert_eq!(strip_dir_prefix("é/x", "é"), "/x");
}

#[test]
fn deep_clone_equal() {
    let v = JsonValue::Object(vec![
        ("a".into(), JsonValue::Array(vec![JsonValue::Null, JsonValue::Bool(false)])),
        ("b".into(), JsonValue::Number(JsonNumber::Float("2.5".into()))),
    ]);
    assert_eq!(v.deep_clone(), v);
    assert_eq!(v.clone(), v);
}
