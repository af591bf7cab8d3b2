use flow::generate::{
    create_manifest, function_to_runtimefunction, implementation_location_relative, GenerateError,
    GenerationTables, MetaData, RuntimeFunction,
};
use flow::input::{ConstantInputInitializer, Input, InputInitializer, OneTimeInputInitializer};
use flow::json::{JsonNumber, JsonValue};
use flow::model::{Flow, Function, Library, OutputConnection, IO};

// A JSON document with its keys in the order written, printed as `serde_json`'s pretty
// printer prints it, so runtime functions can be compared with their expected manifest text.
enum Doc {
    Num(String),
    Str(String),
    Obj(Vec<(String, Doc)>),
    Arr(Vec<Doc>),
}

fn print(d: &Doc, indent: usize, out: &mut String) {
    match d {
        Doc::Num(n) => out.push_str(n),
        Doc::Str(s) => {
            out.push('"');
            out.push_str(s);
            out.push('"');
        }
        Doc::Obj(entries) => {
            if entries.is_empty() {
                out.push_str("{}");
                return;
            }
            out.push_str("{\n");
            for (i, (k, v)) in entries.iter().enumerate() {
                out.push_str(&" ".repeat(indent + 2));
                out.push('"');
                out.push_str(k);
                out.push_str("\": ");
                print(v, indent + 2, out);
                if i + 1 < entries.len() {
                    out.push(',');
                }
                out.push('\n');
            }
            out.push_str(&" ".repeat(indent));
            out.push('}');
        }
        Doc::Arr(items) => {
            if items.is_empty() {
                out.push_str("[]");
                return;
            }
            out.push_str("[\n");
            for (i, v) in items.iter().enumerate() {
                out.push_str(&" ".repeat(indent + 2));
                print(v, indent + 2, out);
                if i + 1 < items.len() {
                    out.push(',');
                }
                out.push('\n');
            }
            out.push_str(&" ".repeat(indent));
            out.push(']');
        }
    }
}

fn json_doc(v: &JsonValue) -> Doc {
    match v {
        JsonValue::Number(JsonNumber::PosInt(n)) => Doc::Num(n.to_string()),
        JsonValue::Number(JsonNumber::NegInt(n)) => Doc::Num(n.to_string()),
        JsonValue::Number(JsonNumber::Float(t)) => Doc::Num(t.clone()),
        JsonValue::String(s) => Doc::Str(s.clone()),
        JsonValue::Bool(b) => Doc::Num(b.to_string()),
        JsonValue::Null => Doc::Num("null".into()),
        JsonValue::Array(a) => Doc::Arr(a.iter().map(json_doc).collect()),
        JsonValue::Object(o) => Doc::Obj(o.iter().map(|(k, v)| (k.clone(), json_doc(v))).collect()),
    }
}

// The fields of a runtime function as its manifest holds them: empty names, routes, lists,
// the default depth, no initializer and a zero array order are left out.
fn function_doc(f: &RuntimeFunction) -> Doc {
    let mut e = vec![];
    if !f.name.is_empty() {
        e.push(("name".to_string(), Doc::Str(f.name.clone())));
    }
    if !f.route.is_empty() {
        e.push(("route".to_string(), Doc::Str(f.route.clone())));
    }
    e.push(("id".to_string(), Doc::Num(f.id.to_string())));
    e.push(("flow_id".to_string(), Doc::Num(f.flow_id.to_string())));
    e.push(("implementation_location".to_string(), Doc::Str(f.implementation_location.clone())));
    if !f.inputs.is_empty() {
        let docs = f
            .inputs
            .iter()
            .map(|input| {
                let mut ie = vec![];
                if input.depth() != 1 {
                    ie.push(("depth".to_string(), Doc::Num(input.depth().to_string())));
                }
                match &input.initializer {
                    Some(InputInitializer::OneTime(o)) => ie.push((
                        "initializer".to_string(),
                        Doc::Obj(vec![("once".to_string(), json_doc(&o.once))]),
                    )),
                    Some(InputInitializer::Constant(c)) => ie.push((
                        "initializer".to_string(),
                        Doc::Obj(vec![("constant".to_string(), json_doc(&c.constant))]),
                    )),
                    None => {}
                }
                Doc::Obj(ie)
            })
            .collect();
        e.push(("inputs".to_string(), Doc::Arr(docs)));
    }
    if !f.output_connections.is_empty() {
        let docs = f
            .output_connections
            .iter()
            .map(|c| {
                let mut ce = vec![];
                if !c.subroute.is_empty() {
                    ce.push(("subpath".to_string(), Doc::Str(c.subroute.clone())));
                }
                ce.push(("function_id".to_string(), Doc::Num(c.function_id.to_string())));
                ce.push(("io_number".to_string(), Doc::Num(c.io_number.to_string())));
                ce.push(("flow_id".to_string(), Doc::Num(c.flow_id.to_string())));
                if c.array_order != 0 {
                    ce.push(("array_order".to_string(), Doc::Num(c.array_order.to_string())));
                }
                Doc::Obj(ce)
            })
            .collect();
        e.push(("output_routes".to_string(), Doc::Arr(docs)));
    }
    Doc::Obj(e)
}

fn serialize(f: &RuntimeFunction) -> String {
    let mut out = String::new();
    print(&function_doc(f), 0, &mut out);
    out
}

fn function(
    inputs: Option<Vec<IO>>,
    outputs: Option<Vec<IO>>,
    connections: Vec<OutputConnection>,
) -> Function {
    Function::new(
        "Stdout".to_string(),
        false,
        Some("lib://flowruntime/stdio/stdout".to_string()),
        "print".to_string(),
        inputs,
        outputs,
        "file:///fake/file",
        "/flow0/stdout".to_string(),
        None,
        connections,
        0,
        0,
    )
}

fn connection(subroute: &str, function_id: usize, array_order: usize) -> OutputConnection {
    OutputConnection::new(subroute.to_string(), function_id, 0, 0, array_order, false, None)
}

#[test]
fn function_with_sub_route_output_generation() {
    let function = function(
        Some(vec!()),
        Some(vec!(IO::new("Value", ""), IO::new("String", ""))),
        vec!(connection("", 1, 0), connection("sub_route", 2, 0)),
    );

    let expected = "{
  'id': 0,
  'flow_id': 0,
  'implementation_location': 'lib://flowruntime/stdio/stdout',
  'output_routes': [
    {
      'function_id': 1,
      'io_number': 0,
      'flow_id': 0
    },
    {
      'subpath': 'sub_route',
      'function_id': 2,
      'io_number': 0,
      'flow_id': 0
    }
  ]
}";

    let runtime_process = function_to_runtimefunction("/test", &function, false).unwrap();

    let serialized_process = serialize(&runtime_process);
    assert_eq!(serialized_process, expected.replace("'", "\""));
}

#[test]
fn function_generation() {
    let function = function(Some(vec!()), Some(vec!(IO::new("String", ""))), vec!(connection("", 1, 0)));

    let expected = "{
  'id': 0,
  'flow_id': 0,
  'implementation_location': 'lib://flowruntime/stdio/stdout',
  'output_routes': [
    {
      'function_id': 1,
      'io_number': 0,
      'flow_id': 0
    }
  ]
}";

    let process = function_to_runtimefunction("/test", &function, false).unwrap();

    let serialized_process = serialize(&process);
    assert_eq!(serialized_process, expected.replace("'", "\""));
}

#[test]
fn function_generation_with_array_order() {
    let function = function(Some(vec!()), Some(vec!(IO::new("String", ""))), vec!(connection("", 1, 1)));

    let expected = "{
  'id': 0,
  'flow_id': 0,
  'implementation_location': 'lib://flowruntime/stdio/stdout',
  'output_routes': [
    {
      'function_id': 1,
      'io_number': 0,
      'flow_id': 0,
      'array_order': 1
    }
  ]
}";

    let process = function_to_runtimefunction("/test", &function, false).unwrap();

    let serialized_process = serialize(&process);
    assert_eq!(serialized_process, expected.replace("'", "\""));
}

#[test]
fn function_with_initialized_input_generation() {
    let mut io = IO::new("String", "");
    io.set_initializer(&Some(InputInitializer::OneTime(OneTimeInputInitializer {
        once: JsonValue::Number(JsonNumber::PosInt(1)),
    })));

    let function = function(Some(vec!(io)), None, vec!());

    let expected = "{
  'id': 0,
  'flow_id': 0,
  'implementation_location': 'lib://flowruntime/stdio/stdout',
  'inputs': [
    {
      'initializer': {
        'once': 1
      }
    }
  ]
}";

    let process = function_to_runtimefunction("/test", &function, false).unwrap();

    let serialized_process = serialize(&process);
    assert_eq!(expected.replace("'", "\""), serialized_process);
}

#[test]
fn function_with_constant_input_generation() {
    let mut io = IO::new("String", "");
    io.set_initializer(&Some(InputInitializer::Constant(ConstantInputInitializer {
        constant: JsonValue::Number(JsonNumber::PosInt(1)),
    })));

    let function = function(Some(vec!(io)), None, vec!());

    let expected = "{
  'id': 0,
  'flow_id': 0,
  'implementation_location': 'lib://flowruntime/stdio/stdout',
  'inputs': [
    {
      'initializer': {
        'constant': 1
      }
    }
  ]
}";

    let process = function_to_runtimefunction("/test", &function, false).unwrap();

    let serialized_process = serialize(&process);
    assert_eq!(expected.replace("'", "\""), serialized_process);
}

#[test]
fn function_with_array_input_generation() {
    let io = IO::new("Array/String", "");

    let function = function(Some(vec!(io)), None, vec!());

    let expected = "{
  'id': 0,
  'flow_id': 0,
  'implementation_location': 'lib://flowruntime/stdio/stdout',
  'inputs': [
    {}
  ]
}";

    let process = function_to_runtimefunction("/test", &function, false).unwrap();

    let serialized_process = serialize(&process);
    assert_eq!(serialized_process, expected.replace("'", "\""));
}

fn test_function() -> Function {
    function(Some(vec!()), Some(vec!(IO::new("String", ""))), vec!(connection("", 1, 0)))
}

#[test]
fn function_to_code_with_debug_generation() {
    let function = test_function();

    let expected = "{
  'name': 'print',
  'route': '/flow0/stdout',
  'id': 0,
  'flow_id': 0,
  'implementation_location': 'lib://flowruntime/stdio/stdout',
  'output_routes': [
    {
      'function_id': 1,
      'io_number': 0,
      'flow_id': 0
    }
  ]
}";

    let process = function_to_runtimefunction("/test", &function, true).unwrap();

    let serialized_process = serialize(&process);
    assert_eq!(serialized_process, expected.replace("'", "\""));
}

#[test]
fn function_with_array_element_output_generation() {
    let function = function(Some(vec!()), Some(vec!(IO::new("Array", ""))), vec!(connection("/0", 1, 0)));

    let expected = "{
  'id': 0,
  'flow_id': 0,
  'implementation_location': 'lib://flowruntime/stdio/stdout',
  'output_routes': [
    {
      'subpath': '/0',
      'function_id': 1,
      'io_number': 0,
      'flow_id': 0
    }
  ]
}";

    let process = function_to_runtimefunction("/test", &function, false).unwrap();

    let serialized_process = serialize(&process);
    assert_eq!(serialized_process, expected.replace("'", "\""));
}

fn plain_function(implementation: Option<&str>, lib_reference: Option<&str>) -> Function {
    Function::new(
        "add".to_string(),
        false,
        implementation.map(|s| s.to_string()),
        "adder".to_string(),
        None,
        None,
        "file:///src/add.toml",
        "/root/adder".to_string(),
        lib_reference.map(|s| s.to_string()),
        vec![],
        4,
        2,
    )
}

#[test]
fn library_function_location() {
    let f = plain_function(None, Some("flowstdlib/math"));
    assert_eq!(implementation_location_relative(&f, "/out").unwrap(), "lib://flowstdlib/math/add");
}

#[test]
fn provided_implementation_made_relative() {
    let f = plain_function(Some("/out/add/add.wasm"), None);
    assert_eq!(implementation_location_relative(&f, "/out").unwrap(), "/add/add.wasm");
    // only the directory in front is removed
    let g = plain_function(Some("/out/x/out/y"), None);
    assert_eq!(implementation_location_relative(&g, "/out").unwrap(), "/x/out/y");
    // a path that holds the directory elsewhere is kept
    let o = plain_function(Some("/other/out/x.wasm"), None);
    assert_eq!(implementation_location_relative(&o, "/out").unwrap(), "/other/out/x.wasm");
    // a path outside the directory is kept
    let h = plain_function(Some("/elsewhere/add.wasm"), None);
    assert_eq!(implementation_location_relative(&h, "/out").unwrap(), "/elsewhere/add.wasm");
    // an empty directory removes nothing
    assert_eq!(implementation_location_relative(&h, "").unwrap(), "/elsewhere/add.wasm");
}

#[test]
fn missing_implementation_is_an_error() {
    let f = plain_function(None, None);
    assert_eq!(
        implementation_location_relative(&f, "/out"),
        Err(GenerateError::MissingImplementation("add".to_string()))
    );
    assert!(function_to_runtimefunction("/out", &f, true).is_err());
}

#[test]
fn input_from_io_has_depth_and_initializer() {
    let mut io = IO::new("String", "");
    io.set_initializer(&Some(InputInitializer::Constant(ConstantInputInitializer {
        constant: JsonValue::Bool(true),
    })));
    let mut input = Input::from_io(&io);
    assert!(input.is_empty());
    assert!(input.init(false));
    assert_eq!(input.take(), vec![JsonValue::Bool(true)]);
}

fn flow() -> Flow {
    Flow {
        name: "hello".into(),
        description: "says hello".into(),
        version: "1.0.0".into(),
        author_name: "me".into(),
        author_email: "me@example.com".into(),
        connections: None,
        values: None,
        function_refs: None,
        flow_refs: None,
    }
}

#[test]
fn manifest_has_a_function_per_table_entry() {
    let mut tables = GenerationTables::new();
    tables.functions.push(plain_function(None, Some("lib1")));
    tables.functions.push(plain_function(Some("/out/impl.wasm"), None));
    tables.libs.push("lib1".to_string());
    let manifest = create_manifest(&flow(), false, "/out", &tables).unwrap();
    assert_eq!(manifest.metadata.name, "hello");
    assert_eq!(manifest.metadata.author_email, "me@example.com");
    assert_eq!(manifest.functions.len(), 2);
    assert_eq!(manifest.functions[0].implementation_location, "lib://lib1/add");
    assert_eq!(manifest.functions[1].implementation_location, "/impl.wasm");
    assert_eq!(manifest.functions[1].id, 4);
    assert_eq!(manifest.functions[1].flow_id, 2);
    assert_eq!(manifest.lib_references, vec!["lib1".to_string()]);
}

#[test]
fn manifest_fails_on_first_missing_implementation() {
    let mut tables = GenerationTables::new();
    tables.functions.push(plain_function(None, Some("lib1")));
    let mut missing = plain_function(None, None);
    missing.name = "first".into();
    tables.functions.push(missing);
    let mut missing2 = plain_function(None, None);
    missing2.name = "second".into();
    tables.functions.push(missing2);
    assert_eq!(
        create_manifest(&flow(), true, "/out", &tables).err(),
        Some(GenerateError::MissingImplementation("first".to_string()))
    );
}

#[test]
fn metadata_from_library() {
    let lib = Library {
        name: "flowstdlib".into(),
        description: "standard".into(),
        version: "0.1".into(),
        author_name: "a".into(),
        author_email: "a@b".into(),
    };
    let m = MetaData::from_library(&lib);
    assert_eq!(m.name, "flowstdlib");
    assert_eq!(m.version, "0.1");
}

#[test]
fn new_tables_are_empty() {
    let t = GenerationTables::new();
    assert!(t.functions.is_empty() && t.libs.is_empty() && t.connections.is_empty());
    assert!(t.source_routes.is_empty() && t.destination_routes.is_empty());
    assert!(t.collapsed_connections.is_empty());
}
