use flow::gatherer::add_entries;
use flow::model::{Connection, Flow, FlowReference, Function, FunctionReference, Value};

fn connection(name: &str) -> Connection {
    Connection { name: name.into(), from: format!("{}/from", name), to: format!("{}/to", name) }
}

fn function(name: &str) -> Function {
    Function::new(name.into(), false, None, name.into(), None, None, "file:///f", format!("/{}", name), None, vec![], 0, 0)
}

fn flow(name: &str, connections: Vec<&str>, functions: Vec<&str>, subs: Vec<Flow>) -> Flow {
    Flow {
        name: name.into(),
        description: String::new(),
        version: String::new(),
        author_name: String::new(),
        author_email: String::new(),
        connections: Some(connections.into_iter().map(connection).collect()),
        values: Some(vec![Value { name: format!("{}_value", name), datatype: "String".into(), value: None }]),
        function_refs: Some(
            functions
                .into_iter()
                .map(|f| FunctionReference { alias: f.into(), source: String::new(), function: function(f) })
                .collect(),
        ),
        flow_refs: Some(
            subs.into_iter()
                .map(|s| FlowReference { alias: s.name.clone(), source: String::new(), flow: s })
                .collect(),
        ),
    }
}

#[test]
fn gathers_depth_first_in_order() {
    let leaf = flow("leaf", vec!["c3"], vec!["f3"], vec![]);
    let mid = flow("mid", vec!["c2"], vec!["f2"], vec![leaf]);
    let other = flow("other", vec!["c4"], vec![], vec![]);
    let mut root = flow("root", vec!["c1"], vec!["f1"], vec![mid, other]);

    let mut connections = vec![connection("c0")];
    let mut values = vec![];
    let mut functions = vec![];
    let mut libs = vec!["lib".to_string()];
    let mut lib_refs = vec![];
    add_entries(&mut connections, &mut values, &mut functions, &mut libs, &mut lib_refs, &mut root);

    let names: Vec<&str> = connections.iter().map(|c| c.name.as_str()).collect();
    assert_eq!(names, vec!["c0", "c1", "c2", "c3", "c4"]);
    let vnames: Vec<&str> = values.iter().map(|v| v.name.as_str()).collect();
    assert_eq!(vnames, vec!["root_value", "mid_value", "leaf_value", "other_value"]);
    let fnames: Vec<&str> = functions.iter().map(|f| f.name.as_str()).collect();
    assert_eq!(fnames, vec!["f1", "f2", "f3"]);
    assert_eq!(libs, vec!["lib".to_string()]);
    assert!(lib_refs.is_empty());

    // connections and values were moved out of every flow; functions stay referenced
    assert!(root.connections.as_ref().unwrap().is_empty());
    assert!(root.values.as_ref().unwrap().is_empty());
    assert_eq!(root.function_refs.as_ref().unwrap().len(), 1);
    let mid = &root.flow_refs.as_ref().unwrap()[0].flow;
    assert!(mid.connections.as_ref().unwrap().is_empty());
    let leaf = &mid.flow_refs.as_ref().unwrap()[0].flow;
    assert!(leaf.values.as_ref().unwrap().is_empty());
}

#[test]
fn flow_with_nothing_adds_nothing() {
    let mut f = Flow {
        name: "empty".into(),
        description: String::new(),
        version: String::new(),
        author_name: String::new(),
        author_email: String::new(),
        connections: None,
        values: None,
        function_refs: None,
        flow_refs: None,
    };
    let (mut c, mut v, mut fs, mut l, mut r) = (vec![], vec![], vec![], vec![], vec![]);
    add_entries(&mut c, &mut v, &mut fs, &mut l, &mut r, &mut f);
    assert!(c.is_empty() && v.is_empty() && fs.is_empty());
    assert!(f.connections.is_none() && f.values.is_none());
}
