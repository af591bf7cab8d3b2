//! The compile-time model of a flow: its functions, their inputs and outputs, the
//! connections between them, values, sub-flows and libraries.
use vstd::prelude::*;
use crate::input::{InputInitializer, InitializerModel, initializer_model, copy_initializer};
use crate::json::JsonValue;

verus! {

/// A connection from an output to an input, by their routes.
#[derive(Debug)]
pub struct Connection {
    pub name: String,
    pub from: String,
    pub to: String,
}

/// A value defined in a flow.
#[derive(Debug)]
pub struct Value {
    pub name: String,
    pub datatype: String,
    pub value: Option<JsonValue>,
}

/// An input or output of a function or flow.
pub struct IO {
    pub name: String,
    pub datatype: String,
    pub route: String,
    pub depth: usize,
    pub initializer: Option<InputInitializer>,
}

/// The model of an IO.
pub struct IOModel {
    pub name: Seq<char>,
    pub datatype: Seq<char>,
    pub route: Seq<char>,
    pub depth: usize,
    pub initializer: Option<InitializerModel>,
}

impl View for IO {
    type V = IOModel;

    open spec fn view(&self) -> IOModel {
        IOModel {
            name: self.name@,
            datatype: self.datatype@,
            route: self.route@,
            depth: self.depth,
            initializer: initializer_model(self.initializer),
        }
    }
}

/// The models of a list of IOs.
pub open spec fn ios_model(ios: Seq<IO>) -> Seq<IOModel> {
    ios.map_values(|io: IO| io@)
}

/// The models of an optional list of IOs.
pub open spec fn opt_ios_model(ios: Option<Vec<IO>>) -> Option<Seq<IOModel>> {
    match ios {
        Some(v) => Some(ios_model(v@)),
        None => None,
    }
}

impl IO {
    /// An unnamed IO of the given data type and route, of depth one and with no initializer.
    pub fn new(datatype: &str, route: &str) -> (io: IO)
        ensures
            io@ == (IOModel {
                name: Seq::empty(),
                datatype: datatype@,
                route: route@,
                depth: 1,
                initializer: None,
            }),
    {
        IO {
            name: String::new(),
            datatype: String::from_str(datatype),
            route: String::from_str(route),
            depth: 1,
            initializer: None,
        }
    }

    /// The number of values that make up one set of inputs.
    pub fn depth(&self) -> (d: usize)
        ensures
            d == self.depth,
    {
        self.depth
    }

    /// The initializer of the IO.
    pub fn get_initializer(&self) -> (i: &Option<InputInitializer>)
        ensures
            *i == self.initializer,
    {
        &self.initializer
    }

    /// Sets the initializer of the IO.
    pub fn set_initializer(&mut self, initializer: &Option<InputInitializer>)
        ensures
            final(self)@ == (IOModel { initializer: initializer_model(*initializer), ..old(self)@ }),
    {
        self.initializer = copy_initializer(initializer);
    }

    /// Copies the IO.
    pub fn copy(&self) -> (r: IO)
        ensures
            r@ == self@,
    {
        IO {
            name: self.name.clone(),
            datatype: self.datatype.clone(),
            route: self.route.clone(),
            depth: self.depth,
            initializer: copy_initializer(&self.initializer),
        }
    }
}

/// Copies a list of IOs.
pub fn copy_ios(ios: &Vec<IO>) -> (r: Vec<IO>)
    ensures
        ios_model(r@) == ios_model(ios@),
{
    let mut out: Vec<IO> = Vec::new();
    let mut i: usize = 0;
    while i < ios.len()
        invariant
            i <= ios.len(),
            out.len() == i,
            forall|k: int| 0 <= k < i ==> #[trigger] out@[k]@ == ios@[k]@,
        decreases ios.len() - i,
    {
        out.push(ios[i].copy());
        i = i + 1;
    }
    assert(ios_model(out@) =~= ios_model(ios@));
    out
}

/// Copies an optional list of IOs.
pub fn copy_opt_ios(ios: &Option<Vec<IO>>) -> (r: Option<Vec<IO>>)
    ensures
        opt_ios_model(r) == opt_ios_model(*ios),
{
    match ios {
        Some(v) => Some(copy_ios(v)),
        None => None,
    }
}

/// A connection from an output of a function to an input of another, as the runtime uses it.
#[derive(Debug, PartialEq)]
pub struct OutputConnection {
    /// The sub-route of the output the value is taken from; empty for the whole output.
    pub subroute: String,
    pub function_id: usize,
    pub io_number: usize,
    pub flow_id: usize,
    pub array_order: usize,
    pub generic: bool,
    pub route: Option<String>,
}

impl OutputConnection {
    /// An output connection.
    pub fn new(
        subroute: String,
        function_id: usize,
        io_number: usize,
        flow_id: usize,
        array_order: usize,
        generic: bool,
        route: Option<String>,
    ) -> (c: OutputConnection)
        ensures
            c == (OutputConnection {
                subroute,
                function_id,
                io_number,
                flow_id,
                array_order,
                generic,
                route,
            }),
    {
        OutputConnection { subroute, function_id, io_number, flow_id, array_order, generic, route }
    }

    /// Copies the output connection.
    pub fn copy(&self) -> (r: OutputConnection)
        ensures
            r == *self,
    {
        OutputConnection {
            subroute: self.subroute.clone(),
            function_id: self.function_id,
            io_number: self.io_number,
            flow_id: self.flow_id,
            array_order: self.array_order,
            generic: self.generic,
            route: match &self.route {
                Some(r) => Some(r.clone()),
                None => None,
            },
        }
    }
}

/// Copies a list of output connections.
pub fn copy_output_connections(v: &Vec<OutputConnection>) -> (r: Vec<OutputConnection>)
    ensures
        r@ == v@,
{
    let mut out: Vec<OutputConnection> = Vec::new();
    let mut i: usize = 0;
    while i < v.len()
        invariant
            i <= v.len(),
            out@ == v@.take(i as int),
        decreases v.len() - i,
    {
        out.push(v[i].copy());
        proof {
            assert(v@.take(i + 1) =~= v@.take(i as int).push(v@[i as int]));
        }
        i = i + 1;
    }
    assert(v@.take(v.len() as int) =~= v@);
    out
}

/// A function as compiled: where its implementation is, its inputs and outputs, and the
/// connections from its outputs.
pub struct Function {
    pub name: String,
    pub impure: bool,
    pub implementation: Option<String>,
    pub alias: String,
    pub inputs: Option<Vec<IO>>,
    pub outputs: Option<Vec<IO>>,
    pub source_url: String,
    pub route: String,
    pub lib_reference: Option<String>,
    pub output_connections: Vec<OutputConnection>,
    pub id: usize,
    pub flow_id: usize,
}

/// The model of a function.
pub struct FunctionModel {
    pub name: Seq<char>,
    pub impure: bool,
    pub implementation: Option<Seq<char>>,
    pub alias: Seq<char>,
    pub inputs: Option<Seq<IOModel>>,
    pub outputs: Option<Seq<IOModel>>,
    pub source_url: Seq<char>,
    pub route: Seq<char>,
    pub lib_reference: Option<Seq<char>>,
    pub output_connections: Seq<OutputConnection>,
    pub id: usize,
    pub flow_id: usize,
}

/// The model of an optional string.
pub open spec fn opt_str(s: Option<String>) -> Option<Seq<char>> {
    match s {
        Some(x) => Some(x@),
        None => None,
    }
}

impl View for Function {
    type V = FunctionModel;

    open spec fn view(&self) -> FunctionModel {
        FunctionModel {
            name: self.name@,
            impure: self.impure,
            implementation: opt_str(self.implementation),
            alias: self.alias@,
            inputs: opt_ios_model(self.inputs),
            outputs: opt_ios_model(self.outputs),
            source_url: self.source_url@,
            route: self.route@,
            lib_reference: opt_str(self.lib_reference),
            output_connections: self.output_connections@,
            id: self.id,
            flow_id: self.flow_id,
        }
    }
}

fn copy_opt_string(s: &Option<String>) -> (r: Option<String>)
    ensures
        r == *s,
{
    match s {
        Some(x) => Some(x.clone()),
        None => None,
    }
}

impl Function {
    /// A function.
    pub fn new(
        name: String,
        impure: bool,
        implementation: Option<String>,
        alias: String,
        inputs: Option<Vec<IO>>,
        outputs: Option<Vec<IO>>,
        source_url: &str,
        route: String,
        lib_reference: Option<String>,
        output_connections: Vec<OutputConnection>,
        id: usize,
        flow_id: usize,
    ) -> (f: Function)
        ensures
            f@ == (FunctionModel {
                name: name@,
                impure,
                implementation: opt_str(implementation),
                alias: alias@,
                inputs: opt_ios_model(inputs),
                outputs: opt_ios_model(outputs),
                source_url: source_url@,
                route: route@,
                lib_reference: opt_str(lib_reference),
                output_connections: output_connections@,
                id,
                flow_id,
            }),
    {
        Function {
            name,
            impure,
            implementation,
            alias,
            inputs,
            outputs,
            source_url: String::from_str(source_url),
            route,
            lib_reference,
            output_connections,
            id,
            flow_id,
        }
    }

    /// Copies the function.
    pub fn copy(&self) -> (r: Function)
        ensures
            r@ == self@,
    {
        Function {
            name: self.name.clone(),
            impure: self.impure,
            implementation: copy_opt_string(&self.implementation),
            alias: self.alias.clone(),
            inputs: copy_opt_ios(&self.inputs),
            outputs: copy_opt_ios(&self.outputs),
            source_url: self.source_url.clone(),
            route: self.route.clone(),
            lib_reference: copy_opt_string(&self.lib_reference),
            output_connections: copy_output_connections(&self.output_connections),
            id: self.id,
            flow_id: self.flow_id,
        }
    }
}

/// A reference from a flow to a function it uses.
pub struct FunctionReference {
    pub alias: String,
    pub source: String,
    pub function: Function,
}

/// A reference from a flow to a sub-flow it uses.
pub struct FlowReference {
    pub alias: String,
    pub source: String,
    pub flow: Flow,
}

/// A flow as compiled: its description, and the connections, values, functions and
/// sub-flows it holds.
pub struct Flow {
    pub name: String,
    pub description: String,
    pub version: String,
    pub author_name: String,
    pub author_email: String,
    pub connections: Option<Vec<Connection>>,
    pub values: Option<Vec<Value>>,
    pub function_refs: Option<Vec<FunctionReference>>,
    pub flow_refs: Option<Vec<FlowReference>>,
}

/// A library of functions, as described by its manifest.
pub struct Library {
    pub name: String,
    pub description: String,
    pub version: String,
    pub author_name: String,
    pub author_email: String,
}

} // verus!
