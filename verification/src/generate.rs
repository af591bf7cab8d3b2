//! Generation of the manifest of a flow: the runtime functions made from the compiled
//! functions, with the locations of their implementations made relative to the manifest.
use vstd::prelude::*;
use crate::input::{Input, InputModel};
use crate::model::{Connection, Flow, Function, FunctionModel, IO, IOModel, Library, OutputConnection, copy_output_connections};
use crate::text::{occurs_at, relative_to, strip_dir_prefix};

verus! {

/// The tables built while compiling a flow, from which its manifest is generated.
pub struct GenerationTables {
    pub connections: Vec<Connection>,
    /// From the route of the output of a function to (output name, source function id).
    pub source_routes: Vec<(String, (String, usize))>,
    /// From the route of the input of a function to (destination function id, input number,
    /// flow id).
    pub destination_routes: Vec<(String, (usize, usize, usize))>,
    pub collapsed_connections: Vec<Connection>,
    pub functions: Vec<Function>,
    pub libs: Vec<String>,
}

/// No two entries of a table share a key.
pub open spec fn keys_unique<K: View, V>(t: Seq<(K, V)>) -> bool {
    forall|i: int, j: int| 0 <= i < j < t.len() ==> t[i].0@ != t[j].0@
}

/// No string occurs twice.
pub open spec fn strings_unique(t: Seq<String>) -> bool {
    forall|i: int, j: int| 0 <= i < j < t.len() ==> t[i]@ != t[j]@
}

impl GenerationTables {
    /// The route tables are maps, each route a key at most once, and the libraries a set.
    pub open spec fn well_formed(&self) -> bool {
        &&& keys_unique(self.source_routes@)
        &&& keys_unique(self.destination_routes@)
        &&& strings_unique(self.libs@)
    }

    /// Empty tables.
    pub fn new() -> (t: GenerationTables)
        ensures
            t.well_formed(),
            t.connections@.len() == 0,
            t.source_routes@.len() == 0,
            t.destination_routes@.len() == 0,
            t.collapsed_connections@.len() == 0,
            t.functions@.len() == 0,
            t.libs@.len() == 0,
    {
        GenerationTables {
            connections: Vec::new(),
            source_routes: Vec::new(),
            destination_routes: Vec::new(),
            collapsed_connections: Vec::new(),
            functions: Vec::new(),
            libs: Vec::new(),
        }
    }
}

/// The description of a flow or a library, as the manifest holds it.
#[derive(Debug, PartialEq)]
pub struct MetaData {
    pub name: String,
    pub description: String,
    pub version: String,
    pub author_name: String,
    pub author_email: String,
}

impl MetaData {
    /// The description of a flow.
    pub fn from_flow(flow: &Flow) -> (m: MetaData)
        ensures
            m == (MetaData {
                name: flow.name,
                description: flow.description,
                version: flow.version,
                author_name: flow.author_name,
                author_email: flow.author_email,
            }),
    {
        MetaData {
            name: flow.name.clone(),
            description: flow.description.clone(),
            version: flow.version.clone(),
            author_name: flow.author_name.clone(),
            author_email: flow.author_email.clone(),
        }
    }

    /// The description of a library.
    pub fn from_library(library: &Library) -> (m: MetaData)
        ensures
            m == (MetaData {
                name: library.name,
                description: library.description,
                version: library.version,
                author_name: library.author_name,
                author_email: library.author_email,
            }),
    {
        MetaData {
            name: library.name.clone(),
            description: library.description.clone(),
            version: library.version.clone(),
            author_name: library.author_name.clone(),
            author_email: library.author_email.clone(),
        }
    }
}

/// A function as the runtime runs it.
pub struct RuntimeFunction {
    pub name: String,
    pub route: String,
    pub implementation_location: String,
    pub inputs: Vec<Input>,
    pub id: usize,
    pub flow_id: usize,
    pub output_connections: Vec<OutputConnection>,
    pub debug: bool,
}

/// The model of a runtime function.
pub struct RuntimeFunctionModel {
    pub name: Seq<char>,
    pub route: Seq<char>,
    pub implementation_location: Seq<char>,
    pub inputs: Seq<InputModel>,
    pub id: usize,
    pub flow_id: usize,
    pub output_connections: Seq<OutputConnection>,
    pub debug: bool,
}

/// The models of a list of inputs.
pub open spec fn inputs_model(inputs: Seq<Input>) -> Seq<InputModel> {
    inputs.map_values(|i: Input| i@)
}

impl View for RuntimeFunction {
    type V = RuntimeFunctionModel;

    open spec fn view(&self) -> RuntimeFunctionModel {
        RuntimeFunctionModel {
            name: self.name@,
            route: self.route@,
            implementation_location: self.implementation_location@,
            inputs: inputs_model(self.inputs@),
            id: self.id,
            flow_id: self.flow_id,
            output_connections: self.output_connections@,
            debug: self.debug,
        }
    }
}

impl RuntimeFunction {
    /// A runtime function.
    pub fn new(
        name: String,
        route: String,
        implementation_location: String,
        inputs: Vec<Input>,
        id: usize,
        flow_id: usize,
        output_connections: Vec<OutputConnection>,
        debug: bool,
    ) -> (f: RuntimeFunction)
        ensures
            f == (RuntimeFunction {
                name,
                route,
                implementation_location,
                inputs,
                id,
                flow_id,
                output_connections,
                debug,
            }),
    {
        RuntimeFunction {
            name,
            route,
            implementation_location,
            inputs,
            id,
            flow_id,
            output_connections,
            debug,
        }
    }
}

/// Why a runtime function could not be generated.
#[derive(Debug, PartialEq)]
pub enum GenerateError {
    /// The named function is not a library reference, yet no implementation is provided.
    MissingImplementation(String),
}

/// The runtime input made from a compiled input: of the same depth and initializer, with
/// nothing received.
pub open spec fn input_of_io(io: IOModel) -> InputModel {
    InputModel { depth: io.depth as nat, initializer: io.initializer, received: Seq::empty() }
}

/// The text `lib://`.
pub open spec fn lib_scheme() -> Seq<char> {
    seq!['l', 'i', 'b', ':', '/', '/']
}

/// Where the implementation of a function is, relative to the directory of the manifest:
/// `lib://<library reference>/<function name>` for a function of a library, else the path of
/// its implementation, made relative to the directory when it is under it; without either,
/// the name of the function as the error.
pub open spec fn implementation_location(f: FunctionModel, out_dir: Seq<char>) -> Result<Seq<char>, Seq<char>> {
    match f.lib_reference {
        Some(lib) => Ok(lib_scheme() + lib + seq!['/'] + f.name),
        None => match f.implementation {
            Some(path) => Ok(relative_to(path, out_dir)),
            None => Err(f.name),
        },
    }
}

/// The runtime function generated from a compiled function. The name and the route are kept
/// only with debug symbols.
pub open spec fn runtime_function(
    manifest_dir: Seq<char>,
    f: FunctionModel,
    debug_symbols: bool,
) -> Result<RuntimeFunctionModel, Seq<char>> {
    match implementation_location(f, manifest_dir) {
        Ok(location) => Ok(
            RuntimeFunctionModel {
                name: if debug_symbols { f.alias } else { Seq::empty() },
                route: if debug_symbols { f.route } else { Seq::empty() },
                implementation_location: location,
                inputs: match f.inputs {
                    Some(ios) => ios.map_values(|io: IOModel| input_of_io(io)),
                    None => Seq::empty(),
                },
                id: f.id,
                flow_id: f.flow_id,
                output_connections: f.output_connections,
                debug: debug_symbols,
            },
        ),
        Err(name) => Err(name),
    }
}

/// The model of the result of a generation.
pub open spec fn generated_model(r: Result<RuntimeFunction, GenerateError>) -> Result<RuntimeFunctionModel, Seq<char>> {
    match r {
        Ok(f) => Ok(f@),
        Err(GenerateError::MissingImplementation(name)) => Err(name@),
    }
}

impl Input {
    /// The runtime input made from a compiled input.
    pub fn from_io(io: &IO) -> (i: Input)
        ensures
            i@ == input_of_io(io@),
            i@.depth == io@.depth as nat,
            i@.initializer == io@.initializer,
            i@.received.len() == 0,
    {
        Input::new(io.depth(), io.get_initializer())
    }
}

fn lib_scheme_string() -> (s: String)
    ensures
        s@ == lib_scheme(),
{
    proof {
        reveal_strlit("lib://");
    }
    String::from_str("lib://")
}

/// Gets the location of the implementation, relative to the manifest's directory if it is a
/// provided implementation.
pub fn implementation_location_relative(function: &Function, out_dir: &str) -> (r: Result<String, GenerateError>)
    ensures
        (match r {
            Ok(s) => Ok(s@),
            Err(GenerateError::MissingImplementation(name)) => Err(name@),
        }) == implementation_location(function@, out_dir@),
{
    match &function.lib_reference {
        Some(lib_reference) => {
            let mut s = lib_scheme_string();
            s.append(lib_reference.as_str());
            proof {
                reveal_strlit("/");
            }
            s.append("/");
            s.append(function.name.as_str());
            assert(s@ =~= lib_scheme() + lib_reference@ + seq!['/'] + function.name@);
            Ok(s)
        },
        None => match &function.implementation {
            Some(implementation_path) => Ok(strip_dir_prefix(implementation_path.as_str(), out_dir)),
            None => Err(GenerateError::MissingImplementation(function.name.clone())),
        },
    }
}

/// Creates a runtime function from a compiled function; `manifest_dir` is the directory that
/// paths are made relative to.
pub fn function_to_runtimefunction(manifest_dir: &str, function: &Function, debug_symbols: bool) -> (r: Result<RuntimeFunction, GenerateError>)
    ensures
        generated_model(r) == runtime_function(manifest_dir@, function@, debug_symbols),
{
    let name = if debug_symbols { function.alias.clone() } else { String::new() };
    let route = if debug_symbols { function.route.clone() } else { String::new() };

    let implementation_location = match implementation_location_relative(function, manifest_dir) {
        Ok(l) => l,
        Err(e) => return Err(e),
    };

    let mut runtime_inputs: Vec<Input> = Vec::new();
    match &function.inputs {
        None => {},
        Some(inputs) => {
            let mut i: usize = 0;
            while i < inputs.len()
                invariant
                    i <= inputs.len(),
                    runtime_inputs.len() == i,
                    forall|k: int| 0 <= k < i ==> #[trigger] runtime_inputs@[k]@ == input_of_io(inputs@[k]@),
                decreases inputs.len() - i,
            {
                runtime_inputs.push(Input::from_io(&inputs[i]));
                i = i + 1;
            }
            proof {
                assert(inputs_model(runtime_inputs@) =~= crate::model::ios_model(inputs@).map_values(
                    |io: IOModel| input_of_io(io),
                ));
            }
        },
    }
    proof {
        if function.inputs is None {
            assert(inputs_model(runtime_inputs@) =~= Seq::<InputModel>::empty());
        }
    }

    Ok(RuntimeFunction::new(
        name,
        route,
        implementation_location,
        runtime_inputs,
        function.id,
        function.flow_id,
        copy_output_connections(&function.output_connections),
        debug_symbols,
    ))
}

/// The manifest of a flow: its description, the runtime functions it runs, and the libraries
/// it references.
pub struct Manifest {
    pub metadata: MetaData,
    pub lib_references: Vec<String>,
    pub functions: Vec<RuntimeFunction>,
}

impl Manifest {
    /// A manifest with no functions and no library references.
    pub fn new(metadata: MetaData) -> (m: Manifest)
        ensures
            m.metadata == metadata,
            m.lib_references@.len() == 0,
            m.functions@.len() == 0,
    {
        Manifest { metadata, lib_references: Vec::new(), functions: Vec::new() }
    }

    /// Adds a runtime function.
    pub fn add_function(&mut self, function: RuntimeFunction)
        ensures
            final(self).metadata == old(self).metadata,
            final(self).lib_references == old(self).lib_references,
            final(self).functions@ == old(self).functions@.push(function),
    {
        self.functions.push(function);
    }
}

/// The runtime functions generated from a list of compiled functions, in order, or the error
/// of the first that cannot be generated.
pub open spec fn all_generated(
    manifest_dir: Seq<char>,
    fs: Seq<FunctionModel>,
    debug_symbols: bool,
) -> Result<Seq<RuntimeFunctionModel>, Seq<char>>
    decreases fs.len(),
{
    if fs.len() == 0 {
        Ok(Seq::empty())
    } else {
        match all_generated(manifest_dir, fs.drop_last(), debug_symbols) {
            Ok(done) => match runtime_function(manifest_dir, fs.last(), debug_symbols) {
                Ok(f) => Ok(done.push(f)),
                Err(e) => Err(e),
            },
            Err(e) => Err(e),
        }
    }
}

/// The models of a list of runtime functions.
pub open spec fn runtime_functions_model(fs: Seq<RuntimeFunction>) -> Seq<RuntimeFunctionModel> {
    fs.map_values(|f: RuntimeFunction| f@)
}

/// The models of a list of compiled functions.
pub open spec fn functions_model(fs: Seq<Function>) -> Seq<FunctionModel> {
    fs.map_values(|f: Function| f@)
}

fn copy_strings(v: &Vec<String>) -> (r: Vec<String>)
    ensures
        r@ == v@,
{
    let mut out: Vec<String> = Vec::new();
    let mut i: usize = 0;
    while i < v.len()
        invariant
            i <= v.len(),
            out@ == v@.take(i as int),
        decreases v.len() - i,
    {
        out.push(v[i].clone());
        proof {
            assert(v@.take(i + 1) =~= v@.take(i as int).push(v@[i as int]));
        }
        i = i + 1;
    }
    assert(v@.take(v.len() as int) =~= v@);
    out
}

/// Creates the manifest of a flow: its description, a runtime function for each function in
/// the tables, in order, and the libraries referenced. Paths in the manifest are made relative
/// to `manifest_dir`, so the manifest and its files can be moved together.
pub fn create_manifest(flow: &Flow, debug_symbols: bool, manifest_dir: &str, tables: &GenerationTables) -> (r: Result<Manifest, GenerateError>)
    ensures
        (match r {
            Ok(m) => Ok(runtime_functions_model(m.functions@)),
            Err(GenerateError::MissingImplementation(name)) => Err(name@),
        }) == all_generated(manifest_dir@, functions_model(tables.functions@), debug_symbols),
        r matches Ok(m) ==> m.metadata == MetaData::from_flow_spec(flow) && m.lib_references@
            == tables.libs@,
        r matches Ok(m) ==> (tables.well_formed() ==> strings_unique(m.lib_references@)),
{
    let mut manifest = Manifest::new(MetaData::from_flow(flow));
    let ghost fs = functions_model(tables.functions@);
    let mut i: usize = 0;
    proof {
        assert(fs.take(0) =~= Seq::<FunctionModel>::empty());
        assert(runtime_functions_model(manifest.functions@) =~= Seq::<RuntimeFunctionModel>::empty());
    }
    while i < tables.functions.len()
        invariant
            i <= tables.functions.len(),
            fs == functions_model(tables.functions@),
            manifest.metadata == MetaData::from_flow_spec(flow),
            all_generated(manifest_dir@, fs.take(i as int), debug_symbols) == Ok::<Seq<RuntimeFunctionModel>, Seq<char>>(
                runtime_functions_model(manifest.functions@),
            ),
        decreases tables.functions.len() - i,
    {
        let f = function_to_runtimefunction(manifest_dir, &tables.functions[i], debug_symbols);
        proof {
            assert(fs.take(i + 1).drop_last() =~= fs.take(i as int));
            assert(fs.take(i + 1).last() == tables.functions@[i as int]@);
        }
        match f {
            Ok(rf) => {
                let ghost before = manifest.functions@;
                manifest.add_function(rf);
                proof {
                    assert(runtime_functions_model(manifest.functions@) =~= runtime_functions_model(
                        before,
                    ).push(manifest.functions@.last()@));
                }
            },
            Err(e) => {
                proof {
                    lemma_all_generated_err(manifest_dir@, fs, debug_symbols, i + 1);
                }
                return Err(e);
            },
        }
        i = i + 1;
    }
    proof {
        assert(fs.take(tables.functions.len() as int) =~= fs);
    }
    manifest.lib_references = copy_strings(&tables.libs);
    Ok(manifest)
}

impl MetaData {
    /// The description of a flow.
    pub open spec fn from_flow_spec(flow: &Flow) -> MetaData {
        MetaData {
            name: flow.name,
            description: flow.description,
            version: flow.version,
            author_name: flow.author_name,
            author_email: flow.author_email,
        }
    }
}

proof fn lemma_all_generated_err(dir: Seq<char>, fs: Seq<FunctionModel>, debug: bool, k: int)
    requires
        0 < k <= fs.len(),
        all_generated(dir, fs.take(k), debug) is Err,
    ensures
        all_generated(dir, fs, debug) == all_generated(dir, fs.take(k), debug),
    decreases fs.len() - k,
{
    if k < fs.len() {
        assert(fs.take(k + 1).drop_last() =~= fs.take(k));
        lemma_all_generated_err(dir, fs, debug, k + 1);
    } else {
        assert(fs.take(k) =~= fs);
    }
}

/// A function of a library always has a location, whatever the directory of the manifest:
/// `lib://` followed by its library reference, `/` and its name.
pub proof fn law_library_functions_located(f: FunctionModel, out_dir: Seq<char>, lib: Seq<char>)
    requires
        f.lib_reference == Some(lib),
    ensures
        implementation_location(f, out_dir) == Ok::<Seq<char>, Seq<char>>(lib_scheme() + lib + seq!['/'] + f.name),
{
}

/// Without debug symbols a runtime function carries no name and no route; with them it
/// carries the alias and route of the compiled function. Either way the rest is the same.
pub proof fn law_debug_symbols_only_name_and_route(dir: Seq<char>, f: FunctionModel)
    ensures
        runtime_function(dir, f, false) is Ok <==> runtime_function(dir, f, true) is Ok,
        runtime_function(dir, f, false) matches Ok(plain) ==> {
            let debug = runtime_function(dir, f, true)->Ok_0;
            &&& plain.name.len() == 0 && plain.route.len() == 0
            &&& debug.name == f.alias && debug.route == f.route
            &&& plain.implementation_location == debug.implementation_location
            &&& plain.inputs == debug.inputs
            &&& plain.id == debug.id && plain.flow_id == debug.flow_id
            &&& plain.output_connections == debug.output_connections
        },
{
}

/// An implementation under the manifest's directory is located by its path below the
/// directory, and one elsewhere by its path as it is.
pub proof fn law_paths_relative_to_directory(dir: Seq<char>, rest: Seq<char>, path: Seq<char>)
    ensures
        relative_to(dir + rest, dir) == rest,
        !occurs_at(path, dir, 0) ==> relative_to(path, dir) == path,
{
    assert((dir + rest).subrange(0, dir.len() as int) =~= dir);
    assert((dir + rest).subrange(dir.len() as int, (dir + rest).len() as int) =~= rest);
}

/// Each runtime input generated for a function keeps the depth and the initializer of the
/// compiled input it is made from, in the same place, and starts with nothing received; a
/// function without inputs gets none.
pub proof fn law_generated_inputs_keep_depth(manifest_dir: Seq<char>, f: FunctionModel, debug_symbols: bool)
    requires
        runtime_function(manifest_dir, f, debug_symbols) is Ok,
    ensures
        runtime_function(manifest_dir, f, debug_symbols)->Ok_0.inputs.len() == (match f.inputs {
            Some(ios) => ios.len(),
            None => 0,
        }),
        forall|k: int|
            0 <= k < runtime_function(manifest_dir, f, debug_symbols)->Ok_0.inputs.len() ==> {
                let input = #[trigger] runtime_function(manifest_dir, f, debug_symbols)->Ok_0.inputs[k];
                &&& input.depth == f.inputs->0[k].depth as nat
                &&& input.initializer == f.inputs->0[k].initializer
                &&& input.received.len() == 0
            },
{
}

} // verus!
