//! A runtime value: a process with a single input that holds the last value written to it,
//! optionally initialized, and that passes it on to its outputs when run.
use vstd::prelude::*;
use crate::json::{JsonValue, JsonModel, values_model, lemma_values_model};

verus! {

/// The only input of a value.
pub const ONLY_INPUT: usize = 0;

/// The model of a runtime value.
pub struct ValueModel {
    pub name: Seq<char>,
    pub id: usize,
    pub initial_value: Option<JsonModel>,
    pub value: JsonModel,
    pub output_routes: Seq<(Seq<char>, usize, usize)>,
}

/// A runtime value. The implementation it runs is held by the runner, which hands it the
/// inputs that `take_inputs` consumes.
pub struct Value {
    name: String,
    id: usize,
    initial_value: Option<JsonValue>,
    value: JsonValue,
    output_routes: Vec<(String, usize, usize)>,
}

/// The model of an optional JSON value.
pub open spec fn option_model(v: Option<JsonValue>) -> Option<JsonModel> {
    match v {
        Some(x) => Some(x@),
        None => None,
    }
}

/// The model of output routes: (sub-route of the output, destination id, input number).
pub open spec fn routes_model(r: Seq<(String, usize, usize)>) -> Seq<(Seq<char>, usize, usize)> {
    r.map_values(|e: (String, usize, usize)| (e.0@, e.1, e.2))
}

impl Value {
    /// The model of this value.
    pub closed spec fn model(&self) -> ValueModel {
        ValueModel {
            name: self.name@,
            id: self.id,
            initial_value: option_model(self.initial_value),
            value: self.value@,
            output_routes: routes_model(self.output_routes@),
        }
    }
}

impl View for Value {
    type V = ValueModel;

    open spec fn view(&self) -> ValueModel {
        self.model()
    }
}

impl ValueModel {
    /// All (the single) inputs are satisfied: a non-null value is held.
    pub open spec fn satisfied(self) -> bool {
        !(self.value is Null)
    }

    /// The value after `v` is written to it.
    pub open spec fn written(self, v: JsonModel) -> ValueModel {
        ValueModel { value: v, ..self }
    }

    /// The value after initialization: the initial value, if any, is written.
    pub open spec fn initialized(self) -> ValueModel {
        match self.initial_value {
            Some(v) => self.written(v),
            None => self,
        }
    }
}

impl Value {
    /// A new value, holding null until written or initialized.
    pub fn new(
        name: String,
        _num_inputs: usize,
        id: usize,
        initial_value: Option<JsonValue>,
        output_routes: Vec<(String, usize, usize)>,
    ) -> (r: Value)
        ensures
            r@ == (ValueModel {
                name: name@,
                id,
                initial_value: option_model(initial_value),
                value: JsonModel::Null,
                output_routes: routes_model(output_routes@),
            }),
    {
        Value { name, id, initial_value, value: JsonValue::Null, output_routes }
    }

    /// The name of the value.
    pub fn name(&self) -> (n: &str)
        ensures
            n@ == self@.name,
    {
        self.name.as_str()
    }

    /// A value has exactly one input.
    pub fn number_of_inputs(&self) -> (n: usize)
        ensures
            n == 1,
    {
        1
    }

    /// The id of the value.
    pub fn id(&self) -> (i: usize)
        ensures
            i == self@.id,
    {
        self.id
    }

    /// Writes the initial value, if one is defined, and returns whether the value is then
    /// ready to run.
    pub fn init(&mut self) -> (ready: bool)
        ensures
            final(self)@ == old(self)@.initialized(),
            ready == final(self)@.satisfied(),
    {
        let value = match &self.initial_value {
            Some(v) => Some(v.deep_clone()),
            None => None,
        };
        if let Some(v) = value {
            self.write_input(ONLY_INPUT, v);
        }
        self.inputs_satisfied()
    }

    /// Replaces the value held. This is only called once the value held has been consumed by
    /// all the listeners, so it can be overwritten.
    pub fn write_input(&mut self, _input_number: usize, input_value: JsonValue)
        ensures
            final(self)@ == old(self)@.written(input_value@),
    {
        self.value = input_value;
    }

    /// Responds true if all inputs have been satisfied - false otherwise.
    pub fn inputs_satisfied(&self) -> (b: bool)
        ensures
            b == self@.satisfied(),
    {
        !self.value.is_null()
    }

    /// Consumes the value held, leaving null, and returns the set of inputs to run the
    /// implementation with: that value alone.
    pub fn take_inputs(&mut self) -> (inputs: Vec<JsonValue>)
        ensures
            values_model(inputs@) == seq![old(self)@.value],
            final(self)@ == old(self)@.written(JsonModel::Null),
    {
        let mut input = JsonValue::Null;
        std::mem::swap(&mut input, &mut self.value);
        let mut inputs: Vec<JsonValue> = Vec::new();
        inputs.push(input);
        proof {
            lemma_values_model(inputs@);
            assert(values_model(inputs@) =~= seq![old(self)@.value]);
        }
        inputs
    }

    /// Consumes the value held, leaving null, and runs the implementation with it as the
    /// only input: the output is what the implementation returns for that input.
    pub fn run<F: Fn(Vec<JsonValue>) -> JsonValue>(&mut self, implementation: F) -> (output: JsonValue)
        requires
            forall|inputs: Vec<JsonValue>| #[trigger] implementation.requires((inputs,)),
        ensures
            exists|inputs: Vec<JsonValue>|
                values_model(inputs@) == seq![old(self)@.value] && #[trigger] implementation.ensures(
                    (inputs,),
                    output,
                ),
            final(self)@ == old(self)@.written(JsonModel::Null),
    {
        let inputs = self.take_inputs();
        let ghost taken = inputs;
        let output = implementation(inputs);
        assert(values_model(taken@) == seq![old(self)@.value] && implementation.ensures(
            (taken,),
            output,
        ));
        output
    }

    /// The routes by which the output is sent on.
    pub fn output_destinations(&self) -> (r: &Vec<(String, usize, usize)>)
        ensures
            routes_model(r@) == self@.output_routes,
    {
        &self.output_routes
    }
}

/// Writing a value satisfies the input exactly when the value written is not null, and
/// running consumes it: afterwards the input is no longer satisfied.
pub proof fn law_write_then_run(v: ValueModel, x: JsonModel)
    ensures
        v.written(x).satisfied() <==> !(x is Null),
        !v.written(x).written(JsonModel::Null).satisfied(),
        v.written(x).written(JsonModel::Null).written(x) == v.written(x),
{
}

/// Initialization is idempotent, and after it the value is ready exactly when an initial
/// value that is not null was defined, or the value already held one.
pub proof fn law_init(v: ValueModel)
    ensures
        v.initialized().initialized() == v.initialized(),
        v.initialized().satisfied() <==> (match v.initial_value {
            Some(x) => !(x is Null),
            None => v.satisfied(),
        }),
{
}

} // verus!
