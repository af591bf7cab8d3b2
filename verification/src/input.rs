//! The input of a runtime function: a queue of received values, a depth that says how
//! many values make up one set of inputs, and an optional initializer.
use vstd::prelude::*;
use crate::json::{JsonValue, JsonModel, values_model, lemma_values_model};

verus! {

/// An initializer that gives an input a value once, when the flow starts.
pub struct OneTimeInputInitializer {
    pub once: JsonValue,
}

/// An initializer that gives an input the same value every time it is initialized.
pub struct ConstantInputInitializer {
    pub constant: JsonValue,
}

/// How an input is initialized.
pub enum InputInitializer {
    Constant(ConstantInputInitializer),
    OneTime(OneTimeInputInitializer),
}

/// The model of an initializer.
pub enum InitializerModel {
    Constant(JsonModel),
    OneTime(JsonModel),
}

/// The model of an input: its depth, its initializer and the values received, oldest first.
pub struct InputModel {
    pub depth: nat,
    pub initializer: Option<InitializerModel>,
    pub received: Seq<JsonModel>,
}

impl View for InputInitializer {
    type V = InitializerModel;

    open spec fn view(&self) -> InitializerModel {
        match self {
            InputInitializer::Constant(c) => InitializerModel::Constant(c.constant@),
            InputInitializer::OneTime(o) => InitializerModel::OneTime(o.once@),
        }
    }
}

/// The model of an optional initializer.
pub open spec fn initializer_model(i: Option<InputInitializer>) -> Option<InitializerModel> {
    match i {
        Some(init) => Some(init@),
        None => None,
    }
}

impl InputModel {
    /// The input after `v` is received.
    pub open spec fn pushed(self, v: JsonModel) -> InputModel {
        InputModel { received: self.received.push(v), ..self }
    }

    /// The input after each of `vs` is received, in order.
    pub open spec fn pushed_all(self, vs: Seq<JsonModel>) -> InputModel {
        InputModel { received: self.received + vs, ..self }
    }

    /// The input with nothing received.
    pub open spec fn emptied(self) -> InputModel {
        InputModel { received: Seq::empty(), ..self }
    }

    /// The set of values taken: the oldest `depth` values received.
    pub open spec fn next_set(self) -> Seq<JsonModel> {
        self.received.take(self.depth as int)
    }

    /// The input after its next set is taken.
    pub open spec fn after_take(self) -> InputModel {
        InputModel { received: self.received.skip(self.depth as int), ..self }
    }

    /// Enough values have been received for a set.
    pub open spec fn is_full(self) -> bool {
        self.received.len() >= self.depth
    }

    /// The value an initialization gives the input, if any: a one-time initializer gives its
    /// value only when the flow starts, a constant initializer gives its value every time.
    pub open spec fn init_value(self, first_time: bool) -> Option<JsonModel> {
        match self.initializer {
            Some(InitializerModel::OneTime(v)) => if first_time { Some(v) } else { None },
            Some(InitializerModel::Constant(v)) => Some(v),
            None => None,
        }
    }

    /// The input after an initialization.
    pub open spec fn initialized(self, first_time: bool) -> InputModel {
        match self.init_value(first_time) {
            Some(v) => self.pushed(v),
            None => self,
        }
    }
}

/// An input of a runtime function.
pub struct Input {
    depth: usize,
    pub initializer: Option<InputInitializer>,
    received: Vec<JsonValue>,
}

impl Input {
    /// The model of this input.
    pub closed spec fn model(&self) -> InputModel {
        InputModel {
            depth: self.depth as nat,
            initializer: initializer_model(self.initializer),
            received: values_model(self.received@),
        }
    }
}

impl View for Input {
    type V = InputModel;

    open spec fn view(&self) -> InputModel {
        self.model()
    }
}

/// Whether a depth is the default depth.
pub fn is_default_depth(depth: &usize) -> (b: bool)
    ensures
        b == (*depth == 1),
{
    *depth == default_depth()
}

/// The depth of an input unless one is given: one value makes a set.
pub fn default_depth() -> (d: usize)
    ensures
        d == 1,
{
    1
}

/// No initializer unless one is given.
pub fn default_initial_value() -> (r: Option<InputInitializer>)
    ensures
        r is None,
{
    None
}

/// Copies an initializer.
pub fn copy_initializer(i: &Option<InputInitializer>) -> (r: Option<InputInitializer>)
    ensures
        initializer_model(r) == initializer_model(*i),
{
    match i {
        Some(InputInitializer::Constant(c)) => Some(
            InputInitializer::Constant(ConstantInputInitializer { constant: c.constant.deep_clone() }),
        ),
        Some(InputInitializer::OneTime(o)) => Some(
            InputInitializer::OneTime(OneTimeInputInitializer { once: o.once.deep_clone() }),
        ),
        None => None,
    }
}

proof fn lemma_values_model_push(s: Seq<JsonValue>, v: JsonValue)
    ensures
        values_model(s.push(v)) == values_model(s).push(v@),
{
    lemma_values_model(s);
    lemma_values_model(s.push(v));
    assert(values_model(s.push(v)) =~= values_model(s).push(v@));
}

proof fn lemma_values_model_split(s: Seq<JsonValue>, k: int)
    requires
        0 <= k <= s.len(),
    ensures
        values_model(s.subrange(0, k)) == values_model(s).take(k),
        values_model(s.subrange(k, s.len() as int)) == values_model(s).skip(k),
{
    lemma_values_model(s);
    lemma_values_model(s.subrange(0, k));
    lemma_values_model(s.subrange(k, s.len() as int));
    assert(values_model(s.subrange(0, k)) =~= values_model(s).take(k));
    assert(values_model(s.subrange(k, s.len() as int)) =~= values_model(s).skip(k));
}

impl Input {
    /// A new input of the given depth and initializer, with nothing received.
    pub fn new(depth: usize, initial_value: &Option<InputInitializer>) -> (r: Input)
        ensures
            r@ == (InputModel {
                depth: depth as nat,
                initializer: initializer_model(*initial_value),
                received: Seq::empty(),
            }),
    {
        let r = Input { depth, initializer: copy_initializer(initial_value), received: Vec::new() };
        proof {
            assert(values_model(r.received@) =~= Seq::<JsonModel>::empty());
        }
        r
    }

    /// Discards every value received.
    pub fn reset(&mut self)
        ensures
            final(self)@ == old(self)@.emptied(),
    {
        self.received.clear();
        proof {
            assert(values_model(self.received@) =~= Seq::<JsonModel>::empty());
        }
    }

    /// Takes the oldest `depth` values received, leaving the rest for the next time.
    pub fn take(&mut self) -> (set: Vec<JsonValue>)
        requires
            old(self)@.received.len() >= old(self)@.depth,
        ensures
            values_model(set@) == old(self)@.next_set(),
            final(self)@ == old(self)@.after_take(),
    {
        proof {
            lemma_values_model(self.received@);
            lemma_values_model_split(self.received@, self.depth as int);
        }
        let mut rest = self.received.split_off(self.depth);
        std::mem::swap(&mut rest, &mut self.received);
        rest
    }

    /// Initializes the input from its initializer, if it has one: at start-up
    /// (`first_time`) a one-time or a constant initializer gives its value, afterwards only a
    /// constant one does. Returns whether a value was given.
    pub fn init(&mut self, first_time: bool) -> (given: bool)
        ensures
            given == old(self)@.init_value(first_time) is Some,
            final(self)@ == old(self)@.initialized(first_time),
            final(self)@.depth == old(self)@.depth,
            final(self)@.initializer == old(self)@.initializer,
            (match old(self)@.init_value(first_time) {
                Some(v) => final(self)@.received == old(self)@.received.push(v),
                None => final(self)@.received == old(self)@.received,
            }),
    {
        let input_value = match &self.initializer {
            Some(InputInitializer::OneTime(one_time)) => if first_time {
                Some(one_time.once.deep_clone())
            } else {
                None
            },
            Some(InputInitializer::Constant(constant)) => Some(constant.constant.deep_clone()),
            None => None,
        };
        match input_value {
            Some(value) => {
                self.push(value);
                true
            },
            None => false,
        }
    }

    /// Receives a value.
    pub fn push(&mut self, value: JsonValue)
        ensures
            final(self)@ == old(self)@.pushed(value@),
    {
        proof {
            lemma_values_model_push(self.received@, value);
        }
        self.received.push(value);
    }

    /// The number of values that make up a set.
    pub fn depth(&self) -> (d: usize)
        ensures
            d == self@.depth,
    {
        self.depth
    }

    /// Has nothing been received?
    pub fn is_empty(&self) -> (b: bool)
        ensures
            b == (self@.received.len() == 0),
    {
        proof {
            lemma_values_model(self.received@);
        }
        self.received.len() == 0
    }

    /// Have enough values been received for a set?
    pub fn full(&self) -> (b: bool)
        ensures
            b == self@.is_full(),
    {
        proof {
            lemma_values_model(self.received@);
        }
        self.received.len() >= self.depth
    }
}

/// Values are taken in the order they were received: a value received while a full set is
/// waiting does not change that set, and is the last value left after the set is taken.
pub proof fn law_take_is_first_in_first_out(input: InputModel, v: JsonModel)
    requires
        input.is_full(),
    ensures
        input.pushed(v).is_full(),
        input.pushed(v).next_set() == input.next_set(),
        input.pushed(v).after_take() == input.after_take().pushed(v),
{
    assert(input.pushed(v).next_set() =~= input.next_set());
    assert(input.pushed(v).after_take().received =~= input.after_take().pushed(v).received);
}

/// Receiving exactly `depth` values into an empty input makes it full, and taking then gives
/// back those values, in order, and leaves the input empty again.
pub proof fn law_take_returns_what_was_received(input: InputModel, vs: Seq<JsonModel>)
    requires
        input.received.len() == 0,
        vs.len() == input.depth,
    ensures
        input.pushed_all(vs).is_full(),
        input.pushed_all(vs).next_set() == vs,
        input.pushed_all(vs).after_take() == input,
{
    assert(input.received + vs =~= vs);
    assert(vs.take(vs.len() as int) =~= vs);
    assert(vs.skip(vs.len() as int) =~= input.received);
}

/// Receiving values one at a time is receiving them all at once.
pub proof fn law_push_one_by_one(input: InputModel, vs: Seq<JsonModel>, v: JsonModel)
    ensures
        input.pushed_all(vs).pushed(v) == input.pushed_all(vs.push(v)),
{
    assert(input.pushed_all(vs).pushed(v).received =~= input.pushed_all(vs.push(v)).received);
}

/// After a reset nothing is received, and the input is full only when its depth is zero.
pub proof fn law_reset_empties(input: InputModel)
    ensures
        input.emptied().received.len() == 0,
        input.emptied().is_full() <==> input.depth == 0,
        input.emptied().depth == input.depth,
{
}

/// Re-initialization after start-up gives a value only from a constant initializer,
/// and initialization at start-up gives one from any initializer.
pub proof fn law_init_after_start_only_constant(input: InputModel)
    ensures
        input.init_value(false) is Some <==> input.initializer matches Some(InitializerModel::Constant(_)),
        input.init_value(true) is Some <==> input.initializer is Some,
{
}

/// Initialization adds the initializer's value exactly once, at the end of what was
/// received, when it gives one (a constant always, a one-time value only the first time), and
/// changes nothing otherwise; depth and initializer stay as they were.
pub proof fn law_init_adds_value_once(input: InputModel, first_time: bool)
    ensures
        input.initialized(first_time).depth == input.depth,
        input.initialized(first_time).initializer == input.initializer,
        input.initialized(first_time).received.len() == input.received.len() + (if input.init_value(
            first_time,
        ) is Some {
            1int
        } else {
            0int
        }),
        input.initialized(first_time).received.subrange(0, input.received.len() as int)
            == input.received,
        (match input.initializer {
            Some(InitializerModel::Constant(c)) => input.initialized(first_time).received
                == input.received.push(c),
            Some(InitializerModel::OneTime(o)) => input.initialized(first_time).received == (
            if first_time {
                input.received.push(o)
            } else {
                input.received
            }),
            None => input.initialized(first_time).received == input.received,
        }),
{
    assert(input.received.push(input.initialized(first_time).received.last()).subrange(
        0,
        input.received.len() as int,
    ) =~= input.received);
}

/// An input of depth one with a constant initializer, initialized while empty and then taken,
/// gives back the constant alone and is left empty, so not full.
pub proof fn law_constant_init_then_take(input: InputModel, c: JsonModel, first_time: bool)
    requires
        input.depth == 1,
        input.received.len() == 0,
        input.initializer == Some(InitializerModel::Constant(c)),
    ensures
        input.initialized(first_time).next_set() == seq![c],
        input.initialized(first_time).after_take().received.len() == 0,
        !input.initialized(first_time).after_take().is_full(),
{
    assert(input.initialized(first_time).received =~= seq![c]);
    assert(input.initialized(first_time).next_set() =~= seq![c]);
}

} // verus!
