//! JSON values as they flow between functions, held as plain values.
//!
//! A number is held the way a JSON number is held once parsed: a non-negative integer, a
//! negative integer, or any other number, kept as the text by which it is written.
//! An object is held as its entries, in order.
use vstd::prelude::*;
use crate::text::{decimal, signed_decimal, u64_to_decimal, i64_to_decimal};

verus! {

/// A JSON number.
#[derive(Debug, PartialEq)]
pub enum JsonNumber {
    PosInt(u64),
    NegInt(i64),
    Float(String),
}

/// A JSON value.
#[derive(Debug, PartialEq)]
pub enum JsonValue {
    Null,
    Bool(bool),
    Number(JsonNumber),
    String(String),
    Array(Vec<JsonValue>),
    Object(Vec<(String, JsonValue)>),
}

/// The mathematical model of a JSON number.
pub enum NumberModel {
    PosInt(u64),
    NegInt(i64),
    Float(Seq<char>),
}

/// The mathematical model of a JSON value: strings as character sequences,
/// arrays as sequences and objects as sequences of (key, value) entries.
pub enum JsonModel {
    Null,
    Bool(bool),
    Number(NumberModel),
    Str(Seq<char>),
    Array(Seq<JsonModel>),
    Object(Seq<(Seq<char>, JsonModel)>),
}

impl View for JsonNumber {
    type V = NumberModel;

    open spec fn view(&self) -> NumberModel {
        match self {
            JsonNumber::PosInt(n) => NumberModel::PosInt(*n),
            JsonNumber::NegInt(n) => NumberModel::NegInt(*n),
            JsonNumber::Float(s) => NumberModel::Float(s@),
        }
    }
}

/// The model of a sequence of values.
pub open spec fn values_model(s: Seq<JsonValue>) -> Seq<JsonModel>
    decreases s,
{
    if s.len() == 0 {
        Seq::empty()
    } else {
        seq![value_model(s[0])] + values_model(s.subrange(1, s.len() as int))
    }
}

/// The model of a sequence of object entries.
pub open spec fn entries_model(s: Seq<(String, JsonValue)>) -> Seq<(Seq<char>, JsonModel)>
    decreases s,
{
    if s.len() == 0 {
        Seq::empty()
    } else {
        seq![(s[0].0@, value_model(s[0].1))] + entries_model(s.subrange(1, s.len() as int))
    }
}

/// The model of a value.
pub open spec fn value_model(v: JsonValue) -> JsonModel
    decreases v,
{
    match v {
        JsonValue::Null => JsonModel::Null,
        JsonValue::Bool(b) => JsonModel::Bool(b),
        JsonValue::Number(n) => JsonModel::Number(n@),
        JsonValue::String(s) => JsonModel::Str(s@),
        JsonValue::Array(a) => JsonModel::Array(values_model(a@)),
        JsonValue::Object(o) => JsonModel::Object(entries_model(o@)),
    }
}

impl View for JsonValue {
    type V = JsonModel;

    open spec fn view(&self) -> JsonModel {
        value_model(*self)
    }
}

/// The model of a sequence of values has one model per value, in order.
pub proof fn lemma_values_model(s: Seq<JsonValue>)
    ensures
        values_model(s).len() == s.len(),
        forall|i: int| 0 <= i < s.len() ==> #[trigger] values_model(s)[i] == value_model(s[i]),
    decreases s.len(),
{
    if s.len() > 0 {
        lemma_values_model(s.subrange(1, s.len() as int));
    }
}

/// The model of a sequence of entries has one model per entry, in order.
pub proof fn lemma_entries_model(s: Seq<(String, JsonValue)>)
    ensures
        entries_model(s).len() == s.len(),
        forall|i: int|
            0 <= i < s.len() ==> #[trigger] entries_model(s)[i] == (s[i].0@, value_model(s[i].1)),
    decreases s.len(),
{
    if s.len() > 0 {
        lemma_entries_model(s.subrange(1, s.len() as int));
    }
}

/// Sequences of values with the same models in each place have the same model.
pub proof fn lemma_values_model_pointwise(a: Seq<JsonValue>, b: Seq<JsonValue>)
    requires
        a.len() == b.len(),
        forall|i: int| 0 <= i < a.len() ==> #[trigger] value_model(a[i]) == value_model(b[i]),
    ensures
        values_model(a) == values_model(b),
{
    lemma_values_model(a);
    lemma_values_model(b);
    assert(values_model(a) =~= values_model(b));
}

/// Sequences of entries with the same models in each place have the same model.
pub proof fn lemma_entries_model_pointwise(a: Seq<(String, JsonValue)>, b: Seq<(String, JsonValue)>)
    requires
        a.len() == b.len(),
        forall|i: int|
            #![trigger a[i], b[i]]
            0 <= i < a.len() ==> a[i].0@ == b[i].0@ && value_model(a[i].1) == value_model(b[i].1),
    ensures
        entries_model(a) == entries_model(b),
{
    lemma_entries_model(a);
    lemma_entries_model(b);
    assert(entries_model(a) =~= entries_model(b));
}

/// The text by which a number is written, as `serde_json::Number`'s `to_string` gives it.
pub open spec fn number_text(n: NumberModel) -> Seq<char> {
    match n {
        NumberModel::PosInt(u) => decimal(u as nat),
        NumberModel::NegInt(i) => signed_decimal(i as int),
        NumberModel::Float(t) => t,
    }
}

/// The non-negative integer a number holds, if it holds one: `as_u64`.
pub open spec fn number_as_u64(n: NumberModel) -> Option<u64> {
    match n {
        NumberModel::PosInt(u) => Some(u),
        NumberModel::NegInt(i) => if i >= 0 { Some(i as u64) } else { None },
        NumberModel::Float(_) => None,
    }
}

/// The key text `true` or `false` by which a boolean is written.
pub open spec fn bool_text(b: bool) -> Seq<char> {
    if b { seq!['t', 'r', 'u', 'e'] } else { seq!['f', 'a', 'l', 's', 'e'] }
}

/// The value held under `key` among `entries`, the first entry with that key if any.
pub open spec fn lookup(entries: Seq<(Seq<char>, JsonModel)>, key: Seq<char>) -> Option<JsonModel>
    decreases entries.len(),
{
    if entries.len() == 0 {
        None
    } else if entries[0].0 == key {
        Some(entries[0].1)
    } else {
        lookup(entries.subrange(1, entries.len() as int), key)
    }
}

/// Formats a boolean as `bool::to_string` does.
pub fn bool_to_string(b: bool) -> (s: String)
    ensures
        s@ == bool_text(b),
{
    proof {
        reveal_strlit("true");
        reveal_strlit("false");
    }
    if b {
        String::from_str("true")
    } else {
        String::from_str("false")
    }
}

impl JsonNumber {
    /// Copies a number.
    pub fn copy(&self) -> (r: JsonNumber)
        ensures
            r@ == self@,
    {
        match self {
            JsonNumber::PosInt(n) => JsonNumber::PosInt(*n),
            JsonNumber::NegInt(n) => JsonNumber::NegInt(*n),
            JsonNumber::Float(s) => JsonNumber::Float(s.clone()),
        }
    }

    /// The text by which the number is written.
    pub fn to_text(&self) -> (s: String)
        ensures
            s@ == number_text(self@),
    {
        match self {
            JsonNumber::PosInt(n) => u64_to_decimal(*n),
            JsonNumber::NegInt(n) => i64_to_decimal(*n),
            JsonNumber::Float(s) => s.clone(),
        }
    }

    /// The number as a `u64`, if it is a non-negative integer.
    pub fn as_u64(&self) -> (r: Option<u64>)
        ensures
            r == number_as_u64(self@),
    {
        match self {
            JsonNumber::PosInt(n) => Some(*n),
            JsonNumber::NegInt(n) => if *n >= 0 { Some(*n as u64) } else { None },
            JsonNumber::Float(_) => None,
        }
    }
}

impl JsonValue {
    /// Copies a value, deeply.
    pub fn deep_clone(&self) -> (r: JsonValue)
        ensures
            r@ == self@,
        decreases self,
    {
        match self {
            JsonValue::Null => JsonValue::Null,
            JsonValue::Bool(b) => JsonValue::Bool(*b),
            JsonValue::Number(n) => JsonValue::Number(n.copy()),
            JsonValue::String(s) => JsonValue::String(s.clone()),
            JsonValue::Array(a) => {
                let mut out: Vec<JsonValue> = Vec::new();
                let mut i: usize = 0;
                while i < a.len()
                    invariant
                        *self == JsonValue::Array(*a),
                        i <= a.len(),
                        out.len() == i,
                        forall|k: int| 0 <= k < i ==> #[trigger] value_model(out@[k]) == value_model(a@[k]),
                    decreases a.len() - i,
                {
                    proof {
                        vstd::std_specs::vec::axiom_vec_index_decreases(*a, i as int);
                        assert(decreases_to!(*self => (*self)->Array_0));
                    }
                    let c = a[i].deep_clone();
                    out.push(c);
                    i = i + 1;
                }
                proof {
                    lemma_values_model_pointwise(out@, a@);
                }
                JsonValue::Array(out)
            },
            JsonValue::Object(o) => {
                let mut out: Vec<(String, JsonValue)> = Vec::new();
                let mut i: usize = 0;
                while i < o.len()
                    invariant
                        *self == JsonValue::Object(*o),
                        i <= o.len(),
                        out.len() == i,
                        forall|k: int|
                            #![trigger out@[k]]
                            0 <= k < i ==> out@[k].0@ == o@[k].0@ && value_model(out@[k].1)
                                == value_model(o@[k].1),
                    decreases o.len() - i,
                {
                    proof {
                        vstd::std_specs::vec::axiom_vec_index_decreases(*o, i as int);
                        assert(decreases_to!(*self => (*self)->Object_0));
                        assert(decreases_to!(o[i as int] => o[i as int].1));
                    }
                    let key = o[i].0.clone();
                    let c = o[i].1.deep_clone();
                    out.push((key, c));
                    i = i + 1;
                }
                proof {
                    lemma_entries_model_pointwise(out@, o@);
                }
                JsonValue::Object(out)
            },
        }
    }

    /// Is the value `null`?
    pub fn is_null(&self) -> (b: bool)
        ensures
            b == (self@ is Null),
    {
        match self {
            JsonValue::Null => true,
            _ => false,
        }
    }

    /// The boolean the value holds, if it is a boolean.
    pub fn as_bool(&self) -> (r: Option<bool>)
        ensures
            r == (match self@ {
                JsonModel::Bool(b) => Some(b),
                _ => None,
            }),
    {
        match self {
            JsonValue::Bool(b) => Some(*b),
            _ => None,
        }
    }

    /// The non-negative integer the value holds, if it holds one.
    pub fn as_u64(&self) -> (r: Option<u64>)
        ensures
            r == (match self@ {
                JsonModel::Number(n) => number_as_u64(n),
                _ => None,
            }),
    {
        match self {
            JsonValue::Number(n) => n.as_u64(),
            _ => None,
        }
    }

    /// The elements of the value, if it is an array.
    pub fn as_array(&self) -> (r: Option<&Vec<JsonValue>>)
        ensures
            self@ is Array <==> r is Some,
            r matches Some(a) ==> self@ == JsonModel::Array(values_model(a@)),
    {
        match self {
            JsonValue::Array(a) => Some(a),
            _ => None,
        }
    }
}

impl Clone for JsonValue {
    fn clone(&self) -> (r: Self)
        ensures
            r@ == self@,
    {
        self.deep_clone()
    }
}

} // verus!
