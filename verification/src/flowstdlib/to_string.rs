//! `to_string`: convert an input value to a string.
use vstd::prelude::*;
use crate::implementation::{RunAgain, RUN_AGAIN};
use crate::json::{JsonValue, JsonModel, bool_text, bool_to_string, number_text, values_model, value_model, lemma_values_model};

verus! {

/// Convert an input value to a String. The types converted are a String (unchanged), a
/// boolean, a number, and an array of values that can be converted, converted one by one.
#[derive(Debug)]
pub struct ToString;

/// The string form of a value, if it has one: a string is kept, a boolean or a number is
/// written as text, and an array becomes the array of the string forms of its elements when
/// each element has one.
pub open spec fn string_form(v: JsonModel) -> Option<JsonModel>
    decreases v,
{
    match v {
        JsonModel::Str(s) => Some(JsonModel::Str(s)),
        JsonModel::Bool(b) => Some(JsonModel::Str(bool_text(b))),
        JsonModel::Number(n) => Some(JsonModel::Str(number_text(n))),
        JsonModel::Array(a) => match string_forms(a) {
            Some(fs) => Some(JsonModel::Array(fs)),
            None => None,
        },
        _ => None,
    }
}

/// The string forms of a sequence of values, in order, if each has one.
pub open spec fn string_forms(a: Seq<JsonModel>) -> Option<Seq<JsonModel>>
    decreases a,
{
    if a.len() == 0 {
        Some(Seq::empty())
    } else {
        match string_forms(a.subrange(0, a.len() - 1)) {
            Some(fs) => match string_form(a[a.len() - 1]) {
                Some(f) => Some(fs.push(f)),
                None => None,
            },
            None => None,
        }
    }
}

proof fn lemma_string_forms_none(a: Seq<JsonModel>, k: int)
    requires
        0 < k <= a.len(),
        string_forms(a.take(k)) is None,
    ensures
        string_forms(a) is None,
    decreases a.len() - k,
{
    if k < a.len() {
        assert(a.take(k + 1).subrange(0, k) =~= a.take(k));
        lemma_string_forms_none(a, k + 1);
    } else {
        assert(a.take(k) =~= a);
    }
}

/// The model of an optional value.
pub open spec fn opt_model(v: Option<JsonValue>) -> Option<JsonModel> {
    match v {
        Some(x) => Some(x@),
        None => None,
    }
}

/// The string form of a value, if it has one.
pub fn string_form_of(v: &JsonValue) -> (r: Option<JsonValue>)
    ensures
        opt_model(r) == string_form(v@),
    decreases v,
{
    match v {
        JsonValue::String(s) => Some(JsonValue::String(s.clone())),
        JsonValue::Bool(b) => Some(JsonValue::String(bool_to_string(*b))),
        JsonValue::Number(n) => Some(JsonValue::String(n.to_text())),
        JsonValue::Array(a) => {
            let ghost m = values_model(a@);
            proof {
                lemma_values_model(a@);
                assert(m.take(0) =~= Seq::<JsonModel>::empty());
            }
            let mut out: Vec<JsonValue> = Vec::new();
            let mut i: usize = 0;
            proof {
                lemma_values_model(out@);
                assert(values_model(out@) =~= Seq::<JsonModel>::empty());
            }
            while i < a.len()
                invariant
                    *v == JsonValue::Array(*a),
                    m == values_model(a@),
                    m.len() == a.len(),
                    forall|k: int| 0 <= k < a.len() ==> #[trigger] m[k] == value_model(a@[k]),
                    i <= a.len(),
                    out.len() == i,
                    string_forms(m.take(i as int)) == Some(values_model(out@)),
                decreases a.len() - i,
            {
                proof {
                    vstd::std_specs::vec::axiom_vec_index_decreases(*a, i as int);
                    assert(decreases_to!(*v => (*v)->Array_0));
                }
                let f = string_form_of(&a[i]);
                proof {
                    let t = m.take(i + 1);
                    assert(t.subrange(0, i as int) =~= m.take(i as int));
                    assert(t[i as int] == a@[i as int]@);
                }
                match f {
                    Some(x) => {
                        let ghost before = out@;
                        out.push(x);
                        proof {
                            lemma_values_model(before);
                            lemma_values_model(out@);
                            assert(values_model(out@) =~= values_model(before).push(out@[i as int]@));
                        }
                    },
                    None => {
                        proof {
                            lemma_string_forms_none(m, i + 1);
                        }
                        return None;
                    },
                }
                i = i + 1;
            }
            proof {
                assert(m.take(a.len() as int) =~= m);
            }
            Some(JsonValue::Array(out))
        },
        _ => None,
    }
}

impl ToString {
    /// Outputs the string form of the first value of the first input, nothing when it has none.
    pub fn run(&self, inputs: Vec<Vec<JsonValue>>) -> (r: (Option<JsonValue>, RunAgain))
        requires
            inputs@.len() >= 1,
            inputs@[0]@.len() >= 1,
        ensures
            opt_model(r.0) == string_form(inputs@[0]@[0]@),
            r.1 == RUN_AGAIN,
    {
        let mut inputs = inputs;
        let mut first = inputs.remove(0);
        let input = first.remove(0);
        (string_form_of(&input), RUN_AGAIN)
    }
}

proof fn lemma_string_forms_idempotent(a: Seq<JsonModel>)
    ensures
        string_forms(a) matches Some(fs) ==> string_forms(fs) == Some(fs),
    decreases a,
{
    if a.len() > 0 {
        let init = a.subrange(0, a.len() - 1);
        lemma_string_forms_idempotent(init);
        law_to_string_idempotent(a[a.len() - 1]);
        if let Some(fs) = string_forms(a) {
            let gs = string_forms(init)->0;
            assert(fs.subrange(0, fs.len() - 1) =~= gs);
        }
    }
}

/// Converting the string form again gives it back: the conversion is idempotent.
pub proof fn law_to_string_idempotent(v: JsonModel)
    ensures
        string_form(v) matches Some(s) ==> string_form(s) == Some(s),
    decreases v,
{
    if let JsonModel::Array(a) = v {
        lemma_string_forms_idempotent(a);
    }
}

} // verus!
