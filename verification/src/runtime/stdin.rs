//! `stdin`: read a line of standard input from the client.
use vstd::prelude::*;
use crate::implementation::{RunAgain, RUN_AGAIN, DONT_RUN_AGAIN};
use crate::json::{JsonValue, JsonModel, entries_model, lemma_entries_model};
use crate::json_serde::{json_parse, parse_json};

verus! {

/// The reply of the client to a request for standard input.
pub enum StdinReply {
    /// A line of text was read; `json` is the JSON value the text parses as, if it parses.
    Line { contents: String, json: Option<JsonValue> },
    /// Standard input is at its end.
    Eof,
    /// Any other reply, or none.
    Other,
}

/// The `stdin` function, which reads standard input through the client.
pub struct Stdin;

/// The key `json`.
pub open spec fn json_key() -> Seq<char> {
    seq!['j', 's', 'o', 'n']
}

/// The key `string`.
pub open spec fn string_key() -> Seq<char> {
    seq!['s', 't', 'r', 'i', 'n', 'g']
}

/// The output for a line of text: the text under `string`, and under `json` the JSON value it
/// parses as, when it parses.
pub open spec fn line_output(contents: Seq<char>, json: Option<JsonModel>) -> JsonModel {
    match json {
        Some(j) => JsonModel::Object(seq![(json_key(), j), (string_key(), JsonModel::Str(contents))]),
        None => JsonModel::Object(seq![(string_key(), JsonModel::Str(contents))]),
    }
}

/// The output at the end of the input: null under both `json` and `string`.
pub open spec fn eof_output() -> JsonModel {
    JsonModel::Object(seq![(json_key(), JsonModel::Null), (string_key(), JsonModel::Null)])
}

fn json_key_string() -> (s: String)
    ensures
        s@ == json_key(),
{
    proof {
        reveal_strlit("json");
    }
    String::from_str("json")
}

fn string_key_string() -> (s: String)
    ensures
        s@ == string_key(),
{
    proof {
        reveal_strlit("string");
    }
    String::from_str("string")
}

impl Stdin {
    /// The output of `stdin` for a line of text the client replied with: the text under
    /// `string` and, when the text parses as JSON, the value it parses into under `json`;
    /// `stdin` may run again.
    pub fn run_line(&self, contents: String) -> (r: (Option<JsonValue>, RunAgain))
        ensures
            r.0 matches Some(out) && out@ == line_output(contents@, json_parse(contents@)),
            r.1 == RUN_AGAIN,
    {
        let json = parse_json(contents.as_str());
        self.run(StdinReply::Line { contents, json })
    }

    /// The output of `stdin` for the reply of the client, where a line of text comes with the
    /// value it parses into: a line of text is output and `stdin` may run again; at the end of
    /// the input nulls are output and it must not run again; on any other reply nothing is
    /// output and it must not run again.
    pub fn run(&self, reply: StdinReply) -> (r: (Option<JsonValue>, RunAgain))
        ensures
            (match reply {
                StdinReply::Line { contents, json } => r.0 matches Some(out) && out@ == line_output(
                    contents@,
                    match json {
                        Some(j) => Some(j@),
                        None => None,
                    },
                ) && r.1 == RUN_AGAIN,
                StdinReply::Eof => r.0 matches Some(out) && out@ == eof_output() && r.1
                    == DONT_RUN_AGAIN,
                StdinReply::Other => r.0 is None && r.1 == DONT_RUN_AGAIN,
            }),
    {
        match reply {
            StdinReply::Line { contents, json } => {
                let mut output_map: Vec<(String, JsonValue)> = Vec::new();
                let ghost j = json;
                match json {
                    Some(value) => {
                        output_map.push((json_key_string(), value));
                    },
                    None => {},
                }
                let ghost c = contents@;
                output_map.push((string_key_string(), JsonValue::String(contents)));
                proof {
                    lemma_entries_model(output_map@);
                    match j {
                        Some(v) => {
                            assert(entries_model(output_map@) =~= seq![
                                (json_key(), v@),
                                (string_key(), JsonModel::Str(c)),
                            ]);
                        },
                        None => {
                            assert(entries_model(output_map@) =~= seq![
                                (string_key(), JsonModel::Str(c)),
                            ]);
                        },
                    }
                }
                (Some(JsonValue::Object(output_map)), RUN_AGAIN)
            },
            StdinReply::Eof => {
                let mut output_map: Vec<(String, JsonValue)> = Vec::new();
                output_map.push((json_key_string(), JsonValue::Null));
                output_map.push((string_key_string(), JsonValue::Null));
                proof {
                    lemma_entries_model(output_map@);
                    assert(entries_model(output_map@) =~= seq![
                        (json_key(), JsonModel::Null),
                        (string_key(), JsonModel::Null),
                    ]);
                }
                (Some(JsonValue::Object(output_map)), DONT_RUN_AGAIN)
            },
            StdinReply::Other => (None, DONT_RUN_AGAIN),
        }
    }
}

} // verus!
