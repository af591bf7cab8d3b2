//! The deserializers of flow definitions, by the format of the text they read.
use vstd::prelude::*;

verus! {

/// Reads flow definitions written in JSON.
pub struct JsonDeserializer;

/// Reads flow definitions written in JSON.
pub struct FlowJsonLoader;

/// Reads flow definitions written in YAML.
pub struct FlowYamlLoader;

/// The name `Json`.
pub open spec fn json_name() -> Seq<char> {
    seq!['J', 's', 'o', 'n']
}

/// The name `Yaml`.
pub open spec fn yaml_name() -> Seq<char> {
    seq!['Y', 'a', 'm', 'l']
}

impl JsonDeserializer {
    /// The name of the format read.
    pub fn name(&self) -> (n: &'static str)
        ensures
            n@ == json_name(),
    {
        proof {
            reveal_strlit("Json");
        }
        "Json"
    }
}

impl FlowJsonLoader {
    /// The name of the format read.
    pub fn name(&self) -> (n: &'static str)
        ensures
            n@ == json_name(),
    {
        proof {
            reveal_strlit("Json");
        }
        "Json"
    }
}

impl FlowYamlLoader {
    /// The name of the format read.
    pub fn name(&self) -> (n: &'static str)
        ensures
            n@ == yaml_name(),
    {
        proof {
            reveal_strlit("Yaml");
        }
        "Yaml"
    }
}

} // verus!
