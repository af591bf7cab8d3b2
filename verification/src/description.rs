//! Descriptions of flows as written by their authors: references to sub-flows, values, and the
//! flow that holds them.
use vstd::prelude::*;
use crate::text::concat;

verus! {

/// A reference from a flow to a sub-flow, by name and source.
#[derive(Debug)]
pub struct FlowRef {
    pub name: String,
    pub source: String,
}

/// A value defined in a flow description.
#[derive(Debug)]
pub struct Value {
    pub name: String,
    pub datatype: String,
    pub value: String,
}

/// A flow description: its name, the sub-flows it references and the values it defines, and
/// once loaded, its sub-flows.
pub struct Flow {
    pub source: String,
    pub name: String,
    pub flow: Option<Vec<FlowRef>>,
    pub value: Option<Vec<Value>>,
    pub flows: Vec<Flow>,
}

/// The text `FlowRef:\n\tname: `.
pub open spec fn flow_ref_head() -> Seq<char> {
    seq!['F', 'l', 'o', 'w', 'R', 'e', 'f', ':', '\n', '\t', 'n', 'a', 'm', 'e', ':', ' ']
}

/// The text `\n\tsource: `.
pub open spec fn source_label() -> Seq<char> {
    seq!['\n', '\t', 's', 'o', 'u', 'r', 'c', 'e', ':', ' ']
}

/// The text `Value:\n\tname: `.
pub open spec fn value_head() -> Seq<char> {
    seq!['V', 'a', 'l', 'u', 'e', ':', '\n', '\t', 'n', 'a', 'm', 'e', ':', ' ']
}

/// The text `\n\tdatatype: `.
pub open spec fn datatype_label() -> Seq<char> {
    seq!['\n', '\t', 'd', 'a', 't', 'a', 't', 'y', 'p', 'e', ':', ' ']
}

/// The text `\n\tvalue: `.
pub open spec fn value_label() -> Seq<char> {
    seq!['\n', '\t', 'v', 'a', 'l', 'u', 'e', ':', ' ']
}

impl FlowRef {
    /// The reference as displayed: `FlowRef:`, then its name and source on labelled lines.
    pub fn to_display_string(&self) -> (s: String)
        ensures
            s@ == flow_ref_head() + self.name@ + source_label() + self.source@,
    {
        proof {
            reveal_strlit("FlowRef:\n\tname: ");
            reveal_strlit("\n\tsource: ");
        }
        let s = concat("FlowRef:\n\tname: ", self.name.as_str());
        let s = concat(s.as_str(), "\n\tsource: ");
        let s = concat(s.as_str(), self.source.as_str());
        s
    }
}

impl Value {
    /// The value as displayed: `Value:`, then its name, data type and value on labelled lines.
    pub fn to_display_string(&self) -> (s: String)
        ensures
            s@ == value_head() + self.name@ + datatype_label() + self.datatype@ + value_label()
                + self.value@,
    {
        proof {
            reveal_strlit("Value:\n\tname: ");
            reveal_strlit("\n\tdatatype: ");
            reveal_strlit("\n\tvalue: ");
        }
        let s = concat("Value:\n\tname: ", self.name.as_str());
        let s = concat(s.as_str(), "\n\tdatatype: ");
        let s = concat(s.as_str(), self.datatype.as_str());
        let s = concat(s.as_str(), "\n\tvalue: ");
        let s = concat(s.as_str(), self.value.as_str());
        s
    }
}

impl Flow {
    /// Checks, once all is loaded, that the flow is correct: no check is made yet, so every
    /// flow is accepted.
    pub fn verify(&self) -> (r: Result<(), String>)
        ensures
            r is Ok,
    {
        Ok(())
    }
}

} // verus!
