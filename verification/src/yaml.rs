//! A model of the configuration document: YAML, reduced to what the
//! configuration logic reads.

use vstd::prelude::*;

verus! {

/// A parsed YAML value, reduced to what the configuration logic reads:
/// strings, and mappings with their entries in document order. Every
/// other shape (numbers, booleans, nulls, sequences, tagged values)
/// is collapsed to `Other`.
#[derive(Debug)]
pub enum Node {
    Text(String),
    Mapping(Vec<(Node, Node)>),
    Other,
}

#[verifier::external_type_specification]
#[verifier::external_body]
pub struct ExValue(serde_yaml::Value);

/// The document that parsing a given text yields, if the text is valid
/// YAML. Parsing is a function of the text alone: the underlying map is
/// ordered, so mappings keep the order in which the document lists
/// their entries.
pub uninterp spec fn parsed_yaml(text: Seq<char>) -> Option<Node>;

/// Relies on serde_yaml::from_str::<serde_yaml::Value>: parses YAML
/// text into a document value, deterministically in the text.
#[verifier::external_body]
pub fn parse_document(text: &str) -> (r: Option<Node>)
    ensures
        r == parsed_yaml(text@),
{
    match serde_yaml::from_str::<serde_yaml::Value>(text) {
        Ok(v) => Some(node_of_value(v)),
        Err(_) => None,
    }
}

/// Relies on serde_yaml::Value's variants: folds a parsed value into
/// the library's model, keeping strings and mapping entries in order
/// and collapsing every other variant to `Other`.
#[verifier::external_body]
fn node_of_value(v: serde_yaml::Value) -> Node {
    match v {
        serde_yaml::Value::String(s) => Node::Text(s),
        serde_yaml::Value::Mapping(m) => Node::Mapping(
            m.into_iter().map(|(k, w)| (node_of_value(k), node_of_value(w))).collect(),
        ),
        _ => Node::Other,
    }
}

} // verus!
