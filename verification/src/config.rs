//! Reading the minifier's two file paths out of the configuration.
//!
//! The configuration file is a YAML mapping. Every entry whose key is
//! a string and whose value is itself a mapping is a candidate rule;
//! the first candidate rule, in document order, is the one used, and
//! its `file` and `output` keys give the minifier's input and output
//! paths. Anything else — an unreadable file, text that is not valid
//! YAML, a document that is not a mapping, no candidate rule, or a
//! first candidate rule without both keys as strings — is the one
//! generic configuration error; a malformed first rule fails rather
//! than being skipped in favour of a later rule.

use vstd::prelude::*;

use crate::yaml::Node;
use crate::yaml::parse_document;
use crate::yaml::parsed_yaml;

verus! {

/// The two file paths that the minifier step needs.
#[derive(Debug)]
pub struct SnipParams {
    pub input: String,
    pub output: String,
}

/// The single configuration error: an unreadable file, text that is
/// not valid YAML, and a document without a usable entry all report
/// this one undifferentiated kind.
#[derive(Debug, Clone, Copy, PartialEq, Eq, Structural)]
pub struct ConfigError;

/// The user-facing text of the configuration error, the same for every
/// root cause.
pub open spec fn config_error_text() -> Seq<char> {
    "ERROR: error reading yaml configuration"@
}

impl ConfigError {
    /// The user-facing message, shared by every root cause.
    pub fn message(&self) -> (r: String)
        ensures
            r@ == config_error_text(),
    {
        String::from_str("ERROR: error reading yaml configuration")
    }
}

/// An entry of the top-level mapping is a candidate rule when its key
/// is a string and its value is itself a mapping.
pub open spec fn eligible(e: (Node, Node)) -> bool {
    e.0 is Text && e.1 is Mapping
}

/// The first candidate rule among the given entries, in order.
pub open spec fn first_eligible(s: Seq<(Node, Node)>) -> Option<(Node, Node)>
    decreases s.len(),
{
    if s.len() == 0 {
        None
    } else if eligible(s[0]) {
        Some(s[0])
    } else {
        first_eligible(s.drop_first())
    }
}

/// The value under the given key: the value of the first entry whose
/// key is a string equal to it.
pub open spec fn lookup(s: Seq<(Node, Node)>, key: Seq<char>) -> Option<Node>
    decreases s.len(),
{
    if s.len() == 0 {
        None
    } else if s[0].0 matches Node::Text(k) && k@ == key {
        Some(s[0].1)
    } else {
        lookup(s.drop_first(), key)
    }
}

/// The string under the given key, if the key is present and its value
/// is a string.
pub open spec fn string_under(s: Seq<(Node, Node)>, key: Seq<char>) -> Option<Seq<char>> {
    match lookup(s, key) {
        Some(Node::Text(v)) => Some(v@),
        _ => None,
    }
}

/// What a configuration document yields: the `file` and `output`
/// strings of its first candidate rule, or nothing where the document
/// is not a mapping, holds no candidate rule, or the first candidate
/// rule lacks either key as a string.
pub open spec fn snip_params_of(doc: Node) -> Option<(Seq<char>, Seq<char>)> {
    match doc {
        Node::Mapping(entries) => match first_eligible(entries@) {
            Some(e) => match e.1 {
                Node::Mapping(sub) => match (
                    string_under(sub@, "file"@),
                    string_under(sub@, "output"@),
                ) {
                    (Some(i), Some(o)) => Some((i, o)),
                    _ => None,
                },
                _ => None,
            },
            None => None,
        },
        _ => None,
    }
}

/// The view of an optional borrowed text.
pub open spec fn opt_str_view(conf: Option<&str>) -> Option<Seq<char>> {
    match conf {
        Some(t) => Some(t@),
        None => None,
    }
}

/// The view of an optional owned text.
pub open spec fn opt_string_view(conf: Option<String>) -> Option<Seq<char>> {
    match conf {
        Some(t) => Some(t@),
        None => None,
    }
}

/// What reading the configuration yields from the text the file held
/// (`None` where the file could not be read): the paths of the first
/// candidate rule, where the text parses and holds one.
pub open spec fn config_outcome(text: Option<Seq<char>>) -> Option<(Seq<char>, Seq<char>)> {
    match text {
        Some(t) => match parsed_yaml(t) {
            Some(doc) => snip_params_of(doc),
            None => None,
        },
        None => None,
    }
}

/// The name of the configuration file, resolved against the current
/// working directory.
pub fn config_file_name() -> (r: String)
    ensures
        r@ == "chisel.yml"@,
{
    String::from_str("chisel.yml")
}

/// The index of the first candidate rule among the entries, if any.
fn find_first_eligible(entries: &Vec<(Node, Node)>) -> (r: Option<usize>)
    ensures
        match r {
            Some(i) => i < entries@.len() && first_eligible(entries@) == Some(entries@[i as int]),
            None => first_eligible(entries@) is None,
        },
{
    let mut i: usize = 0;
    proof {
        assert(entries@.skip(0) =~= entries@);
    }
    while i < entries.len()
        invariant
            i <= entries@.len(),
            first_eligible(entries@) == first_eligible(entries@.skip(i as int)),
        decreases entries@.len() - i,
    {
        let e = &entries[i];
        let ok = match (&e.0, &e.1) {
            (Node::Text(_), Node::Mapping(_)) => true,
            _ => false,
        };
        proof {
            assert(entries@.skip(i as int)[0] == entries@[i as int]);
        }
        if ok {
            return Some(i);
        }
        proof {
            assert(entries@.skip(i as int).drop_first() =~= entries@.skip(i as int + 1));
        }
        i = i + 1;
    }
    proof {
        assert(entries@.skip(entries@.len() as int) =~= Seq::<(Node, Node)>::empty());
    }
    None
}

/// The string under the given key among the entries, if the key is
/// present and its value is a string.
fn lookup_string(entries: &Vec<(Node, Node)>, key: &String) -> (r: Option<String>)
    ensures
        match r {
            Some(v) => string_under(entries@, key@) == Some(v@),
            None => string_under(entries@, key@) is None,
        },
{
    let mut i: usize = 0;
    proof {
        assert(entries@.skip(0) =~= entries@);
    }
    while i < entries.len()
        invariant
            i <= entries@.len(),
            lookup(entries@, key@) == lookup(entries@.skip(i as int), key@),
        decreases entries@.len() - i,
    {
        let e = &entries[i];
        proof {
            assert(entries@.skip(i as int)[0] == entries@[i as int]);
        }
        let is_match = match &e.0 {
            Node::Text(k) => *k == *key,
            _ => false,
        };
        if is_match {
            match &e.1 {
                Node::Text(v) => {
                    return Some(v.clone());
                },
                _ => {
                    return None;
                },
            }
        }
        proof {
            assert(entries@.skip(i as int).drop_first() =~= entries@.skip(i as int + 1));
        }
        i = i + 1;
    }
    proof {
        assert(entries@.skip(entries@.len() as int) =~= Seq::<(Node, Node)>::empty());
    }
    None
}

/// The paths of the document's first candidate rule, or the generic
/// configuration error where the document yields none.
pub fn extract_snip_params(doc: &Node) -> (r: Result<SnipParams, ConfigError>)
    ensures
        match snip_params_of(*doc) {
            Some(p) => r matches Ok(sp) && sp.input@ == p.0 && sp.output@ == p.1,
            None => r is Err,
        },
{
    match doc {
        Node::Mapping(entries) => match find_first_eligible(entries) {
            Some(i) => {
                let e = &entries[i];
                match &e.1 {
                    Node::Mapping(sub) => {
                        let file_key = String::from_str("file");
                        let output_key = String::from_str("output");
                        let input = lookup_string(sub, &file_key);
                        let output = lookup_string(sub, &output_key);
                        match (input, output) {
                            (Some(input), Some(output)) => Ok(SnipParams { input, output }),
                            _ => Err(ConfigError),
                        }
                    },
                    _ => Err(ConfigError),
                }
            },
            None => Err(ConfigError),
        },
        _ => Err(ConfigError),
    }
}

/// Reads the minifier's two paths out of the configuration text, as
/// the file held it (`None`: the file could not be read). Every
/// failure is the one generic configuration error.
pub fn get_snip_params(conf: Option<&str>) -> (r: Result<SnipParams, ConfigError>)
    ensures
        match config_outcome(opt_str_view(conf)) {
            Some(p) => r matches Ok(sp) && sp.input@ == p.0 && sp.output@ == p.1,
            None => r is Err,
        },
{
    match conf {
        Some(text) => match parse_document(text) {
            Some(doc) => extract_snip_params(&doc),
            None => Err(ConfigError),
        },
        None => Err(ConfigError),
    }
}

} // verus!
