//! YAML documents as values of the library, parsed by `yaml_rust`.

use vstd::prelude::*;
use yaml_rust::Yaml;

verus! {

/// A node of a YAML document.
#[derive(Debug, PartialEq, Eq)]
pub enum YamlNode {
    /// A float, kept as the text that was read.
    Real(String),
    Integer(i64),
    String(String),
    Boolean(bool),
    Array(Vec<YamlNode>),
    /// A mapping: its entries in the order of the document. In a mapping
    /// that was read from a document no key stands twice.
    Hash(Vec<(YamlNode, YamlNode)>),
    Alias(usize),
    Null,
    BadValue,
}

/// `yaml_rust::Yaml`, as a type whose values are only handed on.
#[verifier::external_type_specification]
#[verifier::external_body]
pub struct ExYaml(yaml_rust::Yaml);

/// The documents that `yaml_rust` reads from `source`, or `None` where it
/// reports an error.
pub uninterp spec fn yaml_documents(source: Seq<char>) -> Option<Seq<YamlNode>>;

/// The node of the library with the same variant and the same contents as
/// the node of `yaml_rust`, children included.
#[verifier::external_body]
fn yaml_node(node: &Yaml) -> YamlNode {
    match node {
        Yaml::Real(s) => YamlNode::Real(s.clone()),
        Yaml::Integer(i) => YamlNode::Integer(*i),
        Yaml::String(s) => YamlNode::String(s.clone()),
        Yaml::Boolean(b) => YamlNode::Boolean(*b),
        Yaml::Array(a) => YamlNode::Array(a.iter().map(yaml_node).collect()),
        Yaml::Hash(h) => YamlNode::Hash(h.iter().map(yaml_entry).collect()),
        Yaml::Alias(n) => YamlNode::Alias(*n),
        Yaml::Null => YamlNode::Null,
        Yaml::BadValue => YamlNode::BadValue,
    }
}

/// One entry of a mapping, key and value converted.
#[verifier::external_body]
fn yaml_entry(entry: (&Yaml, &Yaml)) -> (YamlNode, YamlNode) {
    (yaml_node(entry.0), yaml_node(entry.1))
}

/// `YamlLoader::load_from_str`, each document converted to a node of the
/// library. What is read is a function of the source text alone.
#[verifier::external_body]
pub(crate) fn load_yaml(source: &str) -> (documents: Option<Vec<YamlNode>>)
    ensures
        match documents {
            Some(nodes) => yaml_documents(source@) == Some(nodes@),
            None => yaml_documents(source@) is None,
        },
{
    let nodes = yaml_rust::YamlLoader::load_from_str(source).ok()?;
    Some(nodes.iter().map(yaml_node).collect())
}

/// Where the first entry at or after `from` stands whose key is the string
/// `key`.
pub open spec fn find_key(entries: Seq<(YamlNode, YamlNode)>, key: Seq<char>, from: int) -> Option<
    int,
>
    decreases entries.len() - from,
{
    if from < 0 || from >= entries.len() {
        None
    } else if entries[from].0 matches YamlNode::String(k) && k@ == key {
        Some(from)
    } else {
        find_key(entries, key, from + 1)
    }
}

impl YamlNode {
    /// The value that a mapping holds under the string `key`; `None` for a
    /// mapping without that key and for a node that is no mapping.
    pub open spec fn spec_get(&self, key: Seq<char>) -> Option<YamlNode> {
        match self {
            YamlNode::Hash(entries) => match find_key(entries@, key, 0) {
                Some(i) => Some(entries@[i].1),
                None => None,
            },
            _ => None,
        }
    }

    /// The text of a string node.
    pub open spec fn spec_as_str(&self) -> Option<Seq<char>> {
        match self {
            YamlNode::String(s) => Some(s@),
            _ => None,
        }
    }

    /// The items of an array node.
    pub open spec fn spec_as_vec(&self) -> Option<Seq<YamlNode>> {
        match self {
            YamlNode::Array(items) => Some(items@),
            _ => None,
        }
    }

    /// The value that a mapping holds under the string `key`.
    pub fn get(&self, key: &str) -> (value: Option<&YamlNode>)
        ensures
            match value {
                Some(node) => self.spec_get(key@) == Some(*node),
                None => self.spec_get(key@) is None,
            },
    {
        match self {
            YamlNode::Hash(entries) => {
                let wanted = String::from_str(key);
                let mut i: usize = 0;
                while i < entries.len()
                    invariant
                        i <= entries.len(),
                        self is Hash,
                        self->Hash_0 == *entries,
                        wanted@ == key@,
                        find_key(entries@, key@, 0) == find_key(entries@, key@, i as int),
                    decreases entries.len() - i,
                {
                    let found = match &entries[i].0 {
                        YamlNode::String(k) => *k == wanted,
                        _ => false,
                    };
                    if found {
                        return Some(&entries[i].1);
                    }
                    i += 1;
                }
                None
            },
            _ => None,
        }
    }

    /// The text of a string node.
    pub fn as_str(&self) -> (text: Option<&str>)
        ensures
            match text {
                Some(s) => self.spec_as_str() == Some(s@),
                None => self.spec_as_str() is None,
            },
    {
        match self {
            YamlNode::String(s) => Some(s.as_str()),
            _ => None,
        }
    }

    /// The items of an array node.
    pub fn as_vec(&self) -> (items: Option<&Vec<YamlNode>>)
        ensures
            match items {
                Some(v) => self.spec_as_vec() == Some(v@),
                None => self.spec_as_vec() is None,
            },
    {
        match self {
            YamlNode::Array(items) => Some(items),
            _ => None,
        }
    }
}

} // verus!
