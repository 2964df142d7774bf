use vstd::prelude::*;
use crate::text::str_eq;

verus! {

/// A YAML value.
///
/// A number keeps its value where it is an unsigned integer of 64 bits;
/// of a negative or fractional number only the kind is kept. A mapping
/// keeps its entries in the order of the document.
#[derive(Debug, PartialEq, Eq)]
pub enum Yaml {
    Null,
    Bool(bool),
    Number(Option<u64>),
    Text(String),
    Sequence(Vec<Yaml>),
    Mapping(Vec<(Yaml, Yaml)>),
    /// A value under a `!tag`. Readers look through the tag.
    Tagged(Box<Yaml>),
}

/// A text that is no YAML document, with the parser's message.
#[derive(Debug, Clone, PartialEq, Eq)]
pub struct SyntaxError {
    pub message: String,
}

/// `serde_yaml::Value`, the value type of the YAML reader. Nothing is
/// claimed of what it holds: it is only handed from the reader to
/// `tree_of`.
#[verifier::external_type_specification]
#[verifier::external_body]
pub struct ExValue(serde_yaml::Value);

/// The value that `serde_yaml::from_str` reads from a text as a
/// `serde_yaml::Value`, or `None` where it reports an error.
pub uninterp spec fn yaml_document(text: Seq<char>) -> Option<Yaml>;

/// Moves a `serde_yaml::Value` into a `Yaml`, variant by variant; a number
/// goes through `serde_yaml::Number::as_u64`, and a tag's name is dropped.
#[verifier::external_body]
fn tree_of(value: serde_yaml::Value) -> Yaml {
    match value {
        serde_yaml::Value::Null => Yaml::Null,
        serde_yaml::Value::Bool(b) => Yaml::Bool(b),
        serde_yaml::Value::Number(n) => Yaml::Number(n.as_u64()),
        serde_yaml::Value::String(s) => Yaml::Text(s),
        serde_yaml::Value::Sequence(items) => Yaml::Sequence(items.into_iter().map(tree_of).collect()),
        serde_yaml::Value::Mapping(entries) => Yaml::Mapping(
            entries.into_iter().map(|(k, v)| (tree_of(k), tree_of(v))).collect(),
        ),
        serde_yaml::Value::Tagged(tagged) => Yaml::Tagged(Box::new(tree_of(tagged.value))),
    }
}

/// Calls `serde_yaml::from_str` for a `serde_yaml::Value`. The contract
/// names what it reads; an error is handed on as its message.
#[verifier::external_body]
fn read_document(text: &str) -> (doc: Result<Yaml, String>)
    ensures
        match doc {
            Ok(tree) => yaml_document(text@) == Some(tree),
            Err(_) => yaml_document(text@).is_none(),
        },
{
    match serde_yaml::from_str::<serde_yaml::Value>(text) {
        Ok(value) => Ok(tree_of(value)),
        Err(e) => Err(e.to_string()),
    }
}

/// The first value from position `from` on whose key is the text `key`.
pub open spec fn find_from(entries: Seq<(Yaml, Yaml)>, key: Seq<char>, from: int) -> Option<Yaml>
    decreases entries.len() - from,
{
    if from < 0 || from >= entries.len() {
        None
    } else if entries[from].0 matches Yaml::Text(k) && k@ == key {
        Some(entries[from].1)
    } else {
        find_from(entries, key, from + 1)
    }
}

impl Yaml {
    /// The value under all its tags.
    pub open spec fn spec_untag(self) -> Yaml
        decreases self,
    {
        match self {
            Yaml::Tagged(inner) => (*inner).spec_untag(),
            _ => self,
        }
    }

    /// The value of the mapping entry whose key is the text `key`.
    pub open spec fn spec_get(self, key: Seq<char>) -> Option<Yaml> {
        match self.spec_untag() {
            Yaml::Mapping(entries) => find_from(entries@, key, 0),
            _ => None,
        }
    }

    /// The characters of a text.
    pub open spec fn spec_as_str(self) -> Option<Seq<char>> {
        match self.spec_untag() {
            Yaml::Text(s) => Some(s@),
            _ => None,
        }
    }

    /// The truth value of a boolean.
    pub open spec fn spec_as_bool(self) -> Option<bool> {
        match self.spec_untag() {
            Yaml::Bool(b) => Some(b),
            _ => None,
        }
    }

    /// The value of an unsigned integer.
    pub open spec fn spec_as_u64(self) -> Option<u64> {
        match self.spec_untag() {
            Yaml::Number(n) => n,
            _ => None,
        }
    }

    /// The items of a sequence.
    pub open spec fn spec_as_sequence(self) -> Option<Seq<Yaml>> {
        match self.spec_untag() {
            Yaml::Sequence(items) => Some(items@),
            _ => None,
        }
    }

    /// The value under all its tags.
    pub fn untag(&self) -> (plain: &Yaml)
        ensures
            *plain == self.spec_untag(),
        decreases self,
    {
        match self {
            Yaml::Tagged(inner) => inner.untag(),
            _ => self,
        }
    }

    /// The value of the mapping entry whose key is the text `key`; `None`
    /// where the value is no mapping or has no such key.
    pub fn get(&self, key: &str) -> (found: Option<&Yaml>)
        ensures
            match found {
                Some(value) => self.spec_get(key@) == Some(*value),
                None => self.spec_get(key@).is_none(),
            },
    {
        match self.untag() {
            Yaml::Mapping(entries) => {
                let mut i: usize = 0;
                while i < entries.len()
                    invariant
                        i <= entries@.len(),
                        self.spec_get(key@) == find_from(entries@, key@, i as int),
                    decreases entries@.len() - i,
                {
                    match &entries[i].0 {
                        Yaml::Text(k) => {
                            if str_eq(k.as_str(), key) {
                                return Some(&entries[i].1);
                            }
                        },
                        _ => {},
                    }
                    i += 1;
                }
                None
            },
            _ => None,
        }
    }

    /// The characters of a text; `None` for any other value.
    pub fn as_str(&self) -> (found: Option<&str>)
        ensures
            match found {
                Some(s) => self.spec_as_str() == Some(s@),
                None => self.spec_as_str().is_none(),
            },
    {
        match self.untag() {
            Yaml::Text(s) => Some(s.as_str()),
            _ => None,
        }
    }

    /// The truth value of a boolean; `None` for any other value.
    pub fn as_bool(&self) -> (found: Option<bool>)
        ensures
            found == self.spec_as_bool(),
    {
        match self.untag() {
            Yaml::Bool(b) => Some(*b),
            _ => None,
        }
    }

    /// The value of an unsigned integer; `None` for any other value.
    pub fn as_u64(&self) -> (found: Option<u64>)
        ensures
            found == self.spec_as_u64(),
    {
        match self.untag() {
            Yaml::Number(n) => *n,
            _ => None,
        }
    }

    /// The items of a sequence; `None` for any other value.
    pub fn as_sequence(&self) -> (found: Option<&Vec<Yaml>>)
        ensures
            match found {
                Some(items) => self.spec_as_sequence() == Some(items@),
                None => self.spec_as_sequence().is_none(),
            },
    {
        match self.untag() {
            Yaml::Sequence(items) => Some(items),
            _ => None,
        }
    }
}

/// Reads a YAML document.
pub fn parse_yaml(text: &str) -> (doc: Result<Yaml, SyntaxError>)
    ensures
        match doc {
            Ok(tree) => yaml_document(text@) == Some(tree),
            Err(_) => yaml_document(text@).is_none(),
        },
{
    match read_document(text) {
        Ok(tree) => Ok(tree),
        Err(message) => Err(SyntaxError { message }),
    }
}

} // verus!
