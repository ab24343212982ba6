use vstd::prelude::*;

use crate::assoc::{assoc_value, is_first_named, lemma_assoc_value_first_match, lookup};

verus! {

/// A JSON document, as handed to the configuration builders.
///
/// Numbers are kept in their textual form; object members are kept in the
/// order in which the document lists them.
pub enum JsonValue {
    Null,
    Bool(bool),
    Number(String),
    String(String),
    Array(Vec<JsonValue>),
    Object(Vec<(String, JsonValue)>),
}

impl JsonValue {
    /// What `get(key)` returns: the member named `key` of an object, and
    /// nothing for any other kind of value.
    pub open spec fn spec_get(self, key: Seq<char>) -> Option<JsonValue> {
        match self {
            JsonValue::Object(members) => assoc_value(members@, key),
            _ => None,
        }
    }

    /// What `as_str` returns: the text of a string value.
    pub open spec fn spec_as_str(self) -> Option<Seq<char>> {
        match self {
            JsonValue::String(s) => Some(s@),
            _ => None,
        }
    }

    /// Looks up the member named `key` of an object value.
    pub fn get(&self, key: &String) -> (res: Option<&JsonValue>)
        ensures
            match res {
                Some(v) => self.spec_get(key@) == Some(*v),
                None => self.spec_get(key@) is None,
            },
            match *self {
                JsonValue::Object(members) => {
                    &&& res is None <==> forall|i: int|
                        0 <= i < members@.len() ==> (#[trigger] members@[i]).0@ != key@
                    &&& res matches Some(v) ==> exists|i: int|
                        is_first_named(members@, key@, i) && *v == members@[i].1
                },
                _ => res is None,
            },
    {
        match self {
            JsonValue::Object(members) => lookup(members, key),
            _ => None,
        }
    }

    /// The text of a string value.
    pub fn as_str(&self) -> (res: Option<&str>)
        ensures
            match res {
                Some(s) => self.spec_as_str() == Some(s@),
                None => self.spec_as_str() is None,
            },
    {
        match self {
            JsonValue::String(s) => Some(s.as_str()),
            _ => None,
        }
    }
}

/// An object holds nothing under `key` exactly when none of its members is
/// named `key`, and otherwise the value of the first member named `key`,
/// however many members it has; other values hold nothing.
pub proof fn lemma_get_first_member(value: JsonValue, key: Seq<char>)
    ensures
        match value {
            JsonValue::Object(members) => {
                &&& value.spec_get(key) is None <==> forall|i: int|
                    0 <= i < members@.len() ==> (#[trigger] members@[i]).0@ != key
                &&& value.spec_get(key) is Some ==> exists|i: int|
                    is_first_named(members@, key, i) && value.spec_get(key) == Some(members@[i].1)
            },
            _ => value.spec_get(key) is None,
        },
{
    if let JsonValue::Object(members) = value {
        lemma_assoc_value_first_match(members@, key);
    }
}

/// Every string value reads as its whole text, of any length, and no other
/// value reads as a string.
pub proof fn lemma_as_str_of_string(value: JsonValue)
    ensures
        value.spec_as_str() is Some <==> value is String,
        forall|s: String| value == JsonValue::String(s) ==> value.spec_as_str() == Some(s@),
{
}

} // verus!
