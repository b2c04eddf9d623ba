//! The canonical document: the tree of values that a chart description
//! becomes before it is handed to the rendering engine.

use crate::number::{Float32, Float64};
use vstd::prelude::*;

verus! {

/// A document as a mathematical value. An object keeps its members in the
/// order in which they were written.
pub enum Json {
    Bool(bool),
    UInt(u64),
    Float32(Float32),
    Float64(Float64),
    Str(Seq<char>),
    Array(Seq<Json>),
    Object(Seq<(Seq<char>, Json)>),
}

/// A document in memory.
#[derive(Debug, PartialEq)]
pub enum Value {
    Bool(bool),
    UInt(u64),
    Float32(Float32),
    Float64(Float64),
    Str(String),
    Array(Vec<Value>),
    Object(Vec<Member>),
}

/// One key of an object, with its value.
#[derive(Debug, PartialEq)]
pub struct Member {
    pub key: String,
    pub value: Value,
}

impl View for Value {
    type V = Json;

    open spec fn view(&self) -> Json {
        json_of(*self)
    }
}

/// The document that a value stands for.
pub open spec fn json_of(value: Value) -> Json
    decreases value,
{
    match value {
        Value::Bool(b) => Json::Bool(b),
        Value::UInt(n) => Json::UInt(n),
        Value::Float32(x) => Json::Float32(x),
        Value::Float64(x) => Json::Float64(x),
        Value::Str(s) => Json::Str(s@),
        Value::Array(items) => Json::Array(jsons_of(items@)),
        Value::Object(members) => Json::Object(entries_of(members@)),
    }
}

/// The documents that a sequence of values stands for, item by item.
pub open spec fn jsons_of(items: Seq<Value>) -> Seq<Json>
    decreases items,
{
    if items.len() == 0 {
        Seq::empty()
    } else {
        jsons_of(items.drop_last()).push(json_of(items.last()))
    }
}

/// The members that a sequence of keyed values stands for, in order.
pub open spec fn entries_of(members: Seq<Member>) -> Seq<(Seq<char>, Json)>
    decreases members,
{
    if members.len() == 0 {
        Seq::empty()
    } else {
        entries_of(members.drop_last()).push((members.last().key@, json_of(members.last().value)))
    }
}

/// The value of the first member with the given key, if there is one.
pub open spec fn lookup(members: Seq<(Seq<char>, Json)>, key: Seq<char>) -> Option<Json>
    decreases members.len(),
{
    if members.len() == 0 {
        None
    } else if members[0].0 == key {
        Some(members[0].1)
    } else {
        lookup(members.skip(1), key)
    }
}

impl Json {
    /// What an object holds under `key`; `None` for a missing key and for
    /// anything that is not an object.
    pub open spec fn get(self, key: Seq<char>) -> Option<Json> {
        match self {
            Json::Object(members) => lookup(members, key),
            _ => None,
        }
    }

    /// Whether this is an object with a member under `key`.
    pub open spec fn has_key(self, key: Seq<char>) -> bool {
        self.get(key) is Some
    }
}

/// Item `i` of an array's document is the document of item `i`.
pub proof fn lemma_jsons_of(items: Seq<Value>)
    ensures
        jsons_of(items).len() == items.len(),
        forall|i: int| 0 <= i < items.len() ==> (#[trigger] jsons_of(items)[i]) == items[i]@,
    decreases items.len(),
{
    if items.len() > 0 {
        lemma_jsons_of(items.drop_last());
    }
}

/// Member `i` of an object's document is the key and the document of member `i`.
pub proof fn lemma_entries_of(members: Seq<Member>)
    ensures
        entries_of(members).len() == members.len(),
        forall|i: int|
            0 <= i < members.len() ==> (#[trigger] entries_of(members)[i]) == (
                members[i].key@,
                members[i].value@,
            ),
    decreases members.len(),
{
    if members.len() > 0 {
        lemma_entries_of(members.drop_last());
    }
}

impl Value {
    /// The value under `key`, where this is an object that has the key.
    pub fn get(&self, key: &str) -> (r: Option<&Value>)
        ensures
            match r {
                Some(v) => self@.get(key@) == Some(v@),
                None => self@.get(key@) is None,
            },
    {
        match self {
            Value::Object(members) => {
                proof {
                    lemma_entries_of(members@);
                }
                let wanted = key.to_owned();
                let ghost entries = entries_of(members@);
                assert(entries.skip(0) =~= entries);
                let mut i: usize = 0;
                while i < members.len()
                    invariant
                        i <= members.len(),
                        wanted@ == key@,
                        self@.get(key@) == lookup(entries, key@),
                        entries.len() == members@.len(),
                        forall|j: int|
                            0 <= j < members@.len() ==> (#[trigger] entries[j]) == (
                                members@[j].key@,
                                members@[j].value@,
                            ),
                        lookup(entries, key@) == lookup(entries.skip(i as int), key@),
                    decreases members.len() - i,
                {
                    assert(entries.skip(i as int)[0] == entries[i as int]);
                    assert(entries.skip(i as int).skip(1) =~= entries.skip(i + 1));
                    if members[i].key == wanted {
                        return Some(&members[i].value);
                    }
                    i += 1;
                }
                None
            },
            _ => None,
        }
    }
}

} // verus!
