//! Writing records: the values that fields hold, and the writer that puts
//! the set ones into an object.

use crate::document::{entries_of, jsons_of, lemma_jsons_of, Json, Member, Value};
use crate::number::{Float32, Float64};
use crate::record::{emit, Field, Record};
use vstd::prelude::*;

verus! {

/// The document of an optional value, if there is a value.
pub open spec fn view_opt(value: Option<Value>) -> Option<Json> {
    match value {
        Some(v) => Some(v@),
        None => None,
    }
}

/// A truth value is written as itself.
pub open spec fn json_bool(value: Option<bool>) -> Option<Json> {
    match value {
        Some(b) => Some(Json::Bool(b)),
        None => None,
    }
}

/// A count is written as itself.
pub open spec fn json_uint(value: Option<u64>) -> Option<Json> {
    match value {
        Some(n) => Some(Json::UInt(n)),
        None => None,
    }
}

/// A number is written as itself.
pub open spec fn json_float(value: Option<Float64>) -> Option<Json> {
    match value {
        Some(x) => Some(Json::Float64(x)),
        None => None,
    }
}

/// A text is written as itself.
pub open spec fn json_text(value: Option<Seq<char>>) -> Option<Json> {
    match value {
        Some(s) => Some(Json::Str(s)),
        None => None,
    }
}

/// A pair is written as an array of its two parts, first part first.
pub open spec fn pair(x: Float64, y: Float64) -> Json {
    Json::Array(seq![Json::Float64(x), Json::Float64(y)])
}

/// The document of an optional pair, if there is one.
pub open spec fn json_pair(value: Option<(Float64, Float64)>) -> Option<Json> {
    match value {
        Some(p) => Some(pair(p.0, p.1)),
        None => None,
    }
}

/// A list of numbers is written as an array of them, in order.
pub open spec fn float32s(numbers: Seq<Float32>) -> Json {
    Json::Array(Seq::new(numbers.len(), |i: int| Json::Float32(numbers[i])))
}

/// The document of an optional list of numbers, if there is one.
pub open spec fn json_float32s(value: Option<Seq<Float32>>) -> Option<Json> {
    match value {
        Some(numbers) => Some(float32s(numbers)),
        None => None,
    }
}

/// A list that items are added to is written as an array once it has an
/// item, and not at all while it has none.
pub open spec fn json_list(items: Seq<Json>) -> Option<Json> {
    if items.len() == 0 {
        None
    } else {
        Some(Json::Array(items))
    }
}

/// The characters of an optional string.
pub open spec fn text_of(value: Option<String>) -> Option<Seq<char>> {
    match value {
        Some(s) => Some(s@),
        None => None,
    }
}

/// The numbers of an optional list.
pub open spec fn float32s_of(value: Option<Vec<Float32>>) -> Option<Seq<Float32>> {
    match value {
        Some(v) => Some(v@),
        None => None,
    }
}

/// The document of an optional truth value, if there is one.
pub fn opt_bool(value: Option<bool>) -> (r: Option<Value>)
    ensures
        view_opt(r) == json_bool(value),
{
    match value {
        Some(b) => Some(Value::Bool(b)),
        None => None,
    }
}

/// The document of an optional count, if there is one.
pub fn opt_uint(value: Option<u64>) -> (r: Option<Value>)
    ensures
        view_opt(r) == json_uint(value),
{
    match value {
        Some(n) => Some(Value::UInt(n)),
        None => None,
    }
}

/// The document of an optional number, if there is one.
pub fn opt_float(value: Option<Float64>) -> (r: Option<Value>)
    ensures
        view_opt(r) == json_float(value),
{
    match value {
        Some(x) => Some(Value::Float64(x)),
        None => None,
    }
}

/// The document of an optional text, if there is one.
pub fn opt_text(value: &Option<String>) -> (r: Option<Value>)
    ensures
        view_opt(r) == json_text(text_of(*value)),
{
    match value {
        Some(s) => Some(Value::Str(s.clone())),
        None => None,
    }
}

/// The document of an optional pair, if there is one.
pub fn opt_pair(value: Option<(Float64, Float64)>) -> (r: Option<Value>)
    ensures
        view_opt(r) == json_pair(value),
{
    match value {
        Some(p) => {
            let mut items: Vec<Value> = Vec::new();
            items.push(Value::Float64(p.0));
            items.push(Value::Float64(p.1));
            proof {
                lemma_jsons_of(items@);
                assert(jsons_of(items@) =~= seq![Json::Float64(p.0), Json::Float64(p.1)]);
            }
            Some(Value::Array(items))
        },
        None => None,
    }
}

/// The document of an optional list of numbers, if there is one.
pub fn opt_float32s(value: &Option<Vec<Float32>>) -> (r: Option<Value>)
    ensures
        view_opt(r) == json_float32s(float32s_of(*value)),
{
    match value {
        Some(numbers) => {
            let mut items: Vec<Value> = Vec::new();
            let mut i: usize = 0;
            while i < numbers.len()
                invariant
                    i <= numbers.len(),
                    items@.len() == i,
                    forall|j: int|
                        0 <= j < i ==> (#[trigger] items@[j]) == Value::Float32(numbers@[j]),
                decreases numbers.len() - i,
            {
                items.push(Value::Float32(numbers[i]));
                i += 1;
            }
            proof {
                lemma_jsons_of(items@);
                assert(jsons_of(items@) =~= Seq::new(
                    numbers@.len(),
                    |i: int| Json::Float32(numbers@[i]),
                ));
            }
            Some(Value::Array(items))
        },
        None => None,
    }
}

/// The document of an optional record, if there is a record.
pub fn opt_record<T: Record>(value: &Option<T>) -> (r: Option<Value>)
    ensures
        view_opt(r) == match *value {
            Some(record) => Some(Json::Object(emit(record.fields()))),
            None => None,
        },
{
    match value {
        Some(record) => Some(record.document()),
        None => None,
    }
}

/// The documents of a list of records, as one array, if the list has an item.
pub fn opt_records<T: Record>(records: &Vec<T>) -> (r: Option<Value>)
    ensures
        view_opt(r) == json_list(
            Seq::new(records@.len(), |i: int| Json::Object(emit(records@[i].fields()))),
        ),
{
    if records.len() == 0 {
        return None;
    }
    let mut items: Vec<Value> = Vec::new();
    let mut i: usize = 0;
    while i < records.len()
        invariant
            i <= records.len(),
            items@.len() == i,
            forall|j: int|
                0 <= j < i ==> (#[trigger] items@[j])@ == Json::Object(emit(records@[j].fields())),
        decreases records.len() - i,
    {
        items.push(records[i].document());
        i += 1;
    }
    proof {
        lemma_jsons_of(items@);
        assert(jsons_of(items@) =~= Seq::new(
            records@.len(),
            |i: int| Json::Object(emit(records@[i].fields())),
        ));
    }
    Some(Value::Array(items))
}

/// Writes a record's fields, one after another, into an object.
pub struct ObjectWriter {
    members: Vec<Member>,
    fields: Ghost<Seq<Field>>,
}

impl ObjectWriter {
    /// The fields handed to the writer so far, in the order they came.
    pub closed spec fn fields(&self) -> Seq<Field> {
        self.fields@
    }

    /// The members written so far are those of the fields handed in so far.
    pub closed spec fn wf(&self) -> bool {
        entries_of(self.members@) == emit(self.fields@)
    }

    /// A writer that has been handed no field yet.
    pub fn new() -> (w: Self)
        ensures
            w.wf(),
            w.fields() == Seq::<Field>::empty(),
    {
        ObjectWriter { members: Vec::new(), fields: Ghost(Seq::empty()) }
    }

    /// Hands the next field to the writer: a member is written if the field
    /// is set, and nothing if it is not.
    pub fn field(&mut self, key: &str, value: Option<Value>)
        requires
            old(self).wf(),
        ensures
            final(self).wf(),
            final(self).fields() == old(self).fields().push(
                Field { key: key@, value: view_opt(value) },
            ),
    {
        let ghost field = Field { key: key@, value: view_opt(value) };
        let ghost before = self.members@;
        proof {
            assert(self.fields@.push(field).drop_last() =~= self.fields@);
        }
        match value {
            Some(v) => {
                let member = Member { key: key.to_owned(), value: v };
                self.members.push(member);
                proof {
                    assert(self.members@.drop_last() =~= before);
                }
            },
            None => {},
        }
        self.fields = Ghost(self.fields@.push(field));
    }

    /// The object with the members written.
    pub fn finish(self) -> (doc: Value)
        requires
            self.wf(),
        ensures
            doc@ == Json::Object(emit(self.fields())),
    {
        Value::Object(self.members)
    }
}

} // verus!
