//! Optional-field records and the laws of writing them.
//!
//! Every builder is a record: a fixed list of named fields, each either unset
//! or holding a value. The record's document has one member for each field
//! that is set, in the record's order, and nothing for a field that is not.

use crate::document::{lookup, Json, Value};
use vstd::prelude::*;

verus! {

/// One field of a record: its key in the document, and the document of its
/// value if it is set.
pub struct Field {
    pub key: Seq<char>,
    pub value: Option<Json>,
}

/// The members that a record puts into its document: one for each field that
/// is set, in the record's order.
pub open spec fn emit(fields: Seq<Field>) -> Seq<(Seq<char>, Json)>
    decreases fields.len(),
{
    if fields.len() == 0 {
        Seq::empty()
    } else {
        match fields.last().value {
            Some(value) => emit(fields.drop_last()).push((fields.last().key, value)),
            None => emit(fields.drop_last()),
        }
    }
}

/// No two fields share a key.
pub open spec fn distinct_keys(fields: Seq<Field>) -> bool {
    forall|i: int, j: int|
        0 <= i < j < fields.len() ==> (#[trigger] fields[i]).key != (#[trigger] fields[j]).key
}

/// Both records have the same keys in the same places.
pub open spec fn same_keys(a: Seq<Field>, b: Seq<Field>) -> bool {
    &&& a.len() == b.len()
    &&& forall|i: int| 0 <= i < a.len() ==> (#[trigger] a[i]).key == b[i].key
}

/// A lower-case letter of the Latin alphabet.
pub open spec fn is_ascii_lower(c: char) -> bool {
    'a' <= c <= 'z'
}

/// A letter of the Latin alphabet or a digit.
pub open spec fn is_ascii_alphanumeric(c: char) -> bool {
    ('a' <= c <= 'z') || ('A' <= c <= 'Z') || ('0' <= c <= '9')
}

/// The key is written in lower camel case: letters and digits only, starting
/// with a lower-case letter.
pub open spec fn is_lower_camel(key: Seq<char>) -> bool {
    &&& key.len() > 0
    &&& is_ascii_lower(key[0])
    &&& forall|i: int| 0 <= i < key.len() ==> is_ascii_alphanumeric(#[trigger] key[i])
}

/// What the field list of every record satisfies: the keys are distinct, and
/// each is in lower camel case.
pub open spec fn well_formed(fields: Seq<Field>) -> bool {
    &&& distinct_keys(fields)
    &&& forall|i: int| 0 <= i < fields.len() ==> is_lower_camel((#[trigger] fields[i]).key)
}

/// The record with field `i` set to `value`, and every other field as it was.
pub open spec fn assign(fields: Seq<Field>, i: int, value: Json) -> Seq<Field> {
    fields.update(i, Field { key: fields[i].key, value: Some(value) })
}

/// A builder whose state is an optional-field record.
pub trait Record {
    /// The builder's fields in the order in which they are written, each with
    /// its key in the document and the document of its value if it is set.
    spec fn fields(&self) -> Seq<Field>;

    /// The keys are distinct and in lower camel case, and they are the same
    /// for every value of the type: a key does not depend on what the builder
    /// holds, nor on how it was put together.
    proof fn lemma_keys(&self, other: &Self)
        ensures
            well_formed(self.fields()),
            same_keys(self.fields(), other.fields()),
    ;

    /// The canonical document: an object with one member for each field that
    /// is set, in the record's order, and no member for a field that is not.
    fn document(&self) -> (doc: Value)
        ensures
            doc@ == Json::Object(emit(self.fields())),
    ;
}

/// Appending a member leaves every earlier match in place; the new member is
/// found only under a key that was not there before.
pub proof fn lemma_lookup_push(
    members: Seq<(Seq<char>, Json)>,
    member: (Seq<char>, Json),
    key: Seq<char>,
)
    ensures
        lookup(members.push(member), key) == if lookup(members, key) is Some {
            lookup(members, key)
        } else if member.0 == key {
            Some(member.1)
        } else {
            None
        },
    decreases members.len(),
{
    if members.len() == 0 {
        assert(members.push(member).skip(1) =~= Seq::empty());
        assert(lookup(Seq::empty(), key) is None);
    } else {
        assert(members.push(member).skip(1) =~= members.skip(1).push(member));
        lemma_lookup_push(members.skip(1), member, key);
    }
}

/// A key that no field of the record bears is absent from its document.
pub proof fn lemma_foreign_key_absent(fields: Seq<Field>, key: Seq<char>)
    requires
        forall|i: int| 0 <= i < fields.len() ==> (#[trigger] fields[i]).key != key,
    ensures
        lookup(emit(fields), key) is None,
    decreases fields.len(),
{
    if fields.len() > 0 {
        let head = fields.drop_last();
        lemma_foreign_key_absent(head, key);
        match fields.last().value {
            Some(value) => {
                lemma_lookup_push(emit(head), (fields.last().key, value), key);
            },
            None => {},
        }
    }
}

/// Field omission: what the document holds under a field's key is that
/// field's value. An unset field has no key in the document; a set field has
/// its key there with exactly the value it was set to, whatever that value is.
pub proof fn lemma_field_omission(fields: Seq<Field>, i: int)
    requires
        distinct_keys(fields),
        0 <= i < fields.len(),
    ensures
        lookup(emit(fields), fields[i].key) == fields[i].value,
    decreases fields.len(),
{
    let head = fields.drop_last();
    let last = fields.last();
    let key = fields[i].key;
    if i == fields.len() - 1 {
        assert forall|j: int| 0 <= j < head.len() implies (#[trigger] head[j]).key != key by {
            assert(head[j] == fields[j]);
        }
        lemma_foreign_key_absent(head, key);
    } else {
        assert(head[i] == fields[i]);
        assert forall|a: int, b: int| 0 <= a < b < head.len() implies (#[trigger] head[a]).key
            != (#[trigger] head[b]).key by {
            assert(head[a] == fields[a]);
            assert(head[b] == fields[b]);
        }
        lemma_field_omission(head, i);
    }
    match last.value {
        Some(value) => {
            lemma_lookup_push(emit(head), (last.key, value), key);
        },
        None => {},
    }
}

/// A record with no field set writes no member at all.
pub proof fn lemma_unset_record_is_empty(fields: Seq<Field>)
    requires
        forall|i: int| 0 <= i < fields.len() ==> (#[trigger] fields[i]).value is None,
    ensures
        emit(fields) == Seq::<(Seq<char>, Json)>::empty(),
    decreases fields.len(),
{
    if fields.len() > 0 {
        assert(fields.last() == fields[fields.len() - 1]);
        lemma_unset_record_is_empty(fields.drop_last());
    }
}

/// Setting a field keeps every key where it was, so the record stays well
/// formed.
pub proof fn lemma_assign_keeps_keys(fields: Seq<Field>, i: int, value: Json)
    requires
        0 <= i < fields.len(),
    ensures
        same_keys(assign(fields, i, value), fields),
        distinct_keys(fields) ==> distinct_keys(assign(fields, i, value)),
        well_formed(fields) ==> well_formed(assign(fields, i, value)),
{
    let after = assign(fields, i, value);
    assert forall|j: int| 0 <= j < after.len() implies (#[trigger] after[j]).key
        == fields[j].key by {}
    if distinct_keys(fields) {
        assert forall|a: int, b: int| 0 <= a < b < after.len() implies (#[trigger] after[a]).key
            != (#[trigger] after[b]).key by {
            assert(after[a].key == fields[a].key);
            assert(after[b].key == fields[b].key);
        }
    }
    if well_formed(fields) {
        assert forall|j: int| 0 <= j < after.len() implies is_lower_camel(
            (#[trigger] after[j]).key,
        ) by {
            assert(after[j].key == fields[j].key);
        }
    }
}

/// Setting a field puts its key into the document with exactly the value
/// given, and changes what the document holds under no other key.
pub proof fn lemma_assign_sets_one_field(fields: Seq<Field>, i: int, value: Json, key: Seq<char>)
    requires
        distinct_keys(fields),
        0 <= i < fields.len(),
    ensures
        lookup(emit(assign(fields, i, value)), fields[i].key) == Some(value),
        key != fields[i].key ==> lookup(emit(assign(fields, i, value)), key) == lookup(
            emit(fields),
            key,
        ),
{
    let after = assign(fields, i, value);
    lemma_assign_keeps_keys(fields, i, value);
    lemma_field_omission(after, i);
    if key != fields[i].key {
        if exists|j: int| 0 <= j < fields.len() && (#[trigger] fields[j]).key == key {
            let j = choose|j: int| 0 <= j < fields.len() && (#[trigger] fields[j]).key == key;
            lemma_field_omission(fields, j);
            lemma_field_omission(after, j);
        } else {
            lemma_foreign_key_absent(fields, key);
            assert forall|j: int| 0 <= j < after.len() implies (#[trigger] after[j]).key
                != key by {
                assert(after[j].key == fields[j].key);
            }
            lemma_foreign_key_absent(after, key);
        }
    }
}

/// Construction order does not matter: setting two different fields in either
/// order gives the same record, hence the same document, and each value sits
/// under its field's own key either way.
pub proof fn lemma_assign_order(fields: Seq<Field>, i: int, a: Json, j: int, b: Json)
    requires
        0 <= i < fields.len(),
        0 <= j < fields.len(),
        i != j,
    ensures
        assign(assign(fields, i, a), j, b) == assign(assign(fields, j, b), i, a),
        emit(assign(assign(fields, i, a), j, b)) == emit(assign(assign(fields, j, b), i, a)),
        distinct_keys(fields) ==> {
            &&& lookup(emit(assign(assign(fields, i, a), j, b)), fields[i].key) == Some(a)
            &&& lookup(emit(assign(assign(fields, i, a), j, b)), fields[j].key) == Some(b)
        },
{
    let first = assign(assign(fields, i, a), j, b);
    assert(first =~= assign(assign(fields, j, b), i, a));
    if distinct_keys(fields) {
        lemma_assign_keeps_keys(fields, i, a);
        lemma_assign_keeps_keys(assign(fields, i, a), j, b);
        lemma_field_omission(first, i);
        lemma_field_omission(first, j);
    }
}

/// Setting a field twice keeps the later value only.
pub proof fn lemma_assign_last_wins(fields: Seq<Field>, i: int, a: Json, b: Json)
    requires
        0 <= i < fields.len(),
    ensures
        assign(assign(fields, i, a), i, b) == assign(fields, i, b),
{
    assert(assign(assign(fields, i, a), i, b) =~= assign(fields, i, b));
}

/// Field omission, for every builder: what a builder's document holds under
/// the key of one of its fields is that field's value. The key is absent
/// where the field is unset, and present with exactly the value set where it
/// is set, whatever that value is.
pub proof fn lemma_document_field<T: Record>(record: &T, i: int)
    requires
        0 <= i < record.fields().len(),
    ensures
        Json::Object(emit(record.fields())).get(record.fields()[i].key) == record.fields()[i].value,
{
    record.lemma_keys(record);
    lemma_field_omission(record.fields(), i);
}

/// Naming, for every builder: a field's key is in lower camel case and is the
/// same in any two builders of the type, however each was put together. So
/// where both have the field set, both documents hold it under that one key.
pub proof fn lemma_document_key<T: Record>(a: &T, b: &T, i: int)
    requires
        0 <= i < a.fields().len(),
    ensures
        i < b.fields().len(),
        a.fields()[i].key == b.fields()[i].key,
        is_lower_camel(a.fields()[i].key),
        Json::Object(emit(a.fields())).has_key(a.fields()[i].key) == (a.fields()[i].value is Some),
        Json::Object(emit(b.fields())).has_key(a.fields()[i].key) == (b.fields()[i].value is Some),
{
    a.lemma_keys(b);
    b.lemma_keys(a);
    lemma_field_omission(a.fields(), i);
    lemma_field_omission(b.fields(), i);
}

} // verus!
