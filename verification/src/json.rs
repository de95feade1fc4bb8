//! JSON values and their texts.

use vstd::prelude::*;

verus! {

/// A JSON value.
pub enum Json {
    /// A truth value.
    Bool(bool),
    /// A number.
    Number(u64),
    /// A text.
    Text(Seq<char>),
    /// A list.
    List(Seq<Json>),
    /// An object: values under names.
    Object(Map<Seq<char>, Json>),
    /// Anything else.
    Other,
}

/// A value of serde_json.
#[verifier::external_type_specification]
#[verifier::external_body]
pub struct ExValue(serde_json::Value);

/// The value that a `Value` stands for, as its variant and fields say.
pub uninterp spec fn json_of(v: serde_json::Value) -> Json;

/// Whether `serde_json::to_string` can give this text for a `Value` that stands
/// for this value. There may be more than one such text, since names are in no
/// particular order.
pub uninterp spec fn json_text(j: Json, text: Seq<char>) -> bool;

/// The value that a text stands for, where it is one that can be written.
pub open spec fn read_json(text: Seq<char>) -> Option<Json> {
    if exists|j: Json| json_text(j, text) {
        Some(choose|j: Json| json_text(j, text))
    } else {
        None
    }
}

/// The values of a list.
pub open spec fn list_of(v: Seq<serde_json::Value>) -> Seq<Json> {
    Seq::new(v.len(), |i: int| json_of(v[i]))
}

/// The values of a list of named values.
pub open spec fn object_of(fields: Seq<(String, serde_json::Value)>) -> Map<Seq<char>, Json>
    decreases fields.len(),
{
    if fields.len() == 0 {
        Map::empty()
    } else {
        object_of(fields.drop_last()).insert(fields.last().0@, json_of(fields.last().1))
    }
}

/// Whether no name occurs twice.
pub open spec fn names_differ(fields: Seq<(String, serde_json::Value)>) -> bool {
    forall|i: int, j: int|
        0 <= i < j < fields.len() ==> (#[trigger] fields[i]).0@ != (#[trigger] fields[j]).0@
}

/// A value that is to be made.
pub enum Parts {
    /// A truth value.
    Bool(bool),
    /// A number.
    Number(u64),
    /// A text.
    Text(String),
    /// A list.
    List(Vec<serde_json::Value>),
    /// An object.
    Object(Vec<(String, serde_json::Value)>),
}

/// The value that is to be made.
pub open spec fn parts_json(p: Parts) -> Json {
    match p {
        Parts::Bool(b) => Json::Bool(b),
        Parts::Number(n) => Json::Number(n),
        Parts::Text(s) => Json::Text(s@),
        Parts::List(v) => Json::List(list_of(v@)),
        Parts::Object(f) => Json::Object(object_of(f@)),
    }
}

/// The variant of `Value` for these parts, with these fields.
#[verifier::external_body]
fn value_of(p: Parts) -> (r: serde_json::Value)
    requires
        p matches Parts::Object(f) ==> names_differ(f@),
    ensures
        json_of(r) == parts_json(p),
{
    match p {
        Parts::Bool(b) => serde_json::Value::Bool(b),
        Parts::Number(n) => serde_json::Value::from(n),
        Parts::Text(s) => serde_json::Value::String(s),
        Parts::List(v) => serde_json::Value::Array(v),
        Parts::Object(f) => serde_json::Value::Object(f.into_iter().collect()),
    }
}

/// `serde_json::to_string` on a `Value`: one of the texts for the value that it
/// stands for, and for no other. It does not fail, since names are texts.
#[verifier::external_body]
fn text_of(v: &serde_json::Value) -> (r: Result<String, String>)
    ensures
        r is Ok,
        json_text(json_of(*v), r->Ok_0@),
        forall|j: Json| json_text(j, r->Ok_0@) ==> j == json_of(*v),
{
    serde_json::to_string(v).map_err(|e| e.to_string())
}

/// A truth value.
pub fn truth(b: bool) -> (r: serde_json::Value)
    ensures
        json_of(r) == Json::Bool(b),
{
    value_of(Parts::Bool(b))
}

/// A number.
pub fn number(n: u64) -> (r: serde_json::Value)
    ensures
        json_of(r) == Json::Number(n),
{
    value_of(Parts::Number(n))
}

/// A text.
pub fn text(s: &str) -> (r: serde_json::Value)
    ensures
        json_of(r) == Json::Text(s@),
{
    value_of(Parts::Text(s.to_owned()))
}

/// A list.
pub fn list(v: Vec<serde_json::Value>) -> (r: serde_json::Value)
    ensures
        json_of(r) == Json::List(list_of(v@)),
{
    value_of(Parts::List(v))
}

/// An object.
pub fn object(fields: Vec<(String, serde_json::Value)>) -> (r: serde_json::Value)
    requires
        names_differ(fields@),
    ensures
        json_of(r) == Json::Object(object_of(fields@)),
{
    value_of(Parts::Object(fields))
}

/// Writes a value.
pub fn write(v: &serde_json::Value) -> (r: String)
    ensures
        read_json(r@) == Some(json_of(*v)),
{
    match text_of(v) {
        Ok(t) => t,
        Err(e) => e,
    }
}

/// The names of an object are those of its fields.
proof fn lemma_names(fields: Seq<(String, serde_json::Value)>, k: Seq<char>)
    ensures
        object_of(fields).dom().contains(k) <==> exists|i: int|
            0 <= i < fields.len() && (#[trigger] fields[i]).0@ == k,
    decreases fields.len(),
{
    if fields.len() > 0 {
        let before = fields.drop_last();
        lemma_names(before, k);
        assert(fields[fields.len() - 1] == fields.last());
        if exists|i: int| 0 <= i < before.len() && (#[trigger] before[i]).0@ == k {
            let i = choose|i: int| 0 <= i < before.len() && (#[trigger] before[i]).0@ == k;
            assert(fields[i].0@ == k);
        }
        if exists|i: int| 0 <= i < fields.len() && (#[trigger] fields[i]).0@ == k {
            let i = choose|i: int| 0 <= i < fields.len() && (#[trigger] fields[i]).0@ == k;
            if i < before.len() {
                assert(before[i].0@ == k);
            }
        }
    }
}

/// Adds a field with a name that is not there yet.
pub fn put(fields: &mut Vec<(String, serde_json::Value)>, name: &str, v: serde_json::Value)
    requires
        names_differ(old(fields)@),
        !object_of(old(fields)@).dom().contains(name@),
    ensures
        names_differ(final(fields)@),
        object_of(final(fields)@) == object_of(old(fields)@).insert(name@, json_of(v)),
{
    let ghost before = fields@;
    let entry = (name.to_owned(), v);
    fields.push(entry);
    proof {
        assert(fields@.drop_last() =~= before);
        lemma_names(before, name@);
        assert forall|i: int, j: int| 0 <= i < j < fields@.len() implies (#[trigger] fields@[i]).0@
            != (#[trigger] fields@[j]).0@ by {
            assert(fields@[i] == before[i]);
            if j < before.len() {
                assert(fields@[j] == before[j]);
            }
        }
    }
}

} // verus!
