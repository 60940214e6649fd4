//! Rewriting of a `CreateTable` request body so that it carries the names of
//! the table's vector indexes.
use vstd::prelude::*;

use crate::json::{self, str_eq, JsonValue, JsonView};

verus! {

/// The member under which the vector-index names are sent.
pub open spec fn vector_indexes_key() -> Seq<char> {
    "VectorIndexes"@
}

/// The position of the first member named `key` from position `i` on, or
/// the length of `members` when there is none.
pub open spec fn key_position_from(members: Seq<(Seq<char>, JsonView)>, key: Seq<char>, i: int) -> int
    decreases members.len() - i,
{
    if i < 0 || i >= members.len() {
        members.len() as int
    } else if members[i].0 == key {
        i
    } else {
        key_position_from(members, key, i + 1)
    }
}

/// The position of the first member named `key`, or the length of `members`.
pub open spec fn key_position(members: Seq<(Seq<char>, JsonView)>, key: Seq<char>) -> int {
    key_position_from(members, key, 0)
}

/// Sets member `key` of an object to `value`: the first member of that name
/// takes the new value, or the member is added at the end when there is none.
pub open spec fn object_insert(
    members: Seq<(Seq<char>, JsonView)>,
    key: Seq<char>,
    value: JsonView,
) -> Seq<(Seq<char>, JsonView)> {
    let p = key_position(members, key);
    if p < members.len() {
        members.update(p, (key, value))
    } else {
        members.push((key, value))
    }
}

/// A request body with the vector-index names `names` set as its
/// `VectorIndexes` member; a body that is not a JSON object is left as it is.
pub open spec fn with_vector_indexes(body: JsonView, names: Seq<Seq<char>>) -> JsonView {
    match body {
        JsonView::Object(members) => JsonView::Object(
            object_insert(members, vector_indexes_key(), json::string_array(names)),
        ),
        other => other,
    }
}

// ---------------------------------------------------------------------
// Reading and writing JSON text
// ---------------------------------------------------------------------

#[verifier::external_type_specification]
#[verifier::external_body]
pub struct ExJsonDocument(serde_json::Value);

/// The document that `serde_json::from_slice` reads from `bytes`, or `None`
/// where the bytes are not a JSON document.
pub uninterp spec fn parsed_json(bytes: Seq<u8>) -> Option<JsonView>;

/// The bytes that `serde_json::to_vec` writes for a document, or `None`
/// where it refuses to write it.
pub uninterp spec fn json_text(v: JsonView) -> Option<Seq<u8>>;

/// The tree of a document that serde_json has read, one node for each of its
/// nodes, a number as serde_json prints it. Called only from [`parse_json`],
/// which states what its result is.
#[verifier::external_body]
fn json_from_value(v: serde_json::Value) -> JsonValue {
    match v {
        serde_json::Value::Null => JsonValue::Null,
        serde_json::Value::Bool(b) => JsonValue::Bool(b),
        serde_json::Value::Number(n) => JsonValue::Number(n.to_string()),
        serde_json::Value::String(s) => JsonValue::String(s),
        serde_json::Value::Array(a) => JsonValue::Array(a.into_iter().map(json_from_value).collect()),
        serde_json::Value::Object(m) => JsonValue::Object(
            m.into_iter().map(|(k, x)| (k, json_from_value(x))).collect(),
        ),
    }
}

/// The serde_json document for a tree, one node for each of its nodes, a
/// number read back from its text (`null` where serde_json refuses the text).
/// Called only from [`write_json`], which states what its result is.
#[verifier::external_body]
fn json_to_value(v: &JsonValue) -> serde_json::Value {
    match v {
        JsonValue::Null => serde_json::Value::Null,
        JsonValue::Bool(b) => serde_json::Value::Bool(*b),
        JsonValue::Number(t) => t.parse::<serde_json::Number>().map_or(serde_json::Value::Null, serde_json::Value::Number),
        JsonValue::String(s) => serde_json::Value::String(s.clone()),
        JsonValue::Array(a) => serde_json::Value::Array(a.iter().map(json_to_value).collect()),
        JsonValue::Object(m) => serde_json::Value::Object(
            m.iter().map(|(k, x)| (k.clone(), json_to_value(x))).collect(),
        ),
    }
}

/// Reads `bytes` as a JSON document with `serde_json::from_slice`. The
/// contract claims that the result is the named [`parsed_json`] of the bytes,
/// and that the document's objects have distinct member names, as the map
/// that serde_json keeps them in has distinct keys. What the parser accepts
/// and what it gives is left unsaid.
#[verifier::external_body]
fn parse_json(bytes: &[u8]) -> (r: Option<JsonValue>)
    ensures
        match r {
            Some(j) => parsed_json(bytes@) == Some(j@) && json::json_wf(j@),
            None => parsed_json(bytes@) is None,
        },
{
    match serde_json::from_slice::<serde_json::Value>(bytes) {
        Ok(v) => Some(json_from_value(v)),
        Err(_) => None,
    }
}

/// Writes a document as JSON text with `serde_json::to_vec`. The contract
/// claims only that the result is the named [`json_text`] of the document;
/// the text itself is left unsaid.
#[verifier::external_body]
fn write_json(v: &JsonValue) -> (r: Option<Vec<u8>>)
    ensures
        match r {
            Some(b) => json_text(v@) == Some(b@),
            None => json_text(v@) is None,
        },
{
    serde_json::to_vec(&json_to_value(v)).ok()
}

/// The text of a `CreateTable` request body after the rewrite: the body read
/// as JSON, given the index names as its `VectorIndexes` member, and written
/// again; `None` where the body is not JSON or cannot be written.
pub open spec fn rewritten_body_text(body: Seq<u8>, names: Seq<Seq<char>>) -> Option<Seq<u8>> {
    match parsed_json(body) {
        Some(j) => json_text(with_vector_indexes(j, names)),
        None => None,
    }
}

/// The `Content-Length` header value of a body: its length in decimal.
pub fn content_length(body: &[u8]) -> (r: String)
    ensures
        r@ == json::decimal_text(body@.len()),
{
    json::decimal_string(body.len() as u64)
}

/// Injects a `VectorIndexes` field into the JSON body of a CreateTable request
/// before it is signed and transmitted.
#[derive(Debug)]
pub struct VectorIndexesInterceptor {
    pub vector_indexes: Vec<String>,
}

impl VectorIndexesInterceptor {
    /// The request body with this interceptor's index names set as its
    /// `VectorIndexes` member.
    pub fn rewrite_body(&self, body: JsonValue) -> (r: JsonValue)
        ensures
            r@ == with_vector_indexes(body@, json::strings_view(self.vector_indexes@)),
    {
        match body {
            JsonValue::Object(members) => {
                let mut members = members;
                proof {
                    json::lemma_object_view(members);
                }
                let ghost mv = json::members_view(members@);
                let names = json::string_array_json(&self.vector_indexes);
                let mut i: usize = 0;
                while i < members.len()
                    invariant
                        mv == json::members_view(members@),
                        0 <= i <= members@.len(),
                        key_position_from(mv, vector_indexes_key(), i as int) == key_position(
                            mv,
                            vector_indexes_key(),
                        ),
                    ensures
                        mv == json::members_view(members@),
                        0 <= i <= members@.len(),
                        key_position(mv, vector_indexes_key()) == i,
                    decreases members@.len() - i,
                {
                    if str_eq(members[i].0.as_str(), "VectorIndexes") {
                        break;
                    }
                    i = i + 1;
                }
                let ghost p = key_position(mv, vector_indexes_key());
                if i < members.len() {
                    assert(p == i);
                    members.set(i, ("VectorIndexes".to_owned(), names));
                    proof {
                        json::lemma_object_view(members);
                        assert(json::members_view(members@) =~= object_insert(
                            mv,
                            vector_indexes_key(),
                            names@,
                        ));
                    }
                } else {
                    assert(p == mv.len());
                    members.push(("VectorIndexes".to_owned(), names));
                    proof {
                        json::lemma_object_view(members);
                        assert(json::members_view(members@) =~= object_insert(
                            mv,
                            vector_indexes_key(),
                            names@,
                        ));
                    }
                }
                JsonValue::Object(members)
            },
            other => other,
        }
    }

    /// The bytes of a `CreateTable` request body rewritten so that it carries
    /// this interceptor's index names as its `VectorIndexes` member; `None`
    /// where the body is not JSON.
    pub fn rewrite_body_bytes(&self, body: &[u8]) -> (r: Option<Vec<u8>>)
        ensures
            match r {
                Some(b) => rewritten_body_text(body@, json::strings_view(self.vector_indexes@))
                    == Some(b@),
                None => rewritten_body_text(body@, json::strings_view(self.vector_indexes@)) is None,
            },
    {
        match parse_json(body) {
            Some(j) => {
                let rewritten = self.rewrite_body(j);
                write_json(&rewritten)
            },
            None => None,
        }
    }
}

// ---------------------------------------------------------------------
// Laws of the body rewrite
// ---------------------------------------------------------------------

/// Where the first member named `key` from position `i` on stands, and that
/// none stands before it.
pub proof fn lemma_key_position_from(members: Seq<(Seq<char>, JsonView)>, key: Seq<char>, i: int)
    requires
        0 <= i <= members.len(),
    ensures
        i <= key_position_from(members, key, i) <= members.len(),
        key_position_from(members, key, i) < members.len() ==> members[key_position_from(
            members,
            key,
            i,
        )].0 == key,
        forall|j: int|
            i <= j < key_position_from(members, key, i) ==> (#[trigger] members[j]).0 != key,
    decreases members.len() - i,
{
    if i < members.len() && members[i].0 != key {
        lemma_key_position_from(members, key, i + 1);
    }
}

/// After setting `key`, the first member of that name is the one set, at
/// the position the old first member had, or at the end.
proof fn lemma_insert_position(members: Seq<(Seq<char>, JsonView)>, key: Seq<char>, value: JsonView)
    ensures
        ({
            let p = key_position(members, key);
            let m2 = object_insert(members, key, value);
            &&& p <= members.len()
            &&& m2.len() == if p < members.len() {
                members.len()
            } else {
                members.len() + 1
            }
            &&& key_position(m2, key) == p
            &&& m2[p] == (key, value)
            &&& forall|j: int| 0 <= j < p ==> (#[trigger] m2[j]) == members[j]
        }),
{
    let p = key_position(members, key);
    let m2 = object_insert(members, key, value);
    lemma_key_position_from(members, key, 0);
    lemma_key_position_from(m2, key, 0);
    assert(forall|j: int| 0 <= j < p ==> (#[trigger] m2[j]) == members[j]);
    assert(m2[p] == (key, value));
    let p2 = key_position(m2, key);
    if p2 < p {
        assert(m2[p2] == members[p2]);
    }
}

/// After setting `key`, the object's member `key` is the value set.
pub proof fn lemma_object_insert_get(members: Seq<(Seq<char>, JsonView)>, key: Seq<char>, value: JsonView)
    ensures
        json::object_lookup(object_insert(members, key, value), key) == Some(value),
{
    let p = key_position(members, key);
    let m2 = object_insert(members, key, value);
    lemma_insert_position(members, key, value);
    lemma_key_position_from(m2, key, 0);
    json::lemma_lookup_found(m2, key, p);
}

/// Setting `key` leaves every other member's lookup as it was.
pub proof fn lemma_object_insert_other(
    members: Seq<(Seq<char>, JsonView)>,
    key: Seq<char>,
    value: JsonView,
    other: Seq<char>,
    i: int,
)
    requires
        other != key,
        0 <= i,
    ensures
        json::lookup_from(object_insert(members, key, value), other, i) == json::lookup_from(
            members,
            other,
            i,
        ),
    decreases object_insert(members, key, value).len() - i,
{
    let m2 = object_insert(members, key, value);
    let p = key_position(members, key);
    lemma_key_position_from(members, key, 0);
    if i < m2.len() {
        if i < members.len() {
            assert(m2[i].0 == members[i].0);
            if i != p {
                assert(m2[i] == members[i]);
            }
        } else {
            assert(m2[i].0 == key);
        }
        lemma_object_insert_other(members, key, value, other, i + 1);
    }
}

/// The rewritten body of a `CreateTable` request carries the index names as
/// its `VectorIndexes` member.
pub proof fn lemma_rewrite_sets_vector_indexes(members: Seq<(Seq<char>, JsonView)>, names: Seq<Seq<char>>)
    ensures
        json::json_get(
            with_vector_indexes(JsonView::Object(members), names),
            vector_indexes_key(),
        ) == Some(json::string_array(names)),
{
    lemma_object_insert_get(members, vector_indexes_key(), json::string_array(names));
}

/// The rewrite leaves every other member of the request body as it was.
pub proof fn lemma_rewrite_keeps_other_members(
    members: Seq<(Seq<char>, JsonView)>,
    names: Seq<Seq<char>>,
    key: Seq<char>,
)
    requires
        key != vector_indexes_key(),
    ensures
        json::json_get(with_vector_indexes(JsonView::Object(members), names), key)
            == json::json_get(JsonView::Object(members), key),
{
    lemma_object_insert_other(members, vector_indexes_key(), json::string_array(names), key, 0);
}

/// Rewriting an already rewritten body with the same names changes nothing,
/// so the rewrite may run again on a retried request.
pub proof fn lemma_rewrite_idempotent(body: JsonView, names: Seq<Seq<char>>)
    ensures
        with_vector_indexes(with_vector_indexes(body, names), names) == with_vector_indexes(
            body,
            names,
        ),
{
    if let JsonView::Object(members) = body {
        let key = vector_indexes_key();
        let value = json::string_array(names);
        let m2 = object_insert(members, key, value);
        lemma_insert_position(members, key, value);
        lemma_key_position_from(m2, key, 0);
        let p = key_position(members, key);
        assert(key_position(m2, key) == p);
        assert(p < m2.len());
        assert(object_insert(m2, key, value) =~= m2);
    }
}

/// The rewrite keeps a document well formed: no object of it gains a second
/// member of one name.
pub proof fn lemma_rewrite_preserves_wf(body: JsonView, names: Seq<Seq<char>>)
    requires
        json::json_wf(body),
    ensures
        json::json_wf(with_vector_indexes(body, names)),
{
    if let JsonView::Object(members) = body {
        let key = vector_indexes_key();
        let value = json::string_array(names);
        let m2 = object_insert(members, key, value);
        let p = key_position(members, key);
        lemma_key_position_from(members, key, 0);
        assert(json::json_wf(value)) by {
            assert forall|i: int| 0 <= i < json::string_values(names).len() implies json::json_wf(
                #[trigger] json::string_values(names)[i],
            ) by {}
        }
        assert(json::distinct_names(m2)) by {
            assert forall|i: int, j: int| 0 <= i < j < m2.len() implies m2[i].0 != m2[j].0 by {
                if p < members.len() {
                    assert(m2[i].0 == members[i].0);
                    assert(m2[j].0 == members[j].0);
                } else if j == members.len() {
                    assert(m2[i] == members[i]);
                } else {
                    assert(m2[i] == members[i]);
                    assert(m2[j] == members[j]);
                }
            }
        }
        assert forall|i: int| 0 <= i < m2.len() implies json::json_wf(#[trigger] m2[i].1) by {
            if i != p {
                assert(m2[i] == members[i]);
            }
        }
    }
}

/// The rewritten body of a `CreateTable` request has a member named
/// `VectorIndexes` holding the index names as a JSON array of strings, in
/// the order given.
pub proof fn lemma_rewrite_sets_named_member(members: Seq<(Seq<char>, JsonView)>, names: Seq<Seq<char>>)
    ensures
        json::json_get(with_vector_indexes(JsonView::Object(members), names), "VectorIndexes"@)
            == Some(JsonView::Array(Seq::new(names.len(), |i: int| JsonView::String(names[i])))),
{
    lemma_rewrite_sets_vector_indexes(members, names);
    assert(json::string_values(names) =~= Seq::new(names.len(), |i: int| JsonView::String(names[i])));
}

} // verus!
