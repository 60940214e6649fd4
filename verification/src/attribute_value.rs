//! DynamoDB attribute values as plain data, and the JSON they are sent as.
use vstd::prelude::*;

use crate::json::{self, JsonValue, JsonView};

verus! {

/// A DynamoDB attribute value. A map is the list of its entries.
#[derive(Debug, PartialEq)]
pub enum AttributeValue {
    B(Vec<u8>),
    Bool(bool),
    Bs(Vec<Vec<u8>>),
    L(Vec<AttributeValue>),
    M(Vec<(String, AttributeValue)>),
    N(String),
    Ns(Vec<String>),
    Null(bool),
    S(String),
    Ss(Vec<String>),
    /// A value of a type this client does not know.
    Unknown,
}

/// The mathematical view of an [`AttributeValue`].
pub enum AttributeValueView {
    B(Seq<u8>),
    Bool(bool),
    Bs(Seq<Seq<u8>>),
    L(Seq<AttributeValueView>),
    M(Seq<(Seq<char>, AttributeValueView)>),
    N(Seq<char>),
    Ns(Seq<Seq<char>>),
    Null(bool),
    S(Seq<char>),
    Ss(Seq<Seq<char>>),
    Unknown,
}

pub open spec fn attribute_view(v: AttributeValue) -> AttributeValueView
    decreases v,
{
    match v {
        AttributeValue::B(b) => AttributeValueView::B(b@),
        AttributeValue::Bool(b) => AttributeValueView::Bool(b),
        AttributeValue::Bs(bs) => AttributeValueView::Bs(bytes_list_view(bs@)),
        AttributeValue::L(items) => AttributeValueView::L(
            Seq::new(
                items@.len(),
                |i: int|
                    if 0 <= i < items@.len() {
                        attribute_view(items@[i])
                    } else {
                        AttributeValueView::Unknown
                    },
            ),
        ),
        AttributeValue::M(entries) => AttributeValueView::M(
            Seq::new(
                entries@.len(),
                |i: int|
                    if 0 <= i < entries@.len() {
                        (entries@[i].0@, attribute_view(entries@[i].1))
                    } else {
                        (Seq::empty(), AttributeValueView::Unknown)
                    },
            ),
        ),
        AttributeValue::N(n) => AttributeValueView::N(n@),
        AttributeValue::Ns(ns) => AttributeValueView::Ns(json::strings_view(ns@)),
        AttributeValue::Null(b) => AttributeValueView::Null(b),
        AttributeValue::S(s) => AttributeValueView::S(s@),
        AttributeValue::Ss(ss) => AttributeValueView::Ss(json::strings_view(ss@)),
        AttributeValue::Unknown => AttributeValueView::Unknown,
    }
}

impl View for AttributeValue {
    type V = AttributeValueView;

    open spec fn view(&self) -> AttributeValueView {
        attribute_view(*self)
    }
}

/// The views of a list of binary values.
pub open spec fn bytes_list_view(items: Seq<Vec<u8>>) -> Seq<Seq<u8>> {
    Seq::new(items.len(), |i: int| items[i]@)
}

/// The views of a list of attribute values.
pub open spec fn attributes_view(items: Seq<AttributeValue>) -> Seq<AttributeValueView> {
    Seq::new(items.len(), |i: int| items[i]@)
}

/// The views of a list of map entries.
pub open spec fn entries_view(entries: Seq<(String, AttributeValue)>) -> Seq<
    (Seq<char>, AttributeValueView),
> {
    Seq::new(entries.len(), |i: int| (entries[i].0@, entries[i].1@))
}

pub proof fn lemma_list_view(items: Vec<AttributeValue>)
    ensures
        AttributeValue::L(items)@ == AttributeValueView::L(attributes_view(items@)),
{
    let a = AttributeValue::L(items);
    assert(a@ == attribute_view(a));
    if let AttributeValueView::L(s) = attribute_view(a) {
        assert(s =~= attributes_view(items@));
    }
}

pub proof fn lemma_map_view(entries: Vec<(String, AttributeValue)>)
    ensures
        AttributeValue::M(entries)@ == AttributeValueView::M(entries_view(entries@)),
{
    let a = AttributeValue::M(entries);
    assert(a@ == attribute_view(a));
    if let AttributeValueView::M(s) = attribute_view(a) {
        assert(s =~= entries_view(entries@));
    }
}

/// The character of the standard base64 alphabet for a six-bit value:
/// `A`-`Z`, `a`-`z`, `0`-`9`, `+`, `/`.
pub open spec fn base64_char(v: int) -> char {
    if v < 26 {
        (('A' as int) + v) as char
    } else if v < 52 {
        (('a' as int) + (v - 26)) as char
    } else if v < 62 {
        (('0' as int) + (v - 52)) as char
    } else if v == 62 {
        '+'
    } else {
        '/'
    }
}

/// The standard base64 text of `bytes` (RFC 4648, padded with `=`): each
/// group of three bytes, read as 24 bits, gives four characters of six bits
/// each; a last group of one or two bytes gives two or three characters
/// and is padded to four.
pub open spec fn base64_encoded(bytes: Seq<u8>) -> Seq<char>
    decreases bytes.len(),
{
    if bytes.len() == 0 {
        Seq::empty()
    } else if bytes.len() == 1 {
        let a = bytes[0] as int;
        seq![base64_char(a / 4), base64_char((a % 4) * 16), '=', '=']
    } else if bytes.len() == 2 {
        let a = bytes[0] as int;
        let b = bytes[1] as int;
        seq![base64_char(a / 4), base64_char((a % 4) * 16 + b / 16), base64_char((b % 16) * 4), '=']
    } else {
        let a = bytes[0] as int;
        let b = bytes[1] as int;
        let c = bytes[2] as int;
        seq![
            base64_char(a / 4),
            base64_char((a % 4) * 16 + b / 16),
            base64_char((b % 16) * 4 + c / 64),
            base64_char(c % 64),
        ] + base64_encoded(bytes.skip(3))
    }
}

/// Calls `aws_smithy_types::base64::encode`, which encodes its input with
/// `base64_simd::STANDARD`: the standard alphabet, padded with `=`. The
/// contract claims that the text is [`base64_encoded`] of the input.
#[verifier::external_body]
fn base64_encode(bytes: &Vec<u8>) -> (r: String)
    ensures
        r@ == base64_encoded(bytes@),
{
    aws_smithy_types::base64::encode(bytes)
}

/// A one-member JSON object `{key: value}`.
pub open spec fn tagged(key: Seq<char>, value: JsonView) -> JsonView {
    JsonView::Object(seq![(key, value)])
}

/// JSON strings for a list of binary values, each in base64.
pub open spec fn base64_values(items: Seq<Seq<u8>>) -> Seq<JsonView> {
    Seq::new(items.len(), |i: int| JsonView::String(base64_encoded(items[i])))
}

/// The DynamoDB JSON form of an attribute value: a one-member object whose
/// key names the type (`B`, `BOOL`, `BS`, `L`, `M`, `N`, `NS`, `NULL`, `S`,
/// `SS`); binary data is written in base64. A value of unknown type has no
/// wire form and is written as `null`.
pub open spec fn attribute_json(v: AttributeValueView) -> JsonView
    decreases v,
{
    match v {
        AttributeValueView::B(b) => tagged("B"@, JsonView::String(base64_encoded(b))),
        AttributeValueView::Bool(b) => tagged("BOOL"@, JsonView::Bool(b)),
        AttributeValueView::Bs(bs) => tagged("BS"@, JsonView::Array(base64_values(bs))),
        AttributeValueView::L(items) => tagged(
            "L"@,
            JsonView::Array(
                Seq::new(
                    items.len(),
                    |i: int|
                        if 0 <= i < items.len() {
                            attribute_json(items[i])
                        } else {
                            JsonView::Null
                        },
                ),
            ),
        ),
        AttributeValueView::M(entries) => tagged(
            "M"@,
            JsonView::Object(
                Seq::new(
                    entries.len(),
                    |i: int|
                        if 0 <= i < entries.len() {
                            (entries[i].0, attribute_json(entries[i].1))
                        } else {
                            (Seq::empty(), JsonView::Null)
                        },
                ),
            ),
        ),
        AttributeValueView::N(n) => tagged("N"@, JsonView::String(n)),
        AttributeValueView::Ns(ns) => tagged("NS"@, JsonView::Array(json::string_values(ns))),
        AttributeValueView::Null(b) => tagged("NULL"@, JsonView::Bool(b)),
        AttributeValueView::S(s) => tagged("S"@, JsonView::String(s)),
        AttributeValueView::Ss(ss) => tagged("SS"@, JsonView::Array(json::string_values(ss))),
        AttributeValueView::Unknown => JsonView::Null,
    }
}

/// The JSON object `{key: value}`.
fn tagged_json(key: &str, value: JsonValue) -> (r: JsonValue)
    ensures
        r@ == tagged(key@, value@),
{
    let mut members: Vec<(String, JsonValue)> = Vec::new();
    members.push((key.to_owned(), value));
    proof {
        json::lemma_object_view(members);
        assert(json::members_view(members@) =~= seq![(key@, value@)]);
    }
    JsonValue::Object(members)
}

fn json_string(s: &String) -> (r: JsonValue)
    ensures
        r@ == JsonView::String(s@),
{
    let r = JsonValue::String(s.clone());
    assert(r@ == json::json_view(r));
    r
}

fn base64_json_values(items: &Vec<Vec<u8>>) -> (r: JsonValue)
    ensures
        r@ == JsonView::Array(base64_values(bytes_list_view(items@))),
{
    let mut out: Vec<JsonValue> = Vec::new();
    let mut i: usize = 0;
    while i < items.len()
        invariant
            0 <= i <= items@.len(),
            out@.len() == i,
            forall|k: int|
                0 <= k < i ==> (#[trigger] out@[k])@ == JsonView::String(
                    base64_encoded(items@[k]@),
                ),
        decreases items@.len() - i,
    {
        let s = base64_encode(&items[i]);
        let j = JsonValue::String(s);
        assert(j@ == json::json_view(j));
        out.push(j);
        i = i + 1;
    }
    proof {
        json::lemma_array_view(out);
        assert(json::values_view(out@) =~= base64_values(bytes_list_view(items@)));
    }
    JsonValue::Array(out)
}

/// The DynamoDB JSON form of an attribute value.
pub fn attribute_value_to_json(v: &AttributeValue) -> (r: JsonValue)
    ensures
        r@ == attribute_json(v@),
    decreases v,
{
    proof {
        assert(v@ == attribute_view(*v));
    }
    match v {
        AttributeValue::B(b) => {
            let s = base64_encode(b);
            let j = JsonValue::String(s);
            assert(j@ == json::json_view(j));
            tagged_json("B", j)
        },
        AttributeValue::Bool(b) => {
            let j = JsonValue::Bool(*b);
            assert(j@ == json::json_view(j));
            tagged_json("BOOL", j)
        },
        AttributeValue::Bs(bs) => tagged_json("BS", base64_json_values(bs)),
        AttributeValue::L(items) => {
            proof {
                lemma_list_view(*items);
            }
            let mut out: Vec<JsonValue> = Vec::new();
            let mut i: usize = 0;
            while i < items.len()
                invariant
                    v == AttributeValue::L(*items),
                    0 <= i <= items@.len(),
                    out@.len() == i,
                    forall|k: int|
                        0 <= k < i ==> (#[trigger] out@[k])@ == attribute_json(items@[k]@),
                decreases items@.len() - i,
            {
                proof {
                    vstd::std_specs::vec::axiom_vec_index_decreases(*items, i as int);
                    assert(decreases_to!(*v => v->L_0));
                }
                out.push(attribute_value_to_json(&items[i]));
                i = i + 1;
            }
            proof {
                json::lemma_array_view(out);
                let e = attribute_json(v@);
                if let JsonView::Object(m) = e {
                    if let JsonView::Array(s) = m[0].1 {
                        assert(s =~= json::values_view(out@));
                        assert(m =~= seq![("L"@, JsonView::Array(json::values_view(out@)))]);
                    }
                }
            }
            tagged_json("L", JsonValue::Array(out))
        },
        AttributeValue::M(entries) => {
            proof {
                lemma_map_view(*entries);
            }
            let mut out: Vec<(String, JsonValue)> = Vec::new();
            let mut i: usize = 0;
            while i < entries.len()
                invariant
                    v == AttributeValue::M(*entries),
                    0 <= i <= entries@.len(),
                    out@.len() == i,
                    forall|k: int|
                        0 <= k < i ==> (#[trigger] out@[k]).0@ == entries@[k].0@ && out@[k].1@
                            == attribute_json(entries@[k].1@),
                decreases entries@.len() - i,
            {
                proof {
                    vstd::std_specs::vec::axiom_vec_index_decreases(*entries, i as int);
                    assert(decreases_to!(*v => v->M_0));
                    assert(decreases_to!(entries[i as int] => entries[i as int].1));
                }
                let value = attribute_value_to_json(&entries[i].1);
                out.push((entries[i].0.clone(), value));
                i = i + 1;
            }
            proof {
                json::lemma_object_view(out);
                let e = attribute_json(v@);
                if let JsonView::Object(m) = e {
                    if let JsonView::Object(s) = m[0].1 {
                        assert(s =~= json::members_view(out@));
                        assert(m =~= seq![("M"@, JsonView::Object(json::members_view(out@)))]);
                    }
                }
            }
            tagged_json("M", JsonValue::Object(out))
        },
        AttributeValue::N(n) => tagged_json("N", json_string(n)),
        AttributeValue::Ns(ns) => tagged_json("NS", json::string_array_json(ns)),
        AttributeValue::Null(b) => {
            let j = JsonValue::Bool(*b);
            assert(j@ == json::json_view(j));
            tagged_json("NULL", j)
        },
        AttributeValue::S(s) => tagged_json("S", json_string(s)),
        AttributeValue::Ss(ss) => tagged_json("SS", json::string_array_json(ss)),
        AttributeValue::Unknown => {
            let j = JsonValue::Null;
            assert(j@ == json::json_view(j));
            j
        },
    }
}

fn clone_bytes(b: &Vec<u8>) -> (r: Vec<u8>)
    ensures
        r@ == b@,
{
    let mut out: Vec<u8> = Vec::new();
    let mut i: usize = 0;
    while i < b.len()
        invariant
            0 <= i <= b@.len(),
            out@ == b@.take(i as int),
        decreases b@.len() - i,
    {
        out.push(b[i]);
        assert(b@.take(i + 1) =~= b@.take(i as int).push(b@[i as int]));
        i = i + 1;
    }
    assert(b@.take(b@.len() as int) =~= b@);
    out
}

fn clone_bytes_list(items: &Vec<Vec<u8>>) -> (r: Vec<Vec<u8>>)
    ensures
        bytes_list_view(r@) == bytes_list_view(items@),
{
    let mut out: Vec<Vec<u8>> = Vec::new();
    let mut i: usize = 0;
    while i < items.len()
        invariant
            0 <= i <= items@.len(),
            out@.len() == i,
            forall|k: int| 0 <= k < i ==> (#[trigger] out@[k])@ == items@[k]@,
        decreases items@.len() - i,
    {
        out.push(clone_bytes(&items[i]));
        i = i + 1;
    }
    assert(bytes_list_view(out@) =~= bytes_list_view(items@));
    out
}

impl Clone for AttributeValue {
    fn clone(&self) -> (r: Self)
        ensures
            r@ == self@,
        decreases self,
    {
        proof {
            assert(self@ == attribute_view(*self));
        }
        match self {
            AttributeValue::B(b) => {
                let r = AttributeValue::B(clone_bytes(b));
                assert(r@ == attribute_view(r));
                r
            },
            AttributeValue::Bool(b) => AttributeValue::Bool(*b),
            AttributeValue::Bs(bs) => {
                let r = AttributeValue::Bs(clone_bytes_list(bs));
                assert(r@ == attribute_view(r));
                r
            },
            AttributeValue::L(items) => {
                proof {
                    lemma_list_view(*items);
                }
                let mut out: Vec<AttributeValue> = Vec::new();
                let mut i: usize = 0;
                while i < items.len()
                    invariant
                        *self == AttributeValue::L(*items),
                        0 <= i <= items@.len(),
                        out@.len() == i,
                        forall|k: int| 0 <= k < i ==> (#[trigger] out@[k])@ == items@[k]@,
                    decreases items@.len() - i,
                {
                    proof {
                        vstd::std_specs::vec::axiom_vec_index_decreases(*items, i as int);
                        assert(decreases_to!(*self => self->L_0));
                    }
                    out.push(items[i].clone());
                    i = i + 1;
                }
                proof {
                    lemma_list_view(out);
                    assert(attributes_view(out@) =~= attributes_view(items@));
                }
                AttributeValue::L(out)
            },
            AttributeValue::M(entries) => {
                proof {
                    lemma_map_view(*entries);
                }
                let mut out: Vec<(String, AttributeValue)> = Vec::new();
                let mut i: usize = 0;
                while i < entries.len()
                    invariant
                        *self == AttributeValue::M(*entries),
                        0 <= i <= entries@.len(),
                        out@.len() == i,
                        forall|k: int|
                            0 <= k < i ==> (#[trigger] out@[k]).0@ == entries@[k].0@ && out@[k].1@
                                == entries@[k].1@,
                    decreases entries@.len() - i,
                {
                    proof {
                        vstd::std_specs::vec::axiom_vec_index_decreases(*entries, i as int);
                        assert(decreases_to!(*self => self->M_0));
                        assert(decreases_to!(entries[i as int] => entries[i as int].1));
                    }
                    let value = entries[i].1.clone();
                    out.push((entries[i].0.clone(), value));
                    i = i + 1;
                }
                proof {
                    lemma_map_view(out);
                    assert(entries_view(out@) =~= entries_view(entries@));
                }
                AttributeValue::M(out)
            },
            AttributeValue::N(n) => AttributeValue::N(n.clone()),
            AttributeValue::Ns(ns) => {
                let r = AttributeValue::Ns(json::clone_strings(ns));
                assert(r@ == attribute_view(r));
                r
            },
            AttributeValue::Null(b) => AttributeValue::Null(*b),
            AttributeValue::S(s) => AttributeValue::S(s.clone()),
            AttributeValue::Ss(ss) => {
                let r = AttributeValue::Ss(json::clone_strings(ss));
                assert(r@ == attribute_view(r));
                r
            },
            AttributeValue::Unknown => AttributeValue::Unknown,
        }
    }
}

} // verus!
