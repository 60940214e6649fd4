//! Laws of the vector models, each stated from the documented rule it
//! checks (the accepted names, dimensions, wire names and encodings written
//! out in full), so that every law ties the model's outcome to those rules
//! rather than to the model's own helper definitions.
use vstd::prelude::*;

use crate::attribute_value::AttributeValueView;
use crate::json::{self, JsonView};
use crate::vector::{
    attribute_json_value, index_from_json, index_json_of, index_json_value, index_status_from_name,
    optional_member, projection_json_of, projection_json_value, search_json_of,
    search_json_value, similarity_from_name, update_json_of, update_json_value, IndexStatus,
    ProjectionView, ReturnScores, SimilarityFunction, VectorIndexBuilderView, VectorIndexUpdateView,
    VectorIndexView, index_build_outcome,
    attribute_build_outcome, float32_bits_finite, float32_search_outcome, float32_vector_bytes,
    index_name_check, is_index_name_byte, is_number_value, list_search_outcome, u32_le_bytes,
    VectorAttributeBuilderView, VectorAttributeView, VectorSearchView,
};

verus! {

// ---------------------------------------------------------------------
// Vector attributes: a non-empty name and 1 to 16000 dimensions
// ---------------------------------------------------------------------

/// The attribute builder accepts exactly the states with a non-empty name
/// and between 1 and 16000 dimensions, and then builds the attribute with
/// that name and those dimensions.
pub proof fn lemma_attribute_build_accepts_exactly_valid(b: VectorAttributeBuilderView)
    ensures
        attribute_build_outcome(b) is Ok <==> {
            &&& b.attribute_name is Some
            &&& b.attribute_name->0.len() > 0
            &&& b.dimensions is Some
            &&& 1 <= b.dimensions->0 <= 16000
        },
        attribute_build_outcome(b) is Ok ==> attribute_build_outcome(b) == Ok::<
            VectorAttributeView,
            &'static str,
        >(VectorAttributeView { attribute_name: b.attribute_name->0, dimensions: b.dimensions->0 }),
{
}

/// Which error the attribute builder reports: the first rule broken, in the
/// order name given, name non-empty, dimensions given, dimensions positive,
/// dimensions at most 16000.
pub proof fn lemma_attribute_build_errors(b: VectorAttributeBuilderView)
    ensures
        b.attribute_name is None ==> attribute_build_outcome(b) == Err::<
            VectorAttributeView,
            &'static str,
        >("attribute_name is required"),
        b.attribute_name == Some(Seq::<char>::empty()) ==> attribute_build_outcome(b) == Err::<
            VectorAttributeView,
            &'static str,
        >("attribute_name must not be empty"),
        (b.attribute_name is Some && b.attribute_name->0.len() > 0 && b.dimensions is None)
            ==> attribute_build_outcome(b) == Err::<VectorAttributeView, &'static str>(
            "dimensions is required",
        ),
        (b.attribute_name is Some && b.attribute_name->0.len() > 0 && b.dimensions == Some(0u32))
            ==> attribute_build_outcome(b) == Err::<VectorAttributeView, &'static str>(
            "dimensions must be positive",
        ),
        (b.attribute_name is Some && b.attribute_name->0.len() > 0 && b.dimensions is Some
            && b.dimensions->0 > 16000) ==> attribute_build_outcome(b) == Err::<
            VectorAttributeView,
            &'static str,
        >("dimensions must not exceed 16000"),
{
}

// ---------------------------------------------------------------------
// Index names: 3 to 192 characters of [a-zA-Z0-9._-]
// ---------------------------------------------------------------------

/// Every byte of the UTF-8 text of `chars` is below 0x80 only when every
/// character is ASCII.
proof fn lemma_ascii_bytes_ascii_chars(chars: Seq<char>)
    requires
        forall|i: int|
            0 <= i < vstd::utf8::encode_utf8(chars).len() ==> #[trigger] vstd::utf8::encode_utf8(
                chars,
            )[i] < 0x80,
    ensures
        vstd::utf8::is_ascii_chars(chars),
    decreases chars.len(),
{
    if chars.len() > 0 {
        let c = chars[0] as u32;
        let head = vstd::utf8::encode_scalar(c);
        let rest = vstd::utf8::encode_utf8(chars.drop_first());
        let all = vstd::utf8::encode_utf8(chars);
        assert(all == head + rest);
        assert(all[0] == head[0]);
        assert(head[0] < 0x80);
        if !vstd::utf8::has_width_1_encoding(c) {
            assert(vstd::utf8::leading_byte_width_2(c) >= 0xC0) by (bit_vector);
            assert(vstd::utf8::leading_byte_width_3(c) >= 0xE0) by (bit_vector);
            assert(vstd::utf8::leading_byte_width_4(c) >= 0xF0) by (bit_vector);
        }
        assert(vstd::utf8::has_width_1_encoding(c));
        assert(head.len() == 1);
        assert forall|i: int| 0 <= i < rest.len() implies #[trigger] rest[i] < 0x80 by {
            assert(rest[i] == all[i + 1]);
        }
        lemma_ascii_bytes_ascii_chars(chars.drop_first());
        assert forall|i: int| 0 <= i < chars.len() implies '\0' <= #[trigger] chars[i]
            <= '\u{7f}' by {
            if i > 0 {
                assert(chars[i] == chars.drop_first()[i - 1]);
            } else {
                assert((chars[0] as u32) <= 0x7f);
                lemma_char_code(chars[0]);
                assert((chars[0] as int) <= 0x7f);
            }
        }
    }
}

/// A character's code as a `u32` is its code.
proof fn lemma_char_code(c: char)
    ensures
        (c as u32) as int == c as int,
{
}

/// For ASCII text the UTF-8 bytes are the characters themselves.
proof fn lemma_ascii_bytes(chars: Seq<char>)
    requires
        vstd::utf8::is_ascii_chars(chars),
    ensures
        vstd::utf8::encode_utf8(chars).len() == chars.len(),
        forall|i: int|
            0 <= i < chars.len() ==> (#[trigger] vstd::utf8::encode_utf8(chars)[i]) as int
                == chars[i] as int,
{
    vstd::utf8::is_ascii_chars_encode_utf8(chars);
    assert forall|i: int| 0 <= i < chars.len() implies (#[trigger] vstd::utf8::encode_utf8(
        chars,
    )[i]) as int == chars[i] as int by {
        let c = chars[i];
        assert('\0' <= c <= '\u{7f}');
        assert((c as u32) < 128);
        let u = c as u32;
        assert((u as u8) as int == u as int) by (bit_vector)
            requires
                u < 128,
        ;
    }
}

/// A character the documented index-name pattern `[a-zA-Z0-9._-]` allows.
pub open spec fn index_name_char(c: char) -> bool {
    ||| ('0' <= c <= '9')
    ||| ('A' <= c <= 'Z')
    ||| ('a' <= c <= 'z')
    ||| c == '.'
    ||| c == '_'
    ||| c == '-'
}

/// The documented index-name rule: 3 to 192 characters, each of
/// `[a-zA-Z0-9._-]`.
pub open spec fn documented_index_name(name: Seq<char>) -> bool {
    &&& 3 <= name.len() <= 192
    &&& forall|i: int| 0 <= i < name.len() ==> index_name_char(#[trigger] name[i])
}

/// An index name passes the rule exactly when it has 3 to 192 characters,
/// each an ASCII letter, digit, `.`, `_` or `-`.
pub proof fn lemma_index_name_rule(name: Seq<char>)
    ensures
        index_name_check(name) is Ok <==> documented_index_name(name),
{
    let bytes = vstd::utf8::encode_utf8(name);
    let allowed = forall|i: int|
        0 <= i < name.len() ==> {
            let c = #[trigger] name[i];
            ||| ('0' <= c <= '9')
            ||| ('A' <= c <= 'Z')
            ||| ('a' <= c <= 'z')
            ||| c == '.'
            ||| c == '_'
            ||| c == '-'
        };
    if index_name_check(name) is Ok {
        assert forall|i: int| 0 <= i < bytes.len() implies #[trigger] bytes[i] < 0x80 by {
            assert(is_index_name_byte(bytes[i]));
        }
        lemma_ascii_bytes_ascii_chars(name);
        lemma_ascii_bytes(name);
        assert forall|i: int| 0 <= i < name.len() implies {
            let c = #[trigger] name[i];
            ||| ('0' <= c <= '9')
            ||| ('A' <= c <= 'Z')
            ||| ('a' <= c <= 'z')
            ||| c == '.'
            ||| c == '_'
            ||| c == '-'
        } by {
            assert(is_index_name_byte(bytes[i]));
            assert(bytes[i] as int == name[i] as int);
        }
    }
    if 3 <= name.len() <= 192 && allowed {
        assert(vstd::utf8::is_ascii_chars(name)) by {
            assert forall|i: int| 0 <= i < name.len() implies '\0' <= #[trigger] name[i]
                <= '\u{7f}' by {
                let c = name[i];
                assert(('0' <= c <= '9') || ('A' <= c <= 'Z') || ('a' <= c <= 'z') || c == '.'
                    || c == '_' || c == '-');
            }
        }
        lemma_ascii_bytes(name);
        assert forall|i: int| 0 <= i < bytes.len() implies is_index_name_byte(
            #[trigger] bytes[i],
        ) by {
            let c = name[i];
            assert(bytes[i] as int == c as int);
            assert(('0' <= c <= '9') || ('A' <= c <= 'Z') || ('a' <= c <= 'z') || c == '.'
                || c == '_' || c == '-');
        }
    }
}

// ---------------------------------------------------------------------
// Compact query vectors: every finite component is accepted
// ---------------------------------------------------------------------

/// The compact constructor accepts exactly the non-empty vectors whose
/// components are all finite (IEEE-754 exponent not all ones; zero, signed
/// zero and subnormals included) and then holds their little-endian bytes,
/// with no score reporting.
pub proof fn lemma_float32_search_accepts_exactly_finite(bits: Seq<u32>)
    ensures
        float32_search_outcome(bits) is Ok <==> {
            &&& bits.len() > 0
            &&& forall|i: int|
                0 <= i < bits.len() ==> #[trigger] bits[i] & 0x7f80_0000u32 != 0x7f80_0000u32
        },
        float32_search_outcome(bits) is Ok ==> float32_search_outcome(bits) == Ok::<
            VectorSearchView,
            &'static str,
        >(
            VectorSearchView {
                query_vector: AttributeValueView::B(
                    float32_vector_bytes(bits),
                ),
                return_scores: None,
            },
        ),
{
    if bits.len() > 0 && !(exists|i: int|
        0 <= i < bits.len() && !float32_bits_finite(#[trigger] bits[i])) {
        assert forall|i: int| 0 <= i < bits.len() implies #[trigger] bits[i] & 0x7f80_0000u32
            != 0x7f80_0000u32 by {
            assert(float32_bits_finite(bits[i]));
        }
    }
    if bits.len() > 0 && (forall|i: int|
        0 <= i < bits.len() ==> #[trigger] bits[i] & 0x7f80_0000u32 != 0x7f80_0000u32) {
        assert forall|i: int| 0 <= i < bits.len() implies float32_bits_finite(
            #[trigger] bits[i],
        ) by {
            assert(bits[i] & 0x7f80_0000u32 != 0x7f80_0000u32);
        }
    }
}

/// The compact bytes of a vector: component `i` is bytes `4i` to `4i + 3`,
/// least significant byte first.
pub proof fn lemma_float32_vector_bytes_little_endian(bits: Seq<u32>)
    ensures
        float32_vector_bytes(bits).len() == 4 * bits.len(),
        forall|i: int|
            0 <= i < bits.len() ==> {
                let w = #[trigger] bits[i];
                let b = float32_vector_bytes(bits);
                &&& b[4 * i] == (w & 0xffu32) as u8
                &&& b[4 * i + 1] == ((w >> 8u32) & 0xffu32) as u8
                &&& b[4 * i + 2] == ((w >> 16u32) & 0xffu32) as u8
                &&& b[4 * i + 3] == ((w >> 24u32) & 0xffu32) as u8
            },
    decreases bits.len(),
{
    if bits.len() > 0 {
        let front = bits.drop_last();
        lemma_float32_vector_bytes_little_endian(front);
        let b = float32_vector_bytes(bits);
        let bf = float32_vector_bytes(front);
        assert(b == bf + u32_le_bytes(bits.last()));
        assert forall|i: int| 0 <= i < bits.len() implies {
            let w = #[trigger] bits[i];
            &&& b[4 * i] == (w & 0xffu32) as u8
            &&& b[4 * i + 1] == ((w >> 8u32) & 0xffu32) as u8
            &&& b[4 * i + 2] == ((w >> 16u32) & 0xffu32) as u8
            &&& b[4 * i + 3] == ((w >> 24u32) & 0xffu32) as u8
        } by {
            if i < front.len() {
                assert(bits[i] == front[i]);
            }
        }
    }
}

/// The list constructor accepts exactly the non-empty lists of numeric (`N`)
/// values, and then holds that list, with no score reporting.
pub proof fn lemma_list_search_accepts_exactly_numbers(
    values: Seq<AttributeValueView>,
)
    ensures
        list_search_outcome(values) is Ok <==> {
            &&& values.len() > 0
            &&& forall|i: int| 0 <= i < values.len() ==> #[trigger] values[i] is N
        },
        list_search_outcome(values) is Ok ==> list_search_outcome(values) == Ok::<
            VectorSearchView,
            &'static str,
        >(
            VectorSearchView {
                query_vector: AttributeValueView::L(values),
                return_scores: None,
            },
        ),
{
    if values.len() > 0 && (forall|i: int| 0 <= i < values.len() ==> #[trigger] values[i] is N) {
        assert forall|i: int| 0 <= i < values.len() implies is_number_value(
            #[trigger] values[i],
        ) by {
            assert(values[i] is N);
        }
    }
}

// ---------------------------------------------------------------------
// Wire names
// ---------------------------------------------------------------------

/// The wire name of a similarity function as the service documents it.
pub open spec fn similarity_wire_name(f: SimilarityFunction) -> Seq<char> {
    match f {
        SimilarityFunction::Cosine => "COSINE"@,
        SimilarityFunction::Euclidean => "EUCLIDEAN"@,
        SimilarityFunction::DotProduct => "DOT_PRODUCT"@,
    }
}

/// The wire name of an index status as the service documents it.
pub open spec fn status_wire_name(s: IndexStatus) -> Seq<char> {
    match s {
        IndexStatus::Creating => "CREATING"@,
        IndexStatus::Updating => "UPDATING"@,
        IndexStatus::Deleting => "DELETING"@,
        IndexStatus::Active => "ACTIVE"@,
    }
}

/// The wire name of a projection type as the service documents it.
pub open spec fn projection_type_wire_name(p: ProjectionView) -> Seq<char> {
    match p {
        ProjectionView::All => "ALL"@,
        ProjectionView::KeysOnly => "KEYS_ONLY"@,
        ProjectionView::Include(_) => "INCLUDE"@,
    }
}

proof fn lemma_reveal_wire_names()
    ensures
        "COSINE"@ =~= seq!['C', 'O', 'S', 'I', 'N', 'E'],
        "EUCLIDEAN"@ =~= seq!['E', 'U', 'C', 'L', 'I', 'D', 'E', 'A', 'N'],
        "DOT_PRODUCT"@ =~= seq!['D', 'O', 'T', '_', 'P', 'R', 'O', 'D', 'U', 'C', 'T'],
        "CREATING"@ =~= seq!['C', 'R', 'E', 'A', 'T', 'I', 'N', 'G'],
        "UPDATING"@ =~= seq!['U', 'P', 'D', 'A', 'T', 'I', 'N', 'G'],
        "DELETING"@ =~= seq!['D', 'E', 'L', 'E', 'T', 'I', 'N', 'G'],
        "ACTIVE"@ =~= seq!['A', 'C', 'T', 'I', 'V', 'E'],
{
    reveal_strlit("COSINE");
    reveal_strlit("EUCLIDEAN");
    reveal_strlit("DOT_PRODUCT");
    reveal_strlit("CREATING");
    reveal_strlit("UPDATING");
    reveal_strlit("DELETING");
    reveal_strlit("ACTIVE");
}

/// A similarity function is read from a response exactly when its name is
/// the function's documented wire name.
pub proof fn lemma_similarity_read_by_wire_name(name: Seq<char>, f: SimilarityFunction)
    ensures
        similarity_from_name(name) == Some(f) <==> name == similarity_wire_name(f),
{
    lemma_reveal_wire_names();
    assert("COSINE"@[0] != "EUCLIDEAN"@[0]);
    assert("COSINE"@[0] != "DOT_PRODUCT"@[0]);
    assert("EUCLIDEAN"@[0] != "DOT_PRODUCT"@[0]);
}

/// An index status is read from a response exactly when its name is the
/// status's documented wire name; in particular each status is read back
/// from its own name.
pub proof fn lemma_index_status_read_by_wire_name(name: Seq<char>, s: IndexStatus)
    ensures
        index_status_from_name(name) == Some(s) <==> name == status_wire_name(s),
{
    lemma_reveal_wire_names();
    assert("CREATING"@[0] != "UPDATING"@[0]);
    assert("CREATING"@[0] != "DELETING"@[0]);
    assert("UPDATING"@[0] != "DELETING"@[0]);
    assert("ACTIVE"@.len() != "CREATING"@.len());
    assert("ACTIVE"@.len() != "UPDATING"@.len());
    assert("ACTIVE"@.len() != "DELETING"@.len());
}

/// The request form of a vector index carries the documented wire name of
/// its similarity function, and nothing under that key when there is none.
pub proof fn lemma_index_json_similarity_wire_name(idx: VectorIndexView)
    ensures
        json::json_get(index_json_value(index_json_of(idx)), "SimilarityFunction"@) == match idx.similarity_function {
            Some(f) => Some(JsonView::String(similarity_wire_name(f))),
            None => None,
        },
{
    crate::vector::lemma_index_json_value_lookups(index_json_of(idx));
}

/// The request form of an index creation in an update carries, under
/// `Create`, the request form of the index, so the similarity function's
/// documented wire name as well.
pub proof fn lemma_update_create_similarity_wire_name(idx: VectorIndexView)
    ensures
        ({
            let v = update_json_value(update_json_of(VectorIndexUpdateView::Create(idx)));
            &&& json::json_get(v, "Create"@) == Some(index_json_value(index_json_of(idx)))
            &&& json::json_get(v, "Delete"@) is None
            &&& json::json_get(json::json_get(v, "Create"@)->0, "SimilarityFunction"@)
                == match idx.similarity_function {
                Some(f) => Some(JsonView::String(similarity_wire_name(f))),
                None => None,
            }
        }),
{
    reveal_strlit("Create");
    reveal_strlit("Delete");
    assert("Create"@[0] != "Delete"@[0]);
    crate::vector::lemma_update_json_single_member(VectorIndexUpdateView::Create(idx));
    let m = seq![("Create"@, index_json_value(index_json_of(idx)))];
    json::lemma_lookup_found(m, "Create"@, 0);
    json::lemma_lookup_absent(m, "Delete"@, 0);
    lemma_index_json_similarity_wire_name(idx);
}

// ---------------------------------------------------------------------
// Response entries
// ---------------------------------------------------------------------

/// A vector index as a `CreateTable` or `DescribeTable` response describes
/// it: the members of its request form, then `IndexStatus` with the
/// status's documented wire name and `Backfilling`, each only when present.
pub open spec fn index_response_json(idx: VectorIndexView) -> JsonView {
    let j = index_json_of(idx);
    JsonView::Object(
        seq![
            ("IndexName"@, JsonView::String(j.index_name)),
            ("VectorAttribute"@, attribute_json_value(j.vector_attribute)),
        ] + optional_member(
            "Projection"@,
            match j.projection {
                Some(p) => Some(projection_json_value(p)),
                None => None,
            },
        ) + optional_member(
            "SimilarityFunction"@,
            match j.similarity_function {
                Some(s) => Some(JsonView::String(s)),
                None => None,
            },
        ) + optional_member(
            "IndexStatus"@,
            match idx.index_status {
                Some(s) => Some(JsonView::String(status_wire_name(s))),
                None => None,
            },
        ) + optional_member(
            "Backfilling"@,
            match idx.backfilling {
                Some(b) => Some(JsonView::Bool(b)),
                None => None,
            },
        ),
    )
}

/// Every vector index, its response-only status and backfilling included,
/// is read back from the response entry that describes it.
pub proof fn lemma_index_response_roundtrip(idx: VectorIndexView)
    ensures
        index_from_json(index_response_json(idx)) == Some(idx),
{
    reveal_strlit("IndexName");
    reveal_strlit("VectorAttribute");
    reveal_strlit("Projection");
    reveal_strlit("SimilarityFunction");
    reveal_strlit("IndexStatus");
    reveal_strlit("Backfilling");
    reveal_strlit("AttributeName");
    reveal_strlit("Dimensions");
    assert("IndexName"@.len() == 9);
    assert("VectorAttribute"@.len() == 15);
    assert("Projection"@.len() == 10);
    assert("SimilarityFunction"@.len() == 18);
    assert("IndexStatus"@.len() == 11);
    assert("Backfilling"@.len() == 11);
    assert("IndexStatus"@[0] != "Backfilling"@[0]);
    assert("AttributeName"@.len() == 13);
    assert("Dimensions"@.len() == 10);
    let j = index_json_of(idx);
    let pm = optional_member(
        "Projection"@,
        match j.projection {
            Some(p) => Some(projection_json_value(p)),
            None => None,
        },
    );
    let sm = optional_member(
        "SimilarityFunction"@,
        match j.similarity_function {
            Some(s) => Some(JsonView::String(s)),
            None => None,
        },
    );
    let tm = optional_member(
        "IndexStatus"@,
        match idx.index_status {
            Some(s) => Some(JsonView::String(status_wire_name(s))),
            None => None,
        },
    );
    let bm = optional_member(
        "Backfilling"@,
        match idx.backfilling {
            Some(b) => Some(JsonView::Bool(b)),
            None => None,
        },
    );
    let m = seq![
        ("IndexName"@, JsonView::String(j.index_name)),
        ("VectorAttribute"@, attribute_json_value(j.vector_attribute)),
    ] + pm + sm + tm + bm;
    assert(index_response_json(idx) == JsonView::Object(m));
    let np = pm.len() as int;
    let ns = sm.len() as int;
    let nt = tm.len() as int;
    assert(m.len() == 2 + np + ns + nt + bm.len());
    assert(m[0].0 == "IndexName"@);
    assert(m[1].0 == "VectorAttribute"@);
    assert(forall|k: int| 2 <= k < 2 + np ==> (#[trigger] m[k]).0 == "Projection"@);
    assert(forall|k: int| 2 + np <= k < 2 + np + ns ==> (#[trigger] m[k]).0 == "SimilarityFunction"@);
    assert(forall|k: int| 2 + np + ns <= k < 2 + np + ns + nt ==> (#[trigger] m[k]).0 == "IndexStatus"@);
    assert(forall|k: int| 2 + np + ns + nt <= k < m.len() ==> (#[trigger] m[k]).0 == "Backfilling"@);
    json::lemma_lookup_found(m, "IndexName"@, 0);
    json::lemma_lookup_found(m, "VectorAttribute"@, 1);
    if let Some(p) = idx.projection {
        json::lemma_lookup_found(m, "Projection"@, 2);
        crate::vector::lemma_projection_json_roundtrip(p);
    } else {
        json::lemma_lookup_absent(m, "Projection"@, 0);
    }
    if let Some(f) = idx.similarity_function {
        json::lemma_lookup_found(m, "SimilarityFunction"@, 2 + np);
        crate::vector::lemma_similarity_name_roundtrip(f);
    } else {
        json::lemma_lookup_absent(m, "SimilarityFunction"@, 0);
    }
    if let Some(st) = idx.index_status {
        json::lemma_lookup_found(m, "IndexStatus"@, 2 + np + ns);
        lemma_index_status_read_by_wire_name(status_wire_name(st), st);
    } else {
        json::lemma_lookup_absent(m, "IndexStatus"@, 0);
    }
    if idx.backfilling is Some {
        json::lemma_lookup_found(m, "Backfilling"@, 2 + np + ns + nt);
    } else {
        json::lemma_lookup_absent(m, "Backfilling"@, 0);
    }
    json::lemma_decimal_u64_roundtrip(idx.vector_attribute.dimensions as u64);
    let va = attribute_json_value(j.vector_attribute);
    if let JsonView::Object(vm) = va {
        json::lemma_lookup_found(vm, "AttributeName"@, 0);
        json::lemma_lookup_found(vm, "Dimensions"@, 1);
    }
}

/// The request form of a projection carries the documented wire name of its
/// type, and `NonKeyAttributes` exactly for `INCLUDE`, with the attributes.
pub proof fn lemma_projection_json_wire_name(p: ProjectionView)
    ensures
        ({
            let v = projection_json_value(projection_json_of(p));
            &&& json::json_get(v, "ProjectionType"@) == Some(
                JsonView::String(projection_type_wire_name(p)),
            )
            &&& json::json_get(v, "NonKeyAttributes"@) == match p {
                ProjectionView::Include(attrs) => Some(json::string_array(attrs)),
                _ => None,
            }
        }),
{
    reveal_strlit("ProjectionType");
    reveal_strlit("NonKeyAttributes");
    assert("ProjectionType"@.len() == 14);
    assert("NonKeyAttributes"@.len() == 16);
    let j = projection_json_of(p);
    let m = seq![("ProjectionType"@, JsonView::String(j.projection_type))] + optional_member(
        "NonKeyAttributes"@,
        match j.non_key_attributes {
            Some(a) => Some(json::string_array(a)),
            None => None,
        },
    );
    assert(projection_json_value(j) == JsonView::Object(m));
    assert(forall|k: int| 1 <= k < m.len() ==> (#[trigger] m[k]).0 == "NonKeyAttributes"@);
    json::lemma_lookup_found(m, "ProjectionType"@, 0);
    if let ProjectionView::Include(_) = p {
        json::lemma_lookup_found(m, "NonKeyAttributes"@, 1);
    } else {
        json::lemma_lookup_absent(m, "NonKeyAttributes"@, 0);
    }
}

/// The request form of a vector search carries `ReturnScores` as the
/// documented `SIMILARITY` exactly when scores are requested.
pub proof fn lemma_search_json_return_scores(s: VectorSearchView)
    ensures
        json::json_get(search_json_value(search_json_of(s)), "ReturnScores"@) == match s.return_scores {
            Some(ReturnScores::Similarity) => Some(JsonView::String("SIMILARITY"@)),
            None => None,
        },
{
    reveal_strlit("QueryVector");
    reveal_strlit("ReturnScores");
    assert("QueryVector"@.len() == 11);
    assert("ReturnScores"@.len() == 12);
    let j = search_json_of(s);
    let m = seq![("QueryVector"@, j.query_vector)] + optional_member(
        "ReturnScores"@,
        match j.return_scores {
            Some(r) => Some(JsonView::String(r)),
            None => None,
        },
    );
    assert(search_json_value(j) == JsonView::Object(m));
    if s.return_scores is Some {
        json::lemma_lookup_found(m, "ReturnScores"@, 1);
    } else {
        json::lemma_lookup_absent(m, "ReturnScores"@, 0);
    }
}

/// Which error the index-name rule reports for an ASCII name: an empty
/// name, then a length outside 3 to 192, then a character outside
/// `[a-zA-Z0-9._-]`.
pub proof fn lemma_index_name_errors(name: Seq<char>)
    requires
        vstd::utf8::is_ascii_chars(name),
    ensures
        name.len() == 0 ==> index_name_check(name) == Err::<(), &'static str>(
            "index_name must not be empty",
        ),
        (name.len() > 0 && !(3 <= name.len() <= 192)) ==> index_name_check(name) == Err::<
            (),
            &'static str,
        >("index_name must be between 3 and 192 characters"),
        (3 <= name.len() <= 192 && exists|i: int|
            0 <= i < name.len() && !index_name_char(#[trigger] name[i])) ==> index_name_check(
            name,
        ) == Err::<(), &'static str>("index_name must match [a-zA-Z0-9._-]+"),
{
    lemma_ascii_bytes(name);
    lemma_index_name_rule(name);
}

/// The index builder accepts exactly the states with a name that follows
/// the documented rule and a vector attribute with at least one dimension,
/// and then builds the index from them, with no response-only status or
/// backfilling.
pub proof fn lemma_index_build_accepts_exactly_valid(b: VectorIndexBuilderView)
    ensures
        index_build_outcome(b) is Ok <==> {
            &&& b.index_name is Some
            &&& documented_index_name(b.index_name->0)
            &&& b.vector_attribute is Some
            &&& b.vector_attribute->0.dimensions >= 1
        },
        index_build_outcome(b) is Ok ==> index_build_outcome(b) == Ok::<
            VectorIndexView,
            &'static str,
        >(
            VectorIndexView {
                index_name: b.index_name->0,
                vector_attribute: b.vector_attribute->0,
                projection: b.projection,
                similarity_function: b.similarity_function,
                index_status: None,
                backfilling: None,
            },
        ),
{
    if let Some(n) = b.index_name {
        lemma_index_name_rule(n);
    }
}

/// Which error the vector-search constructors report: an empty vector first,
/// then a non-finite component (compact form) or a non-numeric value (list
/// form).
pub proof fn lemma_search_errors(bits: Seq<u32>, values: Seq<AttributeValueView>)
    ensures
        bits.len() == 0 ==> float32_search_outcome(bits) == Err::<VectorSearchView, &'static str>(
            "query vector must not be empty",
        ),
        (bits.len() > 0 && exists|i: int|
            0 <= i < bits.len() && #[trigger] bits[i] & 0x7f80_0000u32 == 0x7f80_0000u32)
            ==> float32_search_outcome(bits) == Err::<VectorSearchView, &'static str>(
            "query vector must contain only finite values",
        ),
        values.len() == 0 ==> list_search_outcome(values) == Err::<VectorSearchView, &'static str>(
            "query vector must not be empty",
        ),
        (values.len() > 0 && exists|i: int| 0 <= i < values.len() && !(#[trigger] values[i] is N))
            ==> list_search_outcome(values) == Err::<VectorSearchView, &'static str>(
            "query vector list must contain only numeric (N) values",
        ),
{
    if bits.len() > 0 && exists|i: int|
        0 <= i < bits.len() && #[trigger] bits[i] & 0x7f80_0000u32 == 0x7f80_0000u32 {
        let i = choose|i: int|
            0 <= i < bits.len() && #[trigger] bits[i] & 0x7f80_0000u32 == 0x7f80_0000u32;
        assert(!float32_bits_finite(bits[i]));
    }
    if values.len() > 0 && exists|i: int| 0 <= i < values.len() && !(#[trigger] values[i] is N) {
        let i = choose|i: int| 0 <= i < values.len() && !(#[trigger] values[i] is N);
        assert(!is_number_value(values[i]));
    }
}

// ---------------------------------------------------------------------
// DynamoDB JSON of attribute values
// ---------------------------------------------------------------------

/// The DynamoDB type descriptor of an attribute value, as the service
/// documents it; `None` for a value of unknown type.
pub open spec fn dynamodb_type_descriptor(v: AttributeValueView) -> Option<Seq<char>> {
    match v {
        AttributeValueView::B(_) => Some("B"@),
        AttributeValueView::Bool(_) => Some("BOOL"@),
        AttributeValueView::Bs(_) => Some("BS"@),
        AttributeValueView::L(_) => Some("L"@),
        AttributeValueView::M(_) => Some("M"@),
        AttributeValueView::N(_) => Some("N"@),
        AttributeValueView::Ns(_) => Some("NS"@),
        AttributeValueView::Null(_) => Some("NULL"@),
        AttributeValueView::S(_) => Some("S"@),
        AttributeValueView::Ss(_) => Some("SS"@),
        AttributeValueView::Unknown => None,
    }
}

/// The DynamoDB JSON of an attribute value is a one-member object keyed by
/// its documented type descriptor (`null` for an unknown type); a number,
/// string or boolean is carried as it is, and binary data as base64 text.
pub proof fn lemma_attribute_json_descriptor(v: AttributeValueView)
    ensures
        match dynamodb_type_descriptor(v) {
            Some(t) => crate::attribute_value::attribute_json(v) matches JsonView::Object(m) && m.len()
                == 1 && m[0].0 == t,
            None => crate::attribute_value::attribute_json(v) == JsonView::Null,
        },
        v matches AttributeValueView::N(n) ==> crate::attribute_value::attribute_json(v)
            == JsonView::Object(seq![("N"@, JsonView::String(n))]),
        v matches AttributeValueView::S(t) ==> crate::attribute_value::attribute_json(v)
            == JsonView::Object(seq![("S"@, JsonView::String(t))]),
        v matches AttributeValueView::Bool(b) ==> crate::attribute_value::attribute_json(v)
            == JsonView::Object(seq![("BOOL"@, JsonView::Bool(b))]),
        v matches AttributeValueView::B(b) ==> crate::attribute_value::attribute_json(v)
            == JsonView::Object(
            seq![("B"@, JsonView::String(crate::attribute_value::base64_encoded(b)))],
        ),
{
}

/// The request form of a vector index carries its vector attribute under
/// `VectorAttribute` as `AttributeName` (the name) and `Dimensions` (a
/// number that reads as the dimensions).
pub proof fn lemma_index_json_vector_attribute(idx: VectorIndexView)
    ensures
        ({
            let va = json::json_get(index_json_value(index_json_of(idx)), "VectorAttribute"@);
            &&& va is Some
            &&& json::json_get(va->0, "AttributeName"@) == Some(
                JsonView::String(idx.vector_attribute.attribute_name),
            )
            &&& json::json_get(va->0, "Dimensions"@) matches Some(d) && json::json_as_u64(d)
                == Some(idx.vector_attribute.dimensions as u64)
        }),
{
    reveal_strlit("AttributeName");
    reveal_strlit("Dimensions");
    assert("AttributeName"@.len() == 13);
    assert("Dimensions"@.len() == 10);
    let j = index_json_of(idx);
    crate::vector::lemma_index_json_value_lookups(j);
    json::lemma_decimal_u64_roundtrip(idx.vector_attribute.dimensions as u64);
    if let JsonView::Object(vm) = attribute_json_value(j.vector_attribute) {
        json::lemma_lookup_found(vm, "AttributeName"@, 0);
        json::lemma_lookup_found(vm, "Dimensions"@, 1);
    }
}

} // verus!
