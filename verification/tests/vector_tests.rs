use alternator_driver::{
    validate_index_name, vector_index_from_json, AttributeValue, IndexStatus, JsonValue,
    Projection, ReturnScores, SimilarityFunction, VectorAttribute, VectorIndex,
    VectorIndexJson, VectorIndexUpdate, VectorIndexUpdateJson, VectorSearch, VectorSearchJson,
};

fn obj(members: Vec<(&str, JsonValue)>) -> JsonValue {
    JsonValue::Object(
        members
            .into_iter()
            .map(|(k, v)| (k.to_string(), v))
            .collect(),
    )
}

fn s(text: &str) -> JsonValue {
    JsonValue::String(text.to_string())
}

fn uint(n: u64) -> JsonValue {
    JsonValue::Number(n.to_string())
}

fn member<'a>(v: &'a JsonValue, key: &str) -> Option<&'a JsonValue> {
    v.get(key)
}

fn str_member<'a>(v: &'a JsonValue, key: &str) -> Option<&'a str> {
    v.get(key).and_then(|x| x.as_str())
}

fn attr(name: &str, dims: u32) -> VectorAttribute {
    VectorAttribute::builder()
        .attribute_name(name)
        .dimensions(dims)
        .build()
        .unwrap()
}

#[test]
fn test_similarity_function_as_str() {
    assert_eq!(SimilarityFunction::Cosine.as_str(), "COSINE");
    assert_eq!(SimilarityFunction::Euclidean.as_str(), "EUCLIDEAN");
    assert_eq!(SimilarityFunction::DotProduct.as_str(), "DOT_PRODUCT");
}

#[test]
fn test_vector_attribute_builder() {
    let attr = VectorAttribute::builder()
        .attribute_name("embedding")
        .dimensions(128)
        .build()
        .unwrap();
    assert_eq!(attr.attribute_name, "embedding");
    assert_eq!(attr.dimensions, 128);
}

#[test]
fn test_vector_index_builder() {
    let va = VectorAttribute::builder()
        .attribute_name("v")
        .dimensions(64)
        .build()
        .unwrap();
    let idx = VectorIndex::builder()
        .index_name("my_vec_idx")
        .vector_attribute(va)
        .similarity_function(SimilarityFunction::Cosine)
        .build()
        .unwrap();
    assert_eq!(idx.index_name, "my_vec_idx");
    assert_eq!(idx.vector_attribute.dimensions, 64);
    assert_eq!(idx.similarity_function, Some(SimilarityFunction::Cosine));
}

#[test]
fn test_vector_index_json_default_projection() {
    let va = VectorAttribute::builder()
        .attribute_name("embedding")
        .dimensions(128)
        .build()
        .unwrap();
    let idx = VectorIndex::builder()
        .index_name("vec_idx")
        .vector_attribute(va)
        .build()
        .unwrap();
    let json: VectorIndexJson = (&idx).into();
    let serialized = json.to_json();

    assert_eq!(str_member(&serialized, "IndexName"), Some("vec_idx"));
    let va_json = member(&serialized, "VectorAttribute").unwrap();
    assert_eq!(str_member(va_json, "AttributeName"), Some("embedding"));
    assert_eq!(member(va_json, "Dimensions").and_then(|d| d.as_u64()), Some(128));
    // No projection was configured, so the field is omitted entirely
    // and the server applies its own default.
    assert!(member(&serialized, "Projection").is_none());
    // No similarity function should be absent
    assert!(member(&serialized, "SimilarityFunction").is_none());
}

#[test]
fn test_vector_index_json_with_explicit_keys_only_projection() {
    let va = VectorAttribute::builder()
        .attribute_name("v")
        .dimensions(64)
        .build()
        .unwrap();
    let idx = VectorIndex::builder()
        .index_name("vec_idx")
        .vector_attribute(va)
        .projection(Projection::keys_only())
        .build()
        .unwrap();
    let json: VectorIndexJson = (&idx).into();
    let serialized = json.to_json();

    // Explicitly requested KEYS_ONLY is sent on the wire, unlike omission.
    let projection = member(&serialized, "Projection").unwrap();
    assert_eq!(str_member(projection, "ProjectionType"), Some("KEYS_ONLY"));
}

#[test]
fn test_vector_index_json_with_cosine_similarity() {
    let va = VectorAttribute::builder()
        .attribute_name("v")
        .dimensions(64)
        .build()
        .unwrap();
    let idx = VectorIndex::builder()
        .index_name("vec_idx")
        .vector_attribute(va)
        .similarity_function(SimilarityFunction::Cosine)
        .build()
        .unwrap();
    let json: VectorIndexJson = (&idx).into();
    let serialized = json.to_json();

    assert_eq!(str_member(&serialized, "SimilarityFunction"), Some("COSINE"));
}

#[test]
fn test_vector_index_json_with_all_projection() {
    let va = VectorAttribute::builder()
        .attribute_name("v")
        .dimensions(64)
        .build()
        .unwrap();
    let idx = VectorIndex::builder()
        .index_name("vec_idx")
        .vector_attribute(va)
        .projection(Projection::all())
        .build()
        .unwrap();
    let json: VectorIndexJson = (&idx).into();
    let serialized = json.to_json();

    let projection = member(&serialized, "Projection").unwrap();
    assert_eq!(str_member(projection, "ProjectionType"), Some("ALL"));
}

#[test]
fn test_index_name_validation() {
    assert!(validate_index_name("abc").is_ok());
    assert!(validate_index_name("ab").is_err(), "too short");
    assert!(validate_index_name(&"a".repeat(193)).is_err(), "too long");
    assert!(validate_index_name("valid-name.1_2").is_ok());
    assert!(
        validate_index_name("invalid name").is_err(),
        "space not allowed"
    );
    assert!(validate_index_name("invalid$name").is_err());
}

#[test]
fn test_vector_attribute_builder_rejects_empty_name_and_zero_dimensions() {
    assert!(VectorAttribute::builder()
        .attribute_name("")
        .dimensions(1)
        .build()
        .is_err());
    assert!(VectorAttribute::builder()
        .attribute_name("v")
        .dimensions(0)
        .build()
        .is_err());
}

#[test]
fn test_vector_attribute_builder_rejects_dimensions_over_16000() {
    assert!(
        VectorAttribute::builder()
            .attribute_name("embedding")
            .dimensions(16001)
            .build()
            .is_err(),
        "dimensions above 16000 should be rejected"
    );
    assert!(
        VectorAttribute::builder()
            .attribute_name("embedding")
            .dimensions(16000)
            .build()
            .is_ok(),
        "dimensions == 16000 should still be accepted"
    );
}

#[test]
fn test_vector_index_update_create_json() {
    let va = VectorAttribute::builder()
        .attribute_name("v")
        .dimensions(64)
        .build()
        .unwrap();
    let idx = VectorIndex::builder()
        .index_name("vec_idx")
        .vector_attribute(va)
        .build()
        .unwrap();
    let update = VectorIndexUpdate::Create(idx);
    let json: VectorIndexUpdateJson = (&update).into();
    let serialized = json.to_json();
    let create = member(&serialized, "Create").unwrap();
    assert_eq!(str_member(create, "IndexName"), Some("vec_idx"));
    assert!(member(&serialized, "Delete").is_none());
}

#[test]
fn test_vector_index_update_delete_json() {
    let update = VectorIndexUpdate::Delete {
        index_name: "vec_idx".to_string(),
    };
    let json: VectorIndexUpdateJson = (&update).into();
    let serialized = json.to_json();
    let delete = member(&serialized, "Delete").unwrap();
    assert_eq!(str_member(delete, "IndexName"), Some("vec_idx"));
    assert!(member(&serialized, "Create").is_none());
}

fn float32_bits(values: &[f32]) -> Vec<u32> {
    values.iter().map(|v| v.to_bits()).collect()
}

#[test]
fn test_vector_search_json_without_scores() {
    let search = VectorSearch::from_float32_bits(float32_bits(&[1.0, 2.0, 3.0])).unwrap();
    let json: VectorSearchJson = (&search).into();
    let serialized = json.to_json();
    // The compact form is sent as a binary attribute value.
    let query_vector = member(&serialized, "QueryVector").unwrap();
    assert!(member(query_vector, "B").is_some());
    assert!(member(&serialized, "ReturnScores").is_none());
}

#[test]
fn test_vector_search_json_with_scores() {
    let search = VectorSearch::from_float32_bits(float32_bits(&[1.0]))
        .unwrap()
        .with_return_scores(ReturnScores::Similarity);
    let json: VectorSearchJson = (&search).into();
    let serialized = json.to_json();
    assert_eq!(str_member(&serialized, "ReturnScores"), Some("SIMILARITY"));
}

#[test]
fn test_vector_search_rejects_empty_vector() {
    assert!(VectorSearch::from_float32_bits(float32_bits(&[])).is_err());
}

#[test]
fn test_vector_search_rejects_non_finite_values() {
    assert!(VectorSearch::from_float32_bits(float32_bits(&[1.0, f32::NAN])).is_err());
    assert!(VectorSearch::from_float32_bits(float32_bits(&[f32::INFINITY])).is_err());
}

#[test]
fn test_vector_search_from_query_vector_json_uses_standard_list() {
    let search = VectorSearch::from_query_vector(vec![
        AttributeValue::N("1".to_string()),
        AttributeValue::N("2".to_string()),
        AttributeValue::N("3".to_string()),
    ])
    .unwrap();
    let json: VectorSearchJson = (&search).into();
    let serialized = json.to_json();
    let query_vector = member(&serialized, "QueryVector").unwrap();
    assert_eq!(
        member(query_vector, "L"),
        Some(&JsonValue::Array(vec![
            obj(vec![("N", s("1"))]),
            obj(vec![("N", s("2"))]),
            obj(vec![("N", s("3"))]),
        ]))
    );
}

#[test]
fn test_vector_search_from_query_vector_rejects_empty_and_non_numeric() {
    assert!(VectorSearch::from_query_vector(Vec::<AttributeValue>::new()).is_err());
    assert!(VectorSearch::from_query_vector(vec![AttributeValue::S("x".to_string())]).is_err());
}

#[test]
fn test_vector_index_from_json_rejects_dimensions_over_u32_max() {
    // Dimensions > u32::MAX must be rejected rather than truncated.
    let value = obj(vec![
        ("IndexName", s("vec_idx")),
        (
            "VectorAttribute",
            obj(vec![
                ("AttributeName", s("embedding")),
                ("Dimensions", uint((u32::MAX as u64) + 1)),
            ]),
        ),
    ]);
    assert!(
        vector_index_from_json(&value).is_none(),
        "Dimensions overflowing u32 must be rejected, not truncated"
    );
}

#[test]
fn test_vector_index_from_json_parses_status_and_backfilling() {
    let value = obj(vec![
        ("IndexName", s("vec_idx")),
        (
            "VectorAttribute",
            obj(vec![("AttributeName", s("embedding")), ("Dimensions", uint(128))]),
        ),
        ("Projection", obj(vec![("ProjectionType", s("KEYS_ONLY"))])),
        ("SimilarityFunction", s("COSINE")),
        ("IndexStatus", s("ACTIVE")),
        ("Backfilling", JsonValue::Bool(false)),
    ]);
    let idx = vector_index_from_json(&value).unwrap();
    assert_eq!(idx.index_name, "vec_idx");
    assert_eq!(idx.vector_attribute.dimensions, 128);
    assert_eq!(idx.similarity_function, Some(SimilarityFunction::Cosine));
    assert_eq!(idx.index_status, Some(IndexStatus::Active));
    assert_eq!(idx.backfilling, Some(false));
}

#[test]
fn test_vector_index_json_structure() {
    let va = VectorAttribute::builder()
        .attribute_name("embedding")
        .dimensions(128)
        .build()
        .unwrap();

    let idx = VectorIndex::builder()
        .index_name("vec_idx")
        .vector_attribute(va)
        .build()
        .unwrap();

    let json_idx: VectorIndexJson = (&idx).into();
    let value = json_idx.to_json();

    assert_eq!(str_member(&value, "IndexName"), Some("vec_idx"));
    // No KeySchema — automatically inherits from base table
    assert!(member(&value, "KeySchema").is_none());
    // No projection configured, so the field is omitted entirely.
    assert!(member(&value, "Projection").is_none());
    let va_json = member(&value, "VectorAttribute").unwrap();
    assert_eq!(str_member(va_json, "AttributeName"), Some("embedding"));
    assert_eq!(member(va_json, "Dimensions").and_then(|d| d.as_u64()), Some(128));
}

// ---------------------------------------------------------------------
// Further cases
// ---------------------------------------------------------------------

#[test]
fn attribute_builder_reports_each_error() {
    assert_eq!(
        VectorAttribute::builder().dimensions(3).build().unwrap_err(),
        "attribute_name is required"
    );
    assert_eq!(
        VectorAttribute::builder()
            .attribute_name("")
            .dimensions(3)
            .build()
            .unwrap_err(),
        "attribute_name must not be empty"
    );
    assert_eq!(
        VectorAttribute::builder()
            .attribute_name("v")
            .build()
            .unwrap_err(),
        "dimensions is required"
    );
    assert_eq!(
        VectorAttribute::builder()
            .attribute_name("v")
            .dimensions(0)
            .build()
            .unwrap_err(),
        "dimensions must be positive"
    );
    assert_eq!(
        VectorAttribute::builder()
            .attribute_name("v")
            .dimensions(16001)
            .build()
            .unwrap_err(),
        "dimensions must not exceed 16000"
    );
}

#[test]
fn index_builder_reports_each_error() {
    assert_eq!(
        VectorIndex::builder()
            .vector_attribute(attr("v", 4))
            .build()
            .unwrap_err(),
        "index_name is required"
    );
    assert_eq!(
        VectorIndex::builder()
            .index_name("ab")
            .vector_attribute(attr("v", 4))
            .build()
            .unwrap_err(),
        "index_name must be between 3 and 192 characters"
    );
    assert_eq!(
        VectorIndex::builder().index_name("abc").build().unwrap_err(),
        "vector_attribute is required"
    );
    let zero = VectorAttribute {
        attribute_name: "v".to_string(),
        dimensions: 0,
    };
    assert_eq!(
        VectorIndex::builder()
            .index_name("abc")
            .vector_attribute(zero)
            .build()
            .unwrap_err(),
        "dimensions must be positive"
    );
}

#[test]
fn index_name_rules_in_order() {
    assert_eq!(validate_index_name(""), Err("index_name must not be empty"));
    assert_eq!(
        validate_index_name(&"a".repeat(192)),
        Ok(())
    );
    // Two characters of two bytes each pass the length rule and fail the
    // character rule.
    assert_eq!(
        validate_index_name("éé"),
        Err("index_name must match [a-zA-Z0-9._-]+")
    );
    assert_eq!(
        validate_index_name("é"),
        Err("index_name must be between 3 and 192 characters")
    );
}

#[test]
fn return_scores_name() {
    assert_eq!(ReturnScores::Similarity.as_str(), "SIMILARITY");
}

#[test]
fn index_json_roundtrip_with_every_field() {
    let idx = VectorIndex::builder()
        .index_name("rt_idx")
        .vector_attribute(attr("emb", 16000))
        .projection(Projection::include_attributes(vec![
            "a".to_string(),
            "b".to_string(),
        ]))
        .similarity_function(SimilarityFunction::DotProduct)
        .build()
        .unwrap();
    let value = VectorIndexJson::from(&idx).to_json();
    let back = vector_index_from_json(&value).unwrap();
    assert_eq!(back.index_name, idx.index_name);
    assert_eq!(back.vector_attribute, idx.vector_attribute);
    assert_eq!(back.projection, idx.projection);
    assert_eq!(back.similarity_function, idx.similarity_function);
    assert_eq!(back.index_status, None);
    assert_eq!(back.backfilling, None);
}

#[test]
fn index_json_shape_with_include_projection() {
    let idx = VectorIndex::builder()
        .index_name("vec_idx")
        .vector_attribute(attr("v", 8))
        .projection(Projection::include_attributes(vec!["x".to_string()]))
        .similarity_function(SimilarityFunction::Euclidean)
        .build()
        .unwrap();
    let value = VectorIndexJson::from(&idx).to_json();
    let expected = obj(vec![
        ("IndexName", s("vec_idx")),
        (
            "VectorAttribute",
            obj(vec![("AttributeName", s("v")), ("Dimensions", uint(8))]),
        ),
        (
            "Projection",
            obj(vec![
                ("ProjectionType", s("INCLUDE")),
                ("NonKeyAttributes", JsonValue::Array(vec![s("x")])),
            ]),
        ),
        ("SimilarityFunction", s("EUCLIDEAN")),
    ]);
    assert_eq!(value, expected);
}

#[test]
fn from_json_reads_optional_fields_leniently() {
    let value = obj(vec![
        ("IndexName", s("idx")),
        (
            "VectorAttribute",
            obj(vec![("AttributeName", s("e")), ("Dimensions", uint(3))]),
        ),
        (
            "Projection",
            obj(vec![
                ("ProjectionType", s("INCLUDE")),
                (
                    "NonKeyAttributes",
                    JsonValue::Array(vec![s("a"), uint(7), s("b")]),
                ),
            ]),
        ),
        ("SimilarityFunction", s("MANHATTAN")),
        ("IndexStatus", s("CREATING")),
        ("Backfilling", s("yes")),
    ]);
    let idx = vector_index_from_json(&value).unwrap();
    assert_eq!(
        idx.projection,
        Some(Projection::include_attributes(vec![
            "a".to_string(),
            "b".to_string()
        ]))
    );
    assert_eq!(idx.similarity_function, None);
    assert_eq!(idx.index_status, Some(IndexStatus::Creating));
    assert_eq!(idx.backfilling, None);

    let unknown_projection = obj(vec![
        ("IndexName", s("idx")),
        (
            "VectorAttribute",
            obj(vec![("AttributeName", s("e")), ("Dimensions", uint(3))]),
        ),
        ("Projection", obj(vec![("ProjectionType", s("SOME"))])),
    ]);
    assert_eq!(
        vector_index_from_json(&unknown_projection).unwrap().projection,
        None
    );
}

#[test]
fn from_json_requires_name_and_attribute() {
    let no_name = obj(vec![(
        "VectorAttribute",
        obj(vec![("AttributeName", s("e")), ("Dimensions", uint(3))]),
    )]);
    assert!(vector_index_from_json(&no_name).is_none());
    let negative = obj(vec![
        ("IndexName", s("idx")),
        (
            "VectorAttribute",
            obj(vec![
                ("AttributeName", s("e")),
                ("Dimensions", JsonValue::Number("-3".to_string())),
            ]),
        ),
    ]);
    assert!(vector_index_from_json(&negative).is_none());
    assert!(vector_index_from_json(&JsonValue::Null).is_none());
}

#[test]
fn compact_vector_is_little_endian_bits() {
    let search = VectorSearch::from_float32_bits(vec![1.0f32.to_bits(), (-2.5f32).to_bits()])
        .unwrap();
    let json = VectorSearchJson::from(&search).to_json();
    let query_vector = member(&json, "QueryVector").unwrap();
    // 1.0 = 0x3f800000, -2.5 = 0xc0200000, little-endian, then base64.
    let bytes: Vec<u8> = vec![0x00, 0x00, 0x80, 0x3f, 0x00, 0x00, 0x20, 0xc0];
    assert_eq!(bytes, [1.0f32.to_le_bytes(), (-2.5f32).to_le_bytes()].concat());
    assert_eq!(str_member(query_vector, "B"), Some("AACAPwAAIMA="));
}

#[test]
fn non_finite_error_message() {
    assert_eq!(
        VectorSearch::from_float32_bits(vec![f32::NEG_INFINITY.to_bits()]).unwrap_err(),
        "query vector must contain only finite values"
    );
    assert_eq!(
        VectorSearch::from_float32_bits(vec![]).unwrap_err(),
        "query vector must not be empty"
    );
    assert_eq!(
        VectorSearch::from_query_vector(vec![
            AttributeValue::N("1".to_string()),
            AttributeValue::Bool(true)
        ])
        .unwrap_err(),
        "query vector list must contain only numeric (N) values"
    );
}

#[test]
fn attribute_value_json_forms() {
    let value = AttributeValue::M(vec![
        ("s".to_string(), AttributeValue::S("x".to_string())),
        ("b".to_string(), AttributeValue::B(b"hi".to_vec())),
        (
            "l".to_string(),
            AttributeValue::L(vec![AttributeValue::Null(true), AttributeValue::Bool(false)]),
        ),
        (
            "ss".to_string(),
            AttributeValue::Ss(vec!["p".to_string(), "q".to_string()]),
        ),
    ]);
    let json = alternator_driver::attribute_value_to_json(&value);
    let expected = obj(vec![(
        "M",
        obj(vec![
            ("s", obj(vec![("S", s("x"))])),
            ("b", obj(vec![("B", s("aGk="))])),
            (
                "l",
                obj(vec![(
                    "L",
                    JsonValue::Array(vec![
                        obj(vec![("NULL", JsonValue::Bool(true))]),
                        obj(vec![("BOOL", JsonValue::Bool(false))]),
                    ]),
                )]),
            ),
            ("ss", obj(vec![("SS", JsonValue::Array(vec![s("p"), s("q")]))])),
        ]),
    )]);
    assert_eq!(json, expected);
    assert_eq!(value.clone(), value);
}

#[test]
fn delete_update_json_shape() {
    let update = VectorIndexUpdate::Delete {
        index_name: "gone".to_string(),
    };
    let value = VectorIndexUpdateJson::from(&update).to_json();
    assert_eq!(
        value,
        obj(vec![("Delete", obj(vec![("IndexName", s("gone"))]))])
    );
}

