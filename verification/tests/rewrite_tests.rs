use alternator_driver::{
    CreateTableWithVectorIndexes, DescribeTableWithVectorIndexes, JsonValue,
    VectorAttribute, VectorIndex, VectorIndexUpdate, VectorIndexesInterceptor,
    VectorRequestStoreInterceptor, VectorSearch,
};
use aws_sdk_dynamodb::config::Region;
use aws_sdk_dynamodb::operation::create_table::CreateTableOutput;
use aws_sdk_dynamodb::operation::describe_table::DescribeTableOutput;
use aws_sdk_dynamodb::Config;

fn obj(members: Vec<(&str, JsonValue)>) -> JsonValue {
    JsonValue::Object(
        members
            .into_iter()
            .map(|(k, v)| (k.to_string(), v))
            .collect(),
    )
}

fn s(text: &str) -> JsonValue {
    JsonValue::String(text.to_string())
}

fn names(items: &[&str]) -> Vec<String> {
    items.iter().map(|x| x.to_string()).collect()
}

fn interceptor(items: &[&str]) -> VectorIndexesInterceptor {
    VectorIndexesInterceptor {
        vector_indexes: names(items),
    }
}

#[test]
fn rewrite_adds_vector_indexes_member() {
    let body = obj(vec![
        ("TableName", s("T")),
        ("BillingMode", s("PAY_PER_REQUEST")),
    ]);
    let out = interceptor(&["idx1", "idx2"]).rewrite_body(body);
    assert_eq!(
        out,
        obj(vec![
            ("TableName", s("T")),
            ("BillingMode", s("PAY_PER_REQUEST")),
            ("VectorIndexes", JsonValue::Array(vec![s("idx1"), s("idx2")])),
        ])
    );
}

#[test]
fn rewrite_replaces_existing_member_in_place() {
    let body = obj(vec![
        ("VectorIndexes", JsonValue::Number("1".to_string())),
        ("TableName", s("T")),
    ]);
    let out = interceptor(&["a"]).rewrite_body(body);
    assert_eq!(
        out,
        obj(vec![
            ("VectorIndexes", JsonValue::Array(vec![s("a")])),
            ("TableName", s("T")),
        ])
    );
}

#[test]
fn rewrite_is_idempotent() {
    let body = obj(vec![("TableName", s("T"))]);
    let i = interceptor(&["x"]);
    let once = i.rewrite_body(body);
    let twice = i.rewrite_body(interceptor(&["x"]).rewrite_body(obj(vec![("TableName", s("T"))])));
    assert_eq!(once, twice);
}

#[test]
fn rewrite_leaves_non_objects() {
    let out = interceptor(&["x"]).rewrite_body(JsonValue::Array(vec![s("a")]));
    assert_eq!(out, JsonValue::Array(vec![s("a")]));
    assert_eq!(interceptor(&[]).rewrite_body(JsonValue::Null), JsonValue::Null);
}

#[test]
fn rewrite_with_no_names_sends_empty_list() {
    let out = interceptor(&[]).rewrite_body(obj(vec![]));
    assert_eq!(out, obj(vec![("VectorIndexes", JsonValue::Array(vec![]))]));
}

fn index(name: &str) -> VectorIndex {
    VectorIndex::builder()
        .index_name(name)
        .vector_attribute(
            VectorAttribute::builder()
                .attribute_name("v")
                .dimensions(4)
                .build()
                .unwrap(),
        )
        .build()
        .unwrap()
}

#[test]
fn request_store_carries_one_kind_of_extra() {
    let i = VectorRequestStoreInterceptor::for_vector_indexes(vec![index("one")]);
    let store = i.store();
    assert_eq!(store.vector_indexes.as_ref().map(|v| v.len()), Some(1));
    assert!(store.vector_index_updates.is_none());
    assert!(store.vector_search.is_none());

    let u = VectorRequestStoreInterceptor::for_vector_index_updates(vec![
        VectorIndexUpdate::Delete {
            index_name: "gone".to_string(),
        },
    ]);
    assert!(u.store().vector_indexes.is_none());
    assert_eq!(u.store().vector_index_updates.as_ref().map(|v| v.len()), Some(1));
    assert!(u.store().vector_search.is_none());

    let search = VectorSearch::from_float32_bits(vec![0.5f32.to_bits()]).unwrap();
    let q = VectorRequestStoreInterceptor::for_vector_search(search.clone());
    assert!(q.store().vector_indexes.is_none());
    assert!(q.store().vector_index_updates.is_none());
    assert_eq!(q.store().vector_search, Some(search));
    let copy = q.clone();
    assert_eq!(copy.store().vector_search, q.store().vector_search);
}

#[test]
fn outputs_hand_back_the_sdk_output() {
    let output = DescribeTableOutput::builder().build();
    let wrapped = DescribeTableWithVectorIndexes::new(output.clone(), vec![index("abc")]);
    assert_eq!(wrapped.vector_indexes.len(), 1);
    assert_eq!(wrapped.as_inner(), &output);
    let back: DescribeTableOutput = wrapped.clone().into();
    assert_eq!(back, output);
    assert_eq!(wrapped.into_inner(), output);

    let created = CreateTableOutput::builder().build();
    let wrapped = CreateTableWithVectorIndexes::new(created.clone(), vec![]);
    assert!(wrapped.vector_indexes.is_empty());
    assert_eq!(wrapped.as_inner(), &created);
    let back: CreateTableOutput = wrapped.into();
    assert_eq!(back, created);
}

#[test]
fn example_unit_test() {
    let lhs = Config::builder().region(Region::new("us-west-2")).build();
    let rhs = Config::builder().region(Region::new("us-west-2")).build();

    assert_eq!(lhs.region(), rhs.region());
}
