//! Vector-search extensions for a DynamoDB-compatible (Alternator) client:
//! request models for vector indexes, index updates and vector search, the
//! JSON they are sent as, the rewrite of a `CreateTable` body that carries
//! vector-index names, and the parsing of vector-index metadata from
//! responses.

pub mod attribute_value;
pub mod interceptors;
pub mod json;
pub mod outputs;
pub mod vector;
pub mod vector_interceptor;
pub mod vector_laws;

pub use attribute_value::{attribute_value_to_json, AttributeValue};
pub use interceptors::VectorIndexesInterceptor;
pub use json::JsonValue;
pub use outputs::{CreateTableWithVectorIndexes, DescribeTableWithVectorIndexes};
pub use vector::{
    validate_index_name, vector_index_from_json, IndexStatus, Projection, ProjectionJson,
    ProjectionType, ReturnScores, SimilarityFunction, VectorAttribute, VectorAttributeBuilder,
    VectorAttributeJson, VectorIndex, VectorIndexBuilder, VectorIndexDeleteJson, VectorIndexJson,
    VectorIndexUpdate, VectorIndexUpdateJson, VectorSearch, VectorSearchJson,
};
pub use vector_interceptor::{VectorRequestStore, VectorRequestStoreInterceptor};
