//! Per-request state for vector-search extras: what a request asks for
//! beyond the standard operation, carried to the point where the request
//! body is finished.
use vstd::prelude::*;

use crate::vector::{VectorIndex, VectorIndexUpdate, VectorSearch};

verus! {

/// State describing vector-search request extras that are injected into the
/// serialized JSON body of a request. It only carries caller intent and never
/// inspects or changes the body itself, so it is safe to reuse on retries.
#[derive(Debug, Clone)]
pub struct VectorRequestStore {
    pub vector_indexes: Option<Vec<VectorIndex>>,
    pub vector_index_updates: Option<Vec<VectorIndexUpdate>>,
    pub vector_search: Option<VectorSearch>,
}

impl Default for VectorRequestStore {
    fn default() -> (r: Self)
        ensures
            r.vector_indexes is None,
            r.vector_index_updates is None,
            r.vector_search is None,
    {
        VectorRequestStore { vector_indexes: None, vector_index_updates: None, vector_search: None }
    }
}

/// Per-operation interceptor state: the vector-search extras of one request.
#[derive(Debug, Clone)]
pub struct VectorRequestStoreInterceptor {
    store: VectorRequestStore,
}

impl VectorRequestStoreInterceptor {
    /// The request extras this interceptor carries.
    pub closed spec fn stored(&self) -> VectorRequestStore {
        self.store
    }

    /// The extras of a `CreateTable` request: its vector indexes.
    pub fn for_vector_indexes(vector_indexes: Vec<VectorIndex>) -> (r: Self)
        ensures
            r.stored() == (VectorRequestStore {
                vector_indexes: Some(vector_indexes),
                vector_index_updates: None,
                vector_search: None,
            }),
    {
        VectorRequestStoreInterceptor {
            store: VectorRequestStore {
                vector_indexes: Some(vector_indexes),
                vector_index_updates: None,
                vector_search: None,
            },
        }
    }

    /// The extras of an `UpdateTable` request: its vector-index updates.
    pub fn for_vector_index_updates(updates: Vec<VectorIndexUpdate>) -> (r: Self)
        ensures
            r.stored() == (VectorRequestStore {
                vector_indexes: None,
                vector_index_updates: Some(updates),
                vector_search: None,
            }),
    {
        VectorRequestStoreInterceptor {
            store: VectorRequestStore {
                vector_indexes: None,
                vector_index_updates: Some(updates),
                vector_search: None,
            },
        }
    }

    /// The extras of a `Query` request: its vector search.
    pub fn for_vector_search(search: VectorSearch) -> (r: Self)
        ensures
            r.stored() == (VectorRequestStore {
                vector_indexes: None,
                vector_index_updates: None,
                vector_search: Some(search),
            }),
    {
        VectorRequestStoreInterceptor {
            store: VectorRequestStore {
                vector_indexes: None,
                vector_index_updates: None,
                vector_search: Some(search),
            },
        }
    }

    /// The request extras this interceptor carries.
    pub fn store(&self) -> (r: &VectorRequestStore)
        ensures
            *r == self.stored(),
    {
        &self.store
    }
}

} // verus!
