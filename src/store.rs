use vstd::prelude::*;
use crate::error::PipelineError;
use crate::payload::Payload;

verus! {

/// The distance metric a collection is declared with.
#[derive(Clone, Copy, Debug, PartialEq, Eq, Structural)]
pub enum Metric {
    Cosine,
    Euclid,
}

/// The dimensionality of every embedding this system stores.
pub const EMBEDDING_SIZE: u64 = 1536;

/// How a collection is declared in the vector store.
#[derive(Clone, Debug, PartialEq, Eq)]
pub struct CollectionConfig {
    pub name: String,
    pub size: u64,
    pub metric: Metric,
}

pub open spec fn knowledge_collection_name() -> Seq<char> {
    "my-collection"@
}

pub open spec fn cache_collection_name() -> Seq<char> {
    "my-collection_cached"@
}

/// The collection of source-document chunks, searched by cosine similarity.
pub fn knowledge_collection() -> (r: CollectionConfig)
    ensures
        r.name@ == knowledge_collection_name(),
        r.size == EMBEDDING_SIZE,
        r.metric == Metric::Cosine,
{
    CollectionConfig {
        name: String::from_str("my-collection"),
        size: EMBEDDING_SIZE,
        metric: Metric::Cosine,
    }
}

/// The collection of cached answers, searched by Euclidean distance.
pub fn cache_collection() -> (r: CollectionConfig)
    ensures
        r.name@ == cache_collection_name(),
        r.size == EMBEDDING_SIZE,
        r.metric == Metric::Euclid,
{
    CollectionConfig {
        name: String::from_str("my-collection_cached"),
        size: EMBEDDING_SIZE,
        metric: Metric::Euclid,
    }
}

/// What a request to create a collection came to.
#[derive(Clone, Copy, Debug, PartialEq, Eq, Structural)]
pub enum CreateOutcome {
    Created,
    AlreadyExists,
    Failed,
}

/// Classifies a create request by whether the store accepted it and whether
/// the collection exists afterwards.
pub open spec fn create_outcome_spec(accepted: bool, exists_after: bool) -> CreateOutcome {
    if accepted {
        CreateOutcome::Created
    } else if exists_after {
        CreateOutcome::AlreadyExists
    } else {
        CreateOutcome::Failed
    }
}

/// Setup fails only when the collection could not be brought into being.
pub open spec fn setup_result_spec(o: CreateOutcome) -> Result<(), PipelineError> {
    match o {
        CreateOutcome::Failed => Err(PipelineError::StoreWriteError),
        _ => Ok(()),
    }
}

pub fn create_outcome(accepted: bool, exists_after: bool) -> (r: CreateOutcome)
    ensures
        r == create_outcome_spec(accepted, exists_after),
{
    if accepted {
        CreateOutcome::Created
    } else if exists_after {
        CreateOutcome::AlreadyExists
    } else {
        CreateOutcome::Failed
    }
}

/// The result of declaring a collection: an "already exists" refusal is no failure.
pub fn setup_result(o: CreateOutcome) -> (r: Result<(), PipelineError>)
    ensures
        r == setup_result_spec(o),
{
    match o {
        CreateOutcome::Failed => Err(PipelineError::StoreWriteError),
        _ => Ok(()),
    }
}

/// Declaring a collection is idempotent: whenever the collection exists after
/// a create request, setup succeeds, whether the store accepted the request
/// or refused it because the name was taken. So a second declaration of an
/// existing collection never fails.
pub proof fn lemma_setup_idempotent(accepted: bool)
    ensures
        setup_result_spec(create_outcome_spec(accepted, true)) is Ok,
{
}

/// A point to be written: a fresh identifier and its payload. The vector is
/// attached by the caller, which holds the embedding.
#[derive(Clone, Debug, PartialEq, Eq)]
pub struct NewPoint {
    pub id: String,
    pub payload: Payload,
}

/// Relies on uuid::Uuid::new_v4 and uuid's Display impl: a random
/// version-4 UUID written in hyphenated form, which is 36 characters long
/// with hyphens at positions 8, 13, 18 and 23.
#[verifier::external_body]
fn fresh_point_id() -> (r: String)
    ensures
        r@.len() == 36,
        r@[8] == '-' && r@[13] == '-' && r@[18] == '-' && r@[23] == '-',
{
    uuid::Uuid::new_v4().to_string()
}

impl NewPoint {
    /// A point with a freshly generated identifier.
    pub fn fresh(payload: Payload) -> (r: NewPoint)
        ensures
            r.payload@ == payload@,
            r.id@.len() == 36,
    {
        NewPoint { id: fresh_point_id(), payload }
    }
}

} // verus!
