//! A retrieval-augmented answer pipeline with a semantic read-through cache.
//!
//! The library holds the decisions of the pipeline: which call comes next,
//! how a vector-store search result or a model response is read, what a new
//! point carries, and how a request ends. The calls themselves (embedding,
//! vector search, upsert, generation) are made by the caller, which hands the
//! outcome of each back as an event.

pub mod error;
pub mod ingest;
pub mod laws;
pub mod payload;
pub mod pipeline;
pub mod policy;
pub mod store;

pub use error::PipelineError;
pub use payload::Payload;
pub use pipeline::{Action, Event, Request, Stage};
pub use store::{CollectionConfig, CreateOutcome, Metric, NewPoint};
