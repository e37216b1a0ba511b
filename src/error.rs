use vstd::prelude::*;

verus! {

/// The ways a request, or the setup of a collection, can fail.
#[derive(Clone, Copy, Debug, PartialEq, Eq, Structural)]
pub enum PipelineError {
    /// The embedding service failed or returned no vector.
    EmbeddingError,
    /// A point or a collection could not be written to the vector store.
    StoreWriteError,
    /// A search of the vector store failed in transport.
    StoreSearchError,
    /// The knowledge collection returned no usable match.
    NoMatchError,
    /// The generation service failed or returned no completion.
    GenerationError,
}

/// The message that describes which stage failed.
pub open spec fn error_message(e: PipelineError) -> Seq<char> {
    match e {
        PipelineError::EmbeddingError => "An error occurred while embedding the prompt"@,
        PipelineError::StoreWriteError => "Something went wrong while adding item to the cache"@,
        PipelineError::StoreSearchError => "An error occurred while prompting"@,
        PipelineError::NoMatchError => "An error occurred while prompting: There's nothing matching."@,
        PipelineError::GenerationError => "Something went wrong while prompting"@,
    }
}

impl PipelineError {
    /// A human-readable description of the failed stage.
    pub fn message(&self) -> (r: String)
        ensures
            r@ == error_message(*self),
    {
        match self {
            PipelineError::EmbeddingError => String::from_str(
                "An error occurred while embedding the prompt",
            ),
            PipelineError::StoreWriteError => String::from_str(
                "Something went wrong while adding item to the cache",
            ),
            PipelineError::StoreSearchError => String::from_str(
                "An error occurred while prompting",
            ),
            PipelineError::NoMatchError => String::from_str(
                "An error occurred while prompting: There's nothing matching.",
            ),
            PipelineError::GenerationError => String::from_str(
                "Something went wrong while prompting",
            ),
        }
    }
}

} // verus!
