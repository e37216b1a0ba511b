use semantic_cache_rag::ingest::{chunks, ingestion_points};
use semantic_cache_rag::policy::{cache_answer, first_completion, knowledge_context, preamble};
use semantic_cache_rag::store::{
    cache_collection, create_outcome, knowledge_collection, setup_result, EMBEDDING_SIZE,
};
use semantic_cache_rag::{CreateOutcome, Metric, NewPoint, Payload, PipelineError};

#[test]
fn payload_field_lookup_takes_first_match() {
    let p = Payload {
        fields: vec![
            ("a".to_string(), "1".to_string()),
            ("answer".to_string(), "x".to_string()),
            ("answer".to_string(), "y".to_string()),
        ],
    };
    assert_eq!(p.field("answer"), Some("x".to_string()));
    assert_eq!(p.field("document"), None);
    assert_eq!(Payload::document("d".to_string()).field("document"), Some("d".to_string()));
}

#[test]
fn cache_answer_reads_nearest_hit() {
    assert_eq!(cache_answer(&vec![]), None);
    assert_eq!(cache_answer(&vec![Payload::document("d".to_string())]), None);
    assert_eq!(
        cache_answer(&vec![Payload::answer("a".to_string()), Payload::answer("b".to_string())]),
        Some("a".to_string())
    );
}

#[test]
fn knowledge_context_reads_document() {
    assert_eq!(knowledge_context(&vec![]), Err(PipelineError::NoMatchError));
    assert_eq!(
        knowledge_context(&vec![Payload::answer("a".to_string())]),
        Err(PipelineError::NoMatchError)
    );
    assert_eq!(
        knowledge_context(&vec![Payload::document("Paris.".to_string())]),
        Ok("Paris.".to_string())
    );
}

#[test]
fn first_completion_takes_first_choice() {
    assert_eq!(first_completion(&vec![]), Err(PipelineError::GenerationError));
    assert_eq!(first_completion(&vec![None]), Err(PipelineError::GenerationError));
    assert_eq!(
        first_completion(&vec![Some("x".to_string()), Some("y".to_string())]),
        Ok("x".to_string())
    );
    assert!(!preamble().is_empty());
}

#[test]
fn collections_are_declared_as_deployed() {
    let k = knowledge_collection();
    assert_eq!(k.name, "my-collection");
    assert_eq!(k.size, 1536);
    assert_eq!(k.metric, Metric::Cosine);
    let c = cache_collection();
    assert_eq!(c.name, "my-collection_cached");
    assert_eq!(c.size, EMBEDDING_SIZE);
    assert_eq!(c.metric, Metric::Euclid);
}

#[test]
fn creating_a_collection_twice_does_not_fail() {
    assert_eq!(create_outcome(true, true), CreateOutcome::Created);
    assert_eq!(create_outcome(false, true), CreateOutcome::AlreadyExists);
    assert_eq!(setup_result(create_outcome(true, true)), Ok(()));
    assert_eq!(setup_result(create_outcome(false, true)), Ok(()));
}

#[test]
fn failed_creation_is_store_write_error() {
    assert_eq!(create_outcome(false, false), CreateOutcome::Failed);
    assert_eq!(setup_result(CreateOutcome::Failed), Err(PipelineError::StoreWriteError));
}

#[test]
fn chunks_skip_the_header() {
    assert_eq!(chunks("text\nfirst\r\nsecond\n"), vec!["first", "second"]);
    assert_eq!(chunks("text\n\nlast"), vec!["", "last"]);
    assert_eq!(chunks("text"), Vec::<String>::new());
    assert_eq!(chunks(""), Vec::<String>::new());
}

#[test]
fn ingestion_points_carry_documents() {
    let rows = vec!["a".to_string(), "b".to_string()];
    let points = ingestion_points(&rows, 2).unwrap();
    assert_eq!(points.len(), 2);
    assert_eq!(points[0].payload, Payload::document("a".to_string()));
    assert_eq!(points[1].payload, Payload::document("b".to_string()));
    assert_ne!(points[0].id, points[1].id);
    assert_eq!(points[0].id.len(), 36);
}

#[test]
fn ingestion_with_no_or_missing_vectors_fails() {
    let rows = vec!["a".to_string(), "b".to_string()];
    assert_eq!(ingestion_points(&rows, 0), Err(PipelineError::EmbeddingError));
    assert_eq!(ingestion_points(&rows, 1), Err(PipelineError::EmbeddingError));
}

#[test]
fn fresh_points_get_hyphenated_ids() {
    let p = NewPoint::fresh(Payload::answer("x".to_string()));
    assert_eq!(p.id.len(), 36);
    for i in [8, 13, 18, 23] {
        assert_eq!(p.id.chars().nth(i), Some('-'));
    }
    assert_ne!(p.id, NewPoint::fresh(Payload::answer("x".to_string())).id);
}

#[test]
fn error_messages_name_the_stage() {
    assert_eq!(
        PipelineError::EmbeddingError.message(),
        "An error occurred while embedding the prompt"
    );
    assert_eq!(
        PipelineError::NoMatchError.message(),
        "An error occurred while prompting: There's nothing matching."
    );
    assert!(PipelineError::StoreSearchError.message().starts_with("An error occurred while prompting"));
    assert_eq!(PipelineError::GenerationError.message(), "Something went wrong while prompting");
    assert_eq!(
        PipelineError::StoreWriteError.message(),
        "Something went wrong while adding item to the cache"
    );
}
