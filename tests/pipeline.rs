use semantic_cache_rag::pipeline::{Action, Event, Request, Stage};
use semantic_cache_rag::policy::instruction;
use semantic_cache_rag::{NewPoint, Payload, PipelineError};

/// A vector store held in memory: collections of (vector, payload), searched
/// by Euclidean distance, best first.
struct FakeStore {
    knowledge: Vec<(Vec<f32>, Payload)>,
    cache: Vec<(Vec<f32>, Payload)>,
    cache_search_fails: bool,
}

fn distance(a: &[f32], b: &[f32]) -> f32 {
    a.iter().zip(b).map(|(x, y)| (x - y) * (x - y)).sum::<f32>().sqrt()
}

fn nearest(points: &[(Vec<f32>, Payload)], q: &[f32]) -> Vec<Payload> {
    let mut best: Option<(f32, &Payload)> = None;
    for (v, p) in points {
        let d = distance(v, q);
        if best.map_or(true, |(bd, _)| d < bd) {
            best = Some((d, p));
        }
    }
    best.into_iter().map(|(_, p)| p.clone()).collect()
}

/// A toy embedding: letter counts, so that paraphrases land close together.
fn embed(text: &str) -> Vec<f32> {
    let mut v = vec![0.0f32; 26];
    for c in text.to_lowercase().chars() {
        if c.is_ascii_lowercase() {
            v[(c as u8 - b'a') as usize] += 1.0;
        }
    }
    v
}

#[derive(Default)]
struct Calls {
    embeds: usize,
    cache_searches: usize,
    knowledge_searches: usize,
    generations: usize,
    cache_writes: usize,
    instructions: Vec<String>,
}

/// Runs one request against the fake store and a generator that always
/// answers `answer` (or has no choices when `answer` is `None`).
fn drive(
    prompt: &str,
    store: &mut FakeStore,
    answer: Option<&str>,
    vectors: usize,
    calls: &mut Calls,
) -> Result<String, PipelineError> {
    let (mut req, mut action) = Request::start(prompt.to_string());
    let mut embedding: Vec<f32> = Vec::new();
    loop {
        let event = match action {
            Action::Embed(text) => {
                calls.embeds += 1;
                embedding = embed(&text);
                Event::Embedded(vectors)
            }
            Action::SearchCache => {
                calls.cache_searches += 1;
                if store.cache_search_fails {
                    Event::CacheSearchFailed
                } else {
                    Event::CacheSearched(nearest(&store.cache, &embedding))
                }
            }
            Action::SearchKnowledge => {
                calls.knowledge_searches += 1;
                Event::KnowledgeSearched(nearest(&store.knowledge, &embedding))
            }
            Action::Generate { instruction, .. } => {
                calls.generations += 1;
                calls.instructions.push(instruction);
                Event::Generated(answer.map(|a| vec![Some(a.to_string())]).unwrap_or_default())
            }
            Action::StoreCache(point) => {
                calls.cache_writes += 1;
                store.cache.push((embedding.clone(), point.payload));
                Event::CacheStored
            }
            Action::Respond(r) => {
                assert!(req.is_finished());
                return r;
            }
        };
        action = req.step(event).expect("the event belongs to the stage");
    }
}

fn france_store() -> FakeStore {
    FakeStore {
        knowledge: vec![(
            embed("Paris is the capital of France."),
            Payload::document("Paris is the capital of France.".to_string()),
        )],
        cache: Vec::new(),
        cache_search_fails: false,
    }
}

#[test]
fn end_to_end_miss_populates_cache() {
    let mut store = france_store();
    let mut calls = Calls::default();
    let r = drive("What is the capital of France?", &mut store, Some("Paris."), 1, &mut calls);
    assert_eq!(r, Ok("Paris.".to_string()));
    assert_eq!(store.cache.len(), 1);
    assert_eq!(store.cache[0].1, Payload::answer("Paris.".to_string()));
    assert_eq!(store.cache[0].1.field("answer"), Some("Paris.".to_string()));
    assert_eq!(calls.knowledge_searches, 1);
    assert_eq!(calls.generations, 1);
    assert_eq!(
        calls.instructions,
        vec![
            "What is the capital of France?Provided context:Paris is the capital of France.\n            "
                .to_string()
        ]
    );
}

#[test]
fn end_to_end_second_request_short_circuits() {
    let mut store = france_store();
    let mut first = Calls::default();
    drive("What is the capital of France?", &mut store, Some("Paris."), 1, &mut first).unwrap();
    let mut calls = Calls::default();
    let r = drive("What is the capital of France?", &mut store, Some("Lyon."), 1, &mut calls);
    assert_eq!(r, Ok("Paris.".to_string()));
    assert_eq!(calls.cache_searches, 1);
    assert_eq!(calls.knowledge_searches, 0);
    assert_eq!(calls.generations, 0);
    assert_eq!(calls.cache_writes, 0);
    assert_eq!(store.cache.len(), 1);
}

#[test]
fn near_duplicate_prompt_gets_cached_answer() {
    let mut store = france_store();
    let mut first = Calls::default();
    drive("What is the capital of France?", &mut store, Some("Paris."), 1, &mut first).unwrap();
    let mut calls = Calls::default();
    let r = drive("what's the capital of France", &mut store, Some("Other."), 1, &mut calls);
    assert_eq!(r, Ok("Paris.".to_string()));
    assert_eq!(calls.generations, 0);
}

#[test]
fn empty_embedding_yields_embedding_error_without_writes() {
    let mut store = france_store();
    let mut calls = Calls::default();
    let r = drive("What is the capital of France?", &mut store, Some("Paris."), 0, &mut calls);
    assert_eq!(r, Err(PipelineError::EmbeddingError));
    assert_eq!(calls.cache_searches, 0);
    assert_eq!(calls.cache_writes, 0);
    assert!(store.cache.is_empty());
}

#[test]
fn embed_failure_yields_embedding_error() {
    let (mut req, _) = Request::start("q".to_string());
    let a = req.step(Event::EmbedFailed);
    assert_eq!(a, Some(Action::Respond(Err(PipelineError::EmbeddingError))));
    assert!(req.is_finished());
}

#[test]
fn empty_knowledge_yields_no_match_and_no_generation() {
    let mut store = france_store();
    store.knowledge.clear();
    let mut calls = Calls::default();
    let r = drive("What is the capital of France?", &mut store, Some("Paris."), 1, &mut calls);
    assert_eq!(r, Err(PipelineError::NoMatchError));
    assert_eq!(calls.knowledge_searches, 1);
    assert_eq!(calls.generations, 0);
    assert!(store.cache.is_empty());
}

#[test]
fn cache_search_failure_falls_through_to_retrieval() {
    let mut store = france_store();
    store.cache_search_fails = true;
    let mut calls = Calls::default();
    let r = drive("What is the capital of France?", &mut store, Some("Paris."), 1, &mut calls);
    assert_eq!(r, Ok("Paris.".to_string()));
    assert_eq!(calls.knowledge_searches, 1);
    assert_eq!(store.cache.len(), 1);
}

#[test]
fn no_completion_yields_generation_error() {
    let mut store = france_store();
    let mut calls = Calls::default();
    let r = drive("What is the capital of France?", &mut store, None, 1, &mut calls);
    assert_eq!(r, Err(PipelineError::GenerationError));
    assert!(store.cache.is_empty());
}

fn at_generation() -> Request {
    let (mut req, _) = Request::start("q".to_string());
    req.step(Event::Embedded(1)).unwrap();
    req.step(Event::CacheSearched(Vec::new())).unwrap();
    let a = req.step(Event::KnowledgeSearched(vec![Payload::document("d".to_string())]));
    assert!(matches!(a, Some(Action::Generate { .. })));
    req
}

#[test]
fn empty_choice_content_yields_generation_error() {
    let mut req = at_generation();
    let a = req.step(Event::Generated(vec![None, Some("late".to_string())]));
    assert_eq!(a, Some(Action::Respond(Err(PipelineError::GenerationError))));
}

#[test]
fn generation_failure_yields_generation_error() {
    let mut req = at_generation();
    let a = req.step(Event::GenerationFailed);
    assert_eq!(a, Some(Action::Respond(Err(PipelineError::GenerationError))));
}

#[test]
fn knowledge_search_failure_yields_store_search_error() {
    let (mut req, _) = Request::start("q".to_string());
    req.step(Event::Embedded(1)).unwrap();
    req.step(Event::CacheSearchFailed).unwrap();
    let a = req.step(Event::KnowledgeSearchFailed);
    assert_eq!(a, Some(Action::Respond(Err(PipelineError::StoreSearchError))));
}

#[test]
fn cache_write_failure_fails_request() {
    let mut req = at_generation();
    let a = req.step(Event::Generated(vec![Some("ans".to_string())])).unwrap();
    match a {
        Action::StoreCache(NewPoint { id, payload }) => {
            assert_eq!(id.len(), 36);
            assert_eq!(payload, Payload::answer("ans".to_string()));
        }
        other => panic!("unexpected {:?}", other),
    }
    assert_eq!(req.stage(), Stage::CacheStoring);
    let a = req.step(Event::CacheStoreFailed);
    assert_eq!(a, Some(Action::Respond(Err(PipelineError::StoreWriteError))));
}

#[test]
fn event_of_another_stage_is_ignored() {
    let (mut req, first) = Request::start("q".to_string());
    assert_eq!(first, Action::Embed("q".to_string()));
    assert!(!req.accepts(&Event::CacheStored));
    assert_eq!(req.step(Event::CacheStored), None);
    assert_eq!(req.stage(), Stage::Embedding);
    assert!(req.accepts(&Event::Embedded(1)));
}

#[test]
fn finished_request_takes_no_event() {
    let (mut req, _) = Request::start("q".to_string());
    req.step(Event::EmbedFailed).unwrap();
    assert_eq!(req.step(Event::Embedded(1)), None);
    assert_eq!(req.step(Event::CacheStored), None);
    assert!(req.is_finished());
}

#[test]
fn cache_hit_without_threshold_answers_with_any_nearest_point() {
    let (mut req, _) = Request::start("unrelated question".to_string());
    req.step(Event::Embedded(1)).unwrap();
    let a = req.step(Event::CacheSearched(vec![
        Payload::answer("stale".to_string()),
        Payload::answer("other".to_string()),
    ]));
    assert_eq!(a, Some(Action::Respond(Ok("stale".to_string()))));
}

#[test]
fn instruction_joins_prompt_and_context() {
    assert_eq!(instruction("Q?", "C."), "Q?Provided context:C.\n            ");
}
