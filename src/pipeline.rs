use vstd::prelude::*;
use crate::error::PipelineError;
use crate::payload::{Payload, PayloadView, answer_key, single_field, opt_view};
use crate::policy::{
    cache_answer, knowledge_context, first_completion, preamble, instruction, hits_view,
    choices_view, cache_answer_spec, context_spec, completion_spec, system_preamble,
    instruction_text,
};
use crate::store::NewPoint;

verus! {

/// Where a request stands: the outcome of which call it waits for.
#[derive(Clone, Copy, Debug, PartialEq, Eq, Structural)]
pub enum Stage {
    Embedding,
    CacheLookup,
    Retrieving,
    Generating,
    CacheStoring,
    Finished,
}

/// One request going through the pipeline.
pub struct Request {
    prompt: String,
    stage: Stage,
    answer: String,
}

pub struct RequestView {
    pub prompt: Seq<char>,
    pub stage: Stage,
    pub answer: Seq<char>,
}

impl View for Request {
    type V = RequestView;

    closed spec fn view(&self) -> RequestView {
        RequestView { prompt: self.prompt@, stage: self.stage, answer: self.answer@ }
    }
}

/// A call the caller is to make next, or the end of the request.
#[derive(Debug, PartialEq, Eq)]
pub enum Action {
    /// Embed this text.
    Embed(String),
    /// Search the cache collection, top-1, with the prompt's embedding.
    SearchCache,
    /// Search the knowledge collection, top-1, with the prompt's embedding.
    SearchKnowledge,
    /// Ask the generation service, with a system message and an instruction.
    Generate { system: String, instruction: String },
    /// Write this point, with the prompt's embedding, to the cache collection.
    StoreCache(NewPoint),
    /// Answer the caller; the request is over.
    Respond(Result<String, PipelineError>),
}

pub enum ActionView {
    Embed(Seq<char>),
    SearchCache,
    SearchKnowledge,
    Generate(Seq<char>, Seq<char>),
    StoreCache(PayloadView),
    Respond(Result<Seq<char>, PipelineError>),
}

/// The outcome of the last call, handed back by the caller.
#[derive(Debug, PartialEq, Eq)]
pub enum Event {
    /// The embedding service answered with this many vectors.
    Embedded(usize),
    EmbedFailed,
    /// The cache search answered with these payloads, best match first.
    CacheSearched(Vec<Payload>),
    CacheSearchFailed,
    /// The knowledge search answered with these payloads, best match first.
    KnowledgeSearched(Vec<Payload>),
    KnowledgeSearchFailed,
    /// The generation service answered with these choices' contents.
    Generated(Vec<Option<String>>),
    GenerationFailed,
    CacheStored,
    CacheStoreFailed,
}

pub enum EventView {
    Embedded(nat),
    EmbedFailed,
    CacheSearched(Seq<PayloadView>),
    CacheSearchFailed,
    KnowledgeSearched(Seq<PayloadView>),
    KnowledgeSearchFailed,
    Generated(Seq<Option<Seq<char>>>),
    GenerationFailed,
    CacheStored,
    CacheStoreFailed,
}

impl View for Event {
    type V = EventView;

    open spec fn view(&self) -> EventView {
        match self {
            Event::Embedded(n) => EventView::Embedded(*n as nat),
            Event::EmbedFailed => EventView::EmbedFailed,
            Event::CacheSearched(h) => EventView::CacheSearched(hits_view(h@)),
            Event::CacheSearchFailed => EventView::CacheSearchFailed,
            Event::KnowledgeSearched(h) => EventView::KnowledgeSearched(hits_view(h@)),
            Event::KnowledgeSearchFailed => EventView::KnowledgeSearchFailed,
            Event::Generated(c) => EventView::Generated(choices_view(c@)),
            Event::GenerationFailed => EventView::GenerationFailed,
            Event::CacheStored => EventView::CacheStored,
            Event::CacheStoreFailed => EventView::CacheStoreFailed,
        }
    }
}

pub open spec fn response_view(r: Result<String, PipelineError>) -> Result<Seq<char>, PipelineError> {
    match r {
        Ok(s) => Ok(s@),
        Err(e) => Err(e),
    }
}

impl View for Action {
    type V = ActionView;

    open spec fn view(&self) -> ActionView {
        match self {
            Action::Embed(t) => ActionView::Embed(t@),
            Action::SearchCache => ActionView::SearchCache,
            Action::SearchKnowledge => ActionView::SearchKnowledge,
            Action::Generate { system, instruction } => ActionView::Generate(
                system@,
                instruction@,
            ),
            Action::StoreCache(p) => ActionView::StoreCache(p.payload@),
            Action::Respond(r) => ActionView::Respond(response_view(*r)),
        }
    }
}

pub open spec fn opt_action_view(a: Option<Action>) -> Option<ActionView> {
    match a {
        Some(x) => Some(x@),
        None => None,
    }
}

/// Whether a request at this stage takes this event.
pub open spec fn accepts_spec(stage: Stage, e: EventView) -> bool {
    match e {
        EventView::Embedded(_) | EventView::EmbedFailed => stage == Stage::Embedding,
        EventView::CacheSearched(_) | EventView::CacheSearchFailed => stage == Stage::CacheLookup,
        EventView::KnowledgeSearched(_) | EventView::KnowledgeSearchFailed => stage
            == Stage::Retrieving,
        EventView::Generated(_) | EventView::GenerationFailed => stage == Stage::Generating,
        EventView::CacheStored | EventView::CacheStoreFailed => stage == Stage::CacheStoring,
    }
}

pub open spec fn initial(prompt: Seq<char>) -> RequestView {
    RequestView { prompt, stage: Stage::Embedding, answer: Seq::empty() }
}

pub open spec fn at(s: RequestView, stage: Stage) -> RequestView {
    RequestView { stage, ..s }
}

pub open spec fn finish(s: RequestView, r: Result<Seq<char>, PipelineError>) -> (
    RequestView,
    Option<ActionView>,
) {
    (at(s, Stage::Finished), Some(ActionView::Respond(r)))
}

/// One transition of the request: its next state and the call to make, or
/// nothing when the event does not belong to the current stage.
///
/// A failed embedding ends the request; a cache hit answers at once; a failed
/// cache search counts as a miss; a failed knowledge search, an empty
/// knowledge search and a failed generation end the request; a generated
/// answer is written to the cache before it is returned, and a failed cache
/// write ends the request in error.
pub open spec fn next(s: RequestView, e: EventView) -> (RequestView, Option<ActionView>) {
    if !accepts_spec(s.stage, e) {
        (s, None)
    } else {
        match e {
            EventView::Embedded(n) => if n == 0 {
                finish(s, Err(PipelineError::EmbeddingError))
            } else {
                (at(s, Stage::CacheLookup), Some(ActionView::SearchCache))
            },
            EventView::EmbedFailed => finish(s, Err(PipelineError::EmbeddingError)),
            EventView::CacheSearched(hits) => match cache_answer_spec(hits) {
                Some(a) => finish(s, Ok(a)),
                None => (at(s, Stage::Retrieving), Some(ActionView::SearchKnowledge)),
            },
            EventView::CacheSearchFailed => (
                at(s, Stage::Retrieving),
                Some(ActionView::SearchKnowledge),
            ),
            EventView::KnowledgeSearched(hits) => match context_spec(hits) {
                Ok(c) => (
                    at(s, Stage::Generating),
                    Some(ActionView::Generate(system_preamble(), instruction_text(s.prompt, c))),
                ),
                Err(x) => finish(s, Err(x)),
            },
            EventView::KnowledgeSearchFailed => finish(s, Err(PipelineError::StoreSearchError)),
            EventView::Generated(choices) => match completion_spec(choices) {
                Ok(a) => (
                    RequestView { stage: Stage::CacheStoring, answer: a, ..s },
                    Some(ActionView::StoreCache(single_field(answer_key(), a))),
                ),
                Err(x) => finish(s, Err(x)),
            },
            EventView::GenerationFailed => finish(s, Err(PipelineError::GenerationError)),
            EventView::CacheStored => finish(s, Ok(s.answer)),
            EventView::CacheStoreFailed => finish(s, Err(PipelineError::StoreWriteError)),
        }
    }
}

/// The state after a sequence of events, and the calls made on the way.
pub open spec fn run(s: RequestView, es: Seq<EventView>) -> (RequestView, Seq<ActionView>)
    decreases es.len(),
{
    if es.len() == 0 {
        (s, Seq::empty())
    } else {
        let (s1, a) = next(s, es[0]);
        let (s2, rest) = run(s1, es.drop_first());
        match a {
            Some(x) => (s2, seq![x] + rest),
            None => (s2, rest),
        }
    }
}

/// Every call a request for `prompt` makes when its calls come back as `es`.
pub open spec fn request_actions(prompt: Seq<char>, es: Seq<EventView>) -> Seq<ActionView> {
    seq![ActionView::Embed(prompt)] + run(initial(prompt), es).1
}

impl Request {
    /// A new request; its first call embeds the prompt.
    pub fn start(prompt: String) -> (r: (Request, Action))
        ensures
            r.0@ == initial(prompt@),
            r.1@ == ActionView::Embed(prompt@),
    {
        let text = prompt.clone();
        (Request { prompt, stage: Stage::Embedding, answer: String::new() }, Action::Embed(text))
    }

    pub fn stage(&self) -> (r: Stage)
        ensures
            r == self@.stage,
    {
        self.stage
    }

    pub fn is_finished(&self) -> (r: bool)
        ensures
            r == (self@.stage == Stage::Finished),
    {
        self.stage == Stage::Finished
    }

    /// Whether the request takes `e` at its current stage.
    pub fn accepts(&self, e: &Event) -> (r: bool)
        ensures
            r == accepts_spec(self@.stage, e@),
    {
        match e {
            Event::Embedded(_) | Event::EmbedFailed => self.stage == Stage::Embedding,
            Event::CacheSearched(_) | Event::CacheSearchFailed => self.stage == Stage::CacheLookup,
            Event::KnowledgeSearched(_) | Event::KnowledgeSearchFailed => self.stage
                == Stage::Retrieving,
            Event::Generated(_) | Event::GenerationFailed => self.stage == Stage::Generating,
            Event::CacheStored | Event::CacheStoreFailed => self.stage == Stage::CacheStoring,
        }
    }

    fn finish(&mut self, r: Result<String, PipelineError>) -> (a: Option<Action>)
        ensures
            (final(self)@, opt_action_view(a)) == finish(old(self)@, response_view(r)),
    {
        self.stage = Stage::Finished;
        Some(Action::Respond(r))
    }

    /// Takes the outcome of the last call and returns the next call, or
    /// `None` when the event does not belong to the current stage, in which
    /// case nothing changes.
    pub fn step(&mut self, e: Event) -> (a: Option<Action>)
        ensures
            (final(self)@, opt_action_view(a)) == next(old(self)@, e@),
            a matches Some(Action::StoreCache(p)) ==> p.id@.len() == 36,
    {
        if !self.accepts(&e) {
            return None;
        }
        match e {
            Event::Embedded(n) => {
                if n == 0 {
                    self.finish(Err(PipelineError::EmbeddingError))
                } else {
                    self.stage = Stage::CacheLookup;
                    Some(Action::SearchCache)
                }
            },
            Event::EmbedFailed => self.finish(Err(PipelineError::EmbeddingError)),
            Event::CacheSearched(hits) => match cache_answer(&hits) {
                Some(a) => self.finish(Ok(a)),
                None => {
                    self.stage = Stage::Retrieving;
                    Some(Action::SearchKnowledge)
                },
            },
            Event::CacheSearchFailed => {
                self.stage = Stage::Retrieving;
                Some(Action::SearchKnowledge)
            },
            Event::KnowledgeSearched(hits) => match knowledge_context(&hits) {
                Ok(c) => {
                    self.stage = Stage::Generating;
                    let text = instruction(self.prompt.as_str(), c.as_str());
                    Some(Action::Generate { system: preamble(), instruction: text })
                },
                Err(x) => self.finish(Err(x)),
            },
            Event::KnowledgeSearchFailed => self.finish(Err(PipelineError::StoreSearchError)),
            Event::Generated(choices) => match first_completion(&choices) {
                Ok(a) => {
                    self.stage = Stage::CacheStoring;
                    self.answer = a.clone();
                    Some(Action::StoreCache(NewPoint::fresh(Payload::answer(a))))
                },
                Err(x) => self.finish(Err(x)),
            },
            Event::GenerationFailed => self.finish(Err(PipelineError::GenerationError)),
            Event::CacheStored => {
                let a = self.answer.clone();
                self.finish(Ok(a))
            },
            Event::CacheStoreFailed => self.finish(Err(PipelineError::StoreWriteError)),
        }
    }
}

} // verus!
