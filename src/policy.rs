use vstd::prelude::*;
use crate::error::PipelineError;
use crate::payload::{Payload, PayloadView, answer_key, document_key, field_value, opt_view};

verus! {

/// The abstract hits of a search, best match first.
pub open spec fn hits_view(hits: Seq<Payload>) -> Seq<PayloadView> {
    hits.map_values(|p: Payload| p@)
}

/// A cache lookup: the answer of the single nearest cached point, with no
/// distance threshold. No hit, or a hit without an answer, is a miss.
pub open spec fn cache_answer_spec(hits: Seq<PayloadView>) -> Option<Seq<char>> {
    if hits.len() == 0 {
        None
    } else {
        field_value(hits[0], answer_key())
    }
}

/// A knowledge lookup: the document of the nearest point. No hit, or a hit
/// without a document, is `NoMatchError`.
pub open spec fn context_spec(hits: Seq<PayloadView>) -> Result<Seq<char>, PipelineError> {
    if hits.len() == 0 {
        Err(PipelineError::NoMatchError)
    } else {
        match field_value(hits[0], document_key()) {
            Some(d) => Ok(d),
            None => Err(PipelineError::NoMatchError),
        }
    }
}

/// The first completion choice, if it holds content.
pub open spec fn completion_spec(choices: Seq<Option<Seq<char>>>) -> Result<
    Seq<char>,
    PipelineError,
> {
    if choices.len() == 0 {
        Err(PipelineError::GenerationError)
    } else {
        match choices[0] {
            Some(a) => Ok(a),
            None => Err(PipelineError::GenerationError),
        }
    }
}

/// The fixed system message sent ahead of every instruction.
pub open spec fn system_preamble() -> Seq<char> {
    "You answer the user's question using the provided context."@
}

/// The user instruction: the prompt, then "Provided context:" and the
/// retrieved context, closed by a line break and an indentation of twelve
/// spaces.
pub open spec fn instruction_text(prompt: Seq<char>, context: Seq<char>) -> Seq<char> {
    prompt + "Provided context:"@ + context + "\n            "@
}

pub fn cache_answer(hits: &Vec<Payload>) -> (r: Option<String>)
    ensures
        opt_view(r) == cache_answer_spec(hits_view(hits@)),
{
    if hits.len() == 0 {
        None
    } else {
        hits[0].field("answer")
    }
}

pub fn knowledge_context(hits: &Vec<Payload>) -> (r: Result<String, PipelineError>)
    ensures
        match (r, context_spec(hits_view(hits@))) {
            (Ok(d), Ok(e)) => d@ == e,
            (Err(x), Err(y)) => x == y,
            _ => false,
        },
{
    if hits.len() == 0 {
        Err(PipelineError::NoMatchError)
    } else {
        match hits[0].field("document") {
            Some(d) => Ok(d),
            None => Err(PipelineError::NoMatchError),
        }
    }
}

/// The abstract completion choices.
pub open spec fn choices_view(choices: Seq<Option<String>>) -> Seq<Option<Seq<char>>> {
    choices.map_values(|c: Option<String>| opt_view(c))
}

pub fn first_completion(choices: &Vec<Option<String>>) -> (r: Result<String, PipelineError>)
    ensures
        match (r, completion_spec(choices_view(choices@))) {
            (Ok(a), Ok(b)) => a@ == b,
            (Err(x), Err(y)) => x == y,
            _ => false,
        },
{
    if choices.len() == 0 {
        Err(PipelineError::GenerationError)
    } else {
        match &choices[0] {
            Some(a) => Ok(a.clone()),
            None => Err(PipelineError::GenerationError),
        }
    }
}

pub fn preamble() -> (r: String)
    ensures
        r@ == system_preamble(),
{
    String::from_str("You answer the user's question using the provided context.")
}

pub fn instruction(prompt: &str, context: &str) -> (r: String)
    ensures
        r@ == instruction_text(prompt@, context@),
{
    let mut r = String::from_str(prompt);
    r.append("Provided context:");
    r.append(context);
    r.append("\n            ");
    r
}

} // verus!
