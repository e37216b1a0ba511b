//! What holds of every run of a request, whatever the outside calls return.
use vstd::prelude::*;
use crate::error::PipelineError;
use crate::payload::{PayloadView, answer_key, field_value, single_field};
use crate::pipeline::{
    ActionView, EventView, RequestView, Stage, accepts_spec, at, initial, next, request_actions,
    run,
};
use crate::policy::{
    cache_answer_spec, completion_spec, context_spec, instruction_text, system_preamble,
};

verus! {

/// The payloads written to the cache by a sequence of calls, in order.
pub open spec fn stores(acts: Seq<ActionView>) -> Seq<PayloadView>
    decreases acts.len(),
{
    if acts.len() == 0 {
        Seq::empty()
    } else {
        let rest = stores(acts.drop_first());
        match acts[0] {
            ActionView::StoreCache(p) => seq![p] + rest,
            _ => rest,
        }
    }
}

/// An event after which the request goes on to the knowledge collection:
/// a cache search that failed, or one that found no answer.
pub open spec fn is_cache_miss(e: EventView) -> bool {
    match e {
        EventView::CacheSearchFailed => true,
        EventView::CacheSearched(hits) => cache_answer_spec(hits) is None,
        _ => false,
    }
}

/// A payload of the single field `answer`.
pub open spec fn is_answer_payload(p: PayloadView) -> bool {
    p.len() == 1 && p[0].0 == answer_key()
}

proof fn lemma_run_cons(s: RequestView, e: EventView, rest: Seq<EventView>)
    ensures
        run(s, seq![e] + rest) == ({
            let (s1, a) = next(s, e);
            let (s2, r) = run(s1, rest);
            match a {
                Some(x) => (s2, seq![x] + r),
                None => (s2, r),
            }
        }),
{
    let es = seq![e] + rest;
    assert(es[0] == e);
    assert(es.drop_first() =~= rest);
}

proof fn lemma_stores_cons(x: ActionView, r: Seq<ActionView>)
    ensures
        stores(seq![x] + r) == match x {
            ActionView::StoreCache(p) => seq![p] + stores(r),
            _ => stores(r),
        },
{
    let acts = seq![x] + r;
    assert(acts[0] == x);
    assert(acts.drop_first() =~= r);
}

/// A finished request takes no event and makes no call.
pub proof fn lemma_finished_is_inert(s: RequestView, es: Seq<EventView>)
    requires
        s.stage == Stage::Finished,
    ensures
        run(s, es) == (s, Seq::<ActionView>::empty()),
    decreases es.len(),
{
    if es.len() > 0 {
        lemma_finished_is_inert(s, es.drop_first());
    }
}

/// A request that waits for its cache write never writes to the cache again.
proof fn lemma_no_store_after_storing(s: RequestView, es: Seq<EventView>)
    requires
        s.stage == Stage::CacheStoring,
    ensures
        stores(run(s, es).1) == Seq::<PayloadView>::empty(),
    decreases es.len(),
{
    if es.len() > 0 {
        let (s1, a) = next(s, es[0]);
        if accepts_spec(s.stage, es[0]) {
            lemma_finished_is_inert(s1, es.drop_first());
            let acts = run(s, es).1;
            assert(acts =~= seq![a->Some_0]);
            assert(acts.drop_first() =~= Seq::<ActionView>::empty());
            assert(stores(acts.drop_first()) == Seq::<PayloadView>::empty());
            assert(a->Some_0 is Respond);
        } else {
            lemma_no_store_after_storing(s, es.drop_first());
        }
    }
}

/// A request whose embedding fails, or comes back empty, answers with
/// `EmbeddingError` and makes no other call: nothing is searched, generated
/// or written to the store.
pub proof fn lemma_failed_embedding_ends_request(
    prompt: Seq<char>,
    first: EventView,
    rest: Seq<EventView>,
)
    requires
        first == EventView::EmbedFailed || first == EventView::Embedded(0),
    ensures
        request_actions(prompt, seq![first] + rest) == seq![
            ActionView::Embed(prompt),
            ActionView::Respond(Err(PipelineError::EmbeddingError)),
        ],
{
    let s0 = initial(prompt);
    lemma_run_cons(s0, first, rest);
    lemma_finished_is_inert(at(s0, Stage::Finished), rest);
    assert(request_actions(prompt, seq![first] + rest) =~= seq![
        ActionView::Embed(prompt),
        ActionView::Respond(Err(PipelineError::EmbeddingError)),
    ]);
}

/// A failed cache search is a miss: the request goes on exactly as if the
/// cache had returned no point, and its next call is the knowledge search.
pub proof fn lemma_cache_failure_is_miss(prompt: Seq<char>, n: nat, rest: Seq<EventView>)
    requires
        n > 0,
    ensures
        run(initial(prompt), seq![EventView::Embedded(n), EventView::CacheSearchFailed] + rest)
            == run(
            initial(prompt),
            seq![EventView::Embedded(n), EventView::CacheSearched(Seq::empty())] + rest,
        ),
        request_actions(
            prompt,
            seq![EventView::Embedded(n), EventView::CacheSearchFailed] + rest,
        ).subrange(0, 3) == seq![
            ActionView::Embed(prompt),
            ActionView::SearchCache,
            ActionView::SearchKnowledge,
        ],
{
    let s0 = initial(prompt);
    let s1 = at(s0, Stage::CacheLookup);
    let s2 = at(s0, Stage::Retrieving);
    let e1 = EventView::CacheSearchFailed;
    let e2 = EventView::CacheSearched(Seq::empty());
    assert(seq![EventView::Embedded(n), e1] + rest =~= seq![EventView::Embedded(n)] + (seq![e1]
        + rest));
    assert(seq![EventView::Embedded(n), e2] + rest =~= seq![EventView::Embedded(n)] + (seq![e2]
        + rest));
    lemma_run_cons(s0, EventView::Embedded(n), seq![e1] + rest);
    lemma_run_cons(s0, EventView::Embedded(n), seq![e2] + rest);
    lemma_run_cons(s1, e1, rest);
    lemma_run_cons(s1, e2, rest);
    let acts = request_actions(prompt, seq![EventView::Embedded(n), e1] + rest);
    assert(acts.subrange(0, 3) =~= seq![
        ActionView::Embed(prompt),
        ActionView::SearchCache,
        ActionView::SearchKnowledge,
    ]);
}

/// A cache hit answers at once with the cached answer: the knowledge
/// collection is not searched, nothing is generated and nothing is written.
pub proof fn lemma_cache_hit_short_circuits(
    prompt: Seq<char>,
    n: nat,
    hits: Seq<PayloadView>,
    rest: Seq<EventView>,
)
    requires
        n > 0,
        cache_answer_spec(hits) is Some,
    ensures
        request_actions(
            prompt,
            seq![EventView::Embedded(n), EventView::CacheSearched(hits)] + rest,
        ) == seq![
            ActionView::Embed(prompt),
            ActionView::SearchCache,
            ActionView::Respond(Ok(cache_answer_spec(hits)->Some_0)),
        ],
{
    let s0 = initial(prompt);
    let e1 = EventView::CacheSearched(hits);
    assert(seq![EventView::Embedded(n), e1] + rest =~= seq![EventView::Embedded(n)] + (seq![e1]
        + rest));
    lemma_run_cons(s0, EventView::Embedded(n), seq![e1] + rest);
    lemma_run_cons(at(s0, Stage::CacheLookup), e1, rest);
    lemma_finished_is_inert(at(s0, Stage::Finished), rest);
    assert(request_actions(prompt, seq![EventView::Embedded(n), e1] + rest) =~= seq![
        ActionView::Embed(prompt),
        ActionView::SearchCache,
        ActionView::Respond(Ok(cache_answer_spec(hits)->Some_0)),
    ]);
}

/// After a cache miss, an empty knowledge search answers with `NoMatchError`:
/// the generation service is never asked and nothing is written.
pub proof fn lemma_no_match_skips_generation(
    prompt: Seq<char>,
    n: nat,
    miss: EventView,
    rest: Seq<EventView>,
)
    requires
        n > 0,
        is_cache_miss(miss),
    ensures
        request_actions(
            prompt,
            seq![EventView::Embedded(n), miss, EventView::KnowledgeSearched(Seq::empty())] + rest,
        ) == seq![
            ActionView::Embed(prompt),
            ActionView::SearchCache,
            ActionView::SearchKnowledge,
            ActionView::Respond(Err(PipelineError::NoMatchError)),
        ],
{
    let s0 = initial(prompt);
    let e2 = EventView::KnowledgeSearched(Seq::empty());
    assert(seq![EventView::Embedded(n), miss, e2] + rest =~= seq![EventView::Embedded(n)] + (
    seq![miss] + (seq![e2] + rest)));
    lemma_run_cons(s0, EventView::Embedded(n), seq![miss] + (seq![e2] + rest));
    lemma_run_cons(at(s0, Stage::CacheLookup), miss, seq![e2] + rest);
    lemma_run_cons(at(s0, Stage::Retrieving), e2, rest);
    lemma_finished_is_inert(at(s0, Stage::Finished), rest);
    assert(request_actions(prompt, seq![EventView::Embedded(n), miss, e2] + rest) =~= seq![
        ActionView::Embed(prompt),
        ActionView::SearchCache,
        ActionView::SearchKnowledge,
        ActionView::Respond(Err(PipelineError::NoMatchError)),
    ]);
}

/// The calls of a request that misses the cache, finds context and gets an
/// answer, up to and including the cache write.
proof fn lemma_miss_prefix(
    prompt: Seq<char>,
    n: nat,
    miss: EventView,
    hits: Seq<PayloadView>,
    choices: Seq<Option<Seq<char>>>,
    rest: Seq<EventView>,
)
    requires
        n > 0,
        is_cache_miss(miss),
        context_spec(hits) is Ok,
        completion_spec(choices) is Ok,
    ensures
        ({
            let s0 = initial(prompt);
            let a = completion_spec(choices)->Ok_0;
            let s4 = RequestView { stage: Stage::CacheStoring, answer: a, ..s0 };
            &&& run(s0, seq![
                EventView::Embedded(n),
                miss,
                EventView::KnowledgeSearched(hits),
                EventView::Generated(choices),
            ] + rest).1 == seq![
                ActionView::SearchCache,
                ActionView::SearchKnowledge,
                ActionView::Generate(
                    system_preamble(),
                    instruction_text(prompt, context_spec(hits)->Ok_0),
                ),
                ActionView::StoreCache(single_field(answer_key(), a)),
            ] + run(s4, rest).1
        }),
{
    let s0 = initial(prompt);
    let e0 = EventView::Embedded(n);
    let e2 = EventView::KnowledgeSearched(hits);
    let e3 = EventView::Generated(choices);
    assert(seq![e0, miss, e2, e3] + rest =~= seq![e0] + (seq![miss] + (seq![e2] + (seq![e3]
        + rest))));
    lemma_run_cons(s0, e0, seq![miss] + (seq![e2] + (seq![e3] + rest)));
    lemma_run_cons(at(s0, Stage::CacheLookup), miss, seq![e2] + (seq![e3] + rest));
    lemma_run_cons(at(s0, Stage::Retrieving), e2, seq![e3] + rest);
    lemma_run_cons(at(s0, Stage::Generating), e3, rest);
    let a = completion_spec(choices)->Ok_0;
    let s4 = RequestView { stage: Stage::CacheStoring, answer: a, ..s0 };
    let c = context_spec(hits)->Ok_0;
    assert(run(s0, seq![e0, miss, e2, e3] + rest).1 =~= seq![
        ActionView::SearchCache,
        ActionView::SearchKnowledge,
        ActionView::Generate(system_preamble(), instruction_text(prompt, c)),
        ActionView::StoreCache(single_field(answer_key(), a)),
    ] + run(s4, rest).1);
}

/// A cache miss followed by a successful generation writes exactly one point
/// to the cache, and its payload is `{answer: a}` for the generated answer
/// `a`, whatever comes back from the write.
pub proof fn lemma_miss_stores_answer_once(
    prompt: Seq<char>,
    n: nat,
    miss: EventView,
    hits: Seq<PayloadView>,
    choices: Seq<Option<Seq<char>>>,
    rest: Seq<EventView>,
)
    requires
        n > 0,
        is_cache_miss(miss),
        context_spec(hits) is Ok,
        completion_spec(choices) is Ok,
    ensures
        stores(
            request_actions(
                prompt,
                seq![
                    EventView::Embedded(n),
                    miss,
                    EventView::KnowledgeSearched(hits),
                    EventView::Generated(choices),
                ] + rest,
            ),
        ) == seq![single_field(answer_key(), completion_spec(choices)->Ok_0)],
{
    let s0 = initial(prompt);
    let a = completion_spec(choices)->Ok_0;
    let s4 = RequestView { stage: Stage::CacheStoring, answer: a, ..s0 };
    let pa = single_field(answer_key(), a);
    let c = context_spec(hits)->Ok_0;
    lemma_miss_prefix(prompt, n, miss, hits, choices, rest);
    let tail = run(s4, rest).1;
    lemma_no_store_after_storing(s4, rest);
    let gen = ActionView::Generate(system_preamble(), instruction_text(prompt, c));
    let es = seq![
        EventView::Embedded(n),
        miss,
        EventView::KnowledgeSearched(hits),
        EventView::Generated(choices),
    ] + rest;
    assert(request_actions(prompt, es) =~= seq![ActionView::Embed(prompt)] + (seq![
        ActionView::SearchCache,
    ] + (seq![ActionView::SearchKnowledge] + (seq![gen] + (seq![ActionView::StoreCache(pa)]
        + tail)))));
    lemma_stores_cons(ActionView::StoreCache(pa), tail);
    lemma_stores_cons(gen, seq![ActionView::StoreCache(pa)] + tail);
    lemma_stores_cons(
        ActionView::SearchKnowledge,
        seq![gen] + (seq![ActionView::StoreCache(pa)] + tail),
    );
    lemma_stores_cons(
        ActionView::SearchCache,
        seq![ActionView::SearchKnowledge] + (seq![gen] + (seq![ActionView::StoreCache(pa)] + tail)),
    );
    lemma_stores_cons(
        ActionView::Embed(prompt),
        seq![ActionView::SearchCache] + (seq![ActionView::SearchKnowledge] + (seq![gen] + (seq![
            ActionView::StoreCache(pa),
        ] + tail))),
    );
    assert(seq![pa] + Seq::<PayloadView>::empty() =~= seq![pa]);
}

/// The whole read-through path: on a cache miss the request searches the
/// knowledge collection, asks for an answer with the retrieved document as
/// context, writes the answer to the cache and, once the write succeeds,
/// returns it.
pub proof fn lemma_miss_path(
    prompt: Seq<char>,
    n: nat,
    miss: EventView,
    hits: Seq<PayloadView>,
    choices: Seq<Option<Seq<char>>>,
    rest: Seq<EventView>,
)
    requires
        n > 0,
        is_cache_miss(miss),
        context_spec(hits) is Ok,
        completion_spec(choices) is Ok,
    ensures
        request_actions(
            prompt,
            seq![
                EventView::Embedded(n),
                miss,
                EventView::KnowledgeSearched(hits),
                EventView::Generated(choices),
                EventView::CacheStored,
            ] + rest,
        ) == seq![
            ActionView::Embed(prompt),
            ActionView::SearchCache,
            ActionView::SearchKnowledge,
            ActionView::Generate(
                system_preamble(),
                instruction_text(prompt, context_spec(hits)->Ok_0),
            ),
            ActionView::StoreCache(single_field(answer_key(), completion_spec(choices)->Ok_0)),
            ActionView::Respond(Ok(completion_spec(choices)->Ok_0)),
        ],
{
    let s0 = initial(prompt);
    let a = completion_spec(choices)->Ok_0;
    let s4 = RequestView { stage: Stage::CacheStoring, answer: a, ..s0 };
    let e0 = EventView::Embedded(n);
    let e2 = EventView::KnowledgeSearched(hits);
    let e3 = EventView::Generated(choices);
    let tail = seq![EventView::CacheStored] + rest;
    assert(seq![e0, miss, e2, e3, EventView::CacheStored] + rest =~= seq![e0, miss, e2, e3]
        + tail);
    lemma_miss_prefix(prompt, n, miss, hits, choices, tail);
    lemma_run_cons(s4, EventView::CacheStored, rest);
    lemma_finished_is_inert(at(s4, Stage::Finished), rest);
    let c = context_spec(hits)->Ok_0;
    assert(request_actions(prompt, seq![e0, miss, e2, e3] + tail) =~= seq![
        ActionView::Embed(prompt),
        ActionView::SearchCache,
        ActionView::SearchKnowledge,
        ActionView::Generate(system_preamble(), instruction_text(prompt, c)),
        ActionView::StoreCache(single_field(answer_key(), a)),
        ActionView::Respond(Ok(a)),
    ]);
}

/// Every point a request writes to the cache carries a single answer field.
pub proof fn lemma_stores_are_answers(s: RequestView, es: Seq<EventView>)
    ensures
        forall|i: int|
            0 <= i < stores(run(s, es).1).len() ==> is_answer_payload(
                #[trigger] stores(run(s, es).1)[i],
            ),
    decreases es.len(),
{
    if es.len() > 0 {
        let (s1, a) = next(s, es[0]);
        lemma_stores_are_answers(s1, es.drop_first());
        let r = run(s1, es.drop_first()).1;
        if a is Some {
            assert(run(s, es).1 == seq![a->Some_0] + r);
            lemma_stores_cons(a->Some_0, r);
        }
    }
}

/// The cache matches by similarity, not by prompt text, and keeps no
/// threshold: once a request for one prompt has written its answer to the
/// cache, a request for any other prompt whose nearest cached point is that
/// point is answered with the first prompt's answer, with no retrieval and no
/// generation.
pub proof fn lemma_semantic_collision(
    first_prompt: Seq<char>,
    first_events: Seq<EventView>,
    prompt: Seq<char>,
    n: nat,
    hits: Seq<PayloadView>,
    rest: Seq<EventView>,
)
    requires
        n > 0,
        stores(request_actions(first_prompt, first_events)).len() > 0,
        hits.len() > 0,
        hits[0] == stores(request_actions(first_prompt, first_events))[0],
    ensures
        request_actions(
            prompt,
            seq![EventView::Embedded(n), EventView::CacheSearched(hits)] + rest,
        ) == seq![
            ActionView::Embed(prompt),
            ActionView::SearchCache,
            ActionView::Respond(Ok(stores(request_actions(first_prompt, first_events))[0][0].1)),
        ],
{
    let r = run(initial(first_prompt), first_events).1;
    lemma_stores_cons(ActionView::Embed(first_prompt), r);
    lemma_stores_are_answers(initial(first_prompt), first_events);
    let p = hits[0];
    assert(is_answer_payload(stores(r)[0]));
    assert(p.drop_first().len() == 0);
    assert(field_value(p, answer_key()) == Some(p[0].1));
    lemma_cache_hit_short_circuits(prompt, n, hits, rest);
}

} // verus!
