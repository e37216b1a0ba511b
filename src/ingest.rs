//! Seeding the knowledge collection from a text file whose first line is a
//! header and each further line is one document chunk.
use vstd::prelude::*;
use crate::error::PipelineError;
use crate::payload::{Payload, document_key, single_field};
use crate::store::NewPoint;

verus! {

/// The index of the first newline of `s`, or its length when it has none.
pub open spec fn line_end(s: Seq<char>) -> nat
    decreases s.len(),
{
    if s.len() == 0 {
        0
    } else if s[0] == '\n' {
        0
    } else {
        1 + line_end(s.drop_first())
    }
}

/// `l` without one carriage return at its end.
pub open spec fn strip_cr(l: Seq<char>) -> Seq<char> {
    if l.len() > 0 && l.last() == '\r' {
        l.drop_last()
    } else {
        l
    }
}

/// The lines of `s`: split at each newline, a carriage return just before
/// the newline dropped; after a final newline no empty line follows.
pub open spec fn lines_of(s: Seq<char>) -> Seq<Seq<char>>
    decreases s.len(),
{
    if s.len() == 0 {
        Seq::empty()
    } else {
        let e = line_end(s);
        if e < s.len() {
            seq![strip_cr(s.subrange(0, e as int))] + lines_of(s.subrange(e + 1 as int, s.len() as int))
        } else {
            seq![s]
        }
    }
}

pub open spec fn texts_view(v: Seq<String>) -> Seq<Seq<char>> {
    v.map_values(|l: String| l@)
}

/// Relies on str::lines: the text split at each "\n", a "\r" directly
/// before it removed, and no empty last line after a final line ending.
#[verifier::external_body]
fn split_lines(s: &str) -> (r: Vec<String>)
    ensures
        texts_view(r@) == lines_of(s@),
{
    s.lines().map(|l| l.to_string()).collect()
}

/// The chunks of a file: every line after the header.
pub open spec fn chunks_spec(contents: Seq<char>) -> Seq<Seq<char>> {
    let lines = lines_of(contents);
    if lines.len() == 0 {
        Seq::empty()
    } else {
        lines.drop_first()
    }
}

/// The document chunks of a file, header left out.
pub fn chunks(contents: &str) -> (r: Vec<String>)
    ensures
        texts_view(r@) == chunks_spec(contents@),
{
    let lines = split_lines(contents);
    let mut r: Vec<String> = Vec::new();
    if lines.len() == 0 {
        assert(texts_view(r@) =~= chunks_spec(contents@));
        return r;
    }
    let mut i: usize = 1;
    while i < lines.len()
        invariant
            1 <= i <= lines@.len(),
            texts_view(lines@) == lines_of(contents@),
            texts_view(r@) =~= texts_view(lines@).subrange(1, i as int),
        decreases lines@.len() - i,
    {
        let ghost before = r@;
        r.push(lines[i].clone());
        assert(r@ =~= before.push(lines@[i as int]));
        assert(texts_view(r@) =~= texts_view(before).push(lines@[i as int]@));
        i = i + 1;
    }
    assert(texts_view(lines@).subrange(1, lines@.len() as int) =~= chunks_spec(contents@));
    r
}

/// The points for a batch of chunks whose embeddings came back: one per
/// chunk, in order, each carrying `{document: chunk}`. The batch is all or
/// nothing: with no vector, or not one per chunk, it fails with
/// `EmbeddingError` and nothing is to be written.
pub fn ingestion_points(chunks: &Vec<String>, vectors: usize) -> (r: Result<
    Vec<NewPoint>,
    PipelineError,
>)
    ensures
        r is Err <==> (vectors == 0 || vectors != chunks@.len()),
        r matches Err(e) ==> e == PipelineError::EmbeddingError,
        r matches Ok(points) ==> {
            &&& points@.len() == chunks@.len()
            &&& forall|i: int|
                0 <= i < points@.len() ==> (#[trigger] points@[i]).payload@ == single_field(
                    document_key(),
                    chunks@[i]@,
                ) && points@[i].id@.len() == 36
        },
{
    if vectors == 0 || vectors != chunks.len() {
        return Err(PipelineError::EmbeddingError);
    }
    let mut points: Vec<NewPoint> = Vec::new();
    let mut i: usize = 0;
    while i < chunks.len()
        invariant
            0 <= i <= chunks@.len(),
            points@.len() == i,
            forall|j: int|
                0 <= j < i ==> (#[trigger] points@[j]).payload@ == single_field(
                    document_key(),
                    chunks@[j]@,
                ) && points@[j].id@.len() == 36,
        decreases chunks@.len() - i,
    {
        points.push(NewPoint::fresh(Payload::document(chunks[i].clone())));
        i = i + 1;
    }
    Ok(points)
}

} // verus!
