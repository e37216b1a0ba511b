use vstd::prelude::*;

verus! {

/// The payload of a vector-store point, as an ordered list of text fields.
#[derive(Clone, Debug, PartialEq, Eq)]
pub struct Payload {
    pub fields: Vec<(String, String)>,
}

/// The abstract payload: (key, value) pairs in order.
pub type PayloadView = Seq<(Seq<char>, Seq<char>)>;

impl View for Payload {
    type V = PayloadView;

    open spec fn view(&self) -> PayloadView {
        self.fields@.map_values(|f: (String, String)| (f.0@, f.1@))
    }
}

/// The key of the answer field of a cache point.
pub open spec fn answer_key() -> Seq<char> {
    "answer"@
}

/// The key of the document field of a knowledge point.
pub open spec fn document_key() -> Seq<char> {
    "document"@
}

/// The value of the first field named `key`, if any.
pub open spec fn field_value(p: PayloadView, key: Seq<char>) -> Option<Seq<char>>
    decreases p.len(),
{
    if p.len() == 0 {
        None
    } else if p[0].0 == key {
        Some(p[0].1)
    } else {
        field_value(p.drop_first(), key)
    }
}

/// A payload of one field.
pub open spec fn single_field(key: Seq<char>, value: Seq<char>) -> PayloadView {
    seq![(key, value)]
}

/// The view of an optional text.
pub open spec fn opt_view(o: Option<String>) -> Option<Seq<char>> {
    match o {
        Some(s) => Some(s@),
        None => None,
    }
}

/// A lookup of the first field of the payload at or after `i`.
proof fn lemma_field_value_from(p: PayloadView, key: Seq<char>, i: int)
    requires
        0 <= i < p.len(),
        p[i].0 != key,
    ensures
        field_value(p.subrange(i, p.len() as int), key) == field_value(
            p.subrange(i + 1, p.len() as int),
            key,
        ),
{
    assert(p.subrange(i, p.len() as int).drop_first() =~= p.subrange(i + 1, p.len() as int));
}

impl Payload {
    /// A payload holding one field.
    pub fn single(key: String, value: String) -> (r: Payload)
        ensures
            r@ == single_field(key@, value@),
    {
        let mut fields: Vec<(String, String)> = Vec::new();
        fields.push((key, value));
        let r = Payload { fields };
        assert(r@ =~= single_field(key@, value@));
        r
    }

    /// The cache payload `{answer: answer}`.
    pub fn answer(answer: String) -> (r: Payload)
        ensures
            r@ == single_field(answer_key(), answer@),
    {
        Payload::single(String::from_str("answer"), answer)
    }

    /// The knowledge payload `{document: document}`.
    pub fn document(document: String) -> (r: Payload)
        ensures
            r@ == single_field(document_key(), document@),
    {
        Payload::single(String::from_str("document"), document)
    }

    /// The value of the first field named `key`.
    pub fn field(&self, key: &str) -> (r: Option<String>)
        ensures
            opt_view(r) == field_value(self@, key@),
    {
        let key_owned = String::from_str(key);
        let n = self.fields.len();
        let mut i: usize = 0;
        assert(self@.subrange(0, n as int) =~= self@);
        while i < n
            invariant
                n == self.fields@.len(),
                0 <= i <= n,
                key_owned@ == key@,
                field_value(self@, key@) == field_value(
                    self@.subrange(i as int, n as int),
                    key@,
                ),
            decreases n - i,
        {
            let entry = &self.fields[i];
            if entry.0 == key_owned {
                let ghost rest = self@.subrange(i as int, n as int);
                assert(rest[0] == self@[i as int]);
                return Some(entry.1.clone());
            }
            proof {
                lemma_field_value_from(self@, key@, i as int);
            }
            i = i + 1;
        }
        assert(self@.subrange(n as int, n as int).len() == 0);
        None
    }
}

} // verus!
