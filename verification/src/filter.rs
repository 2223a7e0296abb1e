use vstd::prelude::*;
use crate::aggregate::reversed;
use crate::models::{texts, DocumentedTypeDTO};

verus! {

/// A text in lower case, by the Unicode rules.
pub uninterp spec fn lowercase(s: Seq<char>) -> Seq<char>;

/// `str::to_lowercase`. The claim: the result depends on the text alone.
#[verifier::external_body]
fn to_lowercase(s: &str) -> (r: String)
    ensures
        r@ == lowercase(s@),
{
    s.to_lowercase()
}

/// Whether the pattern occurs in the text.
pub open spec fn has_substring(text: Seq<char>, pattern: Seq<char>) -> bool {
    exists|i: int|
        0 <= i && i + pattern.len() <= text.len() && #[trigger] text.subrange(
            i,
            i + pattern.len(),
        ) == pattern
}

/// `str::contains` with a string as the pattern. The claim: it says
/// whether the pattern occurs somewhere in the text.
#[verifier::external_body]
fn contains(text: &str, pattern: &str) -> (r: bool)
    ensures
        r == has_substring(text@, pattern@),
{
    text.contains(pattern)
}

/// Whether a text, in lower case, holds one of the words.
pub open spec fn mentions(text: Seq<char>, words: Seq<Seq<char>>) -> bool {
    exists|j: int| 0 <= j < words.len() && has_substring(lowercase(text), #[trigger] words[j])
}

/// Whether a type passes the filter: its description or one of its tags
/// holds one of the words.
pub open spec fn passes(d: DocumentedTypeDTO, words: Seq<Seq<char>>) -> bool {
    ||| (d.description is Some && mentions(d.description->0@, words))
    ||| exists|t: int| 0 <= t < d.tags@.len() && mentions((#[trigger] d.tags@[t])@, words)
}

/// The words of a filter, each in lower case.
pub open spec fn lowered(filter: Seq<Seq<char>>) -> Seq<Seq<char>> {
    Seq::new(filter.len(), |i: int| lowercase(filter[i]))
}

/// The types that pass, in the order given.
pub open spec fn passing(items: Seq<DocumentedTypeDTO>, words: Seq<Seq<char>>) -> Seq<
    DocumentedTypeDTO,
>
    decreases items.len(),
{
    if items.len() == 0 {
        Seq::empty()
    } else if passes(items.last(), words) {
        passing(items.drop_last(), words).push(items.last())
    } else {
        passing(items.drop_last(), words)
    }
}

fn text_mentions(text: &str, words: &Vec<String>) -> (r: bool)
    ensures
        r == mentions(text@, texts(words@)),
{
    let lower = to_lowercase(text);
    let mut j: usize = 0;
    while j < words.len()
        invariant
            j <= words@.len(),
            lower@ == lowercase(text@),
            forall|k: int| 0 <= k < j ==> !has_substring(lowercase(text@), #[trigger] texts(words@)[k]),
        decreases words@.len() - j,
    {
        if contains(lower.as_str(), words[j].as_str()) {
            proof {
                assert(texts(words@)[j as int] == words@[j as int]@);
            }
            return true;
        }
        j += 1;
    }
    false
}

fn type_passes(d: &DocumentedTypeDTO, words: &Vec<String>) -> (r: bool)
    ensures
        r == passes(*d, texts(words@)),
{
    match &d.description {
        Some(text) => {
            if text_mentions(text.as_str(), words) {
                return true;
            }
        },
        None => {},
    }
    let mut t: usize = 0;
    while t < d.tags.len()
        invariant
            t <= d.tags@.len(),
            forall|k: int| 0 <= k < t ==> !mentions((#[trigger] d.tags@[k])@, texts(words@)),
        decreases d.tags@.len() - t,
    {
        if text_mentions(d.tags[t].as_str(), words) {
            return true;
        }
        t += 1;
    }
    false
}

/// Keeps the types whose description or tags hold one of the filter's words,
/// letters of either case taken alike. Without a filter every type is kept.
pub fn filter_list(items: Vec<DocumentedTypeDTO>, filter: Option<Vec<String>>) -> (out: Vec<
    DocumentedTypeDTO,
>)
    ensures
        out@ == (match filter {
            Some(words) => passing(items@, lowered(texts(words@))),
            None => items@,
        }),
{
    let filter = match filter {
        Some(f) => f,
        None => {
            return items;
        },
    };
    let mut words: Vec<String> = Vec::new();
    let mut j: usize = 0;
    while j < filter.len()
        invariant
            j <= filter@.len(),
            words@.len() == j,
            forall|k: int| 0 <= k < j ==> (#[trigger] words@[k])@ == lowercase(filter@[k]@),
        decreases filter@.len() - j,
    {
        words.push(to_lowercase(filter[j].as_str()));
        j += 1;
    }
    proof {
        assert(texts(words@) =~= lowered(texts(filter@)));
    }
    let ghost all = items@;
    let n: usize = items.len();
    let mut rest = reversed(items);
    let mut out: Vec<DocumentedTypeDTO> = Vec::new();
    let mut i: usize = 0;
    while rest.len() > 0
        invariant
            i + rest@.len() == n,
            n == all.len(),
            forall|k: int| 0 <= k < rest@.len() ==> rest@[k] == all[n - 1 - k],
            out@ == passing(all.take(i as int), texts(words@)),
        decreases rest@.len(),
    {
        proof {
            assert(all.take(i + 1).drop_last() =~= all.take(i as int));
        }
        let item = rest.pop().unwrap();
        if type_passes(&item, &words) {
            out.push(item);
        }
        i += 1;
    }
    proof {
        assert(all.take(i as int) =~= all);
    }
    out
}

} // verus!
