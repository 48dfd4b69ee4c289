//! Joining pieces of source text.

use vstd::prelude::*;
use vstd::string::*;

verus! {

/// `parts` written one after another, with `separator` between neighbours.
pub open spec fn joined(parts: Seq<Seq<char>>, separator: Seq<char>) -> Seq<char>
    decreases parts.len(),
{
    if parts.len() == 0 {
        Seq::empty()
    } else if parts.len() == 1 {
        parts[0]
    } else {
        joined(parts.drop_last(), separator) + separator + parts.last()
    }
}

/// Joining one more part puts the separator before it, unless it is the first.
pub proof fn lemma_joined_push(parts: Seq<Seq<char>>, part: Seq<char>, separator: Seq<char>)
    ensures
        joined(parts.push(part), separator) == if parts.len() == 0 {
            part
        } else {
            joined(parts, separator) + separator + part
        },
{
    assert(parts.push(part).drop_last() == parts);
}

/// Writes `parts` one after another, with `separator` between neighbours.
pub fn join(parts: &Vec<String>, separator: &str) -> (text: String)
    ensures
        text@ == joined(parts.deep_view(), separator@),
{
    let mut text = String::new();
    let mut i: usize = 0;
    while i < parts.len()
        invariant
            i <= parts.len(),
            text@ == joined(parts.deep_view().take(i as int), separator@),
        decreases parts.len() - i,
    {
        proof {
            let done = parts.deep_view().take(i as int);
            assert(parts.deep_view().take(i + 1) == done.push(parts[i as int]@));
            lemma_joined_push(done, parts[i as int]@, separator@);
        }
        if i > 0 {
            text.append(separator);
        }
        text.append(parts[i].as_str());
        i += 1;
    }
    assert(parts.deep_view().take(parts.len() as int) == parts.deep_view());
    text
}

/// Puts copies of the texts in `more` behind those in `texts`.
pub fn extend(texts: &mut Vec<String>, more: &Vec<String>)
    ensures
        final(texts).deep_view() == old(texts).deep_view() + more.deep_view(),
{
    let ghost before = texts.deep_view();
    let mut i: usize = 0;
    while i < more.len()
        invariant
            i <= more.len(),
            texts.deep_view() == before + more.deep_view().take(i as int),
        decreases more.len() - i,
    {
        texts.push(more[i].clone());
        assert((before + more.deep_view().take(i as int)).push(more[i as int]@) == before
            + more.deep_view().take(i + 1));
        i += 1;
    }
}

} // verus!
