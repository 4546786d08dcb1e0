//! Case-insensitive search over the attributes of records.
use vstd::prelude::*;

use crate::columns::{lemma_position_at, Column, ATTRIBUTE_COUNT};
use crate::record::Eucarinogammarus;
use crate::text::{chars_of, contains_chars, is_infix, lower_of, lowercase};

verus! {

/// Whether one of `texts` holds `term`.
pub open spec fn some_text_holds(term: Seq<char>, texts: Seq<Seq<char>>) -> bool {
    exists|i: int| 0 <= i < texts.len() && is_infix(term, #[trigger] texts[i])
}

/// Whether `record` matches the search for `term`: an empty term matches
/// every record; otherwise the lower-cased term must occur in the
/// lower-cased text of some attribute.
pub open spec fn record_matches(record: Eucarinogammarus, term: Seq<char>) -> bool {
    term.len() == 0 || exists|c: Column|
        is_infix(lower_of(term), lower_of(#[trigger] record.attr(c)))
}

/// The records of `s` that match the search for `term`, in their order.
pub open spec fn matching(s: Seq<Eucarinogammarus>, term: Seq<char>) -> Seq<Eucarinogammarus>
    decreases s.len(),
{
    if s.len() == 0 {
        s
    } else {
        let rest = matching(s.drop_last(), term);
        if record_matches(s.last(), term) {
            rest.push(s.last())
        } else {
            rest
        }
    }
}

/// Whether one of `folded_texts` holds `folded_term`: the test of a search
/// once the term and the texts are lower-cased.
pub fn matches_folded(folded_term: &str, folded_texts: &Vec<String>) -> (r: bool)
    ensures
        r == some_text_holds(folded_term@, folded_texts.deep_view()),
{
    let needle = chars_of(folded_term);
    let mut i: usize = 0;
    while i < folded_texts.len()
        invariant
            needle@ == folded_term@,
            i <= folded_texts@.len(),
            forall|j: int|
                0 <= j < i ==> !is_infix(folded_term@, #[trigger] folded_texts.deep_view()[j]),
        decreases folded_texts@.len() - i,
    {
        let hay = chars_of(folded_texts[i].as_str());
        if contains_chars(&hay, &needle) {
            assert(is_infix(folded_term@, folded_texts.deep_view()[i as int]));
            return true;
        }
        i = i + 1;
    }
    false
}

/// The lower-cased texts of the attributes of `record`, in table order.
fn folded_attributes(record: &Eucarinogammarus) -> (r: Vec<String>)
    ensures
        r@.len() == ATTRIBUTE_COUNT,
        forall|j: int| 0 <= j < ATTRIBUTE_COUNT ==> #[trigger] r@[j]@ == lower_of(record.attr(Column::at(j))),
{
    let mut r: Vec<String> = Vec::new();
    let mut i: usize = 0;
    while i < ATTRIBUTE_COUNT
        invariant
            i <= ATTRIBUTE_COUNT,
            r@.len() == i,
            forall|j: int| 0 <= j < i ==> #[trigger] r@[j]@ == lower_of(record.attr(Column::at(j))),
        decreases ATTRIBUTE_COUNT - i,
    {
        let c = Column::from_index(i);
        r.push(lowercase(record.attribute(c).as_str()));
        i = i + 1;
    }
    r
}

/// Whether `record` matches a search whose lower-cased term is
/// `folded_term`, `term` being the term as typed.
fn matches_search(record: &Eucarinogammarus, term: &str, folded_term: &str) -> (r: bool)
    requires
        folded_term@ == lower_of(term@),
    ensures
        r == record_matches(*record, term@),
{
    if term.unicode_len() == 0 {
        return true;
    }
    let texts = folded_attributes(record);
    let r = matches_folded(folded_term, &texts);
    proof {
        let t = texts.deep_view();
        if r {
            let i = choose|i: int| 0 <= i < t.len() && is_infix(folded_term@, #[trigger] t[i]);
            assert(t[i] == texts@[i]@);
            assert(is_infix(lower_of(term@), lower_of(record.attr(Column::at(i)))));
        } else {
            assert forall|c: Column| !is_infix(lower_of(term@), lower_of(#[trigger] record.attr(c))) by {
                lemma_position_at(c);
                assert(t[c.position()] == texts@[c.position()]@);
            }
        }
    }
    r
}

/// The records that match the search for `search_term` (see
/// `record_matches`), in their order.
pub fn filtered_records(records: &Vec<Eucarinogammarus>, search_term: &str) -> (r: Vec<
    Eucarinogammarus,
>)
    ensures
        r@ == matching(records@, search_term@),
{
    let folded_term = lowercase(search_term);
    let mut r: Vec<Eucarinogammarus> = Vec::new();
    let mut i: usize = 0;
    while i < records.len()
        invariant
            folded_term@ == lower_of(search_term@),
            i <= records@.len(),
            r@ == matching(records@.subrange(0, i as int), search_term@),
        decreases records@.len() - i,
    {
        let ghost next = records@.subrange(0, i + 1);
        proof {
            assert(next.drop_last() == records@.subrange(0, i as int));
            assert(next.last() == records@[i as int]);
        }
        if matches_search(&records[i], search_term, folded_term.as_str()) {
            r.push(records[i].clone());
        }
        i = i + 1;
    }
    assert(records@.subrange(0, records@.len() as int) == records@);
    r
}

/// The search for the empty term keeps every record.
pub proof fn lemma_empty_search_keeps_all(s: Seq<Eucarinogammarus>)
    ensures
        matching(s, Seq::empty()) == s,
    decreases s.len(),
{
    if s.len() > 0 {
        lemma_empty_search_keeps_all(s.drop_last());
        assert(s.drop_last().push(s.last()) == s);
    }
}

/// The search for a term that occurs in no attribute of any record finds
/// nothing.
pub proof fn lemma_unmatched_search_empty(s: Seq<Eucarinogammarus>, term: Seq<char>)
    requires
        term.len() > 0,
        forall|i: int, c: Column|
            0 <= i < s.len() ==> !is_infix(lower_of(term), lower_of(#[trigger] s[i].attr(c))),
    ensures
        matching(s, term).len() == 0,
    decreases s.len(),
{
    if s.len() > 0 {
        assert forall|i: int, c: Column| 0 <= i < s.drop_last().len() implies !is_infix(
            lower_of(term),
            lower_of(#[trigger] s.drop_last()[i].attr(c)),
        ) by {
            assert(s.drop_last()[i] == s[i]);
        }
        lemma_unmatched_search_empty(s.drop_last(), term);
        assert forall|c: Column| !is_infix(lower_of(term), lower_of(#[trigger] s.last().attr(c))) by {
            assert(s.last() == s[s.len() - 1]);
        }
    }
}

} // verus!
