//! Stable sorting of records by the text of one attribute.
use vstd::prelude::*;

use crate::columns::{Column, SortDirection};
use crate::record::Eucarinogammarus;
use crate::repository::ids_ordered;
use crate::text::{
    chars_of, lemma_text_lt_irreflexive, lemma_text_lt_total, lemma_text_lt_transitive, text_less,
    text_lt,
};

verus! {

/// Whether record `i` of `s` comes before record `j` when sorting by
/// attribute `c` in direction `dir`: by the attribute's text, and between
/// equal texts by position, which keeps insertion order among ties.
pub open spec fn precedes(
    s: Seq<Eucarinogammarus>,
    c: Column,
    dir: SortDirection,
    i: int,
    j: int,
) -> bool {
    let a = s[i].attr(c);
    let b = s[j].attr(c);
    match dir {
        SortDirection::Ascending => text_lt(a, b) || (a == b && i < j),
        SortDirection::Descending => text_lt(b, a) || (a == b && i < j),
    }
}

/// `order` lists every position of `s` once, each before all positions
/// that it precedes.
pub open spec fn is_sorted_order(
    s: Seq<Eucarinogammarus>,
    c: Column,
    dir: SortDirection,
    order: Seq<int>,
) -> bool {
    &&& order.len() == s.len()
    &&& forall|k: int| 0 <= k < order.len() ==> 0 <= #[trigger] order[k] < s.len()
    &&& forall|k: int, l: int|
        0 <= k < l < order.len() ==> precedes(s, c, dir, #[trigger] order[k], #[trigger] order[l])
}

/// `out` is `s` sorted stably by attribute `c` in direction `dir`.
pub open spec fn sorted_by(
    s: Seq<Eucarinogammarus>,
    out: Seq<Eucarinogammarus>,
    c: Column,
    dir: SortDirection,
) -> bool {
    exists|order: Seq<int>|
        {
            &&& is_sorted_order(s, c, dir, order)
            &&& out.len() == s.len()
            &&& forall|k: int| 0 <= k < out.len() ==> #[trigger] out[k] == s[order[k]]
        }
}

pub proof fn lemma_precedes_transitive(
    s: Seq<Eucarinogammarus>,
    c: Column,
    dir: SortDirection,
    i: int,
    j: int,
    k: int,
)
    requires
        precedes(s, c, dir, i, j),
        precedes(s, c, dir, j, k),
    ensures
        precedes(s, c, dir, i, k),
{
    let a = s[i].attr(c);
    let b = s[j].attr(c);
    let d = s[k].attr(c);
    match dir {
        SortDirection::Ascending => {
            if text_lt(a, b) && text_lt(b, d) {
                lemma_text_lt_transitive(a, b, d);
            }
        },
        SortDirection::Descending => {
            if text_lt(b, a) && text_lt(d, b) {
                lemma_text_lt_transitive(d, b, a);
            }
        },
    }
}

/// Of two different positions exactly one precedes the other.
pub proof fn lemma_precedes_total(
    s: Seq<Eucarinogammarus>,
    c: Column,
    dir: SortDirection,
    i: int,
    j: int,
)
    ensures
        i != j ==> (precedes(s, c, dir, i, j) || precedes(s, c, dir, j, i)),
        !(precedes(s, c, dir, i, j) && precedes(s, c, dir, j, i)),
{
    lemma_text_lt_total(s[i].attr(c), s[j].attr(c));
    lemma_text_lt_irreflexive(s[i].attr(c));
}

/// Whether position `i` precedes position `j`, for `j < i`: only a strictly
/// smaller (ascending) or larger (descending) text puts `i` first.
fn goes_before(keys: &Vec<Vec<char>>, dir: SortDirection, i: usize, j: usize) -> (r: bool)
    requires
        i < keys@.len(),
        j < keys@.len(),
    ensures
        r == match dir {
            SortDirection::Ascending => text_lt(keys@[i as int]@, keys@[j as int]@),
            SortDirection::Descending => text_lt(keys@[j as int]@, keys@[i as int]@),
        },
{
    match dir {
        SortDirection::Ascending => text_less(&keys[i], &keys[j]),
        SortDirection::Descending => text_less(&keys[j], &keys[i]),
    }
}

/// The positions of `records` in sorted order, found by insertion sort:
/// each position goes after every earlier one that it does not precede.
pub fn sort_order(records: &Vec<Eucarinogammarus>, column: Column, direction: SortDirection) -> (r:
    Vec<usize>)
    ensures
        is_sorted_order(records@, column, direction, r@.map_values(|x: usize| x as int)),
{
    let ghost s = records@;
    let n = records.len();
    let mut keys: Vec<Vec<char>> = Vec::new();
    let mut i: usize = 0;
    while i < n
        invariant
            s == records@,
            n == s.len(),
            i <= n,
            keys@.len() == i,
            forall|j: int| 0 <= j < i ==> (#[trigger] keys@[j])@ == s[j].attr(column),
        decreases n - i,
    {
        keys.push(chars_of(records[i].attribute(column).as_str()));
        i = i + 1;
    }
    let mut order: Vec<usize> = Vec::new();
    let mut k: usize = 0;
    while k < n
        invariant
            s == records@,
            n == s.len(),
            k <= n,
            keys@.len() == n,
            forall|j: int| 0 <= j < n ==> (#[trigger] keys@[j])@ == s[j].attr(column),
            order@.len() == k,
            forall|x: int| 0 <= x < k ==> #[trigger] order@[x] < k,
            forall|x: int, y: int|
                0 <= x < y < k ==> precedes(
                    s,
                    column,
                    direction,
                    #[trigger] order@[x] as int,
                    #[trigger] order@[y] as int,
                ),
        decreases n - k,
    {
        let mut pos: usize = k;
        while pos > 0 && goes_before(&keys, direction, k, order[pos - 1])
            invariant
                n == s.len(),
                k < n,
                pos <= k,
                keys@.len() == n,
                forall|j: int| 0 <= j < n ==> (#[trigger] keys@[j])@ == s[j].attr(column),
                order@.len() == k,
                forall|x: int| 0 <= x < k ==> #[trigger] order@[x] < k,
                forall|x: int|
                    pos <= x < k ==> precedes(s, column, direction, k as int, #[trigger] order@[x] as int),
            decreases pos,
        {
            pos = pos - 1;
        }
        proof {
            if pos > 0 {
                let e = order@[pos - 1] as int;
                assert(!precedes(s, column, direction, k as int, e));
                lemma_precedes_total(s, column, direction, k as int, e);
                assert(precedes(s, column, direction, e, k as int));
            }
        }
        let ghost prev = order@;
        order.insert(pos, k);
        proof {
            let o = order@;
            assert forall|x: int| 0 <= x < k + 1 implies #[trigger] o[x] < k + 1 by {
                if x < pos {
                    assert(o[x] == prev[x]);
                } else if x > pos {
                    assert(o[x] == prev[x - 1]);
                }
            }
            assert forall|x: int, y: int| 0 <= x < y < k + 1 implies precedes(
                s,
                column,
                direction,
                #[trigger] o[x] as int,
                #[trigger] o[y] as int,
            ) by {
                let px = if x < pos { x } else { x - 1 };
                let py = if y < pos { y } else { y - 1 };
                if x == pos {
                    assert(o[y] == prev[py]);
                } else if y == pos {
                    assert(o[x] == prev[px]);
                    if x < pos - 1 {
                        lemma_precedes_transitive(
                            s,
                            column,
                            direction,
                            prev[px] as int,
                            prev[pos - 1] as int,
                            k as int,
                        );
                    }
                } else {
                    assert(o[x] == prev[px]);
                    assert(o[y] == prev[py]);
                }
            }
        }
        k = k + 1;
    }
    proof {
        let m = order@.map_values(|x: usize| x as int);
        assert forall|x: int, y: int| 0 <= x < y < m.len() implies precedes(
            s,
            column,
            direction,
            #[trigger] m[x],
            #[trigger] m[y],
        ) by {
            assert(m[x] == order@[x] as int);
            assert(m[y] == order@[y] as int);
        }
    }
    order
}

/// `records` sorted stably by attribute `column` in `direction`.
pub fn sort_records(
    records: &Vec<Eucarinogammarus>,
    column: Column,
    direction: SortDirection,
) -> (r: Vec<Eucarinogammarus>)
    ensures
        sorted_by(records@, r@, column, direction),
{
    let order = sort_order(records, column, direction);
    let ghost m = order@.map_values(|x: usize| x as int);
    let mut r: Vec<Eucarinogammarus> = Vec::new();
    let mut k: usize = 0;
    while k < order.len()
        invariant
            is_sorted_order(records@, column, direction, m),
            m == order@.map_values(|x: usize| x as int),
            k <= order@.len(),
            r@.len() == k,
            forall|j: int| 0 <= j < k ==> #[trigger] r@[j] == records@[m[j]],
        decreases order@.len() - k,
    {
        assert(m[k as int] == order@[k as int] as int);
        r.push(records[order[k]].clone());
        k = k + 1;
    }
    assert(is_sorted_order(records@, column, direction, m) && r@.len() == records@.len()
        && forall|j: int| 0 <= j < r@.len() ==> #[trigger] r@[j] == records@[m[j]]);
    r
}

/// A sorted listing runs in non-decreasing (ascending) or non-increasing
/// (descending) order of the attribute's text, and records with equal text
/// keep their insertion order, that is increasing identifiers.
pub proof fn lemma_sorted_listing_ordered(
    s: Seq<Eucarinogammarus>,
    out: Seq<Eucarinogammarus>,
    c: Column,
    dir: SortDirection,
)
    requires
        ids_ordered(s),
        sorted_by(s, out, c, dir),
    ensures
        forall|i: int, j: int|
            0 <= i < j < out.len() ==> match dir {
                SortDirection::Ascending => !text_lt(#[trigger] out[j].attr(c), #[trigger] out[i].attr(c)),
                SortDirection::Descending => !text_lt(out[i].attr(c), out[j].attr(c)),
            },
        forall|i: int, j: int|
            0 <= i < j < out.len() && #[trigger] out[i].attr(c) == #[trigger] out[j].attr(c) ==> out[i].id
                < out[j].id,
{
    let order = choose|order: Seq<int>|
        {
            &&& is_sorted_order(s, c, dir, order)
            &&& out.len() == s.len()
            &&& forall|k: int| 0 <= k < out.len() ==> #[trigger] out[k] == s[order[k]]
        };
    assert forall|i: int, j: int| 0 <= i < j < out.len() implies match dir {
        SortDirection::Ascending => !text_lt(#[trigger] out[j].attr(c), #[trigger] out[i].attr(c)),
        SortDirection::Descending => !text_lt(out[i].attr(c), out[j].attr(c)),
    } && (out[i].attr(c) == out[j].attr(c) ==> out[i].id < out[j].id) by {
        assert(out[i] == s[order[i]]);
        assert(out[j] == s[order[j]]);
        assert(precedes(s, c, dir, order[i], order[j]));
        lemma_text_lt_total(out[i].attr(c), out[j].attr(c));
        lemma_text_lt_irreflexive(out[i].attr(c));
        if out[i].attr(c) == out[j].attr(c) {
            assert(order[i] < order[j]);
        }
    }
}

} // verus!
