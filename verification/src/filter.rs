//! The filter engine: narrows the source list to the lines matching the
//! current query.
//!
//! An empty query leaves the source list unchanged.  A non-empty query is
//! compiled as a regular expression and matched unanchored against every
//! line; the matching lines are returned in their original order.  A query
//! that does not compile yields no list at all, and the caller keeps the
//! previous one.

use vstd::prelude::*;

use crate::pattern::{pattern_valid, pattern_match, pattern_compiles, pattern_matches};

verus! {

/// A query the engine can act on: either empty (identity) or a valid pattern.
pub open spec fn query_ok(q: Seq<char>) -> bool {
    q.len() == 0 || pattern_valid(q)
}

/// What filtering means: the empty query is the identity, any other query
/// keeps exactly the lines it matches, in their original order.
pub open spec fn filter_spec(lines: Seq<String>, q: Seq<char>) -> Seq<String> {
    if q.len() == 0 {
        lines
    } else {
        lines.filter(|l: String| pattern_match(q, l@))
    }
}

/// Narrows `lines` to the lines matching `query`; `None` exactly when the
/// query is neither empty nor a valid pattern.
pub fn filter(lines: &Vec<String>, query: &str) -> (r: Option<Vec<String>>)
    ensures
        r is Some <==> query_ok(query@),
        r matches Some(f) ==> f@ == filter_spec(lines@, query@),
{
    if query.is_empty() {
        return Some(clone_lines(lines));
    }
    if !pattern_compiles(query) {
        return None;
    }
    let mut out: Vec<String> = Vec::new();
    let n: usize = lines.len();
    for i in 0..n
        invariant
            n == lines@.len(),
            query@.len() > 0,
            pattern_valid(query@),
            out@ == filter_spec(lines@.take(i as int), query@),
    {
        if pattern_matches(query, &lines[i]) {
            out.push(lines[i].clone());
        }
        proof {
            assert(lines@.take(i + 1) =~= lines@.take(i as int).push(lines@[i as int]));
            lemma_filter_spec_push(lines@.take(i as int), query@, lines@[i as int]);
        }
    }
    proof {
        assert(lines@.take(n as int) =~= lines@);
    }
    Some(out)
}

/// An element-wise copy of `lines`.
pub(crate) fn clone_lines(lines: &Vec<String>) -> (r: Vec<String>)
    ensures
        r@ == lines@,
{
    let mut out: Vec<String> = Vec::new();
    let n: usize = lines.len();
    for i in 0..n
        invariant
            n == lines@.len(),
            out@ == lines@.take(i as int),
    {
        out.push(lines[i].clone());
        proof {
            assert(lines@.take(i + 1) =~= lines@.take(i as int).push(lines@[i as int]));
        }
    }
    proof {
        assert(lines@.take(n as int) =~= lines@);
    }
    out
}

/// Appending a line to the source extends the filtered list with that line
/// exactly when the line matches.
proof fn lemma_filter_spec_push(lines: Seq<String>, q: Seq<char>, l: String)
    requires
        q.len() > 0,
    ensures
        filter_spec(lines.push(l), q) == if pattern_match(q, l@) {
            filter_spec(lines, q).push(l)
        } else {
            filter_spec(lines, q)
        },
{
    broadcast use vstd::prelude::Seq::lemma_filter_push;

    let pred = |x: String| pattern_match(q, x@);
    assert(filter_spec(lines.push(l), q) == lines.push(l).filter(pred));
    assert(pred(l) == pattern_match(q, l@));
}

/// Filtering with the empty query returns the source list unchanged.
pub proof fn lemma_filter_empty_query(lines: Seq<String>)
    ensures
        filter_spec(lines, Seq::<char>::empty()) == lines,
{
}

/// For a non-empty query, the filtered list holds exactly the matching
/// lines: every kept line matches and comes from the source, and every
/// matching source line is kept.
pub proof fn lemma_filter_exact_matches(lines: Seq<String>, q: Seq<char>)
    requires
        q.len() > 0,
    ensures
        forall|j: int|
            0 <= j < filter_spec(lines, q).len() ==> pattern_match(
                q,
                (#[trigger] filter_spec(lines, q)[j])@,
            ),
        forall|j: int|
            0 <= j < filter_spec(lines, q).len() ==> lines.contains(
                #[trigger] filter_spec(lines, q)[j],
            ),
        forall|i: int|
            0 <= i < lines.len() && pattern_match(q, (#[trigger] lines[i])@)
                ==> filter_spec(lines, q).contains(lines[i]),
        filter_spec(lines, q).len() <= lines.len(),
{
    broadcast use vstd::seq_lib::group_filter_ensures;

    let pred = |l: String| pattern_match(q, l@);
    assert forall|j: int| 0 <= j < filter_spec(lines, q).len() implies lines.contains(
        #[trigger] filter_spec(lines, q)[j],
    ) by {
        let out = lines.filter(pred);
        assert(out.contains(out[j]));
        lines.lemma_filter_contains_rev(pred, out[j]);
    }
}

/// The index sequence `idx` witnesses that the filtered list is an
/// order-preserving subsequence of `lines` made of exactly the matching
/// positions.
pub open spec fn filter_witness(idx: Seq<int>, lines: Seq<String>, q: Seq<char>) -> bool {
    let out = filter_spec(lines, q);
    &&& idx.len() == out.len()
    &&& forall|j: int| 0 <= j < idx.len() ==> 0 <= #[trigger] idx[j] < lines.len()
    &&& forall|j: int| 0 <= j < idx.len() ==> out[j] == lines[#[trigger] idx[j]]
    &&& forall|j: int, k: int| 0 <= j < k < idx.len() ==> #[trigger] idx[j] < #[trigger] idx[k]
    &&& forall|i: int|
        0 <= i < lines.len() ==> (idx.contains(i) <==> pattern_match(q, (#[trigger] lines[i])@))
}

/// For a non-empty query, the filtered list is an order-preserving
/// subsequence of the source: some strictly increasing index sequence picks
/// it out, and it picks exactly the matching positions.
pub proof fn lemma_filter_subsequence(lines: Seq<String>, q: Seq<char>)
    requires
        q.len() > 0,
    ensures
        exists|idx: Seq<int>| filter_witness(idx, lines, q),
    decreases lines.len(),
{
    let pred = |l: String| pattern_match(q, l@);
    reveal(Seq::filter);
    if lines.len() == 0 {
        let idx = Seq::<int>::empty();
        assert(filter_witness(idx, lines, q));
    } else {
        let head = lines.drop_last();
        let last = lines.last();
        lemma_filter_subsequence(head, q);
        let idx0 = choose|idx0: Seq<int>| filter_witness(idx0, head, q);
        assert(forall|i: int| 0 <= i < head.len() ==> head[i] == lines[i]);
        if pred(last) {
            let idx = idx0.push(lines.len() - 1);
            assert forall|i: int| 0 <= i < lines.len() implies (idx.contains(i) <==> pattern_match(
                q,
                (lines[i])@,
            )) by {
                if i < lines.len() - 1 {
                    assert(idx.contains(i) <==> idx0.contains(i)) by {
                        if idx0.contains(i) {
                            let j = choose|j: int| 0 <= j < idx0.len() && idx0[j] == i;
                            assert(idx[j] == i);
                        }
                        if idx.contains(i) {
                            let j = choose|j: int| 0 <= j < idx.len() && idx[j] == i;
                            assert(0 <= j < idx0.len() && idx0[j] == i);
                        }
                    }
                } else {
                    assert(idx[idx.len() - 1] == i);
                }
            }
            assert(filter_witness(idx, lines, q));
        } else {
            assert forall|i: int| 0 <= i < lines.len() implies (idx0.contains(i)
                <==> pattern_match(q, (lines[i])@)) by {
                if i == lines.len() - 1 {
                    if idx0.contains(i) {
                        let j = choose|j: int| 0 <= j < idx0.len() && idx0[j] == i;
                        assert(0 <= idx0[j] < head.len());
                    }
                }
            }
            assert(filter_witness(idx0, lines, q));
        }
    }
}

/// Filtering a sequence every element of which satisfies the predicate
/// returns it unchanged.
proof fn lemma_filter_all_identity<A>(s: Seq<A>, pred: spec_fn(A) -> bool)
    requires
        forall|i: int| 0 <= i < s.len() ==> pred(#[trigger] s[i]),
    ensures
        s.filter(pred) == s,
    decreases s.len(),
{
    reveal(Seq::filter);
    if s.len() > 0 {
        lemma_filter_all_identity(s.drop_last(), pred);
        assert(s.filter(pred) =~= s);
    }
}

/// Re-applying an unchanged query to its own output is a fixed point:
/// filtering the filtered list again, with the same query, changes nothing.
pub proof fn lemma_filter_fixed_point(lines: Seq<String>, q: Seq<char>)
    ensures
        filter_spec(filter_spec(lines, q), q) == filter_spec(lines, q),
{
    if q.len() > 0 {
        broadcast use vstd::seq_lib::group_filter_ensures;

        let pred = |l: String| pattern_match(q, l@);
        lemma_filter_all_identity(lines.filter(pred), pred);
    }
}

} // verus!
