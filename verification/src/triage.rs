//! Triage: the scores a model gave the issues are written onto them, and the
//! issues are ranked, most fixable first.

use vstd::prelude::*;

verus! {

broadcast use vstd::seq_lib::group_to_multiset_ensures;

/// What triage reads and writes of one issue. `position` is where the issue
/// stood in the caller's list, so that the caller can reorder its records.
#[derive(Clone, Debug)]
pub struct TriageIssue {
    pub position: usize,
    pub id: Option<i64>,
    pub fixability_score: Option<i64>,
    pub fixability_reason: Option<String>,
}

/// One entry of the model's answer: the issue it is about, its score and the
/// reason given (each as far as it was there with the expected type).
#[derive(Clone, Debug)]
pub struct ScoreEntry {
    pub id: Option<i64>,
    pub score: Option<i64>,
    pub reason: Option<String>,
}

/// The entry that counts for issue `id`: the last one that names it.
pub open spec fn entry_for(scores: Seq<ScoreEntry>, id: i64) -> Option<ScoreEntry>
    decreases scores.len(),
{
    if scores.len() == 0 {
        None
    } else if scores.last().id == Some(id) {
        Some(scores.last())
    } else {
        entry_for(scores.drop_last(), id)
    }
}

/// An issue with the score and reason of its entry, when there is one.
pub open spec fn scored(issue: TriageIssue, scores: Seq<ScoreEntry>) -> TriageIssue {
    match issue.id {
        Some(id) => match entry_for(scores, id) {
            Some(e) => TriageIssue {
                fixability_score: e.score,
                fixability_reason: e.reason,
                ..issue
            },
            None => issue,
        },
        None => issue,
    }
}

/// The rank of an issue: its score, 0 when it has none.
pub open spec fn rank(i: TriageIssue) -> int {
    match i.fixability_score {
        Some(s) => s as int,
        None => 0,
    }
}

/// `x` put into the ranked `s` after every issue ranked at least as high.
pub open spec fn insert_ranked(s: Seq<TriageIssue>, x: TriageIssue) -> Seq<TriageIssue>
    decreases s.len(),
{
    if s.len() == 0 {
        seq![x]
    } else if rank(s.last()) >= rank(x) {
        s.push(x)
    } else {
        insert_ranked(s.drop_last(), x).push(s.last())
    }
}

/// The issues ranked highest first; issues of equal rank keep their order
/// (a stable sort, as `sort_by` is).
pub open spec fn ranked(s: Seq<TriageIssue>) -> Seq<TriageIssue>
    decreases s.len(),
{
    if s.len() == 0 {
        Seq::empty()
    } else {
        insert_ranked(ranked(s.drop_last()), s.last())
    }
}

pub open spec fn descending(s: Seq<TriageIssue>) -> bool {
    forall|i: int, j: int| 0 <= i < j < s.len() ==> rank(s[i]) >= rank(s[j])
}

proof fn lemma_insert_at(s: Seq<TriageIssue>, x: TriageIssue, j: int)
    requires
        0 <= j <= s.len(),
        forall|k: int| j <= k < s.len() ==> rank(s[k]) < rank(x),
        j > 0 ==> rank(s[j - 1]) >= rank(x),
    ensures
        insert_ranked(s, x) == s.insert(j, x),
    decreases s.len(),
{
    if s.len() == 0 {
        assert(s.insert(j, x) =~= seq![x]);
    } else if j == s.len() {
        assert(s.insert(j, x) =~= s.push(x));
    } else {
        lemma_insert_at(s.drop_last(), x, j);
        assert(s.drop_last().insert(j, x).push(s.last()) =~= s.insert(j, x));
    }
}

proof fn lemma_insert_sorted(s: Seq<TriageIssue>, x: TriageIssue)
    requires
        descending(s),
    ensures
        descending(insert_ranked(s, x)),
        insert_ranked(s, x).to_multiset() == s.to_multiset().insert(x),
        insert_ranked(s, x).len() == s.len() + 1,
        s.len() > 0 ==> rank(insert_ranked(s, x).last()) == rank(s.last()) || insert_ranked(
            s,
            x,
        ).last() == x,
    decreases s.len(),
{
    if s.len() == 0 {
        assert(seq![x] =~= Seq::<TriageIssue>::empty().push(x));
    } else if rank(s.last()) >= rank(x) {
    } else {
        let t = s.drop_last();
        lemma_insert_sorted(t, x);
        let r = insert_ranked(t, x);
        assert forall|i: int, j: int| 0 <= i < j < r.push(s.last()).len() implies rank(
            r.push(s.last())[i],
        ) >= rank(r.push(s.last())[j]) by {
            if j == r.len() {
                assert(r.to_multiset().count(r[i]) > 0);
                assert(t.to_multiset().insert(x).count(r[i]) > 0);
                if r[i] != x {
                    assert(t.to_multiset().count(r[i]) > 0);
                    let k = choose|k: int| 0 <= k < t.len() && t[k] == r[i];
                    assert(t[k] == s[k]);
                }
            }
        }
        assert(s =~= t.push(s.last()));
    }
}

/// Ranking sorts highest first and neither loses nor adds an issue.
pub proof fn ranking_sorts_and_permutes(s: Seq<TriageIssue>)
    ensures
        descending(ranked(s)),
        ranked(s).to_multiset() == s.to_multiset(),
        ranked(s).len() == s.len(),
    decreases s.len(),
{
    if s.len() > 0 {
        ranking_sorts_and_permutes(s.drop_last());
        lemma_insert_sorted(ranked(s.drop_last()), s.last());
        assert(s =~= s.drop_last().push(s.last()));
    }
}

fn rank_of(i: &TriageIssue) -> (res: i64)
    ensures
        res == rank(*i),
{
    match i.fixability_score {
        Some(s) => s,
        None => 0,
    }
}

fn entry_for_exec(scores: &Vec<ScoreEntry>, id: i64) -> (res: Option<usize>)
    ensures
        match res {
            Some(k) => k < scores.len() && entry_for(scores@, id) == Some(scores@[k as int]),
            None => entry_for(scores@, id) is None,
        },
{
    let mut k = scores.len();
    assert(scores@.take(k as int) =~= scores@);
    while k > 0
        invariant
            k <= scores.len(),
            entry_for(scores@, id) == entry_for(scores@.take(k as int), id),
        decreases k,
    {
        let ghost t = scores@.take(k as int);
        assert(t.drop_last() =~= scores@.take(k - 1));
        if scores[k - 1].id == Some(id) {
            return Some(k - 1);
        }
        k -= 1;
    }
    None
}

/// Writes its entry's score and reason onto an issue.
pub fn apply_score(issue: TriageIssue, scores: &Vec<ScoreEntry>) -> (res: TriageIssue)
    ensures
        res == scored(issue, scores@),
{
    match issue.id {
        Some(id) => match entry_for_exec(scores, id) {
            Some(k) => TriageIssue {
                fixability_score: scores[k].score,
                fixability_reason: crate::text::clone_opt(&scores[k].reason),
                ..issue
            },
            None => issue,
        },
        None => issue,
    }
}

/// Scores the issues and ranks them, most fixable first; issues of equal
/// score keep their order.
pub fn score_and_rank(issues: Vec<TriageIssue>, scores: &Vec<ScoreEntry>) -> (res: Vec<
    TriageIssue,
>)
    ensures
        res@ == ranked(issues@.map_values(|i: TriageIssue| scored(i, scores@))),
{
    let ghost input = issues@.map_values(|i: TriageIssue| scored(i, scores@));
    let mut rest = issues;
    let ghost orig = rest@;
    let mut out: Vec<TriageIssue> = Vec::new();
    let mut n: usize = 0;
    assert(orig.len() == rest.len());
    while rest.len() > 0
        invariant
            input == orig.map_values(|i: TriageIssue| scored(i, scores@)),
            n + rest.len() == orig.len(),
            orig.len() <= usize::MAX,
            rest@ == orig.skip(n as int),
            out@ == ranked(input.take(n as int)),
        decreases rest.len(),
    {
        let item = rest.remove(0);
        assert(item == orig[n as int]);
        let x = apply_score(item, scores);
        let key = rank_of(&x);
        let mut j = out.len();
        while j > 0 && rank_of(&out[j - 1]) < key
            invariant
                j <= out.len(),
                key == rank(x),
                forall|k: int| j <= k < out@.len() ==> rank(out@[k]) < rank(x),
            decreases j,
        {
            j -= 1;
        }
        proof {
            lemma_insert_at(out@, x, j as int);
            let t = input.take(n + 1);
            assert(t.drop_last() =~= input.take(n as int));
            assert(t.last() == x);
        }
        out.insert(j, x);
        assert(rest@ =~= orig.skip(n + 1));
        n += 1;
    }
    assert(input.take(n as int) =~= input);
    out
}

} // verus!
