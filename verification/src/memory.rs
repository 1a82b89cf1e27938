//! RepoMemory context for patch generation, and the FailGuard lesson
//! candidate that a Smith rejection produces.

use vstd::prelude::*;
use crate::issue::IssueScope;
use crate::text::{
    before_first, before_first_exec, chars_of, int_decimal, is_blank, join, join_exec, lines,
    lines_exec, push_all, push_decimal, push_range, push_str, starts_with, starts_with_exec,
    string_from_chars, trim, trim_bounds, chars_eq,
};

verus! {

/// One remembered fact about a repository.
#[derive(Clone, Debug)]
pub struct RepoMemoryEntry {
    pub kind: String,
    pub prompt_line: String,
    pub disposition: String,
    pub pinned: bool,
}

/// What RepoMemory returns for a repository.
#[derive(Clone, Debug)]
pub struct RepoMemoryContext {
    pub entries: Vec<RepoMemoryEntry>,
    pub summary: String,
}

/// The most entries of a context that go into the prompt.
pub const MEMORY_ENTRY_LIMIT: usize = 6;

pub open spec fn is_policy(e: RepoMemoryEntry) -> bool {
    e.disposition@ == "policy"@
}

/// Pinned entries and policies are curated by an operator; the rest are
/// retrieved signals.
pub open spec fn is_curated(e: RepoMemoryEntry) -> bool {
    e.pinned || is_policy(e)
}

pub open spec fn entry_prefix(e: RepoMemoryEntry) -> Seq<char> {
    if e.pinned && is_policy(e) {
        "[pinned policy]"@
    } else if e.pinned {
        "[pinned]"@
    } else if is_policy(e) {
        "[policy]"@
    } else {
        Seq::empty()
    }
}

/// The prompt line of an entry: `- [kind] line`, with its prefix after the dash.
pub open spec fn entry_line(e: RepoMemoryEntry) -> Seq<char> {
    let p = entry_prefix(e);
    if p.len() == 0 {
        "- ["@ + e.kind@ + "] "@ + e.prompt_line@
    } else {
        "- "@ + p + " ["@ + e.kind@ + "] "@ + e.prompt_line@
    }
}

/// The lines of the entries for which `curated(e) == want`, in order.
pub open spec fn memory_lines(es: Seq<RepoMemoryEntry>, want: bool) -> Seq<Seq<char>>
    decreases es.len(),
{
    if es.len() == 0 {
        Seq::empty()
    } else {
        let prev = memory_lines(es.drop_last(), want);
        if is_curated(es.last()) == want {
            prev.push(entry_line(es.last()))
        } else {
            prev
        }
    }
}

pub open spec fn memory_sections(es: Seq<RepoMemoryEntry>) -> Seq<Seq<char>> {
    let curated = memory_lines(es, true);
    let signal = memory_lines(es, false);
    let a = if curated.len() > 0 {
        seq!["Operator-curated memory:\n"@ + join(curated, "\n"@)]
    } else {
        Seq::empty()
    };
    if signal.len() > 0 {
        a.push("Retrieved signals:\n"@ + join(signal, "\n"@))
    } else {
        a
    }
}

/// The prompt block for a RepoMemory context: empty without a context or
/// without entries; otherwise the curated and retrieved lines of its first
/// six entries, then its summary.
pub open spec fn repo_memory_block(ctx: Option<RepoMemoryContext>) -> Seq<char> {
    match ctx {
        None => Seq::empty(),
        Some(c) => if c.entries@.len() == 0 {
            Seq::empty()
        } else {
            let es = c.entries@.take(
                if c.entries@.len() < 6 {
                    c.entries@.len() as int
                } else {
                    6
                },
            );
            "RepoMemory says the latest durable context for this repo is:\n"@ + join(
                memory_sections(es),
                "\n\n"@,
            ) + "\n\nSummary: "@ + c.summary@
        },
    }
}

fn is_policy_exec(e: &RepoMemoryEntry) -> (res: bool)
    ensures
        res == is_policy(*e),
{
    let d = chars_of(e.disposition.as_str());
    let p = chars_of("policy");
    chars_eq(&d, &p)
}

fn entry_line_exec(e: &RepoMemoryEntry) -> (res: Vec<char>)
    ensures
        res@ == entry_line(*e),
{
    let policy = is_policy_exec(e);
    let mut out: Vec<char> = Vec::new();
    if !e.pinned && !policy {
        push_str(&mut out, "- [");
    } else {
        push_str(&mut out, "- ");
        if e.pinned && policy {
            push_str(&mut out, "[pinned policy]");
        } else if e.pinned {
            push_str(&mut out, "[pinned]");
        } else {
            push_str(&mut out, "[policy]");
        }
        push_str(&mut out, " [");
    }
    push_str(&mut out, e.kind.as_str());
    push_str(&mut out, "] ");
    push_str(&mut out, e.prompt_line.as_str());
    proof {
        reveal_strlit("[pinned policy]");
        reveal_strlit("[pinned]");
        reveal_strlit("[policy]");
        assert(out@ =~= entry_line(*e));
    }
    out
}

/// The prompt block for a RepoMemory context (see [`repo_memory_block`]).
pub fn build_repo_memory_block(context: Option<&RepoMemoryContext>) -> (res: String)
    ensures
        res@ == repo_memory_block(
            match context {
                Some(c) => Some(*c),
                None => None,
            },
        ),
{
    let ctx = match context {
        None => {
            return String::new();
        },
        Some(c) => c,
    };
    if ctx.entries.len() == 0 {
        return String::new();
    }
    let n = if ctx.entries.len() < MEMORY_ENTRY_LIMIT {
        ctx.entries.len()
    } else {
        MEMORY_ENTRY_LIMIT
    };
    let ghost es = ctx.entries@.take(n as int);
    let mut curated: Vec<Vec<char>> = Vec::new();
    let mut signal: Vec<Vec<char>> = Vec::new();
    let mut i: usize = 0;
    while i < n
        invariant
            n <= ctx.entries.len(),
            i <= n,
            es == ctx.entries@.take(n as int),
            curated@.map_values(|l: Vec<char>| l@) == memory_lines(es.take(i as int), true),
            signal@.map_values(|l: Vec<char>| l@) == memory_lines(es.take(i as int), false),
        decreases n - i,
    {
        let e = &ctx.entries[i];
        let line = entry_line_exec(e);
        let ghost t = es.take(i + 1);
        assert(t.drop_last() =~= es.take(i as int));
        assert(t.last() == *e);
        if e.pinned || is_policy_exec(e) {
            curated.push(line);
        } else {
            signal.push(line);
        }
        assert(curated@.map_values(|l: Vec<char>| l@) =~= memory_lines(t, true));
        assert(signal@.map_values(|l: Vec<char>| l@) =~= memory_lines(t, false));
        i += 1;
    }
    assert(es.take(n as int) =~= es);
    let mut sections: Vec<Vec<char>> = Vec::new();
    if curated.len() > 0 {
        let mut sec: Vec<char> = Vec::new();
        push_str(&mut sec, "Operator-curated memory:\n");
        let body = join_exec(&curated, "\n");
        push_all(&mut sec, &body);
        sections.push(sec);
    }
    if signal.len() > 0 {
        let mut sec: Vec<char> = Vec::new();
        push_str(&mut sec, "Retrieved signals:\n");
        let body = join_exec(&signal, "\n");
        push_all(&mut sec, &body);
        sections.push(sec);
    }
    assert(sections@.map_values(|l: Vec<char>| l@) =~= memory_sections(es));
    let mut out: Vec<char> = Vec::new();
    push_str(&mut out, "RepoMemory says the latest durable context for this repo is:\n");
    let joined = join_exec(&sections, "\n\n");
    push_all(&mut out, &joined);
    push_str(&mut out, "\n\nSummary: ");
    push_str(&mut out, ctx.summary.as_str());
    assert(out@ =~= repo_memory_block(Some(*ctx)));
    string_from_chars(&out)
}

// ---------------------------------------------------------------------------
// Paths named by a unified diff
// ---------------------------------------------------------------------------

/// The path that a `diff --git a/<path> b/<path>` line names, trimmed.
pub open spec fn diff_line_path(l: Seq<char>) -> Option<Seq<char>> {
    if starts_with(l, "diff --git a/"@) {
        Some(trim(before_first(l.skip(13), " b/"@)))
    } else {
        None
    }
}

/// The distinct non-empty paths named by the `diff --git` lines of `ls`, in
/// order of first appearance.
pub open spec fn paths_of_lines(ls: Seq<Seq<char>>) -> Seq<Seq<char>>
    decreases ls.len(),
{
    if ls.len() == 0 {
        Seq::empty()
    } else {
        let prev = paths_of_lines(ls.drop_last());
        match diff_line_path(ls.last()) {
            Some(p) => if p.len() > 0 && !prev.contains(p) {
                prev.push(p)
            } else {
                prev
            },
            None => prev,
        }
    }
}

pub open spec fn diff_paths_spec(patch: Seq<char>) -> Seq<Seq<char>> {
    paths_of_lines(lines(patch))
}

/// Whether `v` already holds a buffer equal to `x`.
fn holds(v: &Vec<Vec<char>>, x: &Vec<char>) -> (res: bool)
    ensures
        res == v@.map_values(|l: Vec<char>| l@).contains(x@),
{
    let ghost views = v@.map_values(|l: Vec<char>| l@);
    let mut i: usize = 0;
    while i < v.len()
        invariant
            i <= v.len(),
            views == v@.map_values(|l: Vec<char>| l@),
            forall|k: int| 0 <= k < i ==> views[k] != x@,
        decreases v.len() - i,
    {
        if chars_eq(&v[i], x) {
            assert(views[i as int] == x@);
            return true;
        }
        i += 1;
    }
    false
}

fn to_strings(v: &Vec<Vec<char>>) -> (res: Vec<String>)
    ensures
        res@.map_values(|s: String| s@) == v@.map_values(|l: Vec<char>| l@),
{
    let mut out: Vec<String> = Vec::new();
    let mut i: usize = 0;
    while i < v.len()
        invariant
            i <= v.len(),
            out@.map_values(|s: String| s@) == v@.map_values(|l: Vec<char>| l@).take(i as int),
        decreases v.len() - i,
    {
        let ghost prev = out@.map_values(|s: String| s@);
        let s = string_from_chars(&v[i]);
        out.push(s);
        assert(out@.map_values(|s: String| s@) =~= prev.push(v@[i as int]@));
        assert(v@.map_values(|l: Vec<char>| l@).take(i + 1) =~= v@.map_values(|l: Vec<char>| l@).take(i as int).push(v@[i as int]@));
        i += 1;
    }
    assert(v@.map_values(|l: Vec<char>| l@).take(v.len() as int) =~= v@.map_values(
        |l: Vec<char>| l@,
    ));
    out
}

fn diff_paths_chars(patch_diff: &str) -> (res: Vec<Vec<char>>)
    ensures
        res@.map_values(|l: Vec<char>| l@) == diff_paths_spec(patch_diff@),
{
    let v = chars_of(patch_diff);
    let ls = lines_exec(&v);
    let ghost lv = ls@.map_values(|l: Vec<char>| l@);
    let prefix = chars_of("diff --git a/");
    let sep = chars_of(" b/");
    proof {
        reveal_strlit("diff --git a/");
    }
    assert(prefix@.len() == 13);
    let mut paths: Vec<Vec<char>> = Vec::new();
    let mut i: usize = 0;
    while i < ls.len()
        invariant
            i <= ls.len(),
            lv == ls@.map_values(|l: Vec<char>| l@),
            prefix@ == "diff --git a/"@,
            prefix@.len() == 13,
            sep@ == " b/"@,
            paths@.map_values(|l: Vec<char>| l@) == paths_of_lines(lv.take(i as int)),
        decreases ls.len() - i,
    {
        let line = &ls[i];
        let ghost t = lv.take(i + 1);
        assert(t.drop_last() =~= lv.take(i as int));
        assert(t.last() == line@);
        if starts_with_exec(line, &prefix) {
            let mut rest: Vec<char> = Vec::new();
            push_range(&mut rest, line, 13, line.len());
            assert(rest@ =~= line@.skip(13));
            let seg = before_first_exec(&rest, &sep);
            let (a, b) = trim_bounds(&seg);
            let mut path: Vec<char> = Vec::new();
            push_range(&mut path, &seg, a, b);
            assert(path@ =~= trim(seg@));
            if path.len() > 0 && !holds(&paths, &path) {
                paths.push(path);
            }
        }
        assert(paths@.map_values(|l: Vec<char>| l@) =~= paths_of_lines(t));
        i += 1;
    }
    assert(lv.take(ls.len() as int) =~= lv);
    paths
}

/// The distinct non-empty paths named by the `diff --git a/<path> b/...`
/// lines of a unified diff, in order of first appearance.
pub fn diff_paths(patch_diff: &str) -> (res: Vec<String>)
    ensures
        res@.map_values(|s: String| s@) == diff_paths_spec(patch_diff@),
{
    let p = diff_paths_chars(patch_diff);
    to_strings(&p)
}

// ---------------------------------------------------------------------------
// Bounded text
// ---------------------------------------------------------------------------

/// `value` trimmed; when it has more than `limit` characters, its first
/// `limit - 3` characters (none when `limit < 3`) followed by `...`.
pub open spec fn short_text_spec(value: Seq<char>, limit: nat) -> Seq<char> {
    let t = trim(value);
    if t.len() <= limit {
        t
    } else {
        t.take(if limit >= 3 { limit - 3 } else { 0 }) + "..."@
    }
}

pub fn short_text(value: &str, limit: usize) -> (res: String)
    ensures
        res@ == short_text_spec(value@, limit as nat),
{
    let v = chars_of(value);
    let (a, b) = trim_bounds(&v);
    let mut out: Vec<char> = Vec::new();
    if b - a <= limit {
        push_range(&mut out, &v, a, b);
        assert(out@ =~= short_text_spec(value@, limit as nat));
    } else {
        let keep = if limit >= 3 { limit - 3 } else { 0 };
        push_range(&mut out, &v, a, a + keep);
        push_str(&mut out, "...");
        assert(out@ =~= short_text_spec(value@, limit as nat));
    }
    string_from_chars(&out)
}

/// A shortened text is never longer than its limit, once the limit leaves
/// room for the ellipsis.
pub proof fn short_text_within_limit(value: Seq<char>, limit: nat)
    requires
        limit >= 3,
    ensures
        short_text_spec(value, limit).len() <= limit,
{
    reveal_strlit("...");
}

// ---------------------------------------------------------------------------
// FailGuard lesson candidate
// ---------------------------------------------------------------------------

/// The most paths a candidate names.
pub const AFFECTED_PATH_LIMIT: usize = 12;

/// A lesson candidate for RepoMemory's FailGuard, drawn from a patch that
/// Smith rejected.
#[derive(Clone, Debug)]
pub struct FailGuardCandidate {
    pub repo: String,
    pub source_type: String,
    pub source_ref: String,
    pub title: String,
    pub outcome: String,
    pub lesson: String,
    pub prevention: String,
    pub affected_paths: Vec<String>,
    pub evidence: Vec<String>,
    /// The candidate's confidence, in whole percent.
    pub confidence: i64,
}

/// The first twelve selected files whose trimmed name is not empty.
pub open spec fn selected_paths(sel: Seq<Seq<char>>) -> Seq<Seq<char>>
    decreases sel.len(),
{
    if sel.len() == 0 {
        Seq::empty()
    } else {
        let prev = selected_paths(sel.drop_last());
        if prev.len() < 12 && trim(sel.last()).len() > 0 {
            prev.push(sel.last())
        } else {
            prev
        }
    }
}

/// `acc` extended with the paths of `ds` it does not hold yet, up to twelve.
pub open spec fn add_paths(acc: Seq<Seq<char>>, ds: Seq<Seq<char>>) -> Seq<Seq<char>>
    decreases ds.len(),
{
    if ds.len() == 0 {
        acc
    } else {
        let prev = add_paths(acc, ds.drop_last());
        if prev.len() >= 12 || prev.contains(ds.last()) {
            prev
        } else {
            prev.push(ds.last())
        }
    }
}

/// The paths a candidate names: the selected files, then the files the diff
/// touches, twelve at most.
pub open spec fn affected_paths_spec(sel: Seq<Seq<char>>, patch: Seq<char>) -> Seq<Seq<char>> {
    add_paths(selected_paths(sel), diff_paths_spec(patch))
}

pub open spec fn feedback_text(feedback: Seq<char>) -> Seq<char> {
    if trim(feedback).len() == 0 {
        "Smith rejected the generated patch without detailed feedback."@
    } else {
        trim(feedback)
    }
}

pub open spec fn or_default(o: Option<Seq<char>>, d: Seq<char>) -> Seq<char> {
    match o {
        Some(s) => s,
        None => d,
    }
}

pub open spec fn rejection_evidence(
    run_id: Seq<char>,
    num: int,
    title: Seq<char>,
    url: Seq<char>,
    smith_confidence: int,
    min_confidence: int,
    fb: Seq<char>,
    affected: Seq<Seq<char>>,
) -> Seq<Seq<char>> {
    let base = seq![
        "RepoReaper run "@ + run_id,
        "Issue #"@ + int_decimal(num) + ": "@ + title,
        "Smith confidence: "@ + int_decimal(smith_confidence) + "% below required "@
            + int_decimal(min_confidence) + "%"@,
        "Smith feedback: "@ + fb,
    ];
    let with_url = if trim(url).len() > 0 {
        base.push(url)
    } else {
        base
    };
    if affected.len() > 0 {
        with_url.push("Affected paths: "@ + join(affected, ", "@))
    } else {
        with_url
    }
}

pub open spec fn clamp(x: int, lo: int, hi: int) -> int {
    if x < lo {
        lo
    } else if x > hi {
        hi
    } else {
        x
    }
}

/// The FailGuard candidate for a patch that Smith rejected.
pub open spec fn rejection_candidate_matches(
    c: FailGuardCandidate,
    issue_title: Option<Seq<char>>,
    issue_url: Option<Seq<char>>,
    repo: Seq<char>,
    num: int,
    selected: Seq<Seq<char>>,
    patch_diff: Seq<char>,
    feedback: Seq<char>,
    smith_confidence: int,
    min_confidence: int,
    run_id: Seq<char>,
) -> bool {
    let title = or_default(issue_title, "Untitled issue"@);
    let url = or_default(issue_url, Seq::empty());
    let fb = feedback_text(feedback);
    let affected = affected_paths_spec(selected, patch_diff);
    &&& c.repo@ == repo
    &&& c.source_type@ == "repo-reaper-rejection"@
    &&& c.source_ref@ == (if trim(url).len() == 0 {
        repo + "#"@ + int_decimal(num)
    } else {
        url
    })
    &&& c.title@ == short_text_spec("RepoReaper rejection: "@ + title, 140)
    &&& c.outcome@ == short_text_spec(
        "Smith rejected RepoReaper's patch for issue #"@ + int_decimal(num)
            + " because confidence was "@ + int_decimal(smith_confidence)
            + "% below the configured "@ + int_decimal(min_confidence)
            + "% threshold. Feedback: "@ + fb,
        320,
    )
    &&& c.lesson@ == short_text_spec(
        "A previous autonomous patch attempt failed Smith review. Future runs should account for this feedback before touching similar files: "@
            + fb,
        260,
    )
    &&& c.prevention@ == short_text_spec(
        "Before retrying similar RepoReaper work, address Smith's feedback, narrow the patch scope, and add evidence that the change fixes issue #"@
            + int_decimal(num) + " without creating the rejected risk."@,
        260,
    )
    &&& c.affected_paths@.map_values(|s: String| s@) == affected
    &&& c.evidence@.map_values(|s: String| s@) == rejection_evidence(
        run_id,
        num,
        title,
        url,
        smith_confidence,
        min_confidence,
        fb,
        affected,
    )
    &&& c.confidence == clamp(100 - smith_confidence, 55, 92)
}

fn selected_paths_exec(selected: &[String]) -> (res: Vec<Vec<char>>)
    ensures
        res@.map_values(|l: Vec<char>| l@) == selected_paths(
            selected@.map_values(|s: String| s@),
        ),
        res@.len() <= 12,
{
    let ghost sv = selected@.map_values(|s: String| s@);
    let mut out: Vec<Vec<char>> = Vec::new();
    let mut i: usize = 0;
    while i < selected.len()
        invariant
            i <= selected@.len(),
            sv == selected@.map_values(|s: String| s@),
            out@.map_values(|l: Vec<char>| l@) == selected_paths(sv.take(i as int)),
            out@.len() <= 12,
        decreases selected@.len() - i,
    {
        let ghost t = sv.take(i + 1);
        assert(t.drop_last() =~= sv.take(i as int));
        assert(t.last() == selected@[i as int]@);
        if out.len() < AFFECTED_PATH_LIMIT && !is_blank(selected[i].as_str()) {
            out.push(chars_of(selected[i].as_str()));
        }
        assert(out@.map_values(|l: Vec<char>| l@) =~= selected_paths(t));
        i += 1;
    }
    assert(sv.take(selected@.len() as int) =~= sv);
    out
}

fn affected_paths_exec(selected: &[String], patch_diff: &str) -> (res: Vec<Vec<char>>)
    ensures
        res@.map_values(|l: Vec<char>| l@) == affected_paths_spec(
            selected@.map_values(|s: String| s@),
            patch_diff@,
        ),
{
    let mut out = selected_paths_exec(selected);
    let ghost acc = out@.map_values(|l: Vec<char>| l@);
    let ds = diff_paths_chars(patch_diff);
    let ghost dv = ds@.map_values(|l: Vec<char>| l@);
    let mut i: usize = 0;
    assert(dv.take(0) =~= Seq::<Seq<char>>::empty());
    while i < ds.len()
        invariant
            i <= ds.len(),
            dv == ds@.map_values(|l: Vec<char>| l@),
            out@.map_values(|l: Vec<char>| l@) == add_paths(acc, dv.take(i as int)),
        decreases ds.len() - i,
    {
        let ghost t = dv.take(i + 1);
        assert(t.drop_last() =~= dv.take(i as int));
        assert(t.last() == ds@[i as int]@);
        if out.len() < AFFECTED_PATH_LIMIT && !holds(&out, &ds[i]) {
            let mut p: Vec<char> = Vec::new();
            push_all(&mut p, &ds[i]);
            out.push(p);
        }
        assert(out@.map_values(|l: Vec<char>| l@) =~= add_paths(acc, t));
        i += 1;
    }
    assert(dv.take(ds.len() as int) =~= dv);
    out
}

fn push_string(out: &mut Vec<String>, v: &Vec<char>)
    ensures
        final(out)@.map_values(|s: String| s@) == old(out)@.map_values(|s: String| s@).push(v@),
{
    let ghost prev = out@.map_values(|s: String| s@);
    out.push(string_from_chars(v));
    assert(out@.map_values(|s: String| s@) =~= prev.push(v@));
}

/// The FailGuard lesson candidate for a patch that Smith rejected with
/// `smith_confidence`, below the required `min_confidence`.
pub fn build_smith_rejection_candidate(
    issue_title: Option<&str>,
    issue_url: Option<&str>,
    scope: &IssueScope,
    selected_files: &[String],
    patch_diff: &str,
    feedback: &str,
    smith_confidence: i32,
    min_confidence: i32,
    run_id: &str,
) -> (res: FailGuardCandidate)
    ensures
        rejection_candidate_matches(
            res,
            match issue_title {
                Some(t) => Some(t@),
                None => None,
            },
            match issue_url {
                Some(u) => Some(u@),
                None => None,
            },
            scope.repo@,
            scope.issue_num as int,
            selected_files@.map_values(|s: String| s@),
            patch_diff@,
            feedback@,
            smith_confidence as int,
            min_confidence as int,
            run_id@,
        ),
{
    let title: &str = match issue_title {
        Some(t) => t,
        None => "Untitled issue",
    };
    let url: &str = match issue_url {
        Some(u) => u,
        None => "",
    };
    proof {
        reveal_strlit("");
    }
    let url_blank = is_blank(url);
    let source_ref = if url_blank {
        let mut r: Vec<char> = Vec::new();
        push_str(&mut r, scope.repo.as_str());
        push_str(&mut r, "#");
        push_decimal(&mut r, scope.issue_num);
        string_from_chars(&r)
    } else {
        url.to_owned()
    };
    let affected = affected_paths_exec(selected_files, patch_diff);
    let fbv = chars_of(feedback);
    let (a, b) = trim_bounds(&fbv);
    let mut fb: Vec<char> = Vec::new();
    if a == b {
        push_str(&mut fb, "Smith rejected the generated patch without detailed feedback.");
    } else {
        push_range(&mut fb, &fbv, a, b);
    }
    assert(fb@ =~= feedback_text(feedback@));
    let mut evidence: Vec<String> = Vec::new();
    let mut e1: Vec<char> = Vec::new();
    push_str(&mut e1, "RepoReaper run ");
    push_str(&mut e1, run_id);
    push_string(&mut evidence, &e1);
    let mut e2: Vec<char> = Vec::new();
    push_str(&mut e2, "Issue #");
    push_decimal(&mut e2, scope.issue_num);
    push_str(&mut e2, ": ");
    push_str(&mut e2, title);
    push_string(&mut evidence, &e2);
    let mut e3: Vec<char> = Vec::new();
    push_str(&mut e3, "Smith confidence: ");
    push_decimal(&mut e3, smith_confidence as i64);
    push_str(&mut e3, "% below required ");
    push_decimal(&mut e3, min_confidence as i64);
    push_str(&mut e3, "%");
    push_string(&mut evidence, &e3);
    let mut e4: Vec<char> = Vec::new();
    push_str(&mut e4, "Smith feedback: ");
    push_all(&mut e4, &fb);
    push_string(&mut evidence, &e4);
    if !url_blank {
        let uv = chars_of(url);
        push_string(&mut evidence, &uv);
    }
    if affected.len() > 0 {
        let mut e6: Vec<char> = Vec::new();
        push_str(&mut e6, "Affected paths: ");
        let joined = join_exec(&affected, ", ");
        push_all(&mut e6, &joined);
        push_string(&mut evidence, &e6);
    }
    let ghost title_v = title@;
    let ghost url_v = url@;
    assert(evidence@.map_values(|s: String| s@) =~= rejection_evidence(
        run_id@,
        scope.issue_num as int,
        title_v,
        url_v,
        smith_confidence as int,
        min_confidence as int,
        fb@,
        affected@.map_values(|l: Vec<char>| l@),
    ));
    let mut t: Vec<char> = Vec::new();
    push_str(&mut t, "RepoReaper rejection: ");
    push_str(&mut t, title);
    let mut o: Vec<char> = Vec::new();
    push_str(&mut o, "Smith rejected RepoReaper's patch for issue #");
    push_decimal(&mut o, scope.issue_num);
    push_str(&mut o, " because confidence was ");
    push_decimal(&mut o, smith_confidence as i64);
    push_str(&mut o, "% below the configured ");
    push_decimal(&mut o, min_confidence as i64);
    push_str(&mut o, "% threshold. Feedback: ");
    push_all(&mut o, &fb);
    let mut l: Vec<char> = Vec::new();
    push_str(
        &mut l,
        "A previous autonomous patch attempt failed Smith review. Future runs should account for this feedback before touching similar files: ",
    );
    push_all(&mut l, &fb);
    let mut p: Vec<char> = Vec::new();
    push_str(
        &mut p,
        "Before retrying similar RepoReaper work, address Smith's feedback, narrow the patch scope, and add evidence that the change fixes issue #",
    );
    push_decimal(&mut p, scope.issue_num);
    push_str(&mut p, " without creating the rejected risk.");
    let raw: i64 = 100 - (smith_confidence as i64);
    let confidence: i64 = if raw < 55 {
        55
    } else if raw > 92 {
        92
    } else {
        raw
    };
    FailGuardCandidate {
        repo: scope.repo.clone(),
        source_type: "repo-reaper-rejection".to_owned(),
        source_ref,
        title: short_text(string_from_chars(&t).as_str(), 140),
        outcome: short_text(string_from_chars(&o).as_str(), 320),
        lesson: short_text(string_from_chars(&l).as_str(), 260),
        prevention: short_text(string_from_chars(&p).as_str(), 260),
        affected_paths: to_strings(&affected),
        evidence,
        confidence,
    }
}

/// A candidate never names more than twelve paths.
pub proof fn affected_paths_bounded(sel: Seq<Seq<char>>, patch: Seq<char>)
    ensures
        affected_paths_spec(sel, patch).len() <= 12,
{
    lemma_selected_paths_bounded(sel);
    lemma_add_paths_bounded(selected_paths(sel), diff_paths_spec(patch));
}

proof fn lemma_selected_paths_bounded(sel: Seq<Seq<char>>)
    ensures
        selected_paths(sel).len() <= 12,
    decreases sel.len(),
{
    if sel.len() > 0 {
        lemma_selected_paths_bounded(sel.drop_last());
    }
}

proof fn lemma_add_paths_bounded(acc: Seq<Seq<char>>, ds: Seq<Seq<char>>)
    requires
        acc.len() <= 12,
    ensures
        add_paths(acc, ds).len() <= 12,
    decreases ds.len(),
{
    if ds.len() > 0 {
        lemma_add_paths_bounded(acc, ds.drop_last());
    }
}

/// The paths a diff names are distinct.
pub proof fn diff_paths_distinct(patch: Seq<char>)
    ensures
        diff_paths_spec(patch).no_duplicates(),
{
    lemma_paths_of_lines_distinct(lines(patch));
}

proof fn lemma_paths_of_lines_distinct(ls: Seq<Seq<char>>)
    ensures
        paths_of_lines(ls).no_duplicates(),
    decreases ls.len(),
{
    if ls.len() > 0 {
        lemma_paths_of_lines_distinct(ls.drop_last());
        let prev = paths_of_lines(ls.drop_last());
        match diff_line_path(ls.last()) {
            Some(p) => {
                if p.len() > 0 && !prev.contains(p) {
                    assert forall|i: int, j: int|
                        0 <= i < prev.push(p).len() && 0 <= j < prev.push(p).len() && i != j
                    implies prev.push(p)[i] != prev.push(p)[j] by {
                        if i == prev.len() {
                            assert(prev[j] != p);
                        } else if j == prev.len() {
                            assert(prev[i] != p);
                        }
                    }
                }
            },
            None => {},
        }
    }
}

// ---------------------------------------------------------------------------
// Context enrichment
// ---------------------------------------------------------------------------

/// What RepoMemory is asked for before a patch is generated.
#[derive(Clone, Debug)]
pub struct RepoMemoryRequest {
    pub repo: String,
    pub consumer: String,
    pub changed_paths: Vec<String>,
    pub task_summary: String,
    pub diff_summary: String,
    pub limit: usize,
}

/// `Fix GitHub issue #<n> in <repo>: <title>`.
pub open spec fn task_summary_spec(n: int, repo: Seq<char>, title: Seq<char>) -> Seq<char> {
    "Fix GitHub issue #"@ + int_decimal(n) + " in "@ + repo + ": "@ + title
}

/// The RepoMemory request for a fix of issue `n` of `repo`: the selected
/// files as changed paths, the task summary, and the first 1200 characters
/// of the issue discussion; at most five entries.
pub open spec fn memory_request_matches(
    r: RepoMemoryRequest,
    repo: Seq<char>,
    n: int,
    title: Seq<char>,
    selected: Seq<Seq<char>>,
    issue_ctx: Seq<char>,
) -> bool {
    &&& r.repo@ == repo
    &&& r.consumer@ == "repo-reaper"@
    &&& r.changed_paths@.map_values(|s: String| s@) == selected
    &&& r.task_summary@ == task_summary_spec(n, repo, title)
    &&& r.diff_summary@ == issue_ctx.take(
        if issue_ctx.len() < 1200 {
            issue_ctx.len() as int
        } else {
            1200
        },
    )
    &&& r.limit == 5
}

pub fn repo_memory_request(
    repo: &str,
    n: i64,
    title: &str,
    selected: &Vec<String>,
    issue_ctx: &str,
) -> (res: RepoMemoryRequest)
    ensures
        memory_request_matches(
            res,
            repo@,
            n as int,
            title@,
            selected@.map_values(|s: String| s@),
            issue_ctx@,
        ),
{
    let mut summary: Vec<char> = Vec::new();
    push_str(&mut summary, "Fix GitHub issue #");
    push_decimal(&mut summary, n);
    push_str(&mut summary, " in ");
    push_str(&mut summary, repo);
    push_str(&mut summary, ": ");
    push_str(&mut summary, title);
    let cv = chars_of(issue_ctx);
    let k = if cv.len() < 1200 { cv.len() } else { 1200 };
    let mut diff: Vec<char> = Vec::new();
    push_range(&mut diff, &cv, 0, k);
    assert(diff@ =~= issue_ctx@.take(k as int));
    let paths = crate::text::clone_strings(selected);
    RepoMemoryRequest {
        repo: repo.to_owned(),
        consumer: "repo-reaper".to_owned(),
        changed_paths: paths,
        task_summary: string_from_chars(&summary),
        diff_summary: string_from_chars(&diff),
        limit: 5,
    }
}

/// The issue discussion, followed by the RepoMemory block when there is one.
pub open spec fn enriched_context_spec(issue_ctx: Seq<char>, block: Seq<char>) -> Seq<char> {
    if block.len() == 0 {
        issue_ctx
    } else {
        issue_ctx + "\n\n"@ + block
    }
}

pub fn enriched_context(issue_ctx: &str, block: &str) -> (res: String)
    ensures
        res@ == enriched_context_spec(issue_ctx@, block@),
{
    let mut out: Vec<char> = Vec::new();
    push_str(&mut out, issue_ctx);
    let bv = chars_of(block);
    if bv.len() > 0 {
        push_str(&mut out, "\n\n");
        push_all(&mut out, &bv);
    }
    assert(out@ =~= enriched_context_spec(issue_ctx@, block@));
    string_from_chars(&out)
}

} // verus!
