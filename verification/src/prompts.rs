//! The instructions and prompts of each agent role.

use vstd::prelude::*;
use crate::issue::IssueFacts;
use crate::publish::opt_or;
use crate::text::{chars_of, int_decimal, join, join_exec, push_all, push_decimal, push_str,
    string_from_chars};

verus! {

pub const SCORE_SYSTEM: &'static str = "Senior engineer triaging GitHub issues for automated fixing.\nScore each 0-100: +20 clear reproduction, +25 small scope, +20 expected vs actual, +15 definitely a bug, +20 has stacktrace/error/code snippet.\nReply ONLY with JSON array (no markdown): [{\"id\":<int>,\"score\":<int>,\"reason\":\"<one sentence>\"}]";

pub const SELECT_FILES_SYSTEM: &'static str = "Software architect. Select ONLY the 3-8 files most relevant to fixing this bug.\nReply ONLY with JSON array of relative paths (no markdown): [\"path/to/file.rs\"]";

pub const GENERATE_PATCH_SYSTEM: &'static str = "Expert software engineer. Fix the bug described in the issue.\nAdditional context (maintainer comments, linked refs) is provided — use it.\nReply ONLY with JSON (no markdown):\n{\"explanation\":\"1-2 sentences\",\"files_changed\":[\"path\"],\"patch\":\"<unified diff>\",\"confidence\":0-100}\nconfidence = your honest estimate the patch correctly fixes the root cause (0=guessing, 100=certain).\nSet patch to null if you cannot fix it safely.";

pub const PATCH_RETRY_SYSTEM: &'static str = "Expert software engineer. Previous patch failed — study the error and produce a corrected diff.\nReply ONLY with JSON (no markdown):\n{\"explanation\":\"what changed vs before\",\"files_changed\":[\"path\"],\"patch\":\"<unified diff>\"}\nSet patch to null if you cannot fix it.";

pub const SMITH_SYSTEM: &'static str = "Senior code review expert. Does this patch correctly and safely fix the bug?\nReply ONLY with JSON (no markdown):\n{\"approved\":true/false,\"confidence\":0-100,\"feedback\":\"brief\",\"improved_patch\":\"<diff or null>\"}";

pub const DRY_RUN_SYSTEM: &'static str = "Senior engineer reviewing GitHub issues for automated patching.\nProduce a concise report: which issues look most reapable, likely complexity, expected success rate, potential risks. Be specific and practical.";

pub const PR_COMMENT_FIX_SYSTEM: &'static str = "Expert software engineer. A maintainer says the previous fix is wrong.\nRead their feedback carefully and produce a corrected patch.\nReply ONLY with JSON (no markdown):\n{\"explanation\":\"what changed and why\",\"files_changed\":[\"path\"],\"patch\":\"<unified diff>\"}";

/// The first `n` characters of `s`, as `chars().take(n)` gives them.
pub open spec fn first_chars(s: Seq<char>, n: nat) -> Seq<char> {
    if s.len() <= n {
        s
    } else {
        s.take(n as int)
    }
}

/// The first `n` characters of `s`.
pub fn first_chars_exec(s: &str, n: usize) -> (res: String)
    ensures
        res@ == first_chars(s@, n as nat),
{
    let v = chars_of(s);
    if v.len() <= n {
        string_from_chars(&v)
    } else {
        let mut out: Vec<char> = Vec::new();
        crate::text::push_range(&mut out, &v, 0, n);
        assert(out@ =~= v@.take(n as int));
        string_from_chars(&out)
    }
}

/// The prompt of the file selection.
pub fn select_files_prompt(title: &str, body: &str, structure: &str) -> (res: String)
    ensures
        res@ == "Issue: "@ + title@ + "\n\n"@ + first_chars(body@, 1000) + "\n\nFiles:\n"@
            + structure@,
{
    let mut out: Vec<char> = Vec::new();
    push_str(&mut out, "Issue: ");
    push_str(&mut out, title);
    push_str(&mut out, "\n\n");
    push_str(&mut out, first_chars_exec(body, 1000).as_str());
    push_str(&mut out, "\n\nFiles:\n");
    push_str(&mut out, structure);
    string_from_chars(&out)
}

/// The prompt of the first patch.
pub fn generate_patch_prompt(title: &str, body: &str, codebase: &str, ctx: &str) -> (res: String)
    ensures
        res@ == "Issue: "@ + title@ + "\n\n"@ + first_chars(body@, 1500) + "\n\nIssue context:\n"@
            + ctx@ + "\n\nCode:\n"@ + codebase@,
{
    let mut out: Vec<char> = Vec::new();
    push_str(&mut out, "Issue: ");
    push_str(&mut out, title);
    push_str(&mut out, "\n\n");
    push_str(&mut out, first_chars_exec(body, 1500).as_str());
    push_str(&mut out, "\n\nIssue context:\n");
    push_str(&mut out, ctx);
    push_str(&mut out, "\n\nCode:\n");
    push_str(&mut out, codebase);
    string_from_chars(&out)
}

/// The prompt of a corrected patch after a failure.
pub fn patch_retry_prompt(
    title: &str,
    body: &str,
    codebase: &str,
    prev_patch: &str,
    error_ctx: &str,
) -> (res: String)
    ensures
        res@ == "Issue: "@ + title@ + "\n\n"@ + first_chars(body@, 1000)
            + "\n\nPrevious patch (FAILED):\n"@ + prev_patch@ + "\n\nFailure:\n"@ + error_ctx@
            + "\n\nCode:\n"@ + codebase@,
{
    let mut out: Vec<char> = Vec::new();
    push_str(&mut out, "Issue: ");
    push_str(&mut out, title);
    push_str(&mut out, "\n\n");
    push_str(&mut out, first_chars_exec(body, 1000).as_str());
    push_str(&mut out, "\n\nPrevious patch (FAILED):\n");
    push_str(&mut out, prev_patch);
    push_str(&mut out, "\n\nFailure:\n");
    push_str(&mut out, error_ctx);
    push_str(&mut out, "\n\nCode:\n");
    push_str(&mut out, codebase);
    string_from_chars(&out)
}

/// The prompt of the review.
pub fn smith_prompt(title: &str, patch: &str, explanation: &str) -> (res: String)
    ensures
        res@ == "Issue: "@ + title@ + "\nFix: "@ + explanation@ + "\nPatch:\n"@ + patch@,
{
    let mut out: Vec<char> = Vec::new();
    push_str(&mut out, "Issue: ");
    push_str(&mut out, title);
    push_str(&mut out, "\nFix: ");
    push_str(&mut out, explanation);
    push_str(&mut out, "\nPatch:\n");
    push_str(&mut out, patch);
    string_from_chars(&out)
}

/// The prompt of a fix that answers a maintainer's comment.
pub fn pr_comment_fix_prompt(issue_title: &str, maintainer_comment: &str, codebase: &str) -> (res:
    String)
    ensures
        res@ == "Original issue: "@ + issue_title@ + "\nMaintainer: "@ + maintainer_comment@
            + "\nCode:\n"@ + codebase@,
{
    let mut out: Vec<char> = Vec::new();
    push_str(&mut out, "Original issue: ");
    push_str(&mut out, issue_title);
    push_str(&mut out, "\nMaintainer: ");
    push_str(&mut out, maintainer_comment);
    push_str(&mut out, "\nCode:\n");
    push_str(&mut out, codebase);
    string_from_chars(&out)
}

/// The prompt of the scoring, around the issues rendered as JSON.
pub fn score_prompt(issues_json: &str) -> (res: String)
    ensures
        res@ == "Score:\n"@ + issues_json@,
{
    let mut out: Vec<char> = Vec::new();
    push_str(&mut out, "Score:\n");
    push_str(&mut out, issues_json);
    string_from_chars(&out)
}

/// One line of the dry-run prompt.
pub open spec fn dry_run_line(i: IssueFacts) -> Seq<char> {
    "- #"@ + int_decimal(i.number as int) + " ["@ + int_decimal(
        match i.fixability_score {
            Some(s) => s as int,
            None => 50,
        },
    ) + "/100] "@ + i.repo@ + ": "@ + opt_or(
        match i.title {
            Some(t) => Some(t@),
            None => None,
        },
        Seq::empty(),
    )
}

/// The names of the repositories that have one, at most five.
pub open spec fn named_repos(names: Seq<Option<String>>) -> Seq<Seq<char>>
    decreases names.len(),
{
    if names.len() == 0 {
        Seq::empty()
    } else {
        let r = named_repos(names.drop_last());
        match names.last() {
            Some(n) => r.push(n@),
            None => r,
        }
    }
}

pub open spec fn dry_run_prompt_spec(repo_names: Seq<Option<String>>, issues: Seq<IssueFacts>) -> Seq<
    char,
> {
    let names = first_n(named_repos(repo_names), 5);
    let lines = first_n(issues, 20).map_values(|i: IssueFacts| dry_run_line(i));
    "Repos ("@ + int_decimal(names.len() as int) + "): "@ + join(names, ", "@) + "\n\nIssues ("@
        + int_decimal(issues.len() as int) + "):\n"@ + join(lines, "\n"@)
}

pub open spec fn first_n<T>(s: Seq<T>, n: nat) -> Seq<T> {
    if s.len() <= n {
        s
    } else {
        s.take(n as int)
    }
}

fn dry_run_line_exec(i: &IssueFacts) -> (res: Vec<char>)
    ensures
        res@ == dry_run_line(*i),
{
    let mut out: Vec<char> = Vec::new();
    push_str(&mut out, "- #");
    push_decimal(&mut out, i.number);
    push_str(&mut out, " [");
    let s = match i.fixability_score {
        Some(s) => s,
        None => 50,
    };
    push_decimal(&mut out, s);
    push_str(&mut out, "/100] ");
    push_str(&mut out, i.repo.as_str());
    push_str(&mut out, ": ");
    match &i.title {
        Some(t) => push_str(&mut out, t.as_str()),
        None => {},
    }
    proof {
        if i.title is None {
            assert(out@ =~= dry_run_line(*i));
        }
    }
    out
}

/// The prompt of the dry-run analysis: the first five repositories that have
/// a name and the first twenty issues, out of how many there are.
pub fn dry_run_prompt(repo_names: &Vec<Option<String>>, issues: &Vec<IssueFacts>) -> (res: String)
    requires
        issues.len() < i64::MAX,
    ensures
        res@ == dry_run_prompt_spec(repo_names@, issues@),
{
    let mut names: Vec<Vec<char>> = Vec::new();
    let ghost all = named_repos(repo_names@);
    let mut i: usize = 0;
    while i < repo_names.len() && names.len() < 5
        invariant
            i <= repo_names.len(),
            names.len() <= 5,
            names@.map_values(|p: Vec<char>| p@) == first_n(named_repos(repo_names@.take(i as int)), 5),
            names.len() < 5 ==> named_repos(repo_names@.take(i as int)).len() == names.len(),
        decreases repo_names.len() - i,
    {
        let ghost t = repo_names@.take(i + 1);
        assert(t.drop_last() =~= repo_names@.take(i as int));
        match &repo_names[i] {
            Some(n) => {
                names.push(chars_of(n.as_str()));
            },
            None => {},
        }
        assert(names@.map_values(|p: Vec<char>| p@) =~= first_n(named_repos(t), 5));
        i += 1;
    }
    proof {
        lemma_named_repos_prefix(repo_names@, i as int);
        if i == repo_names.len() {
            assert(repo_names@.take(i as int) =~= repo_names@);
        }
    }
    let mut lines: Vec<Vec<char>> = Vec::new();
    let mut k: usize = 0;
    while k < issues.len() && k < 20
        invariant
            k <= issues.len(),
            k <= 20,
            lines.len() == k,
            forall|j: int| 0 <= j < k ==> (#[trigger] lines@[j])@ == dry_run_line(issues@[j]),
        decreases issues.len() - k,
    {
        lines.push(dry_run_line_exec(&issues[k]));
        k += 1;
    }
    assert(issues@.take(k as int) =~= first_n(issues@, 20));
    assert(lines@.map_values(|p: Vec<char>| p@) =~= first_n(issues@, 20).map_values(
        |x: IssueFacts| dry_run_line(x),
    ));
    let mut out: Vec<char> = Vec::new();
    push_str(&mut out, "Repos (");
    push_decimal(&mut out, names.len() as i64);
    push_str(&mut out, "): ");
    push_all(&mut out, &join_exec(&names, ", "));
    push_str(&mut out, "\n\nIssues (");
    push_decimal(&mut out, issues.len() as i64);
    push_str(&mut out, "):\n");
    push_all(&mut out, &join_exec(&lines, "\n"));
    string_from_chars(&out)
}

proof fn lemma_named_repos_prefix(s: Seq<Option<String>>, i: int)
    requires
        0 <= i <= s.len(),
    ensures
        first_n(named_repos(s.take(i)), 5).len() == 5 ==> first_n(named_repos(s), 5) == first_n(
            named_repos(s.take(i)),
            5,
        ),
    decreases s.len() - i,
{
    if i < s.len() {
        lemma_named_repos_prefix(s, i + 1);
        let t = s.take(i + 1);
        assert(t.drop_last() =~= s.take(i));
        lemma_named_repos_extends(t);
    } else {
        assert(s.take(i) =~= s);
    }
}

proof fn lemma_named_repos_extends(t: Seq<Option<String>>)
    requires
        t.len() > 0,
    ensures
        named_repos(t.drop_last()).len() <= named_repos(t).len(),
        forall|j: int|
            0 <= j < named_repos(t.drop_last()).len() ==> named_repos(t)[j] == named_repos(
                t.drop_last(),
            )[j],
{
}

} // verus!
