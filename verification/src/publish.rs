//! The texts a fix attempt publishes: the comment that claims the issue, the
//! commit message, and the pull request's title, head and body.

use vstd::prelude::*;
use crate::text::{
    chars_of, int_decimal, join, join_exec, push_all, push_decimal, push_range, push_str,
    string_from_chars, trim, trim_bounds,
};

verus! {

pub open spec fn opt_or(o: Option<Seq<char>>, d: Seq<char>) -> Seq<char> {
    match o {
        Some(s) => s,
        None => d,
    }
}

pub open spec fn opt_str(o: Option<&str>) -> Option<Seq<char>> {
    match o {
        Some(s) => Some(s@),
        None => None,
    }
}

/// The comment posted on an issue when work on it starts.
pub open spec fn hunting_comment_spec(score: Option<i64>, reason: Option<Seq<char>>) -> Seq<char> {
    let s = match score {
        Some(v) => v as int,
        None => 50,
    };
    let r = match reason {
        Some(t) => if t.len() > 0 {
            " — "@ + t
        } else {
            Seq::empty()
        },
        None => Seq::empty(),
    };
    "🔱 **RepoReaper** is hunting this bug.\n\n> Fixability score: **"@ + int_decimal(s) + "/100**"@
        + r + "\n\nA pull request will be opened shortly.\n\n*by PatchHive*"@
}

pub fn hunting_comment(score: Option<i64>, reason: Option<&str>) -> (res: String)
    ensures
        res@ == hunting_comment_spec(score, opt_str(reason)),
{
    let s: i64 = match score {
        Some(v) => v,
        None => 50,
    };
    let mut out: Vec<char> = Vec::new();
    push_str(&mut out, "🔱 **RepoReaper** is hunting this bug.\n\n> Fixability score: **");
    push_decimal(&mut out, s);
    push_str(&mut out, "/100**");
    match reason {
        Some(t) => {
            let tv = chars_of(t);
            if tv.len() > 0 {
                push_str(&mut out, " — ");
                push_all(&mut out, &tv);
            }
        },
        None => {},
    }
    push_str(&mut out, "\n\nA pull request will be opened shortly.\n\n*by PatchHive*");
    assert(out@ =~= hunting_comment_spec(score, opt_str(reason)));
    string_from_chars(&out)
}

/// `fix: <first 72 characters of the title> (closes #<n>)`.
pub open spec fn commit_message_spec(title: Seq<char>, n: int) -> Seq<char> {
    "fix: "@ + title.take(if title.len() < 72 { title.len() as int } else { 72 }) + " (closes #"@
        + int_decimal(n) + ")"@
}

pub fn commit_message(title: &str, n: i64) -> (res: String)
    ensures
        res@ == commit_message_spec(title@, n as int),
{
    let v = chars_of(title);
    let k = if v.len() < 72 { v.len() } else { 72 };
    let mut out: Vec<char> = Vec::new();
    push_str(&mut out, "fix: ");
    push_range(&mut out, &v, 0, k);
    push_str(&mut out, " (closes #");
    push_decimal(&mut out, n);
    push_str(&mut out, ")");
    assert(out@ =~= commit_message_spec(title@, n as int));
    string_from_chars(&out)
}

/// `<user>:<branch>`, the head of a pull request from the bot's fork.
pub open spec fn pr_head_spec(user: Seq<char>, branch: Seq<char>) -> Seq<char> {
    user + ":"@ + branch
}

pub fn pr_head(user: &str, branch: &str) -> (res: String)
    ensures
        res@ == pr_head_spec(user@, branch@),
{
    let mut out: Vec<char> = Vec::new();
    push_str(&mut out, user);
    push_str(&mut out, ":");
    push_str(&mut out, branch);
    string_from_chars(&out)
}

/// One markdown bullet per file: ``- `path` ``.
pub open spec fn files_markdown(files: Seq<Seq<char>>) -> Seq<char> {
    join(files.map_values(|p: Seq<char>| "- `"@ + p + "`"@), "\n"@)
}

/// What the pull request body says.
pub struct PrBodyFacts<'a> {
    pub issue_num: i64,
    pub title: Option<&'a str>,
    pub explanation: Option<&'a str>,
    pub confidence: i32,
    pub files_changed: &'a Vec<String>,
    pub fixability_score: Option<i64>,
    pub fixability_reason: Option<&'a str>,
    pub smith_note: &'a str,
    pub tests_passed: bool,
    pub judge: Option<&'a str>,
    pub reaper: &'a str,
    pub smith: Option<&'a str>,
    pub gatekeeper: &'a str,
}

/// The body of the pull request: what changed, the reaper's confidence, the
/// targeted files, the fixability score, Smith's note, the test outcome and
/// the team.
pub open spec fn pr_body_text(
    n: int,
    title: Seq<char>,
    explanation: Seq<char>,
    confidence: int,
    files: Seq<Seq<char>>,
    score: int,
    reason: Seq<char>,
    smith_note: Seq<char>,
    tests_passed: bool,
    judge: Seq<char>,
    reaper: Seq<char>,
    smith: Seq<char>,
    gatekeeper: Seq<char>,
) -> Seq<char> {
    "## 🔱 Reaping #"@ + int_decimal(n) + ": "@ + title + "\n\n### What changed\n"@ + explanation
        + "\n\n**Reaper confidence:** "@ + int_decimal(confidence) + "/100\n\n### Files targeted\n"@
        + files_markdown(files) + "\n\n### Fixability Score\n**"@ + int_decimal(score)
        + "/100** — "@ + reason + "\n\n"@ + smith_note + "\n\n### Tests\n"@ + (if tests_passed {
        "✅ Passed"@
    } else {
        "⚠️ Failed (draft PR)"@
    }) + "\n\n---\n⚖ Judge: "@ + judge + " · ⚔ Reaper: "@ + reaper + " · ⬢ Smith: "@ + smith
        + " · 🔒 Gatekeeper: "@ + gatekeeper + "\n\n*RepoReaper by PatchHive · Closes #"@
        + int_decimal(n) + "*"@
}

pub open spec fn pr_body_spec(f: PrBodyFacts) -> Seq<char> {
    pr_body_text(
        f.issue_num as int,
        opt_or(opt_str(f.title), Seq::empty()),
        opt_or(opt_str(f.explanation), Seq::empty()),
        f.confidence as int,
        f.files_changed@.map_values(|s: String| s@),
        match f.fixability_score {
            Some(v) => v as int,
            None => 50,
        },
        opt_or(opt_str(f.fixability_reason), Seq::empty()),
        f.smith_note@,
        f.tests_passed,
        opt_or(opt_str(f.judge), "none"@),
        f.reaper@,
        opt_or(opt_str(f.smith), "none"@),
        f.gatekeeper@,
    )
}

fn push_opt(out: &mut Vec<char>, o: Option<&str>, d: &str)
    ensures
        final(out)@ == old(out)@ + opt_or(opt_str(o), d@),
{
    match o {
        Some(s) => push_str(out, s),
        None => push_str(out, d),
    }
}

fn files_markdown_exec(files: &Vec<String>) -> (res: Vec<char>)
    ensures
        res@ == files_markdown(files@.map_values(|s: String| s@)),
{
    let ghost fv = files@.map_values(|s: String| s@);
    let mut items: Vec<Vec<char>> = Vec::new();
    let mut i: usize = 0;
    while i < files.len()
        invariant
            i <= files.len(),
            fv == files@.map_values(|s: String| s@),
            items@.map_values(|l: Vec<char>| l@) == fv.take(i as int).map_values(
                |p: Seq<char>| "- `"@ + p + "`"@,
            ),
        decreases files.len() - i,
    {
        let mut it: Vec<char> = Vec::new();
        push_str(&mut it, "- `");
        push_str(&mut it, files[i].as_str());
        push_str(&mut it, "`");
        let ghost prev = items@.map_values(|l: Vec<char>| l@);
        items.push(it);
        assert(items@.map_values(|l: Vec<char>| l@) =~= prev.push("- `"@ + fv[i as int] + "`"@));
        assert(fv.take(i + 1).map_values(|p: Seq<char>| "- `"@ + p + "`"@) =~= fv.take(
            i as int,
        ).map_values(|p: Seq<char>| "- `"@ + p + "`"@).push("- `"@ + fv[i as int] + "`"@));
        i += 1;
    }
    assert(fv.take(files.len() as int) =~= fv);
    join_exec(&items, "\n")
}

/// The body of the pull request that a fix attempt opens.
pub fn pr_body(f: &PrBodyFacts) -> (res: String)
    ensures
        res@ == pr_body_spec(*f),
{
    let score: i64 = match f.fixability_score {
        Some(v) => v,
        None => 50,
    };
    let mut out: Vec<char> = Vec::new();
    push_str(&mut out, "## 🔱 Reaping #");
    push_decimal(&mut out, f.issue_num);
    push_str(&mut out, ": ");
    push_opt(&mut out, f.title, "");
    push_str(&mut out, "\n\n### What changed\n");
    push_opt(&mut out, f.explanation, "");
    push_str(&mut out, "\n\n**Reaper confidence:** ");
    push_decimal(&mut out, f.confidence as i64);
    push_str(&mut out, "/100\n\n### Files targeted\n");
    let md = files_markdown_exec(f.files_changed);
    push_all(&mut out, &md);
    push_str(&mut out, "\n\n### Fixability Score\n**");
    push_decimal(&mut out, score);
    push_str(&mut out, "/100** — ");
    push_opt(&mut out, f.fixability_reason, "");
    push_str(&mut out, "\n\n");
    push_str(&mut out, f.smith_note);
    push_str(&mut out, "\n\n### Tests\n");
    if f.tests_passed {
        push_str(&mut out, "✅ Passed");
    } else {
        push_str(&mut out, "⚠️ Failed (draft PR)");
    }
    push_str(&mut out, "\n\n---\n⚖ Judge: ");
    push_opt(&mut out, f.judge, "none");
    push_str(&mut out, " · ⚔ Reaper: ");
    push_str(&mut out, f.reaper);
    push_str(&mut out, " · ⬢ Smith: ");
    push_opt(&mut out, f.smith, "none");
    push_str(&mut out, " · 🔒 Gatekeeper: ");
    push_str(&mut out, f.gatekeeper);
    push_str(&mut out, "\n\n*RepoReaper by PatchHive · Closes #");
    push_decimal(&mut out, f.issue_num);
    push_str(&mut out, "*");
    proof {
        reveal_strlit("");
    }
    assert(out@ =~= pr_body_spec(*f));
    string_from_chars(&out)
}

} // verus!
