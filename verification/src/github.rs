//! What the service sends to and reads from the GitHub API: authorization,
//! the paths it calls on a fork, whether work on an issue is already under
//! way, the maintainers' discussion, rate limits and review state.

use vstd::prelude::*;
use crate::agent::opt_str_view;
use crate::issue::{second_segment, second_segment_exec};
use crate::prompts::{first_chars, first_chars_exec};
use crate::text::{chars_of, join, join_exec, owned, push_str, str_eq, string_from_chars};

verus! {

/// The authorization header of a request: the given token, else the bot's
/// (`BOT_GITHUB_TOKEN`, empty when unset); none when that is empty.
pub open spec fn auth_header_spec(token: Option<Seq<char>>, env_token: Seq<char>) -> Option<Seq<char>> {
    let t = match token {
        Some(t) => t,
        None => env_token,
    };
    if t.len() == 0 {
        None
    } else {
        Some("Bearer "@ + t)
    }
}

pub fn auth_header(token: Option<&str>, env_token: &str) -> (res: Option<String>)
    ensures
        crate::agent::opt_view(res) == auth_header_spec(opt_str_view(token), env_token@),
{
    let t = match token {
        Some(t) => t,
        None => env_token,
    };
    if t.is_empty() {
        None
    } else {
        let mut out: Vec<char> = Vec::new();
        push_str(&mut out, "Bearer ");
        push_str(&mut out, t);
        Some(string_from_chars(&out))
    }
}

/// The URL of an API path.
pub fn api_url(path: &str) -> (res: String)
    ensures
        res@ == "https://api.github.com"@ + path@,
{
    let mut out: Vec<char> = Vec::new();
    push_str(&mut out, "https://api.github.com");
    push_str(&mut out, path);
    string_from_chars(&out)
}

/// A repository's name without its owner; the whole text when it has no `/`.
pub open spec fn short_name_spec(repo: Seq<char>) -> Seq<char> {
    match second_segment(repo) {
        Some(s) => s,
        None => repo,
    }
}

pub fn repo_short_name(repo: &str) -> (res: String)
    ensures
        res@ == short_name_spec(repo@),
{
    match second_segment_exec(repo) {
        Some(s) => s,
        None => owned(repo),
    }
}

/// Where the bot's fork of `repo` is looked up.
pub fn fork_path(user: &str, repo: &str) -> (res: String)
    ensures
        res@ == "/repos/"@ + user@ + "/"@ + short_name_spec(repo@),
{
    let mut out: Vec<char> = Vec::new();
    push_str(&mut out, "/repos/");
    push_str(&mut out, user);
    push_str(&mut out, "/");
    push_str(&mut out, repo_short_name(repo).as_str());
    string_from_chars(&out)
}

/// The branches of the bot's fork of `repo`.
pub fn fork_branches_path(user: &str, repo: &str) -> (res: String)
    ensures
        res@ == "/repos/"@ + user@ + "/"@ + short_name_spec(repo@) + "/branches"@,
{
    let mut out = chars_of(fork_path(user, repo).as_str());
    push_str(&mut out, "/branches");
    string_from_chars(&out)
}

/// The reference of `branch` on the bot's fork of `repo`.
pub fn fork_branch_ref_path(user: &str, repo: &str, branch: &str) -> (res: String)
    ensures
        res@ == "/repos/"@ + user@ + "/"@ + short_name_spec(repo@) + "/git/refs/heads/"@ + branch@,
{
    let mut out = chars_of(fork_path(user, repo).as_str());
    push_str(&mut out, "/git/refs/heads/");
    push_str(&mut out, branch);
    string_from_chars(&out)
}

/// The head of a pull request from the bot's fork: `user:branch`.
pub fn head_ref(user: &str, branch: &str) -> (res: String)
    ensures
        res@ == user@ + ":"@ + branch@,
{
    let mut out = chars_of(user);
    push_str(&mut out, ":");
    push_str(&mut out, branch);
    string_from_chars(&out)
}

/// Work on an issue is already under way when a pull request from the bot's
/// branch is open, or the branch exists on the fork.
pub open spec fn duplicate_spec(open_prs: nat, branch_names: Seq<Option<String>>, branch: Seq<char>) -> bool {
    open_prs > 0 || exists|i: int|
        0 <= i < branch_names.len() && (#[trigger] branch_names[i] matches Some(n) && n@ == branch)
}

pub fn is_duplicate(open_prs: usize, branch_names: &Vec<Option<String>>, branch: &str) -> (res: bool)
    ensures
        res == duplicate_spec(open_prs as nat, branch_names@, branch@),
{
    if open_prs > 0 {
        return true;
    }
    let mut i: usize = 0;
    while i < branch_names.len()
        invariant
            i <= branch_names.len(),
            forall|k: int|
                0 <= k < i ==> !(#[trigger] branch_names@[k] matches Some(n) && n@ == branch@),
        decreases branch_names.len() - i,
    {
        match &branch_names[i] {
            Some(n) => if str_eq(n.as_str(), branch) {
                return true;
            },
            None => {},
        }
        i += 1;
    }
    false
}

/// A comment on an issue: who wrote it and what it says, when present.
#[derive(Clone, Debug)]
pub struct CommentFacts {
    pub login: Option<String>,
    pub body: Option<String>,
}

pub open spec fn comment_line(c: CommentFacts) -> Seq<char> {
    "**@"@ + match c.login {
        Some(l) => l@,
        None => "?"@,
    } + "**: "@ + first_chars(
        match c.body {
            Some(b) => b@,
            None => Seq::empty(),
        },
        600,
    )
}

/// The discussion of an issue handed to the models: the first ten comments,
/// each with its author and at most 600 characters, separated by blank
/// lines.
pub open spec fn issue_context_spec(comments: Seq<CommentFacts>) -> Seq<char> {
    let first = if comments.len() <= 10 {
        comments
    } else {
        comments.take(10)
    };
    join(first.map_values(|c: CommentFacts| comment_line(c)), "\n\n"@)
}

fn comment_line_exec(c: &CommentFacts) -> (res: Vec<char>)
    ensures
        res@ == comment_line(*c),
{
    let mut out: Vec<char> = Vec::new();
    push_str(&mut out, "**@");
    match &c.login {
        Some(l) => push_str(&mut out, l.as_str()),
        None => push_str(&mut out, "?"),
    }
    push_str(&mut out, "**: ");
    let ghost before = out@;
    match &c.body {
        Some(b) => push_str(&mut out, first_chars_exec(b.as_str(), 600).as_str()),
        None => {
            assert(first_chars(Seq::<char>::empty(), 600) =~= Seq::<char>::empty());
            assert(out@ =~= before + first_chars(Seq::<char>::empty(), 600));
        },
    }
    out
}

pub fn issue_context_text(comments: &Vec<CommentFacts>) -> (res: String)
    ensures
        res@ == issue_context_spec(comments@),
{
    let mut parts: Vec<Vec<char>> = Vec::new();
    let mut i: usize = 0;
    while i < comments.len() && i < 10
        invariant
            i <= comments.len(),
            i <= 10,
            parts.len() == i,
            forall|k: int| 0 <= k < i ==> (#[trigger] parts@[k])@ == comment_line(comments@[k]),
        decreases comments.len() - i,
    {
        parts.push(comment_line_exec(&comments[i]));
        i += 1;
    }
    proof {
        let first = if comments@.len() <= 10 {
            comments@
        } else {
            comments@.take(10)
        };
        assert(parts@.map_values(|p: Vec<char>| p@) =~= first.map_values(
            |c: CommentFacts| comment_line(c),
        ));
    }
    string_from_chars(&join_exec(&parts, "\n\n"))
}

/// The API's rate limit as reported: calls left, the limit, when it resets
/// and in how many seconds.
#[derive(Clone, Copy, Debug, PartialEq, Eq, Structural)]
pub struct RateLimitInfo {
    pub remaining: i64,
    pub limit: i64,
    pub reset_at: i64,
    pub reset_in: i64,
}

/// The rate limit from the `core` resource, with 0 calls left, a limit of
/// 5000 and a reset at 0 where a value is missing.
pub fn rate_limit_info(remaining: Option<i64>, limit: Option<i64>, reset: Option<i64>, now: i64) -> (res:
    RateLimitInfo)
    requires
        i64::MIN <= (match reset {
            Some(r) => r,
            None => 0,
        }) - now <= i64::MAX,
    ensures
        res.remaining == (match remaining {
            Some(r) => r,
            None => 0,
        }),
        res.limit == (match limit {
            Some(l) => l,
            None => 5000,
        }),
        res.reset_at == (match reset {
            Some(r) => r,
            None => 0,
        }),
        res.reset_in == if res.reset_at - now > 0 {
            res.reset_at - now
        } else {
            0
        },
{
    let r = match remaining {
        Some(r) => r,
        None => 0,
    };
    let l = match limit {
        Some(l) => l,
        None => 5000,
    };
    let at = match reset {
        Some(x) => x,
        None => 0,
    };
    let d = at - now;
    RateLimitInfo { remaining: r, limit: l, reset_at: at, reset_in: if d > 0 {
        d
    } else {
        0
    } }
}

pub open spec fn is_verdict(s: Seq<char>) -> bool {
    s == "APPROVED"@ || s == "CHANGES_REQUESTED"@ || s == "COMMENTED"@
}

/// The latest verdict among the reviews of a pull request, in review order;
/// empty when there is none.
pub open spec fn latest_review_spec(states: Seq<Option<String>>) -> Seq<char>
    decreases states.len(),
{
    if states.len() == 0 {
        Seq::empty()
    } else {
        match states.last() {
            Some(s) => if is_verdict(s@) {
                s@
            } else {
                latest_review_spec(states.drop_last())
            },
            None => latest_review_spec(states.drop_last()),
        }
    }
}

pub fn latest_review_state(states: &Vec<Option<String>>) -> (res: String)
    ensures
        res@ == latest_review_spec(states@),
{
    let mut k = states.len();
    assert(states@.take(k as int) =~= states@);
    while k > 0
        invariant
            k <= states.len(),
            latest_review_spec(states@) == latest_review_spec(states@.take(k as int)),
        decreases k,
    {
        let ghost t = states@.take(k as int);
        assert(t.drop_last() =~= states@.take(k - 1));
        match &states[k - 1] {
            Some(s) => {
                let v = s.as_str();
                if str_eq(v, "APPROVED") || str_eq(v, "CHANGES_REQUESTED") || str_eq(v, "COMMENTED") {
                    return s.clone();
                }
            },
            None => {},
        }
        k -= 1;
    }
    String::new()
}

/// The branch removed once a pull request merged: the issue's branch, named
/// after the pull request when the issue is not known.
pub fn merged_branch(issue_number: Option<i64>, pr_number: i64) -> (res: String)
    ensures
        res@ == crate::issue::issue_branch(
            match issue_number {
                Some(n) => n as int,
                None => pr_number as int,
            },
        ),
{
    let n = match issue_number {
        Some(n) => n,
        None => pr_number,
    };
    crate::issue::issue_branch_exec(n)
}

} // verus!
