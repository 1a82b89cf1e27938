//! Where the work on one issue happens: its repository, branch and working
//! directory.

use vstd::prelude::*;
use crate::text::{
    before_first, before_first_exec, chars_of, first_occurrence_from, find_from, occurs_at, int_decimal,
    lemma_first_occurrence, lemma_no_occurrence, push_all, push_decimal, push_range, push_str,
    string_from_chars,
};

verus! {

/// The repository, issue, branch and working directory of one fix attempt.
#[derive(Clone, Debug)]
pub struct IssueScope {
    pub repo: String,
    pub issue_num: i64,
    pub branch: String,
    pub work_path: String,
}

/// The second `'/'`-separated segment of `s`, as `split('/').nth(1)` gives it.
pub open spec fn second_segment(s: Seq<char>) -> Option<Seq<char>> {
    let i = first_occurrence_from(s, seq!['/'], 0);
    if i < 0 {
        None
    } else {
        Some(before_first(s.skip(i + 1), seq!['/']))
    }
}

/// The branch that the fix for issue `n` is pushed to.
pub open spec fn issue_branch(n: int) -> Seq<char> {
    "reaper/issue-"@ + int_decimal(n)
}

/// `base` joined with the relative component `comp`, as `Path::join` does it
/// on Unix: a separator is added unless `base` is empty or already ends in one.
pub open spec fn path_join(base: Seq<char>, comp: Seq<char>) -> Seq<char> {
    if base.len() == 0 {
        comp
    } else if base.last() == '/' {
        base + comp
    } else {
        base + seq!['/'] + comp
    }
}

/// The name of a repository, `owner/name`, without its owner: the text between
/// the first and second `'/'`, when there is one.
pub fn second_segment_exec(s: &str) -> (res: Option<String>)
    ensures
        match res {
            Some(r) => second_segment(s@) == Some(r@),
            None => second_segment(s@) is None,
        },
{
    let v = chars_of(s);
    let n = v.len();
    let slash = vec!['/'];
    assert(slash@ =~= seq!['/']);
    match find_from(&v, &slash, 0) {
        Some(i) => {
            proof {
                lemma_first_occurrence(v@, slash@, 0, i as int);
                assert(slash@.len() == 1);
                assert(occurs_at(v@, slash@, i as int));
                assert(i + 1 <= v@.len());
            }
            let mut rest: Vec<char> = Vec::new();
            push_range(&mut rest, &v, i + 1, n);
            assert(rest@ =~= v@.skip(i + 1));
            let seg = before_first_exec(&rest, &slash);
            Some(string_from_chars(&seg))
        },
        None => {
            proof {
                lemma_no_occurrence(v@, slash@, 0);
            }
            None
        },
    }
}

/// The branch name for issue `n`.
pub fn issue_branch_exec(n: i64) -> (res: String)
    ensures
        res@ == issue_branch(n as int),
{
    let mut out: Vec<char> = Vec::new();
    push_str(&mut out, "reaper/issue-");
    push_decimal(&mut out, n);
    string_from_chars(&out)
}

/// The directory under which repositories are cloned: the configured one, or
/// `/tmp/repo-reaper`.
pub fn work_dir(configured: Option<&str>) -> (res: String)
    ensures
        res@ == match configured {
            Some(d) => d@,
            None => "/tmp/repo-reaper"@,
        },
{
    match configured {
        Some(d) => d.to_owned(),
        None => "/tmp/repo-reaper".to_owned(),
    }
}

/// The scope of the work on issue `issue_num` of `repo`: branch
/// `reaper/issue-<n>`, and a working directory `<work_dir>/<name>-<n>` where
/// `<name>` is the repository's name, or `repo` when it has none.
pub fn build_issue_scope(repo: &str, issue_num: i64, work_dir: &str) -> (res: IssueScope)
    ensures
        res.repo@ == repo@,
        res.issue_num == issue_num,
        res.branch@ == issue_branch(issue_num as int),
        res.work_path@ == path_join(
            work_dir@,
            match second_segment(repo@) {
                Some(name) => name,
                None => "repo"@,
            } + seq!['-'] + int_decimal(issue_num as int),
        ),
{
    let name = match second_segment_exec(repo) {
        Some(n) => n,
        None => "repo".to_owned(),
    };
    let ghost name_v = match second_segment(repo@) {
        Some(n) => n,
        None => "repo"@,
    };
    assert(name@ == name_v);
    let base = chars_of(work_dir);
    let mut out: Vec<char> = Vec::new();
    push_all(&mut out, &base);
    if base.len() > 0 && base[base.len() - 1] != '/' {
        out.push('/');
    }
    push_str(&mut out, name.as_str());
    out.push('-');
    push_decimal(&mut out, issue_num);
    assert(out@ =~= path_join(work_dir@, name_v + seq!['-'] + int_decimal(issue_num as int)));
    IssueScope {
        repo: repo.to_owned(),
        issue_num,
        branch: issue_branch_exec(issue_num),
        work_path: string_from_chars(&out),
    }
}

/// What the fix worker reads of an issue.
#[derive(Clone, Debug)]
pub struct IssueFacts {
    pub repo: String,
    pub number: i64,
    pub title: Option<String>,
    pub body: Option<String>,
    pub url: Option<String>,
    pub fixability_score: Option<i64>,
    pub fixability_reason: Option<String>,
}

} // verus!
