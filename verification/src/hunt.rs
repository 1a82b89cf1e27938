//! A hunt: its request and defaults, which repositories it may visit, how
//! the agents are split into role teams, which issues it takes on, and when
//! its budget stops it.
//!
//! Money is counted in micro-dollars.

use vstd::prelude::*;
use crate::agent::AgentConfig;
use crate::issue::IssueFacts;
use crate::prompts::{first_chars, first_chars_exec, first_n};
use crate::text::{chars_of, join, join_exec, nat_decimal, owned, push_nat_decimal, push_str,
    str_eq, string_from_chars};
use crate::workspace::{all_digits, digits_value, is_digit, lemma_digits_prefix_le};

verus! {

// ---------------------------------------------------------------------------
// The request
// ---------------------------------------------------------------------------

pub fn default_language() -> (res: String)
    ensures
        res@ == "python"@,
{
    owned("python")
}

pub fn default_min_stars() -> (res: u32)
    ensures
        res == 50,
{
    50
}

pub fn default_max_repos() -> (res: usize)
    ensures
        res == 10,
{
    10
}

pub fn default_max_issues() -> (res: usize)
    ensures
        res == 10,
{
    10
}

pub fn default_labels() -> (res: Vec<String>)
    ensures
        res@.len() == 1,
        res@[0]@ == "bug"@,
{
    let mut v: Vec<String> = Vec::new();
    v.push(owned("bug"));
    v
}

pub fn default_concurrency() -> (res: usize)
    ensures
        res == 3,
{
    3
}

pub fn default_retry_count() -> (res: usize)
    ensures
        res == 3,
{
    3
}

/// What a hunt is asked to do.
#[derive(Clone, Debug)]
pub struct RunRequest {
    pub language: String,
    pub min_stars: u32,
    pub max_repos: usize,
    pub max_issues: usize,
    pub labels: Vec<String>,
    pub concurrency: usize,
    pub search_query: String,
    /// The spending limit of the hunt; 0 for none.
    pub cost_budget_micros: i64,
    pub retry_count: usize,
}

/// The repository search: the request's own query, else popular public
/// machine-learning repositories in the language with more stars than asked.
pub open spec fn discovery_query_spec(req: RunRequest) -> Seq<char> {
    if req.search_query@.len() > 0 {
        req.search_query@
    } else {
        "topic:machine-learning language:"@ + req.language@ + " stars:>"@ + nat_decimal(
            req.min_stars as nat,
        ) + " is:public"@
    }
}

pub fn discovery_query(req: &RunRequest) -> (res: String)
    ensures
        res@ == discovery_query_spec(*req),
{
    if !req.search_query.as_str().is_empty() {
        return req.search_query.clone();
    }
    let mut out: Vec<char> = Vec::new();
    push_str(&mut out, "topic:machine-learning language:");
    push_str(&mut out, req.language.as_str());
    push_str(&mut out, " stars:>");
    push_nat_decimal(&mut out, req.min_stars as u64);
    push_str(&mut out, " is:public");
    string_from_chars(&out)
}

/// The labels filter of the issue search.
pub fn labels_param(labels: &Vec<String>) -> (res: String)
    ensures
        res@ == join(labels@.map_values(|l: String| l@), ","@),
{
    let mut parts: Vec<Vec<char>> = Vec::new();
    let mut i: usize = 0;
    while i < labels.len()
        invariant
            i <= labels.len(),
            parts.len() == i,
            forall|k: int| 0 <= k < i ==> (#[trigger] parts@[k])@ == labels@[k]@,
        decreases labels.len() - i,
    {
        parts.push(chars_of(labels[i].as_str()));
        i += 1;
    }
    assert(parts@.map_values(|p: Vec<char>| p@) =~= labels@.map_values(|l: String| l@));
    string_from_chars(&join_exec(&parts, ","))
}

// ---------------------------------------------------------------------------
// Repository lists
// ---------------------------------------------------------------------------

/// A row of the repository lists.
#[derive(Clone, Debug)]
pub struct RepoListRow {
    pub repo: String,
    pub list_type: String,
}

/// The repositories a hunt may visit (when any are listed) and those it must
/// not.
#[derive(Clone, Debug)]
pub struct RepoLists {
    pub allow: Vec<String>,
    pub deny: Vec<String>,
    pub opt_out: Vec<String>,
}

/// The repositories of the rows whose type is one of `types`, in row order.
pub open spec fn repos_of(rows: Seq<RepoListRow>, types: Seq<Seq<char>>) -> Seq<Seq<char>>
    decreases rows.len(),
{
    if rows.len() == 0 {
        Seq::empty()
    } else {
        let r = repos_of(rows.drop_last(), types);
        if types.contains(rows.last().list_type@) {
            r.push(rows.last().repo@)
        } else {
            r
        }
    }
}

fn repos_of_exec(rows: &Vec<RepoListRow>, a: &str, b: &str) -> (res: Vec<String>)
    ensures
        res@.map_values(|s: String| s@) == repos_of(rows@, seq![a@, b@]),
{
    let mut out: Vec<String> = Vec::new();
    let mut i: usize = 0;
    while i < rows.len()
        invariant
            i <= rows.len(),
            out@.map_values(|s: String| s@) == repos_of(rows@.take(i as int), seq![a@, b@]),
        decreases rows.len() - i,
    {
        let ghost t = rows@.take(i + 1);
        assert(t.drop_last() =~= rows@.take(i as int));
        let ty = rows[i].list_type.as_str();
        let hit = str_eq(ty, a) || str_eq(ty, b);
        proof {
            let types = seq![a@, b@];
            if hit {
                assert(types[0] == a@ && types[1] == b@);
                if ty@ == a@ {
                    assert(types.contains(ty@)) by {
                        assert(types[0] == ty@);
                    }
                } else {
                    assert(types.contains(ty@)) by {
                        assert(types[1] == ty@);
                    }
                }
            } else {
                assert(!types.contains(ty@));
            }
        }
        if hit {
            let ghost before = out@;
            let r = rows[i].repo.clone();
            out.push(r);
            assert(out@.map_values(|s: String| s@) =~= before.map_values(|s: String| s@).push(r@));
        }
        i += 1;
    }
    assert(rows@.take(rows@.len() as int) =~= rows@);
    out
}

/// Splits the rows into the allow list, the deny list (`denylist` or the
/// older `blocklist`) and the opt-outs.
pub fn partition_repo_lists(rows: &Vec<RepoListRow>) -> (res: RepoLists)
    ensures
        res.allow@.map_values(|s: String| s@) == repos_of(rows@, seq!["allowlist"@, "allowlist"@]),
        res.deny@.map_values(|s: String| s@) == repos_of(rows@, seq!["denylist"@, "blocklist"@]),
        res.opt_out@.map_values(|s: String| s@) == repos_of(rows@, seq!["opt_out"@, "opt_out"@]),
{
    RepoLists {
        allow: repos_of_exec(rows, "allowlist", "allowlist"),
        deny: repos_of_exec(rows, "denylist", "blocklist"),
        opt_out: repos_of_exec(rows, "opt_out", "opt_out"),
    }
}

pub open spec fn listed(list: Seq<String>, name: Seq<char>) -> bool {
    exists|i: int| 0 <= i < list.len() && (#[trigger] list[i])@ == name
}

/// Whether a hunt visits a repository (by its full name, empty when
/// unknown): it is on the allow list when there is one, and on neither the
/// deny list nor the opt-outs.
pub open spec fn keep_repo_spec(name: Seq<char>, lists: RepoLists) -> bool {
    &&& (lists.allow@.len() == 0 || listed(lists.allow@, name))
    &&& !listed(lists.deny@, name)
    &&& !listed(lists.opt_out@, name)
}

fn listed_exec(list: &Vec<String>, name: &str) -> (res: bool)
    ensures
        res == listed(list@, name@),
{
    let mut i: usize = 0;
    while i < list.len()
        invariant
            i <= list.len(),
            forall|k: int| 0 <= k < i ==> (#[trigger] list@[k])@ != name@,
        decreases list.len() - i,
    {
        if str_eq(list[i].as_str(), name) {
            return true;
        }
        i += 1;
    }
    false
}

pub fn keep_repo(full_name: Option<&str>, lists: &RepoLists) -> (res: bool)
    ensures
        res == keep_repo_spec(
            match full_name {
                Some(n) => n@,
                None => Seq::empty(),
            },
            *lists,
        ),
{
    let name = match full_name {
        Some(n) => owned(n),
        None => String::new(),
    };
    let n = name.as_str();
    (lists.allow.len() == 0 || listed_exec(&lists.allow, n)) && !listed_exec(&lists.deny, n)
        && !listed_exec(&lists.opt_out, n)
}

// ---------------------------------------------------------------------------
// Issues
// ---------------------------------------------------------------------------

/// An issue found by the search, as the hunt records it: its body cut to 500
/// characters, a neutral fixability score of 50 and no reason yet.
pub fn discovered_issue(
    repo: &str,
    number: i64,
    title: Option<String>,
    body: Option<&str>,
    url: Option<String>,
) -> (res: IssueFacts)
    ensures
        res.repo@ == repo@,
        res.number == number,
        res.title == title,
        res.body matches Some(b) && b@ == first_chars(
            match body {
                Some(x) => x@,
                None => Seq::empty(),
            },
            500,
        ),
        res.url == url,
        res.fixability_score == Some(50i64),
        res.fixability_reason matches Some(r) && r@.len() == 0,
{
    let b = match body {
        Some(x) => first_chars_exec(x, 500),
        None => {
            assert(first_chars(Seq::<char>::empty(), 500) =~= Seq::<char>::empty());
            String::new()
        },
    };
    IssueFacts {
        repo: owned(repo),
        number,
        title,
        body: Some(b),
        url,
        fixability_score: Some(50),
        fixability_reason: Some(String::new()),
    }
}

/// An issue reported by a webhook: its body cut to 500 characters, scored 70
/// with the reason `webhook`.
pub fn webhook_issue(
    repo: &str,
    number: i64,
    title: Option<String>,
    body: Option<&str>,
    url: Option<String>,
) -> (res: IssueFacts)
    ensures
        res.repo@ == repo@,
        res.number == number,
        res.title == title,
        res.body matches Some(b) && b@ == first_chars(
            match body {
                Some(x) => x@,
                None => Seq::empty(),
            },
            500,
        ),
        res.url == url,
        res.fixability_score == Some(70i64),
        res.fixability_reason matches Some(r) && r@ == "webhook"@,
{
    let b = match body {
        Some(x) => first_chars_exec(x, 500),
        None => {
            assert(first_chars(Seq::<char>::empty(), 500) =~= Seq::<char>::empty());
            String::new()
        },
    };
    IssueFacts {
        repo: owned(repo),
        number,
        title,
        body: Some(b),
        url,
        fixability_score: Some(70),
        fixability_reason: Some(owned("webhook")),
    }
}

/// How many of the ranked issues a hunt takes on.
pub fn fixable_count(found: usize, max_issues: usize) -> (res: usize)
    ensures
        res == if found <= max_issues {
            found
        } else {
            max_issues
        },
{
    if found <= max_issues {
        found
    } else {
        max_issues
    }
}

/// A hunt stops once it has spent its budget, when it has one.
pub fn budget_reached(budget_micros: i64, spent_micros: i64) -> (res: bool)
    ensures
        res == (budget_micros > 0 && spent_micros >= budget_micros),
{
    budget_micros > 0 && spent_micros >= budget_micros
}

// ---------------------------------------------------------------------------
// Teams
// ---------------------------------------------------------------------------

/// The agents of a role, in order.
pub open spec fn with_role(agents: Seq<AgentConfig>, role: Seq<char>) -> Seq<AgentConfig>
    decreases agents.len(),
{
    if agents.len() == 0 {
        Seq::empty()
    } else {
        let r = with_role(agents.drop_last(), role);
        if agents.last().role@ == role {
            r.push(agents.last())
        } else {
            r
        }
    }
}

pub fn agents_with_role(agents: &Vec<AgentConfig>, role: &str) -> (res: Vec<AgentConfig>)
    ensures
        res@ == with_role(agents@, role@),
{
    let mut out: Vec<AgentConfig> = Vec::new();
    let mut i: usize = 0;
    while i < agents.len()
        invariant
            i <= agents.len(),
            out@ == with_role(agents@.take(i as int), role@),
        decreases agents.len() - i,
    {
        let ghost t = agents@.take(i + 1);
        assert(t.drop_last() =~= agents@.take(i as int));
        if str_eq(agents[i].role.as_str(), role) {
            out.push(agents[i].duplicate());
        }
        i += 1;
    }
    assert(agents@.take(agents@.len() as int) =~= agents@);
    out
}

fn copy_agents(v: &Vec<AgentConfig>) -> (res: Vec<AgentConfig>)
    ensures
        res@ == v@,
{
    let mut out: Vec<AgentConfig> = Vec::new();
    let mut i: usize = 0;
    while i < v.len()
        invariant
            i <= v.len(),
            out@ == v@.take(i as int),
        decreases v.len() - i,
    {
        out.push(v[i].duplicate());
        assert(out@ =~= v@.take(i + 1));
        i += 1;
    }
    assert(v@.take(v@.len() as int) =~= v@);
    out
}

/// The role teams of a hunt.
#[derive(Clone, Debug)]
pub struct HuntTeams {
    pub scout: AgentConfig,
    pub judges: Vec<AgentConfig>,
    pub reapers: Vec<AgentConfig>,
    pub smiths: Vec<AgentConfig>,
    pub gatekeepers: Vec<AgentConfig>,
}

pub open spec fn or_else(a: Seq<AgentConfig>, b: Seq<AgentConfig>) -> Seq<AgentConfig> {
    if a.len() > 0 {
        a
    } else {
        b
    }
}

/// The teams of a hunt: the scouts (else the first agent) search; reapers
/// fall back to the scouts and gatekeepers to the reapers. `None` when no
/// agent is configured.
pub fn form_teams(agents: &Vec<AgentConfig>) -> (res: Option<HuntTeams>)
    ensures
        agents@.len() == 0 <==> res is None,
        res matches Some(t) ==> {
            let scouts = or_else(with_role(agents@, "scout"@), agents@.take(1));
            let reapers = or_else(with_role(agents@, "reaper"@), scouts);
            &&& t.scout == scouts[0]
            &&& t.judges@ == with_role(agents@, "judge"@)
            &&& t.reapers@ == reapers
            &&& t.smiths@ == with_role(agents@, "smith"@)
            &&& t.gatekeepers@ == or_else(with_role(agents@, "gatekeeper"@), reapers)
        },
{
    if agents.len() == 0 {
        return None;
    }
    let scouts0 = agents_with_role(agents, "scout");
    let scouts = if scouts0.len() > 0 {
        scouts0
    } else {
        let mut v: Vec<AgentConfig> = Vec::new();
        v.push(agents[0].duplicate());
        assert(v@ =~= agents@.take(1));
        v
    };
    let judges = agents_with_role(agents, "judge");
    let reapers0 = agents_with_role(agents, "reaper");
    let reapers = if reapers0.len() > 0 {
        reapers0
    } else {
        copy_agents(&scouts)
    };
    let smiths = agents_with_role(agents, "smith");
    let gk0 = agents_with_role(agents, "gatekeeper");
    let gatekeepers = if gk0.len() > 0 {
        gk0
    } else {
        copy_agents(&reapers)
    };
    let scout = scouts[0].duplicate();
    Some(HuntTeams { scout, judges, reapers, smiths, gatekeepers })
}

/// The agent that answers a maintainer's comment: the first reaper, else
/// the first agent.
pub fn followup_agent(agents: &Vec<AgentConfig>) -> (res: Option<AgentConfig>)
    ensures
        res == if with_role(agents@, "reaper"@).len() > 0 {
            Some(with_role(agents@, "reaper"@)[0])
        } else if agents@.len() > 0 {
            Some(agents@[0])
        } else {
            None
        },
{
    let reapers = agents_with_role(agents, "reaper");
    if reapers.len() > 0 {
        Some(reapers[0].duplicate())
    } else if agents.len() > 0 {
        Some(agents[0].duplicate())
    } else {
        None
    }
}

// ---------------------------------------------------------------------------
// Settings
// ---------------------------------------------------------------------------

/// `i32::from_str`: an optional sign, then one or more ASCII digits whose
/// value fits in an `i32`.
pub open spec fn parse_i32_spec(s: Seq<char>) -> Option<i32> {
    let neg = s.len() > 0 && s[0] == '-';
    let d = if s.len() > 0 && (s[0] == '+' || s[0] == '-') {
        s.drop_first()
    } else {
        s
    };
    if d.len() > 0 && all_digits(d) {
        if neg && digits_value(d) <= 0x8000_0000 {
            Some((-(digits_value(d) as int)) as i32)
        } else if !neg && digits_value(d) <= 0x7FFF_FFFF {
            Some(digits_value(d) as i32)
        } else {
            None
        }
    } else {
        None
    }
}

pub fn parse_i32(s: &str) -> (res: Option<i32>)
    ensures
        res == parse_i32_spec(s@),
{
    let v = chars_of(s);
    let neg = v.len() > 0 && v[0] == '-';
    let start: usize = if v.len() > 0 && (v[0] == '+' || v[0] == '-') {
        1
    } else {
        0
    };
    let ghost d = if s@.len() > 0 && (s@[0] == '+' || s@[0] == '-') {
        s@.drop_first()
    } else {
        s@
    };
    assert(d =~= v@.skip(start as int));
    if start >= v.len() {
        return None;
    }
    let mut val: u64 = 0;
    let mut i = start;
    while i < v.len()
        invariant
            start <= i <= v.len(),
            v@ == s@,
            d == (if s@.len() > 0 && (s@[0] == '+' || s@[0] == '-') {
                s@.drop_first()
            } else {
                s@
            }),
            d == v@.skip(start as int),
            all_digits(d.take(i - start)),
            val == digits_value(d.take(i - start)),
            val <= 0x8000_0000,
        decreases v.len() - i,
    {
        let c = v[i];
        let ghost t = d.take(i - start + 1);
        assert(t.drop_last() =~= d.take(i - start));
        assert(d[i - start] == c);
        if c < '0' || c > '9' {
            assert(!is_digit(d[i - start]));
            assert(!all_digits(d));
            return None;
        }
        let next = val * 10 + (c as u32 - 48) as u64;
        assert(digits_value(t) == next);
        if next > 0x8000_0000 {
            proof {
                if all_digits(d) {
                    lemma_digits_prefix_le(d, i - start + 1);
                }
            }
            return None;
        }
        val = next;
        i += 1;
    }
    assert(d.take(i - start) =~= d);
    if neg {
        Some((0i64 - val as i64) as i32)
    } else if val <= 0x7FFF_FFFF {
        Some(val as i32)
    } else {
        None
    }
}

/// The review confidence below which a patch is rejected, from
/// `MIN_REVIEW_CONFIDENCE`: 40 unless it reads as an `i32`.
pub fn min_review_confidence(raw: &str) -> (res: i32)
    ensures
        res == match parse_i32_spec(raw@) {
            Some(v) => v,
            None => 40i32,
        },
{
    match parse_i32(raw) {
        Some(v) => v,
        None => 40,
    }
}

} // verus!
