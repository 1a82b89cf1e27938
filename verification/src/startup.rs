//! What the service reports about its configuration at startup, and its
//! health.

use vstd::prelude::*;
use crate::text::{chars_of, join, join_exec, owned, push_all, push_str, string_from_chars};

verus! {

/// How serious a startup finding is.
#[derive(Clone, Copy, Debug, PartialEq, Eq, Structural)]
pub enum CheckLevel {
    Success,
    Info,
    Warn,
    Error,
}

/// One finding of the startup checks.
#[derive(Clone, Debug)]
pub struct StartupCheck {
    pub level: CheckLevel,
    pub message: String,
}

/// What came of validating the GitHub token against the API.
#[derive(Clone, Debug)]
pub enum GithubProbe {
    /// The API answered 401.
    Unauthorized,
    /// The API accepted the token; the login it reported, if any.
    Valid { login: Option<String> },
    /// The API answered with another status, as it is displayed.
    OtherStatus { status: String },
    /// The request failed, with its error as displayed.
    Unreachable { error: String },
}

/// The local AI gateway's health report.
#[derive(Clone, Debug)]
pub struct GatewayReport {
    pub ok: bool,
    /// The providers that are up and logged in, in the report's order.
    pub ready: Vec<String>,
    pub error: Option<String>,
}

/// One provider in the gateway's status report.
#[derive(Clone, Debug)]
pub struct GatewayProvider {
    pub name: String,
    /// Whether the provider is up.
    pub ok: bool,
    /// Whether the gateway is logged in to it.
    pub logged_in: bool,
}

/// The names of the providers that are up and logged in, in report order.
pub open spec fn ready_spec(ps: Seq<GatewayProvider>) -> Seq<Seq<char>>
    decreases ps.len(),
{
    if ps.len() == 0 {
        Seq::empty()
    } else {
        let r = ready_spec(ps.drop_last());
        if ps.last().ok && ps.last().logged_in {
            r.push(ps.last().name@)
        } else {
            r
        }
    }
}

/// The providers a gateway report counts as ready: up and logged in.
pub fn ready_providers(ps: &Vec<GatewayProvider>) -> (res: Vec<String>)
    ensures
        res@.map_values(|n: String| n@) == ready_spec(ps@),
{
    let mut out: Vec<String> = Vec::new();
    let mut i: usize = 0;
    while i < ps.len()
        invariant
            i <= ps.len(),
            out@.map_values(|n: String| n@) == ready_spec(ps@.take(i as int)),
        decreases ps.len() - i,
    {
        let ghost before = out@;
        assert(ps@.take(i + 1).drop_last() =~= ps@.take(i as int));
        if ps[i].ok && ps[i].logged_in {
            out.push(ps[i].name.clone());
            assert(out@.map_values(|n: String| n@) =~= before.map_values(|n: String| n@).push(ps@[i as int].name@));
        }
        i += 1;
    }
    assert(ps@.take(ps@.len() as int) =~= ps@);
    out
}

/// What the startup checks look at.
#[derive(Clone, Debug)]
pub struct StartupFacts {
    pub bot_token_set: bool,
    pub bot_user_set: bool,
    pub provider_key_set: bool,
    /// The validation of the GitHub token, when one is configured.
    pub github: Option<GithubProbe>,
    /// The gateway's report, when `PATCHHIVE_AI_URL` is configured.
    pub gateway: Option<GatewayReport>,
    pub repo_memory_configured: bool,
    pub webhook_secret_set: bool,
}

pub open spec fn check_view(c: StartupCheck) -> (CheckLevel, Seq<char>) {
    (c.level, c.message@)
}

pub open spec fn opt_text(o: Option<String>, d: Seq<char>) -> Seq<char> {
    match o {
        Some(s) => s@,
        None => d,
    }
}

pub open spec fn head_checks(f: StartupFacts) -> Seq<(CheckLevel, Seq<char>)> {
    let token = if f.bot_token_set {
        (CheckLevel::Success, "BOT_GITHUB_TOKEN is set"@)
    } else {
        (
            CheckLevel::Error,
            "Missing BOT_GITHUB_TOKEN (GitHub PAT (repo + PR scopes)) — set in .env or Config panel"@,
        )
    };
    let user = if f.bot_user_set {
        (CheckLevel::Success, "BOT_GITHUB_USER is set"@)
    } else {
        (
            CheckLevel::Error,
            "Missing BOT_GITHUB_USER (GitHub bot username) — set in .env or Config panel"@,
        )
    };
    seq![token, user]
}

pub open spec fn key_checks(f: StartupFacts) -> Seq<(CheckLevel, Seq<char>)> {
    if f.provider_key_set {
        Seq::empty()
    } else if f.gateway is Some {
        seq![
            (
                CheckLevel::Success,
                "PATCHHIVE_AI_URL is set — OpenAI-compatible agents can use the local Codex/Copilot gateway"@,
            ),
            (
                CheckLevel::Warn,
                "No PROVIDER_API_KEY set — Anthropic, Gemini, and Groq agents still need per-agent or global keys"@,
            ),
        ]
    } else {
        seq![(CheckLevel::Warn, "No PROVIDER_API_KEY set — each agent must carry its own key"@)]
    }
}

pub open spec fn github_checks(f: StartupFacts) -> Seq<(CheckLevel, Seq<char>)> {
    match f.github {
        Some(GithubProbe::Unauthorized) => seq![
            (CheckLevel::Error, "BOT_GITHUB_TOKEN is invalid or expired"@),
        ],
        Some(GithubProbe::Valid { login }) => seq![
            (CheckLevel::Success, "GitHub token valid — authenticated as @"@ + opt_text(login, "?"@)),
        ],
        Some(GithubProbe::OtherStatus { status }) => seq![
            (CheckLevel::Warn, "GitHub returned "@ + status@),
        ],
        Some(GithubProbe::Unreachable { error }) => seq![
            (CheckLevel::Warn, "Could not validate GitHub token: "@ + error@),
        ],
        None => Seq::empty(),
    }
}

pub open spec fn gateway_checks(f: StartupFacts) -> Seq<(CheckLevel, Seq<char>)> {
    match f.gateway {
        Some(r) => if r.ok {
            if r.ready.len() == 0 {
                seq![
                    (
                        CheckLevel::Warn,
                        "PatchHive AI gateway is reachable, but no local providers are authenticated yet"@,
                    ),
                ]
            } else {
                seq![
                    (
                        CheckLevel::Success,
                        "PatchHive AI gateway reachable — ready providers: "@ + join(
                            r.ready@.map_values(|s: String| s@),
                            ", "@,
                        ),
                    ),
                ]
            }
        } else {
            seq![
                (
                    CheckLevel::Warn,
                    "PATCHHIVE_AI_URL is set, but the local AI gateway is not ready: "@ + opt_text(
                        r.error,
                        "unknown error"@,
                    ),
                ),
            ]
        },
        None => Seq::empty(),
    }
}

pub open spec fn tail_checks(f: StartupFacts) -> Seq<(CheckLevel, Seq<char>)> {
    let memory = if f.repo_memory_configured {
        seq![
            (
                CheckLevel::Info,
                "PATCHHIVE_REPO_MEMORY_URL is set — RepoReaper can enrich patch generation and queue FailGuard candidates when Smith rejects work"@,
            ),
        ]
    } else {
        Seq::empty()
    };
    let webhook = if f.webhook_secret_set {
        (CheckLevel::Success, "WEBHOOK_SECRET is set — GitHub webhook signatures will be verified"@)
    } else {
        (
            CheckLevel::Warn,
            "WEBHOOK_SECRET is not set — the /webhook/github endpoint will reject webhook delivery until it is configured"@,
        )
    };
    memory + seq![webhook]
}

/// The findings, in the order they are reported.
pub open spec fn startup_checks_spec(f: StartupFacts) -> Seq<(CheckLevel, Seq<char>)> {
    head_checks(f) + key_checks(f) + github_checks(f) + gateway_checks(f) + tail_checks(f)
}

pub open spec fn views(s: Seq<StartupCheck>) -> Seq<(CheckLevel, Seq<char>)> {
    s.map_values(|x: StartupCheck| check_view(x))
}

fn check(level: CheckLevel, message: &str) -> (res: StartupCheck)
    ensures
        check_view(res) == (level, message@),
{
    StartupCheck { level, message: owned(message) }
}

fn check_with(level: CheckLevel, prefix: &str, rest: &str) -> (res: StartupCheck)
    ensures
        check_view(res) == (level, prefix@ + rest@),
{
    let mut out = chars_of(prefix);
    push_str(&mut out, rest);
    StartupCheck { level, message: string_from_chars(&out) }
}

fn push_check(out: &mut Vec<StartupCheck>, c: StartupCheck)
    ensures
        views(final(out)@) == views(old(out)@).push(check_view(c)),
{
    out.push(c);
    assert(views(out@) =~= views(old(out)@).push(check_view(c)));
}

fn push_head(out: &mut Vec<StartupCheck>, f: &StartupFacts)
    ensures
        views(final(out)@) == views(old(out)@) + head_checks(*f),
{
    let ghost s0 = views(out@);
    if f.bot_token_set {
        push_check(out, check(CheckLevel::Success, "BOT_GITHUB_TOKEN is set"));
    } else {
        push_check(
            out,
            check(
                CheckLevel::Error,
                "Missing BOT_GITHUB_TOKEN (GitHub PAT (repo + PR scopes)) — set in .env or Config panel",
            ),
        );
    }
    if f.bot_user_set {
        push_check(out, check(CheckLevel::Success, "BOT_GITHUB_USER is set"));
    } else {
        push_check(
            out,
            check(
                CheckLevel::Error,
                "Missing BOT_GITHUB_USER (GitHub bot username) — set in .env or Config panel",
            ),
        );
    }
    assert(views(out@) =~= s0 + head_checks(*f));
}

fn push_keys(out: &mut Vec<StartupCheck>, f: &StartupFacts)
    ensures
        views(final(out)@) == views(old(out)@) + key_checks(*f),
{
    let ghost s0 = views(out@);
    if !f.provider_key_set {
        if f.gateway.is_some() {
            push_check(
                out,
                check(
                    CheckLevel::Success,
                    "PATCHHIVE_AI_URL is set — OpenAI-compatible agents can use the local Codex/Copilot gateway",
                ),
            );
            push_check(
                out,
                check(
                    CheckLevel::Warn,
                    "No PROVIDER_API_KEY set — Anthropic, Gemini, and Groq agents still need per-agent or global keys",
                ),
            );
        } else {
            push_check(
                out,
                check(CheckLevel::Warn, "No PROVIDER_API_KEY set — each agent must carry its own key"),
            );
        }
    }
    assert(views(out@) =~= s0 + key_checks(*f));
}

fn push_github(out: &mut Vec<StartupCheck>, f: &StartupFacts)
    ensures
        views(final(out)@) == views(old(out)@) + github_checks(*f),
{
    let ghost s0 = views(out@);
    match &f.github {
        Some(GithubProbe::Unauthorized) => {
            push_check(out, check(CheckLevel::Error, "BOT_GITHUB_TOKEN is invalid or expired"));
        },
        Some(GithubProbe::Valid { login }) => {
            let l = match login {
                Some(l) => l.as_str(),
                None => "?",
            };
            push_check(out, check_with(CheckLevel::Success, "GitHub token valid — authenticated as @", l));
        },
        Some(GithubProbe::OtherStatus { status }) => {
            push_check(out, check_with(CheckLevel::Warn, "GitHub returned ", status.as_str()));
        },
        Some(GithubProbe::Unreachable { error }) => {
            push_check(out, check_with(CheckLevel::Warn, "Could not validate GitHub token: ", error.as_str()));
        },
        None => {},
    }
    assert(views(out@) =~= s0 + github_checks(*f));
}

fn push_gateway(out: &mut Vec<StartupCheck>, f: &StartupFacts)
    ensures
        views(final(out)@) == views(old(out)@) + gateway_checks(*f),
{
    let ghost s0 = views(out@);
    match &f.gateway {
        Some(r) => {
            if r.ok {
                if r.ready.len() == 0 {
                    push_check(
                        out,
                        check(
                            CheckLevel::Warn,
                            "PatchHive AI gateway is reachable, but no local providers are authenticated yet",
                        ),
                    );
                } else {
                    let mut parts: Vec<Vec<char>> = Vec::new();
                    let mut i: usize = 0;
                    while i < r.ready.len()
                        invariant
                            i <= r.ready.len(),
                            parts.len() == i,
                            forall|k: int| 0 <= k < i ==> (#[trigger] parts@[k])@ == r.ready@[k]@,
                        decreases r.ready.len() - i,
                    {
                        parts.push(chars_of(r.ready[i].as_str()));
                        i += 1;
                    }
                    assert(parts@.map_values(|p: Vec<char>| p@) =~= r.ready@.map_values(
                        |s: String| s@,
                    ));
                    let joined = string_from_chars(&join_exec(&parts, ", "));
                    push_check(
                        out,
                        check_with(
                            CheckLevel::Success,
                            "PatchHive AI gateway reachable — ready providers: ",
                            joined.as_str(),
                        ),
                    );
                }
            } else {
                let e = match &r.error {
                    Some(e) => e.as_str(),
                    None => "unknown error",
                };
                push_check(
                    out,
                    check_with(
                        CheckLevel::Warn,
                        "PATCHHIVE_AI_URL is set, but the local AI gateway is not ready: ",
                        e,
                    ),
                );
            }
        },
        None => {},
    }
    assert(views(out@) =~= s0 + gateway_checks(*f));
}

fn push_tail(out: &mut Vec<StartupCheck>, f: &StartupFacts)
    ensures
        views(final(out)@) == views(old(out)@) + tail_checks(*f),
{
    let ghost s0 = views(out@);
    if f.repo_memory_configured {
        push_check(
            out,
            check(
                CheckLevel::Info,
                "PATCHHIVE_REPO_MEMORY_URL is set — RepoReaper can enrich patch generation and queue FailGuard candidates when Smith rejects work",
            ),
        );
    }
    if f.webhook_secret_set {
        push_check(
            out,
            check(CheckLevel::Success, "WEBHOOK_SECRET is set — GitHub webhook signatures will be verified"),
        );
    } else {
        push_check(
            out,
            check(
                CheckLevel::Warn,
                "WEBHOOK_SECRET is not set — the /webhook/github endpoint will reject webhook delivery until it is configured",
            ),
        );
    }
    assert(views(out@) =~= s0 + tail_checks(*f));
}

/// The startup findings: required GitHub settings, model keys, the GitHub
/// token's validity, the local gateway, repository memory and webhook
/// verification.
pub fn startup_checks(f: &StartupFacts) -> (res: Vec<StartupCheck>)
    ensures
        views(res@) == startup_checks_spec(*f),
{
    let mut out: Vec<StartupCheck> = Vec::new();
    assert(views(out@) =~= Seq::empty());
    push_head(&mut out, f);
    push_keys(&mut out, f);
    push_github(&mut out, f);
    push_gateway(&mut out, f);
    push_tail(&mut out, f);
    assert(views(out@) =~= startup_checks_spec(*f));
    out
}

pub open spec fn error_count(s: Seq<(CheckLevel, Seq<char>)>) -> nat
    decreases s.len(),
{
    if s.len() == 0 {
        0
    } else {
        error_count(s.drop_last()) + if s.last().0 == CheckLevel::Error {
            1nat
        } else {
            0nat
        }
    }
}

/// How many findings are errors.
pub fn count_errors(checks: &Vec<StartupCheck>) -> (res: usize)
    ensures
        res == error_count(checks@.map_values(|x: StartupCheck| check_view(x))),
{
    let ghost v = checks@.map_values(|x: StartupCheck| check_view(x));
    let mut n: usize = 0;
    let mut i: usize = 0;
    while i < checks.len()
        invariant
            i <= checks.len(),
            v == checks@.map_values(|x: StartupCheck| check_view(x)),
            n == error_count(v.take(i as int)),
            n <= i,
        decreases checks.len() - i,
    {
        assert(v.take(i + 1).drop_last() =~= v.take(i as int));
        if checks[i].level == CheckLevel::Error {
            n += 1;
        }
        i += 1;
    }
    assert(v.take(i as int) =~= v);
    n
}

/// The service is healthy when no startup finding is an error and the
/// database answers.
pub fn health_status(config_errors: usize, db_ok: bool) -> (res: &'static str)
    ensures
        res@ == if config_errors > 0 || !db_ok {
            "degraded"@
        } else {
            "ok"@
        },
{
    if config_errors > 0 || !db_ok {
        "degraded"
    } else {
        "ok"
    }
}

/// The counter of the agent-performance table that an outcome increments.
pub fn perf_column(outcome: &str) -> (res: &'static str)
    ensures
        res@ == if outcome@ == "fixed"@ {
            "total_fixed"@
        } else if outcome@ == "skipped"@ {
            "total_skipped"@
        } else {
            "total_errors"@
        },
{
    if crate::text::str_eq(outcome, "fixed") {
        "total_fixed"
    } else if crate::text::str_eq(outcome, "skipped") {
        "total_skipped"
    } else {
        "total_errors"
    }
}

} // verus!
