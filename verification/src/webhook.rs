//! GitHub webhooks and schedules: the delivery's signature, what a delivery
//! triggers, the follow-up pull request that answers a maintainer, and when a
//! scheduled hunt runs next.

use vstd::prelude::*;
use hmac::Mac;
use vstd::string::StringSliceAdditionalSpecFns;
use crate::prompts::{first_chars, first_chars_exec};
use crate::text::{
    chars_of, contains, int_decimal, owned, push_decimal, push_str, str_eq, string_from_chars,
};

verus! {

// ---------------------------------------------------------------------------
// Signatures
// ---------------------------------------------------------------------------

pub open spec fn hex_digit_value(c: char) -> Option<u8> {
    if '0' <= c <= '9' {
        Some(((c as u32) - 48) as u8)
    } else if 'a' <= c <= 'f' {
        Some(((c as u32) - 87) as u8)
    } else if 'A' <= c <= 'F' {
        Some(((c as u32) - 55) as u8)
    } else {
        None
    }
}

pub open spec fn all_hex(s: Seq<char>) -> bool {
    forall|i: int| 0 <= i < s.len() ==> (#[trigger] hex_digit_value(s[i])) is Some
}

/// The bytes written in hexadecimal by `s`, two digits each, either case;
/// `None` when its length is odd or it holds another character (as
/// `hex::decode` reads it).
pub open spec fn hex_decode_spec(s: Seq<char>) -> Option<Seq<u8>> {
    if s.len() % 2 == 0 && all_hex(s) {
        Some(
            Seq::new(
                s.len() / 2,
                |i: int|
                    (hex_digit_value(s[2 * i])->0 * 16 + hex_digit_value(s[2 * i + 1])->0) as u8,
            ),
        )
    } else {
        None
    }
}

/// `hex::decode`: the bytes that `s` writes in hexadecimal, as stated by
/// `hex_decode_spec` (the crate rejects an odd length and any character but
/// `0-9`, `a-f`, `A-F`).
#[verifier::external_body]
fn hex_decode(s: &str) -> (res: Option<Vec<u8>>)
    ensures
        match res {
            Some(b) => hex_decode_spec(s@) == Some(b@),
            None => hex_decode_spec(s@) is None,
        },
{
    hex::decode(s).ok()
}

/// The HMAC-SHA256 of `msg` under `key`.
pub uninterp spec fn hmac_sha256(key: Seq<u8>, msg: Seq<u8>) -> Seq<u8>;

/// `Hmac::<Sha256>::new_from_slice`, `update` and `verify_slice`: whether
/// `tag` is the HMAC-SHA256 of `msg` under `key`. The crate accepts keys of
/// any length, and `verify_slice` succeeds exactly when the tag has the
/// MAC's length and equals it.
#[verifier::external_body]
fn hmac_sha256_matches(key: &[u8], msg: &[u8], tag: &[u8]) -> (res: bool)
    ensures
        res == (tag@ == hmac_sha256(key@, msg@)),
{
    match hmac::Hmac::<sha2::Sha256>::new_from_slice(key) {
        Ok(mut mac) => {
            mac.update(msg);
            mac.verify_slice(tag).is_ok()
        },
        Err(_) => false,
    }
}

/// Whether a delivery is accepted: without a configured secret none is;
/// with one, the `X-Hub-Signature-256` header must be `sha256=` and the
/// hexadecimal HMAC-SHA256 of the body under the secret.
pub open spec fn signature_ok_spec(secret: Seq<u8>, signature: Option<Seq<char>>, body: Seq<u8>) -> bool {
    if secret.len() == 0 {
        false
    } else {
        match signature {
            Some(sig) => if sig.len() >= 7 && sig.take(7) == "sha256="@ {
                match hex_decode_spec(sig.skip(7)) {
                    Some(tag) => tag == hmac_sha256(secret, body),
                    None => false,
                }
            } else {
                false
            },
            None => false,
        }
    }
}

pub fn signature_ok(secret: &str, signature: Option<&str>, body: &[u8]) -> (res: bool)
    ensures
        res == signature_ok_spec(secret.spec_bytes(), crate::agent::opt_str_view(signature), body@),
{
    let key = secret.as_bytes();
    if key.len() == 0 {
        return false;
    }
    match signature {
        Some(sig) => {
            let v = chars_of(sig);
            let prefix = chars_of("sha256=");
            proof {
                reveal_strlit("sha256=");
            }
            if v.len() >= 7 && crate::text::occurs_at_exec(&v, &prefix, 0) {
                assert(v@.subrange(0, 7) =~= v@.take(7));
                let mut hexpart: Vec<char> = Vec::new();
                crate::text::push_range(&mut hexpart, &v, 7, v.len());
                assert(hexpart@ =~= v@.skip(7));
                let hs = string_from_chars(&hexpart);
                match hex_decode(hs.as_str()) {
                    Some(tag) => hmac_sha256_matches(key, body, tag.as_slice()),
                    None => false,
                }
            } else {
                proof {
                    if v@.len() >= 7 {
                        assert(v@.subrange(0, 7) =~= v@.take(7));
                    }
                }
                false
            }
        },
        None => false,
    }
}

/// Until a secret is configured, every delivery is refused.
pub proof fn no_secret_refuses_all(signature: Option<Seq<char>>, body: Seq<u8>)
    ensures
        !signature_ok_spec(Seq::empty(), signature, body),
{
}

/// A delivery without a signature is refused.
pub proof fn unsigned_delivery_rejected(secret: Seq<u8>, body: Seq<u8>)
    ensures
        !signature_ok_spec(secret, None, body),
{
}

/// A delivery is accepted only when a secret is configured and the
/// signature is the HMAC-SHA256 of the body under it.
pub proof fn accepted_delivery_is_signed(secret: Seq<u8>, signature: Seq<char>, body: Seq<u8>)
    requires
        signature_ok_spec(secret, Some(signature), body),
    ensures
        secret.len() > 0,
        signature.len() >= 7,
        signature.take(7) == "sha256="@,
        hex_decode_spec(signature.skip(7)) == Some(hmac_sha256(secret, body)),
{
}

// ---------------------------------------------------------------------------
// Deliveries
// ---------------------------------------------------------------------------

/// What a delivery says, as far as the routing reads it.
#[derive(Clone, Debug)]
pub struct WebhookFacts {
    /// The `X-GitHub-Event` header, empty when absent.
    pub event: String,
    pub action: Option<String>,
    /// The names of the issue's labels.
    pub labels: Vec<String>,
    pub issue_number: Option<i64>,
    /// Whether the issue is a pull request.
    pub issue_is_pr: bool,
    /// Who wrote the comment, for a comment delivery.
    pub commenter: Option<String>,
}

/// What a delivery triggers.
#[derive(Clone, Debug, PartialEq, Eq, Structural)]
pub enum WebhookDecision {
    /// A new issue labelled `bug` while watch mode is on: fix it.
    FixNewBug { issue: i64 },
    /// A new issue that is not fixed (watch mode off, or no `bug` label).
    NotWatched,
    /// Someone other than the bot commented on a pull request: answer it.
    PrComment,
    /// Nothing to do.
    Ignored,
}

pub open spec fn opt_is(o: Option<String>, s: Seq<char>) -> bool {
    o matches Some(v) && v@ == s
}

pub open spec fn route_spec(f: WebhookFacts, watch_mode: bool, bot_user: Seq<char>) -> WebhookDecision {
    if f.event@ == "issues"@ && opt_is(f.action, "opened"@) {
        if (exists|i: int| 0 <= i < f.labels@.len() && (#[trigger] f.labels@[i])@ == "bug"@)
            && watch_mode {
            WebhookDecision::FixNewBug {
                issue: match f.issue_number {
                    Some(n) => n,
                    None => 0,
                },
            }
        } else {
            WebhookDecision::NotWatched
        }
    } else if f.event@ == "issue_comment"@ && opt_is(f.action, "created"@) && f.issue_is_pr
        && !opt_is(f.commenter, bot_user) {
        WebhookDecision::PrComment
    } else {
        WebhookDecision::Ignored
    }
}

fn opt_is_exec(o: &Option<String>, s: &str) -> (res: bool)
    ensures
        res == opt_is(*o, s@),
{
    match o {
        Some(v) => str_eq(v.as_str(), s),
        None => false,
    }
}

/// What each routing asks of a delivery: a follow-up is answered only for a
/// new comment on a pull request by someone other than the bot; a fix is
/// started only for a newly opened issue labelled `bug` while watch mode is
/// on; a comment on a plain issue, and any other kind of event, starts
/// nothing.
pub proof fn routing_is_guarded(f: WebhookFacts, watch_mode: bool, bot_user: Seq<char>)
    ensures
        route_spec(f, watch_mode, bot_user) == WebhookDecision::PrComment ==> {
            &&& f.event@ == "issue_comment"@
            &&& f.action matches Some(a) && a@ == "created"@
            &&& f.issue_is_pr
            &&& !(f.commenter matches Some(c) && c@ == bot_user)
        },
        route_spec(f, watch_mode, bot_user) is FixNewBug ==> {
            &&& f.event@ == "issues"@
            &&& f.action matches Some(a) && a@ == "opened"@
            &&& watch_mode
            &&& exists|i: int| 0 <= i < f.labels@.len() && (#[trigger] f.labels@[i])@ == "bug"@
        },
        route_spec(f, watch_mode, bot_user) is FixNewBug ==> route_spec(f, watch_mode, bot_user)
            == (WebhookDecision::FixNewBug {
            issue: match f.issue_number {
                Some(n) => n,
                None => 0,
            },
        }),
        f.event@ == "issue_comment"@ && !f.issue_is_pr ==> route_spec(f, watch_mode, bot_user)
            == WebhookDecision::Ignored,
        f.event@ != "issues"@ && f.event@ != "issue_comment"@ ==> route_spec(f, watch_mode, bot_user)
            == WebhookDecision::Ignored,
        f.event@ == "issue_comment"@ && f.issue_is_pr && (f.action matches Some(a) && a@ == "created"@)
            && !(f.commenter matches Some(c) && c@ == bot_user) ==> route_spec(f, watch_mode, bot_user)
            == WebhookDecision::PrComment,
{
    reveal_strlit("issues");
    reveal_strlit("issue_comment");
    assert("issues"@.len() != "issue_comment"@.len());
}

/// Routes a delivery.
pub fn route_webhook(f: &WebhookFacts, watch_mode: bool, bot_user: &str) -> (res: WebhookDecision)
    ensures
        res == route_spec(*f, watch_mode, bot_user@),
{
    if str_eq(f.event.as_str(), "issues") && opt_is_exec(&f.action, "opened") {
        let mut has_bug = false;
        let mut i: usize = 0;
        while i < f.labels.len()
            invariant
                i <= f.labels.len(),
                has_bug == exists|k: int| 0 <= k < i && (#[trigger] f.labels@[k])@ == "bug"@,
            decreases f.labels.len() - i,
        {
            if str_eq(f.labels[i].as_str(), "bug") {
                has_bug = true;
            }
            i += 1;
        }
        if has_bug && watch_mode {
            WebhookDecision::FixNewBug {
                issue: match f.issue_number {
                    Some(n) => n,
                    None => 0,
                },
            }
        } else {
            WebhookDecision::NotWatched
        }
    } else if str_eq(f.event.as_str(), "issue_comment") && opt_is_exec(&f.action, "created")
        && f.issue_is_pr && !opt_is_exec(&f.commenter, bot_user) {
        WebhookDecision::PrComment
    } else {
        WebhookDecision::Ignored
    }
}

/// What a delivery gets: `None` when it is refused (unauthorized), else the
/// routing of its facts.
pub open spec fn delivery_spec(
    secret: Seq<u8>,
    signature: Option<Seq<char>>,
    body: Seq<u8>,
    f: WebhookFacts,
    watch_mode: bool,
    bot_user: Seq<char>,
) -> Option<WebhookDecision> {
    if signature_ok_spec(secret, signature, body) {
        Some(route_spec(f, watch_mode, bot_user))
    } else {
        None
    }
}

/// Checks a delivery's signature, then routes it; a refused delivery
/// triggers nothing.
pub fn handle_delivery(
    secret: &str,
    signature: Option<&str>,
    body: &[u8],
    f: &WebhookFacts,
    watch_mode: bool,
    bot_user: &str,
) -> (res: Option<WebhookDecision>)
    ensures
        res == delivery_spec(
            secret.spec_bytes(),
            crate::agent::opt_str_view(signature),
            body@,
            *f,
            watch_mode,
            bot_user@,
        ),
{
    if signature_ok(secret, signature, body) {
        Some(route_webhook(f, watch_mode, bot_user))
    } else {
        None
    }
}

// ---------------------------------------------------------------------------
// Follow-up pull requests
// ---------------------------------------------------------------------------

/// The branch of the follow-up to pull request `n`.
pub fn followup_branch(n: i64) -> (res: String)
    ensures
        res@ == "reaper/followup-"@ + int_decimal(n as int),
{
    let mut out: Vec<char> = Vec::new();
    push_str(&mut out, "reaper/followup-");
    push_decimal(&mut out, n);
    string_from_chars(&out)
}

/// The working directory of the follow-up to pull request `n`.
pub fn followup_dir(n: i64) -> (res: String)
    ensures
        res@ == "/tmp/repo-reaper/followup-"@ + int_decimal(n as int),
{
    let mut out: Vec<char> = Vec::new();
    push_str(&mut out, "/tmp/repo-reaper/followup-");
    push_decimal(&mut out, n);
    string_from_chars(&out)
}

/// The commit message and title of the follow-up to pull request `n`.
pub fn followup_message(n: i64) -> (res: String)
    ensures
        res@ == "fix: follow-up based on maintainer feedback (re #"@ + int_decimal(n as int) + ")"@,
{
    let mut out: Vec<char> = Vec::new();
    push_str(&mut out, "fix: follow-up based on maintainer feedback (re #");
    push_decimal(&mut out, n);
    push_str(&mut out, ")");
    string_from_chars(&out)
}

/// The body of the follow-up: the maintainer's words (at most 500
/// characters) and what changed.
pub fn followup_body(n: i64, comment: &str, explanation: &str) -> (res: String)
    ensures
        res@ == "Follow-up fix based on maintainer feedback on #"@ + int_decimal(n as int)
            + ".\n\n**Maintainer:** "@ + first_chars(comment@, 500) + "\n\n**What changed:** "@
            + explanation@ + "\n\n*RepoReaper by PatchHive*"@,
{
    let mut out: Vec<char> = Vec::new();
    push_str(&mut out, "Follow-up fix based on maintainer feedback on #");
    push_decimal(&mut out, n);
    push_str(&mut out, ".\n\n**Maintainer:** ");
    push_str(&mut out, first_chars_exec(comment, 500).as_str());
    push_str(&mut out, "\n\n**What changed:** ");
    push_str(&mut out, explanation);
    push_str(&mut out, "\n\n*RepoReaper by PatchHive*");
    string_from_chars(&out)
}

/// The base of the follow-up: the original pull request's base, else the
/// repository's default branch, else `main`.
pub fn followup_base(pr_base: Option<String>, default_branch: Option<String>) -> (res: String)
    ensures
        res@ == match pr_base {
            Some(b) => b@,
            None => match default_branch {
                Some(d) => d@,
                None => "main"@,
            },
        },
{
    match pr_base {
        Some(b) => b,
        None => match default_branch {
            Some(d) => d,
            None => owned("main"),
        },
    }
}

// ---------------------------------------------------------------------------
// Schedules
// ---------------------------------------------------------------------------

pub const SECS_PER_HOUR: i64 = 3600;
pub const SECS_PER_DAY: i64 = 86400;
pub const SECS_PER_WEEK: i64 = 604800;

/// When a schedule runs next, in seconds since the epoch (UTC); `on_the_second`
/// says the instant is a whole second (midnight), else it keeps the fraction
/// of a second of the current time.
#[derive(Clone, Copy, Debug, PartialEq, Eq, Structural)]
pub struct NextRun {
    pub at_secs: i64,
    pub on_the_second: bool,
}

/// `hourly` runs an hour later, `nightly` at the next midnight after a day
/// has passed, `weekly` a week later, anything else a day later.
pub open spec fn cron_next_spec(expr: Seq<char>, now: int) -> (int, bool) {
    if expr == "hourly"@ {
        (now + 3600, false)
    } else if expr == "nightly"@ {
        (((now + 86400) / 86400) * 86400, true)
    } else if expr == "weekly"@ {
        (now + 604800, false)
    } else {
        (now + 86400, false)
    }
}

pub fn cron_next(expr: &str, now_secs: i64) -> (res: NextRun)
    requires
        -0x800_0000_0000 <= now_secs <= 0x800_0000_0000,
    ensures
        (res.at_secs as int, res.on_the_second) == cron_next_spec(expr@, now_secs as int),
{
    if str_eq(expr, "hourly") {
        NextRun { at_secs: now_secs + SECS_PER_HOUR, on_the_second: false }
    } else if str_eq(expr, "nightly") {
        let d = now_secs + SECS_PER_DAY;
        let q: i64 = if d >= 0 {
            d / SECS_PER_DAY
        } else {
            -((-d + SECS_PER_DAY - 1) / SECS_PER_DAY)
        };
        proof {
            let dd = d as int;
            if dd < 0 {
                let m = -dd;
                let k = (m + 86399) / 86400;
                assert(k * 86400 <= m + 86399 < k * 86400 + 86400);
                assert(dd / 86400 == -k) by (nonlinear_arith)
                    requires
                        dd < 0,
                        m == -dd,
                        k * 86400 <= m + 86399,
                        m + 86399 < k * 86400 + 86400,
                {
                    vstd::arithmetic::div_mod::lemma_fundamental_div_mod(dd, 86400);
                }
            }
        }
        NextRun { at_secs: q * SECS_PER_DAY, on_the_second: true }
    } else if str_eq(expr, "weekly") {
        NextRun { at_secs: now_secs + SECS_PER_WEEK, on_the_second: false }
    } else {
        NextRun { at_secs: now_secs + SECS_PER_DAY, on_the_second: false }
    }
}

/// A schedule's next run always lies after the current time.
pub proof fn next_run_is_later(expr: Seq<char>, now: int)
    ensures
        cron_next_spec(expr, now).0 > now,
{
    if expr != "hourly"@ && expr == "nightly"@ {
        let d = now + 86400;
        vstd::arithmetic::div_mod::lemma_fundamental_div_mod(d, 86400);
        assert((d / 86400) * 86400 > now) by (nonlinear_arith)
            requires
                d == now + 86400,
                d == 86400 * (d / 86400) + d % 86400,
                0 <= d % 86400 < 86400,
        ;
    }
}

/// Switching a schedule: an enabled one is disabled and the other way round.
pub fn toggled(enabled: i32) -> (res: i32)
    ensures
        res == if enabled == 0 {
            1i32
        } else {
            0i32
        },
{
    if enabled == 0 {
        1
    } else {
        0
    }
}

} // verus!
