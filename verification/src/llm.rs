//! One-shot model calls: which endpoint a provider is reached at, which key
//! is sent, what a call costs, how a reply is read as JSON, and the table of
//! providers that are cooling down after a rate limit.
//!
//! Costs are integers: rates in nano-dollars per token, and an estimate in
//! quarter nano-dollars (a token is taken as four bytes of text).

use vstd::prelude::*;
use crate::agent::{opt_str_view, opt_view};
use crate::text::{
    chars_of, contains, occurs_at, owned, push_range, push_str, str_contains, str_eq,
    string_from_chars, trim, trim_bounds,
};

verus! {

// ---------------------------------------------------------------------------
// Routing
// ---------------------------------------------------------------------------

/// The API family a provider is called through.
#[derive(Clone, Copy, Debug, PartialEq, Eq, Structural)]
pub enum ProviderRoute {
    Anthropic,
    OpenAi,
    Gemini,
    Groq,
    Ollama,
    Unknown,
}

pub open spec fn route_spec(provider: Seq<char>) -> ProviderRoute {
    if provider == "anthropic"@ {
        ProviderRoute::Anthropic
    } else if provider == "openai"@ {
        ProviderRoute::OpenAi
    } else if provider == "gemini"@ {
        ProviderRoute::Gemini
    } else if provider == "groq"@ {
        ProviderRoute::Groq
    } else if provider == "ollama"@ {
        ProviderRoute::Ollama
    } else {
        ProviderRoute::Unknown
    }
}

/// Each supported provider name is called through its own API, and every
/// other name is unknown.
pub proof fn providers_route_to_their_api(p: Seq<char>)
    ensures
        (route_spec(p) == ProviderRoute::Anthropic) == (p == "anthropic"@),
        (route_spec(p) == ProviderRoute::OpenAi) == (p == "openai"@),
        (route_spec(p) == ProviderRoute::Gemini) == (p == "gemini"@),
        (route_spec(p) == ProviderRoute::Groq) == (p == "groq"@),
        (route_spec(p) == ProviderRoute::Ollama) == (p == "ollama"@),
        (route_spec(p) == ProviderRoute::Unknown) == !(p == "anthropic"@ || p == "openai"@ || p
            == "gemini"@ || p == "groq"@ || p == "ollama"@),
{
    reveal_strlit("anthropic");
    reveal_strlit("openai");
    reveal_strlit("gemini");
    reveal_strlit("groq");
    reveal_strlit("ollama");
    assert("groq"@.len() == 4 && "anthropic"@.len() == 9 && "openai"@.len() == 6);
    assert("gemini"@.len() == 6 && "ollama"@.len() == 6);
    assert("openai"@[0] != "gemini"@[0]);
    assert("openai"@[1] != "ollama"@[1]);
    assert("gemini"@[0] != "ollama"@[0]);
}

/// The API family of `provider`.
pub fn route(provider: &str) -> (res: ProviderRoute)
    ensures
        res == route_spec(provider@),
{
    if str_eq(provider, "anthropic") {
        ProviderRoute::Anthropic
    } else if str_eq(provider, "openai") {
        ProviderRoute::OpenAi
    } else if str_eq(provider, "gemini") {
        ProviderRoute::Gemini
    } else if str_eq(provider, "groq") {
        ProviderRoute::Groq
    } else if str_eq(provider, "ollama") {
        ProviderRoute::Ollama
    } else {
        ProviderRoute::Unknown
    }
}

/// The error of a call to a provider that is cooling down.
pub fn cooling_down_message(provider: &str) -> (res: String)
    ensures
        res@ == cooling_down_spec(provider@),
{
    let mut out: Vec<char> = Vec::new();
    push_str(&mut out, "Provider ");
    push_str(&mut out, provider);
    push_str(&mut out, " is cooling down");
    string_from_chars(&out)
}

/// The error of a call to a provider that is not known.
pub fn unknown_provider_message(provider: &str) -> (res: String)
    ensures
        res@ == "Unknown provider: "@ + provider@,
{
    let mut out: Vec<char> = Vec::new();
    push_str(&mut out, "Unknown provider: ");
    push_str(&mut out, provider);
    string_from_chars(&out)
}

/// The base URL of Groq's OpenAI-compatible API, from `GROQ_BASE_URL`.
pub fn groq_base_url(env: Option<&str>) -> (res: String)
    ensures
        res@ == match opt_str_view(env) {
            Some(v) => v,
            None => "https://api.groq.com/openai/v1"@,
        },
{
    match env {
        Some(v) => owned(v),
        None => owned("https://api.groq.com/openai/v1"),
    }
}

/// The base URL of the Ollama server, from `OLLAMA_BASE_URL`.
pub fn ollama_base_url(env: Option<&str>) -> (res: String)
    ensures
        res@ == match opt_str_view(env) {
            Some(v) => v,
            None => "http://localhost:11434"@,
        },
{
    match env {
        Some(v) => owned(v),
        None => owned("http://localhost:11434"),
    }
}

/// The chat endpoint of an OpenAI-compatible API at `base`.
pub fn chat_completions_url(base: &str) -> (res: String)
    ensures
        res@ == base@ + "/chat/completions"@,
{
    let mut out = chars_of(base);
    push_str(&mut out, "/chat/completions");
    string_from_chars(&out)
}

/// The chat endpoint of an Ollama server at `base`.
pub fn ollama_chat_url(base: &str) -> (res: String)
    ensures
        res@ == base@ + "/api/chat"@,
{
    let mut out = chars_of(base);
    push_str(&mut out, "/api/chat");
    string_from_chars(&out)
}

/// The generation endpoint of a Gemini model, with the key in the query.
pub fn gemini_url(model: &str, key: &str) -> (res: String)
    ensures
        res@ == "https://generativelanguage.googleapis.com/v1beta/models/"@ + model@
            + ":generateContent?key="@ + key@,
{
    let mut out: Vec<char> = Vec::new();
    push_str(&mut out, "https://generativelanguage.googleapis.com/v1beta/models/");
    push_str(&mut out, model);
    push_str(&mut out, ":generateContent?key=");
    push_str(&mut out, key);
    string_from_chars(&out)
}

// ---------------------------------------------------------------------------
// Keys
// ---------------------------------------------------------------------------

pub open spec fn first_some(a: Option<Seq<char>>, b: Option<Seq<char>>) -> Option<Seq<char>> {
    match a {
        Some(v) => Some(v),
        None => b,
    }
}

/// The key of a call: the agent's own, else `PROVIDER_API_KEY`.
pub fn agent_or_env_key(api_key: Option<&str>, env_key: Option<&str>) -> (res: Option<String>)
    ensures
        opt_view(res) == first_some(opt_str_view(api_key), opt_str_view(env_key)),
{
    match api_key {
        Some(k) => Some(owned(k)),
        None => match env_key {
            Some(k) => Some(owned(k)),
            None => None,
        },
    }
}

/// The bearer token of an OpenAI-compatible call: the agent's key or
/// `PROVIDER_API_KEY` when it holds more than whitespace; without one, a
/// placeholder for a local endpoint. `None` means the call cannot be made
/// ("No API key").
pub open spec fn openai_bearer_spec(key: Option<Seq<char>>, base_is_local: bool) -> Option<
    Seq<char>,
> {
    match key {
        Some(k) => if trim(k).len() > 0 {
            Some(k)
        } else if base_is_local {
            Some("patchhive-local"@)
        } else {
            None
        },
        None => if base_is_local {
            Some("patchhive-local"@)
        } else {
            None
        },
    }
}

pub fn openai_bearer(api_key: Option<&str>, env_key: Option<&str>, base_is_local: bool) -> (res:
    Option<String>)
    ensures
        opt_view(res) == openai_bearer_spec(
            first_some(opt_str_view(api_key), opt_str_view(env_key)),
            base_is_local,
        ),
{
    let key = agent_or_env_key(api_key, env_key);
    match key {
        Some(k) => if !crate::text::is_blank(k.as_str()) {
            Some(k)
        } else if base_is_local {
            Some(owned("patchhive-local"))
        } else {
            None
        },
        None => if base_is_local {
            Some(owned("patchhive-local"))
        } else {
            None
        },
    }
}

// ---------------------------------------------------------------------------
// Cost
// ---------------------------------------------------------------------------

/// Price of a provider and model, in nano-dollars per input and per output
/// token.
#[derive(Clone, Copy, Debug, PartialEq, Eq, Structural)]
pub struct CostRates {
    pub input: u64,
    pub output: u64,
}

pub open spec fn cost_rates_spec(provider: Seq<char>, model: Seq<char>) -> CostRates {
    if provider == "anthropic"@ {
        if contains(model, "opus"@) {
            CostRates { input: 15000, output: 75000 }
        } else if contains(model, "sonnet"@) {
            CostRates { input: 3000, output: 15000 }
        } else {
            CostRates { input: 250, output: 1250 }
        }
    } else if provider == "openai"@ {
        if contains(model, "gpt-4o"@) && !contains(model, "mini"@) {
            CostRates { input: 2500, output: 10000 }
        } else if contains(model, "mini"@) {
            CostRates { input: 150, output: 600 }
        } else {
            CostRates { input: 2500, output: 10000 }
        }
    } else if provider == "gemini"@ {
        CostRates { input: 350, output: 1050 }
    } else if provider == "groq"@ {
        CostRates { input: 590, output: 790 }
    } else if provider == "ollama"@ {
        CostRates { input: 0, output: 0 }
    } else {
        CostRates { input: 3000, output: 15000 }
    }
}

/// The price table.
pub fn cost_rates(provider: &str, model: &str) -> (res: CostRates)
    ensures
        res == cost_rates_spec(provider@, model@),
{
    if str_eq(provider, "anthropic") {
        if str_contains(model, "opus") {
            CostRates { input: 15000, output: 75000 }
        } else if str_contains(model, "sonnet") {
            CostRates { input: 3000, output: 15000 }
        } else {
            CostRates { input: 250, output: 1250 }
        }
    } else if str_eq(provider, "openai") {
        if str_contains(model, "gpt-4o") && !str_contains(model, "mini") {
            CostRates { input: 2500, output: 10000 }
        } else if str_contains(model, "mini") {
            CostRates { input: 150, output: 600 }
        } else {
            CostRates { input: 2500, output: 10000 }
        }
    } else if str_eq(provider, "gemini") {
        CostRates { input: 350, output: 1050 }
    } else if str_eq(provider, "groq") {
        CostRates { input: 590, output: 790 }
    } else if str_eq(provider, "ollama") {
        CostRates { input: 0, output: 0 }
    } else {
        CostRates { input: 3000, output: 15000 }
    }
}

/// The estimated cost of a call, in quarter nano-dollars: each byte of the
/// prompt (system and user text) and of the reply is a quarter token.
pub fn estimate_cost_units(system: &str, prompt: &str, response: &str, provider: &str, model: &str) -> (res: u128)
    ensures
        res == (system.len() + prompt.len()) * cost_rates_spec(provider@, model@).input
            + response.len() * cost_rates_spec(provider@, model@).output,
{
    let rates = cost_rates(provider, model);
    let sent = system.len() as u128 + prompt.len() as u128;
    let got = response.len() as u128;
    assert(rates.input <= 100000 && rates.output <= 100000);
    assert(sent * (rates.input as u128) <= 0x2_0000_0000_0000_0000u128 * 100000) by (nonlinear_arith)
        requires
            sent <= 0x2_0000_0000_0000_0000u128,
            rates.input <= 100000,
    ;
    assert(got * (rates.output as u128) <= 0x1_0000_0000_0000_0000u128 * 100000) by (nonlinear_arith)
        requires
            got <= 0x1_0000_0000_0000_0000u128,
            rates.output <= 100000,
    ;
    sent * (rates.input as u128) + got * (rates.output as u128)
}

// ---------------------------------------------------------------------------
// Replies
// ---------------------------------------------------------------------------

/// `s` without the prefix `p`, when it has it.
pub open spec fn strip_prefix_or_keep(s: Seq<char>, p: Seq<char>) -> Seq<char> {
    if s.len() >= p.len() && s.take(p.len() as int) == p {
        s.skip(p.len() as int)
    } else {
        s
    }
}

/// `s` without the suffix `p`, when it has it.
pub open spec fn strip_suffix_or_keep(s: Seq<char>, p: Seq<char>) -> Seq<char> {
    if s.len() >= p.len() && s.skip(s.len() - p.len()) == p {
        s.take(s.len() - p.len())
    } else {
        s
    }
}

/// A reply without the Markdown code fence that models put around JSON.
pub open spec fn strip_json_fence_spec(s: Seq<char>) -> Seq<char> {
    let a = trim(s);
    let b = strip_prefix_or_keep(a, "```json"@);
    let c = strip_prefix_or_keep(b, "```"@);
    let d = strip_suffix_or_keep(c, "```"@);
    trim(d)
}

fn strip_prefix_chars(v: Vec<char>, p: &str) -> (res: Vec<char>)
    ensures
        res@ == strip_prefix_or_keep(v@, p@),
{
    let pv = chars_of(p);
    if v.len() >= pv.len() && crate::text::occurs_at_exec(&v, &pv, 0) {
        let mut out: Vec<char> = Vec::new();
        push_range(&mut out, &v, pv.len(), v.len());
        assert(v@.subrange(0, pv@.len() as int) =~= v@.take(pv@.len() as int));
        assert(out@ =~= v@.skip(pv@.len() as int));
        out
    } else {
        proof {
            if v@.len() >= pv@.len() {
                assert(v@.subrange(0, pv@.len() as int) =~= v@.take(pv@.len() as int));
            }
        }
        v
    }
}

fn strip_suffix_chars(v: Vec<char>, p: &str) -> (res: Vec<char>)
    ensures
        res@ == strip_suffix_or_keep(v@, p@),
{
    let pv = chars_of(p);
    if v.len() >= pv.len() && crate::text::occurs_at_exec(&v, &pv, v.len() - pv.len()) {
        let mut out: Vec<char> = Vec::new();
        push_range(&mut out, &v, 0, v.len() - pv.len());
        assert(v@.subrange(v.len() - pv.len(), v.len() as int) =~= v@.skip(v.len() - pv.len()));
        assert(out@ =~= v@.take(v.len() - pv.len()));
        out
    } else {
        proof {
            if v@.len() >= pv@.len() {
                assert(v@.subrange(v.len() - pv.len(), v.len() as int) =~= v@.skip(
                    v.len() - pv.len(),
                ));
            }
        }
        v
    }
}

fn trim_chars(v: &Vec<char>) -> (res: Vec<char>)
    ensures
        res@ == trim(v@),
{
    let (a, b) = trim_bounds(v);
    let mut out: Vec<char> = Vec::new();
    push_range(&mut out, v, a, b);
    out
}

/// A reply without its code fence.
pub fn strip_json_fence(s: &str) -> (res: String)
    ensures
        res@ == strip_json_fence_spec(s@),
{
    let v = chars_of(s);
    let a = trim_chars(&v);
    let b = strip_prefix_chars(a, "```json");
    let c = strip_prefix_chars(b, "```");
    let d = strip_suffix_chars(c, "```");
    let e = trim_chars(&d);
    string_from_chars(&e)
}

/// `serde_json::Value`, a parsed JSON document.
#[verifier::external_type_specification]
#[verifier::external_body]
pub struct ExJsonValue(serde_json::Value);

/// `serde_json::Error`, why a text is not JSON.
#[verifier::external_type_specification]
#[verifier::external_body]
pub struct ExJsonError(serde_json::Error);

/// Whether serde_json reads `text` as one JSON document.
pub uninterp spec fn json_accepts(text: Seq<char>) -> bool;

/// The document that serde_json reads from `text`.
pub uninterp spec fn json_value(text: Seq<char>) -> serde_json::Value;

/// `serde_json::from_str` into a `Value`: it succeeds exactly on the texts
/// that serde_json accepts as JSON, and the document it reads, like the
/// success itself, depends on the text alone.
#[verifier::external_body]
fn json_from_str(text: &str) -> (res: Result<serde_json::Value, serde_json::Error>)
    ensures
        res.is_ok() == json_accepts(text@),
        res matches Ok(v) ==> v == json_value(text@),
{
    serde_json::from_str(text)
}

/// The `Display` text of a `serde_json::Error` (its description and
/// position); nothing is stated of it.
#[verifier::external_body]
fn json_error_text(e: &serde_json::Error) -> String {
    e.to_string()
}

/// A reply read as JSON once its code fence is removed; the error names the
/// parser's complaint and quotes the raw reply.
pub fn parse_json(text: &str) -> (res: Result<serde_json::Value, String>)
    ensures
        res.is_ok() == json_accepts(strip_json_fence_spec(text@)),
        res matches Ok(v) ==> v == json_value(strip_json_fence_spec(text@)),
        res matches Err(msg) ==> exists|detail: Seq<char>|
            msg@ == "JSON parse error: "@ + detail + "\nRaw: "@ + text@,
{
    let clean = strip_json_fence(text);
    match json_from_str(clean.as_str()) {
        Ok(v) => Ok(v),
        Err(e) => {
            let detail = json_error_text(&e);
            let mut out: Vec<char> = Vec::new();
            push_str(&mut out, "JSON parse error: ");
            push_str(&mut out, detail.as_str());
            push_str(&mut out, "\nRaw: ");
            push_str(&mut out, text);
            assert(out@ == "JSON parse error: "@ + detail@ + "\nRaw: "@ + text@);
            Err(string_from_chars(&out))
        },
    }
}

// ---------------------------------------------------------------------------
// Rate limits
// ---------------------------------------------------------------------------

/// Unicode lower-casing of a text, as `str::to_lowercase` gives it.
pub uninterp spec fn unicode_lowercase(s: Seq<char>) -> Seq<char>;

/// `str::to_lowercase`: the Unicode lower case of `s`, a function of `s`
/// alone.
#[verifier::external_body]
fn to_lowercase(s: &str) -> (res: String)
    ensures
        res@ == unicode_lowercase(s@),
{
    s.to_lowercase()
}

pub open spec fn mentions_rate_limit_spec(lower: Seq<char>) -> bool {
    ||| contains(lower, "rate limit"@)
    ||| contains(lower, "429"@)
    ||| contains(lower, "quota"@)
}

/// An error that mentions `rate limit`, `429` or `quota` (in lower case)
/// reports a rate limit; one that mentions none of them does not.
pub proof fn rate_limit_words(lower: Seq<char>)
    ensures
        contains(lower, "rate limit"@) ==> mentions_rate_limit_spec(lower),
        contains(lower, "429"@) ==> mentions_rate_limit_spec(lower),
        contains(lower, "quota"@) ==> mentions_rate_limit_spec(lower),
        !contains(lower, "rate limit"@) && !contains(lower, "429"@) && !contains(lower, "quota"@)
            ==> !mentions_rate_limit_spec(lower),
{
}

/// Whether a lower-cased error text reports a rate limit or an exhausted
/// quota.
pub fn mentions_rate_limit(lower: &str) -> (res: bool)
    ensures
        res == mentions_rate_limit_spec(lower@),
{
    str_contains(lower, "rate limit") || str_contains(lower, "429") || str_contains(lower, "quota")
}

/// Whether a call's error reports a rate limit, read case-insensitively.
pub fn is_rate_limit_error(msg: &str) -> (res: bool)
    ensures
        res == mentions_rate_limit_spec(unicode_lowercase(msg@)),
{
    let lower = to_lowercase(msg);
    mentions_rate_limit(lower.as_str())
}

// ---------------------------------------------------------------------------
// Cooldowns
// ---------------------------------------------------------------------------

/// How long a provider rests after it reported a rate limit, in seconds.
pub const RATE_LIMIT_COOLDOWN_SECS: u64 = 90;

/// The error text of a call to a provider that is cooling down.
pub open spec fn cooling_down_spec(provider: Seq<char>) -> Seq<char> {
    "Provider "@ + provider + " is cooling down"@
}

/// A provider that is cooling down, and the instant (in milliseconds on the
/// service's clock) from which it may be called again.
#[derive(Clone, Debug)]
pub struct CooldownEntry {
    pub provider: String,
    pub until_ms: u64,
}

/// When the last entry for `p` in `s` lets it be called again.
pub open spec fn lookup(s: Seq<CooldownEntry>, p: Seq<char>) -> Option<u64>
    decreases s.len(),
{
    if s.len() == 0 {
        None
    } else if s.last().provider@ == p {
        Some(s.last().until_ms)
    } else {
        lookup(s.drop_last(), p)
    }
}

/// The providers of `s` still cooling down at `now`, with the milliseconds
/// left, in table order.
pub open spec fn live(s: Seq<CooldownEntry>, now: u64) -> Seq<(Seq<char>, u64)>
    decreases s.len(),
{
    if s.len() == 0 {
        Seq::empty()
    } else {
        let r = live(s.drop_last(), now);
        if s.last().until_ms > now {
            r.push((s.last().provider@, (s.last().until_ms - now) as u64))
        } else {
            r
        }
    }
}

pub open spec fn available_spec(until: Option<u64>, now: u64) -> bool {
    match until {
        Some(t) => now >= t,
        None => true,
    }
}

/// What a failed call to `p` at `now` leaves of the table: after an error
/// that reports a rate limit, `p` rests for the cooldown period and the other
/// providers are as they were; after any other error nothing changes.
pub open spec fn call_error_effect(old: Cooldowns, new: Cooldowns, p: Seq<char>, error: Seq<char>, now: u64) -> bool {
    if mentions_rate_limit_spec(unicode_lowercase(error)) {
        &&& new.until(p) == Some((now + RATE_LIMIT_COOLDOWN_SECS * 1000) as u64)
        &&& forall|q: Seq<char>| q != p ==> new.until(q) == old.until(q)
    } else {
        new == old
    }
}

/// Whether a call to `p` at `now` may go out: the API family it goes to, or
/// the cooling-down error when `p` is resting.
pub open spec fn admit_spec(c: Cooldowns, p: Seq<char>, now: u64) -> Result<ProviderRoute, Seq<char>> {
    if available_spec(c.until(p), now) {
        Ok(route_spec(p))
    } else {
        Err(cooling_down_spec(p))
    }
}

/// The table of providers that rest after a rate limit. Each provider occurs
/// at most once: the entries stand in for a map keyed by provider name.
#[derive(Clone, Debug)]
pub struct Cooldowns {
    pub entries: Vec<CooldownEntry>,
}

proof fn lemma_lookup_at(s: Seq<CooldownEntry>, i: int)
    requires
        0 <= i < s.len(),
        forall|a: int, b: int| 0 <= a < b < s.len() ==> s[a].provider@ != s[b].provider@,
    ensures
        lookup(s, s[i].provider@) == Some(s[i].until_ms),
    decreases s.len(),
{
    if i < s.len() - 1 {
        assert(s.drop_last()[i] == s[i]);
        lemma_lookup_at(s.drop_last(), i);
    }
}

proof fn lemma_lookup_absent(s: Seq<CooldownEntry>, p: Seq<char>)
    requires
        forall|k: int| 0 <= k < s.len() ==> s[k].provider@ != p,
    ensures
        lookup(s, p) is None,
    decreases s.len(),
{
    if s.len() > 0 {
        lemma_lookup_absent(s.drop_last(), p);
    }
}

proof fn lemma_lookup_update_other(s: Seq<CooldownEntry>, i: int, e: CooldownEntry, q: Seq<char>)
    requires
        0 <= i < s.len(),
        s[i].provider@ != q,
        e.provider@ != q,
    ensures
        lookup(s.update(i, e), q) == lookup(s, q),
    decreases s.len(),
{
    if i < s.len() - 1 {
        assert(s.update(i, e).drop_last() =~= s.drop_last().update(i, e));
        lemma_lookup_update_other(s.drop_last(), i, e, q);
    } else {
        assert(s.update(i, e).drop_last() =~= s.drop_last());
    }
}

proof fn lemma_lookup_remove_other(s: Seq<CooldownEntry>, i: int, q: Seq<char>)
    requires
        0 <= i < s.len(),
        s[i].provider@ != q,
    ensures
        lookup(s.remove(i), q) == lookup(s, q),
    decreases s.len(),
{
    if i < s.len() - 1 {
        assert(s.remove(i).drop_last() =~= s.drop_last().remove(i));
        assert(s.remove(i).last() == s.last());
        lemma_lookup_remove_other(s.drop_last(), i, q);
    } else {
        assert(s.remove(i) =~= s.drop_last());
    }
}

impl Cooldowns {
    /// Each provider occurs at most once.
    pub open spec fn wf(&self) -> bool {
        forall|a: int, b: int|
            0 <= a < b < self.entries@.len() ==> self.entries@[a].provider@
                != self.entries@[b].provider@
    }

    /// When `p` may be called again, if it is cooling down.
    pub open spec fn until(&self, p: Seq<char>) -> Option<u64> {
        lookup(self.entries@, p)
    }

    /// An empty table.
    pub fn new() -> (res: Cooldowns)
        ensures
            res.wf(),
            forall|p: Seq<char>| res.until(p) is None,
    {
        Cooldowns { entries: Vec::new() }
    }

    fn find(&self, provider: &str) -> (res: Option<usize>)
        ensures
            match res {
                Some(i) => i < self.entries.len() && self.entries@[i as int].provider@ == provider@,
                None => forall|k: int|
                    0 <= k < self.entries@.len() ==> self.entries@[k].provider@ != provider@,
            },
    {
        let mut i: usize = 0;
        while i < self.entries.len()
            invariant
                i <= self.entries.len(),
                forall|k: int| 0 <= k < i ==> self.entries@[k].provider@ != provider@,
            decreases self.entries.len() - i,
        {
            if str_eq(self.entries[i].provider.as_str(), provider) {
                return Some(i);
            }
            i += 1;
        }
        None
    }

    /// Whether `provider` may be called at `now`: it is not cooling down, or
    /// its rest is over.
    pub fn provider_available(&self, provider: &str, now_ms: u64) -> (res: bool)
        requires
            self.wf(),
        ensures
            res == available_spec(self.until(provider@), now_ms),
    {
        match self.find(provider) {
            Some(i) => {
                proof {
                    lemma_lookup_at(self.entries@, i as int);
                }
                now_ms >= self.entries[i].until_ms
            },
            None => {
                proof {
                    lemma_lookup_absent(self.entries@, provider@);
                }
                true
            },
        }
    }

    /// Whether a call to `provider` at `now` may go out: a resting provider
    /// gets the cooling-down error, any other the API family it is called
    /// through (`Unknown` for a name that is not known).
    pub fn admit_call(&self, provider: &str, now_ms: u64) -> (res: Result<ProviderRoute, String>)
        requires
            self.wf(),
        ensures
            match res {
                Ok(r) => admit_spec(*self, provider@, now_ms) == Ok::<ProviderRoute, Seq<char>>(r),
                Err(m) => admit_spec(*self, provider@, now_ms) == Err::<ProviderRoute, Seq<char>>(m@),
            },
    {
        if self.provider_available(provider, now_ms) {
            Ok(route(provider))
        } else {
            Err(cooling_down_message(provider))
        }
    }

    /// Lets `provider` rest for `secs` seconds from `now`.
    pub fn set_cooldown(&mut self, provider: &str, secs: u64, now_ms: u64)
        requires
            old(self).wf(),
            now_ms + secs * 1000 <= u64::MAX,
        ensures
            final(self).wf(),
            final(self).until(provider@) == Some((now_ms + secs * 1000) as u64),
            forall|q: Seq<char>| q != provider@ ==> final(self).until(q) == old(self).until(q),
    {
        let until_ms = now_ms + secs * 1000;
        let entry = CooldownEntry { provider: owned(provider), until_ms };
        match self.find(provider) {
            Some(i) => {
                let ghost before = self.entries@;
                self.entries.set(i, entry);
                proof {
                    assert(self.entries@ == before.update(i as int, entry));
                    lemma_lookup_at(self.entries@, i as int);
                    assert forall|q: Seq<char>| q != provider@ implies lookup(self.entries@, q)
                        == lookup(before, q) by {
                        lemma_lookup_update_other(before, i as int, entry, q);
                    }
                }
            },
            None => {
                let ghost before = self.entries@;
                self.entries.push(entry);
                proof {
                    assert(self.entries@.drop_last() =~= before);
                }
            },
        }
    }

    /// Ends the rest of `provider`.
    pub fn clear_cooldown(&mut self, provider: &str)
        requires
            old(self).wf(),
        ensures
            final(self).wf(),
            final(self).until(provider@) is None,
            forall|q: Seq<char>| q != provider@ ==> final(self).until(q) == old(self).until(q),
    {
        match self.find(provider) {
            Some(i) => {
                let ghost before = self.entries@;
                self.entries.remove(i);
                proof {
                    assert(self.entries@ == before.remove(i as int));
                    assert forall|k: int| 0 <= k < self.entries@.len() implies self.entries@[k].provider@
                        != provider@ by {
                        if k < i {
                            assert(self.entries@[k] == before[k]);
                        } else {
                            assert(self.entries@[k] == before[k + 1]);
                        }
                    }
                    lemma_lookup_absent(self.entries@, provider@);
                    assert forall|q: Seq<char>| q != provider@ implies lookup(self.entries@, q)
                        == lookup(before, q) by {
                        lemma_lookup_remove_other(before, i as int, q);
                    }
                }
            },
            None => {
                proof {
                    lemma_lookup_absent(self.entries@, provider@);
                }
            },
        }
    }

    /// The providers cooling down at `now`, with the milliseconds left.
    pub fn get_cooldowns(&self, now_ms: u64) -> (res: Vec<(String, u64)>)
        ensures
            res@.map_values(|x: (String, u64)| (x.0@, x.1)) == live(self.entries@, now_ms),
    {
        let mut out: Vec<(String, u64)> = Vec::new();
        let mut i: usize = 0;
        while i < self.entries.len()
            invariant
                i <= self.entries.len(),
                out@.map_values(|x: (String, u64)| (x.0@, x.1)) == live(
                    self.entries@.take(i as int),
                    now_ms,
                ),
            decreases self.entries.len() - i,
        {
            let e = &self.entries[i];
            let ghost t = self.entries@.take(i + 1);
            assert(t.drop_last() =~= self.entries@.take(i as int));
            if e.until_ms > now_ms {
                out.push((e.provider.clone(), e.until_ms - now_ms));
            }
            assert(out@.map_values(|x: (String, u64)| (x.0@, x.1)) =~= live(t, now_ms));
            i += 1;
        }
        assert(self.entries@.take(self.entries@.len() as int) =~= self.entries@);
        out
    }

    /// What a failed call leaves: a provider that reported a rate limit rests
    /// for the cooldown period; otherwise nothing changes. Returns whether it
    /// was made to rest.
    pub fn note_call_error(&mut self, provider: &str, error: &str, now_ms: u64) -> (res: bool)
        requires
            old(self).wf(),
            now_ms + RATE_LIMIT_COOLDOWN_SECS * 1000 <= u64::MAX,
        ensures
            final(self).wf(),
            res == mentions_rate_limit_spec(unicode_lowercase(error@)),
            call_error_effect(*old(self), *final(self), provider@, error@, now_ms),
    {
        if is_rate_limit_error(error) {
            self.set_cooldown(provider, RATE_LIMIT_COOLDOWN_SECS, now_ms);
            true
        } else {
            false
        }
    }
}

/// A provider made to rest cannot be called before its rest is over, and can
/// be called from then on.
pub proof fn cooldown_blocks_until_expiry(secs: u64, now_ms: u64, t: u64)
    requires
        now_ms + secs * 1000 <= u64::MAX,
    ensures
        available_spec(Some((now_ms + secs * 1000) as u64), t) == (t >= now_ms + secs * 1000),
{
}

/// After a call to `p` failed at `now` with an error that reports a rate
/// limit, every call to `p` in the next 90 seconds is refused with the
/// cooling-down error, and calls are let through again from then on.
pub proof fn rate_limit_rests_provider(old: Cooldowns, new: Cooldowns, p: Seq<char>, error: Seq<char>, now: u64, t: u64)
    requires
        call_error_effect(old, new, p, error, now),
        mentions_rate_limit_spec(unicode_lowercase(error)),
        now + RATE_LIMIT_COOLDOWN_SECS * 1000 <= u64::MAX,
    ensures
        t < now + RATE_LIMIT_COOLDOWN_SECS * 1000 ==> admit_spec(new, p, t) == Err::<ProviderRoute, Seq<char>>(cooling_down_spec(p)),
        t >= now + RATE_LIMIT_COOLDOWN_SECS * 1000 ==> admit_spec(new, p, t) == Ok::<ProviderRoute, Seq<char>>(route_spec(p)),
{
}

/// An error that reports no rate limit sets no rest: every later call is
/// admitted or refused exactly as before.
pub proof fn other_errors_set_no_rest(old: Cooldowns, new: Cooldowns, p: Seq<char>, error: Seq<char>, now: u64, q: Seq<char>, t: u64)
    requires
        call_error_effect(old, new, p, error, now),
        !mentions_rate_limit_spec(unicode_lowercase(error)),
    ensures
        admit_spec(new, q, t) == admit_spec(old, q, t),
{
}

/// A rate limit reported by one provider does not make another rest.
pub proof fn rest_is_per_provider(old: Cooldowns, new: Cooldowns, p: Seq<char>, error: Seq<char>, now: u64, q: Seq<char>, t: u64)
    requires
        call_error_effect(old, new, p, error, now),
        q != p,
    ensures
        admit_spec(new, q, t) == admit_spec(old, q, t),
{
}

/// A provider whose rest was ended can be called at any time.
pub proof fn cleared_provider_available(c: Cooldowns, p: Seq<char>, t: u64)
    requires
        c.until(p) is None,
    ensures
        available_spec(c.until(p), t),
{
}

/// Every provider listed as cooling down cannot be called at that instant.
pub proof fn listed_providers_unavailable(c: Cooldowns, now_ms: u64, k: int)
    requires
        c.wf(),
        0 <= k < live(c.entries@, now_ms).len(),
    ensures
        !available_spec(c.until(live(c.entries@, now_ms)[k].0), now_ms),
        live(c.entries@, now_ms)[k].1 > 0,
{
    lemma_live_entry(c.entries@, now_ms, k);
    let i = choose|i: int|
        0 <= i < c.entries@.len() && c.entries@[i].provider@ == live(c.entries@, now_ms)[k].0
            && c.entries@[i].until_ms > now_ms;
    lemma_lookup_at(c.entries@, i);
}

proof fn lemma_live_entry(s: Seq<CooldownEntry>, now: u64, k: int)
    requires
        0 <= k < live(s, now).len(),
    ensures
        exists|i: int|
            0 <= i < s.len() && s[i].provider@ == live(s, now)[k].0 && s[i].until_ms > now,
        live(s, now)[k].1 > 0,
    decreases s.len(),
{
    let r = live(s.drop_last(), now);
    if k < r.len() {
        lemma_live_entry(s.drop_last(), now, k);
        let i = choose|i: int|
            0 <= i < s.drop_last().len() && s.drop_last()[i].provider@ == r[k].0
                && s.drop_last()[i].until_ms > now;
        assert(s[i] == s.drop_last()[i]);
    } else {
        assert(s[s.len() - 1] == s.last());
    }
}

} // verus!
