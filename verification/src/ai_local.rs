//! Where OpenAI-compatible calls go: the local AI gateway when one is
//! configured, else the configured or the public OpenAI base URL; and the
//! gateway's health and model-list endpoints.
//!
//! The settings are handed in as the raw values of `PATCHHIVE_AI_URL` and
//! `OPENAI_BASE_URL` (`None` when unset).

use vstd::prelude::*;
use crate::agent::{opt_str_view, opt_view};
use crate::text::{
    ascii_lowercase, ascii_lowercase_exec, chars_of, contains, contains_exec, ends_with,
    ends_with_exec, owned, push_range, push_str, string_from_chars, trim, trim_bounds,
};

verus! {

/// `s` without the `'/'` characters at its end.
pub open spec fn strip_trailing_slashes(s: Seq<char>) -> Seq<char>
    decreases s.len(),
{
    if s.len() > 0 && s.last() == '/' {
        strip_trailing_slashes(s.drop_last())
    } else {
        s
    }
}

/// A URL as it is compared: trimmed, without trailing slashes.
pub open spec fn normalize_spec(url: Seq<char>) -> Seq<char> {
    strip_trailing_slashes(trim(url))
}

/// A setting counts only when it holds more than whitespace; it is taken
/// trimmed.
pub open spec fn setting_spec(raw: Option<Seq<char>>) -> Option<Seq<char>> {
    match raw {
        Some(v) => if trim(v).len() > 0 {
            Some(trim(v))
        } else {
            None
        },
        None => None,
    }
}

/// The root of the gateway: the normalized URL without a final `/v1`.
pub open spec fn gateway_root_spec(url: Seq<char>) -> Seq<char> {
    let n = normalize_spec(url);
    if ends_with(n, "/v1"@) {
        n.take(n.len() - 3)
    } else {
        n
    }
}

pub open spec fn openai_base_spec(gateway: Option<Seq<char>>, openai: Option<Seq<char>>) -> Seq<
    char,
> {
    match setting_spec(gateway) {
        Some(u) => u,
        None => match setting_spec(openai) {
            Some(u) => u,
            None => "https://api.openai.com/v1"@,
        },
    }
}

pub open spec fn is_local_spec(base: Seq<char>, gateway: Option<Seq<char>>) -> bool {
    let b = normalize_spec(base);
    ||| (setting_spec(gateway) matches Some(g) && normalize_spec(g) == b)
    ||| contains(ascii_lowercase(b), "127.0.0.1"@)
    ||| contains(ascii_lowercase(b), "localhost"@)
}

proof fn lemma_strip_prefix(s: Seq<char>, k: int)
    requires
        0 <= k <= s.len(),
        forall|j: int| k <= j < s.len() ==> s[j] == '/',
        k > 0 ==> s[k - 1] != '/',
    ensures
        strip_trailing_slashes(s) == s.take(k),
    decreases s.len(),
{
    if s.len() > k {
        assert(s.drop_last().take(k) =~= s.take(k));
        lemma_strip_prefix(s.drop_last(), k);
    } else {
        assert(s.take(k) =~= s);
    }
}

/// A setting's value, trimmed, when it holds more than whitespace.
pub fn nonempty_setting(raw: Option<&str>) -> (res: Option<String>)
    ensures
        opt_view(res) == setting_spec(opt_str_view(raw)),
{
    match raw {
        Some(v) => {
            let chars = chars_of(v);
            let (a, b) = trim_bounds(&chars);
            if a < b {
                let mut out: Vec<char> = Vec::new();
                push_range(&mut out, &chars, a, b);
                assert(out@ =~= trim(v@));
                Some(string_from_chars(&out))
            } else {
                None
            }
        },
        None => None,
    }
}

/// The configured AI gateway, from the value of `PATCHHIVE_AI_URL`.
pub fn configured_url(patchhive_ai_url: Option<&str>) -> (res: Option<String>)
    ensures
        opt_view(res) == setting_spec(opt_str_view(patchhive_ai_url)),
{
    nonempty_setting(patchhive_ai_url)
}

/// The base URL of OpenAI-compatible calls: the gateway, else
/// `OPENAI_BASE_URL`, else the public API.
pub fn openai_base_url(patchhive_ai_url: Option<&str>, openai_base_url_env: Option<&str>) -> (res:
    String)
    ensures
        res@ == openai_base_spec(opt_str_view(patchhive_ai_url), opt_str_view(openai_base_url_env)),
{
    match configured_url(patchhive_ai_url) {
        Some(u) => u,
        None => match nonempty_setting(openai_base_url_env) {
            Some(u) => u,
            None => owned("https://api.openai.com/v1"),
        },
    }
}

/// `url` trimmed and without trailing slashes.
pub fn normalize(url: &str) -> (res: String)
    ensures
        res@ == normalize_spec(url@),
{
    let chars = chars_of(url);
    let (a, b) = trim_bounds(&chars);
    let mut end = b;
    while end > a && chars[end - 1] == '/'
        invariant
            a <= end <= b <= chars.len(),
            forall|j: int| end <= j < b ==> chars@[j] == '/',
        decreases end,
    {
        end -= 1;
    }
    let mut out: Vec<char> = Vec::new();
    push_range(&mut out, &chars, a, end);
    proof {
        let t = trim(url@);
        assert(t =~= chars@.subrange(a as int, b as int));
        lemma_strip_prefix(t, end - a);
        assert(out@ =~= t.take(end - a));
    }
    string_from_chars(&out)
}

/// Whether calls to `base` stay on this machine: it is the configured
/// gateway, or it names the loopback address or `localhost`.
pub fn is_local_openai_base(base: &str, patchhive_ai_url: Option<&str>) -> (res: bool)
    ensures
        res == is_local_spec(base@, opt_str_view(patchhive_ai_url)),
{
    let b = normalize(base);
    let bv = chars_of(b.as_str());
    if let Some(configured) = configured_url(patchhive_ai_url) {
        let c = normalize(configured.as_str());
        let cv = chars_of(c.as_str());
        if crate::text::chars_eq(&cv, &bv) {
            return true;
        }
    }
    let lower = ascii_lowercase_exec(&bv);
    let mut loopback: Vec<char> = Vec::new();
    push_str(&mut loopback, "127.0.0.1");
    let mut localhost: Vec<char> = Vec::new();
    push_str(&mut localhost, "localhost");
    contains_exec(&lower, &loopback) || contains_exec(&lower, &localhost)
}

/// The gateway's root: the normalized URL without a final `/v1`.
pub fn gateway_root(url: &str) -> (res: String)
    ensures
        res@ == gateway_root_spec(url@),
{
    let n = normalize(url);
    let nv = chars_of(n.as_str());
    let mut suffix: Vec<char> = Vec::new();
    push_str(&mut suffix, "/v1");
    if ends_with_exec(&nv, &suffix) {
        proof {
            reveal_strlit("/v1");
        }
        let mut out: Vec<char> = Vec::new();
        push_range(&mut out, &nv, 0, nv.len() - 3);
        assert(out@ =~= nv@.take(nv@.len() - 3));
        string_from_chars(&out)
    } else {
        n
    }
}

/// The gateway's health endpoint.
pub fn health_url(url: &str) -> (res: String)
    ensures
        res@ == gateway_root_spec(url@) + "/health"@,
{
    let mut out = chars_of(gateway_root(url).as_str());
    push_str(&mut out, "/health");
    string_from_chars(&out)
}

/// The gateway's model-list endpoint.
pub fn models_url(url: &str) -> (res: String)
    ensures
        res@ == gateway_root_spec(url@) + "/v1/models"@,
{
    let mut out = chars_of(gateway_root(url).as_str());
    push_str(&mut out, "/v1/models");
    string_from_chars(&out)
}

} // verus!
