//! The service's settings: the models each provider offers, the `.env` file
//! that settings are read from and saved to, which keys a model listing
//! uses, and how a listing is answered.

use vstd::prelude::*;
use crate::agent::{opt_str_view, opt_view};
use crate::text::{
    ascii_lowercase, ascii_lowercase_exec, chars_of, first_occurrence_from, find_from, is_blank,
    join, join_exec, lemma_first_occurrence, lemma_no_occurrence, lines, lines_exec, occurs_at,
    owned, push_range, push_str, starts_with, str_eq, string_from_chars, trim, trim_bounds,
    trim_start,
};

verus! {

// ---------------------------------------------------------------------------
// Providers and roles
// ---------------------------------------------------------------------------

/// The models offered for a provider when its own list cannot be had;
/// Anthropic's models are only listed by its API.
pub open spec fn provider_models(p: Seq<char>) -> Seq<Seq<char>> {
    if p == "openai"@ {
        seq![
            "gpt-5.4"@,
            "gpt-5.4-mini"@,
            "gpt-5.4-nano"@,
            "gpt-5.3-codex"@,
            "gpt-5.2-codex"@,
            "gpt-5.1"@,
            "gpt-5-mini"@,
            "gpt-5-nano"@,
            "gpt-5.1-codex"@,
            "gpt-5.1-codex-mini"@,
            "gpt-5.1-codex-max"@,
            "gpt-5-codex"@,
            "gpt-5"@,
            "gpt-4.1"@,
            "gpt-4.1-mini"@,
            "gpt-4.1-nano"@,
            "o3"@,
            "o4-mini"@,
            "o3-mini"@,
        ]
    } else if p == "gemini"@ {
        seq!["gemini-2.0-flash"@, "gemini-2.0-flash-lite"@, "gemini-1.5-pro"@, "gemini-2.5-pro"@]
    } else if p == "groq"@ {
        seq!["llama-3.3-70b-versatile"@, "llama-3.1-8b-instant"@, "mixtral-8x7b-32768"@]
    } else if p == "custom"@ {
        seq!["gpt-4.1-mini"@, "qwen2.5-coder"@, "llama3.2"@]
    } else if p == "ollama"@ {
        seq!["llama3.2"@, "codellama"@, "deepseek-coder"@, "qwen2.5-coder"@]
    } else {
        Seq::empty()
    }
}

fn owned_all(items: &[&str]) -> (res: Vec<String>)
    ensures
        res@.map_values(|s: String| s@) == items@.map_values(|s: &str| s@),
{
    let mut out: Vec<String> = Vec::new();
    let mut i: usize = 0;
    while i < items.len()
        invariant
            i <= items.len(),
            out.len() == i,
            forall|k: int| 0 <= k < i ==> (#[trigger] out@[k])@ == items@[k]@,
        decreases items.len() - i,
    {
        out.push(owned(items[i]));
        i += 1;
    }
    assert(out@.map_values(|s: String| s@) =~= items@.map_values(|s: &str| s@));
    out
}

/// The built-in model list of a provider; empty for an unknown provider.
pub fn static_provider_models(provider: &str) -> (res: Vec<String>)
    ensures
        res@.map_values(|s: String| s@) == provider_models(provider@),
{
    let v = if str_eq(provider, "openai") {
        owned_all(
            &[
                "gpt-5.4",
                "gpt-5.4-mini",
                "gpt-5.4-nano",
                "gpt-5.3-codex",
                "gpt-5.2-codex",
                "gpt-5.1",
                "gpt-5-mini",
                "gpt-5-nano",
                "gpt-5.1-codex",
                "gpt-5.1-codex-mini",
                "gpt-5.1-codex-max",
                "gpt-5-codex",
                "gpt-5",
                "gpt-4.1",
                "gpt-4.1-mini",
                "gpt-4.1-nano",
                "o3",
                "o4-mini",
                "o3-mini",
            ],
        )
    } else if str_eq(provider, "gemini") {
        owned_all(&["gemini-2.0-flash", "gemini-2.0-flash-lite", "gemini-1.5-pro", "gemini-2.5-pro"])
    } else if str_eq(provider, "groq") {
        owned_all(&["llama-3.3-70b-versatile", "llama-3.1-8b-instant", "mixtral-8x7b-32768"])
    } else if str_eq(provider, "custom") {
        owned_all(&["gpt-4.1-mini", "qwen2.5-coder", "llama3.2"])
    } else if str_eq(provider, "ollama") {
        owned_all(&["llama3.2", "codellama", "deepseek-coder", "qwen2.5-coder"])
    } else {
        Vec::new()
    };
    proof {
        assert(v@.map_values(|s: String| s@) =~= provider_models(provider@));
    }
    v
}

/// How a role is shown.
#[derive(Clone, Debug)]
pub struct RoleInfo {
    pub id: String,
    pub label: String,
    pub icon: String,
    pub color: String,
    pub desc: String,
}

fn role(id: &str, label: &str, icon: &str, color: &str, desc: &str) -> (res: RoleInfo)
    ensures
        res.id@ == id@,
        res.label@ == label@,
        res.icon@ == icon@,
        res.color@ == color@,
        res.desc@ == desc@,
{
    RoleInfo {
        id: owned(id),
        label: owned(label),
        icon: owned(icon),
        color: owned(color),
        desc: owned(desc),
    }
}

/// The five roles, in the order of the workflow.
pub fn role_table() -> (res: Vec<RoleInfo>)
    ensures
        res@.len() == 5,
        res@[0].id@ == "scout"@,
        res@[1].id@ == "judge"@,
        res@[2].id@ == "reaper"@,
        res@[3].id@ == "smith"@,
        res@[4].id@ == "gatekeeper"@,
{
    let mut v: Vec<RoleInfo> = Vec::new();
    v.push(role("scout", "Scout", "◎", "#4a9af0", "Hunts repos & judges issue quality"));
    v.push(role("judge", "Judge", "⚖", "#e0a030", "Targets relevant files for the kill"));
    v.push(role("reaper", "Reaper", "⚔", "#c41e3a", "Forges the killing patch"));
    v.push(role("smith", "Smith", "⬢", "#7b2d8b", "Refines & improves patches"));
    v.push(role("gatekeeper", "Gatekeeper", "🔒", "#2a8a4a", "Validates & opens PRs"));
    v
}

/// The list a repository is put on, from what a user typed; `None` when it
/// names no list.
pub open spec fn list_type_spec(value: Seq<char>) -> Option<Seq<char>> {
    let v = ascii_lowercase(trim(value));
    if v == "allowlist"@ {
        Some("allowlist"@)
    } else if v == "denylist"@ || v == "blocklist"@ {
        Some("denylist"@)
    } else if v == "opt_out"@ || v == "opt-out"@ || v == "optout"@ {
        Some("opt_out"@)
    } else {
        None
    }
}

pub fn normalize_repo_list_type(value: &str) -> (res: Option<&'static str>)
    ensures
        match res {
            Some(t) => list_type_spec(value@) == Some(t@),
            None => list_type_spec(value@) is None,
        },
{
    let t = crate::text::trim_str(value);
    let lv = string_from_chars(&ascii_lowercase_exec(&chars_of(t.as_str())));
    let v = lv.as_str();
    if str_eq(v, "allowlist") {
        Some("allowlist")
    } else if str_eq(v, "denylist") || str_eq(v, "blocklist") {
        Some("denylist")
    } else if str_eq(v, "opt_out") || str_eq(v, "opt-out") || str_eq(v, "optout") {
        Some("opt_out")
    } else {
        None
    }
}

// ---------------------------------------------------------------------------
// The .env file
// ---------------------------------------------------------------------------

/// What a line of a `.env` file says about `key`: the trimmed text after its
/// first `=`, when the text before it is `key` once trimmed; comment lines
/// say nothing.
pub open spec fn line_value(line: Seq<char>, key: Seq<char>) -> Option<Seq<char>> {
    let t = trim(line);
    let i = first_occurrence_from(t, seq!['='], 0);
    if starts_with(t, seq!['#']) || i < 0 {
        None
    } else if trim(t.take(i)) == key {
        Some(trim(t.skip(i + 1)))
    } else {
        None
    }
}

/// The value of `key` in the lines: what the first line that speaks of it
/// says.
pub open spec fn lookup_lines(ls: Seq<Seq<char>>, key: Seq<char>) -> Option<Seq<char>>
    decreases ls.len(),
{
    if ls.len() == 0 {
        None
    } else {
        match line_value(ls[0], key) {
            Some(v) => Some(v),
            None => lookup_lines(ls.drop_first(), key),
        }
    }
}

pub open spec fn env_value_spec(content: Seq<char>, key: Seq<char>) -> Option<Seq<char>> {
    lookup_lines(lines(content), key)
}

fn trim_chars(v: &Vec<char>) -> (res: Vec<char>)
    ensures
        res@ == trim(v@),
{
    let (a, b) = trim_bounds(v);
    let mut out: Vec<char> = Vec::new();
    push_range(&mut out, v, a, b);
    out
}

fn line_value_exec(line: &Vec<char>, key: &Vec<char>) -> (res: Option<Vec<char>>)
    ensures
        match res {
            Some(v) => line_value(line@, key@) == Some(v@),
            None => line_value(line@, key@) is None,
        },
{
    let t = trim_chars(line);
    let eq = vec!['='];
    assert(eq@ =~= seq!['=']);
    let hash = vec!['#'];
    assert(hash@ =~= seq!['#']);
    if crate::text::starts_with_exec(&t, &hash) {
        return None;
    }
    match find_from(&t, &eq, 0) {
        Some(i) => {
            proof {
                lemma_first_occurrence(t@, eq@, 0, i as int);
            }
            let mut k: Vec<char> = Vec::new();
            push_range(&mut k, &t, 0, i);
            assert(k@ =~= t@.take(i as int));
            let kt = trim_chars(&k);
            if crate::text::chars_eq(&kt, key) {
                assert(occurs_at(t@, eq@, i as int));
                let mut v: Vec<char> = Vec::new();
                push_range(&mut v, &t, i + 1, t.len());
                assert(v@ =~= t@.skip(i + 1));
                Some(trim_chars(&v))
            } else {
                None
            }
        },
        None => {
            proof {
                lemma_no_occurrence(t@, eq@, 0);
            }
            None
        },
    }
}

/// The value of `key` in the text of a `.env` file.
pub fn env_value_from_content(content: &str, key: &str) -> (res: Option<String>)
    ensures
        opt_view(res) == env_value_spec(content@, key@),
{
    let ls = lines_exec(&chars_of(content));
    let kv = chars_of(key);
    let ghost all = ls@.map_values(|l: Vec<char>| l@);
    let mut i: usize = 0;
    assert(all.skip(0) =~= all);
    while i < ls.len()
        invariant
            i <= ls.len(),
            all == ls@.map_values(|l: Vec<char>| l@),
            all == lines(content@),
            kv@ == key@,
            lookup_lines(all, key@) == lookup_lines(all.skip(i as int), key@),
        decreases ls.len() - i,
    {
        let ghost rest = all.skip(i as int);
        assert(rest[0] == all[i as int]);
        assert(rest.drop_first() =~= all.skip(i + 1));
        match line_value_exec(&ls[i], &kv) {
            Some(v) => {
                return Some(string_from_chars(&v));
            },
            None => {},
        }
        i += 1;
    }
    None
}

/// A setting: the value in the `.env` file, else the process environment's,
/// else empty.
pub fn setting_value(file_value: Option<String>, process_value: Option<&str>) -> (res: String)
    ensures
        res@ == match file_value {
            Some(v) => v@,
            None => match process_value {
                Some(p) => p@,
                None => Seq::empty(),
            },
        },
{
    match file_value {
        Some(v) => v,
        None => match process_value {
            Some(p) => owned(p),
            None => String::new(),
        },
    }
}

/// Whether a line of the file is kept when `keys` are written anew: it does
/// not assign one of them (leading whitespace aside).
pub open spec fn kept_line(line: Seq<char>, keys: Seq<Seq<char>>) -> bool {
    forall|j: int| 0 <= j < keys.len() ==> !starts_with(trim_start(line), #[trigger] keys[j] + seq!['='])
}

pub open spec fn kept_lines(ls: Seq<Seq<char>>, keys: Seq<Seq<char>>) -> Seq<Seq<char>>
    decreases ls.len(),
{
    if ls.len() == 0 {
        Seq::empty()
    } else {
        let r = kept_lines(ls.drop_last(), keys);
        if kept_line(ls.last(), keys) {
            r.push(ls.last())
        } else {
            r
        }
    }
}

pub open spec fn assignment(kv: (Seq<char>, Seq<char>)) -> Seq<char> {
    kv.0 + seq!['='] + kv.1
}

/// The file after saving `updates`: the lines that assign none of their keys,
/// then one `key=value` line per update, each line ended by a newline.
pub open spec fn updated_env_spec(existing: Seq<char>, updates: Seq<(Seq<char>, Seq<char>)>) -> Seq<char> {
    let keys = updates.map_values(|kv: (Seq<char>, Seq<char>)| kv.0);
    let all = kept_lines(lines(existing), keys) + updates.map_values(
        |kv: (Seq<char>, Seq<char>)| assignment(kv),
    );
    let body = join(all, seq!['\n']);
    if body.len() == 0 {
        body
    } else {
        body.push('\n')
    }
}

pub open spec fn pair_views(updates: Seq<(String, String)>) -> Seq<(Seq<char>, Seq<char>)> {
    updates.map_values(|kv: (String, String)| (kv.0@, kv.1@))
}

fn trim_start_chars(v: &Vec<char>) -> (res: Vec<char>)
    ensures
        res@ == trim_start(v@),
{
    let mut a: usize = 0;
    assert(v@.skip(0) =~= v@);
    while a < v.len() && crate::text::is_whitespace(v[a])
        invariant
            a <= v.len(),
            trim_start(v@) == trim_start(v@.skip(a as int)),
        decreases v.len() - a,
    {
        assert(v@.skip(a as int).drop_first() =~= v@.skip(a + 1));
        a += 1;
    }
    let mut out: Vec<char> = Vec::new();
    push_range(&mut out, v, a, v.len());
    assert(out@ =~= v@.skip(a as int));
    proof {
        assert(v@.skip(0) =~= v@);
    }
    out
}

/// The text of the `.env` file after saving `updates`.
pub fn updated_env_content(existing: &str, updates: &Vec<(String, String)>) -> (res: String)
    ensures
        res@ == updated_env_spec(existing@, pair_views(updates@)),
{
    let ghost pv = pair_views(updates@);
    let ghost keys = pv.map_values(|kv: (Seq<char>, Seq<char>)| kv.0);
    let mut prefixes: Vec<Vec<char>> = Vec::new();
    let mut j: usize = 0;
    while j < updates.len()
        invariant
            j <= updates.len(),
            pv == pair_views(updates@),
            keys == pv.map_values(|kv: (Seq<char>, Seq<char>)| kv.0),
            prefixes.len() == j,
            forall|k: int| 0 <= k < j ==> (#[trigger] prefixes@[k])@ == keys[k] + seq!['='],
        decreases updates.len() - j,
    {
        let mut p = chars_of(updates[j].0.as_str());
        p.push('=');
        prefixes.push(p);
        j += 1;
    }
    let ls = lines_exec(&chars_of(existing));
    let ghost lv = ls@.map_values(|l: Vec<char>| l@);
    let mut out: Vec<Vec<char>> = Vec::new();
    let mut i: usize = 0;
    while i < ls.len()
        invariant
            i <= ls.len(),
            lv == ls@.map_values(|l: Vec<char>| l@),
            lv == lines(existing@),
            keys.len() == prefixes.len(),
            forall|k: int| 0 <= k < prefixes.len() ==> (#[trigger] prefixes@[k])@ == keys[k] + seq!['='],
            out@.map_values(|l: Vec<char>| l@) == kept_lines(lv.take(i as int), keys),
        decreases ls.len() - i,
    {
        let ghost t = lv.take(i + 1);
        assert(t.drop_last() =~= lv.take(i as int));
        let ts = trim_start_chars(&ls[i]);
        let mut keep = true;
        let mut k: usize = 0;
        while k < prefixes.len()
            invariant
                k <= prefixes.len(),
                i < ls.len(),
                lv.len() == ls.len(),
                keys.len() == prefixes.len(),
                ts@ == trim_start(lv[i as int]),
                forall|m: int| 0 <= m < prefixes.len() ==> (#[trigger] prefixes@[m])@ == keys[m] + seq!['='],
                keep == forall|m: int| 0 <= m < k ==> !starts_with(ts@, #[trigger] keys[m] + seq!['=']),
            decreases prefixes.len() - k,
        {
            if crate::text::starts_with_exec(&ts, &prefixes[k]) {
                keep = false;
            }
            k += 1;
        }
        if keep {
            let ghost before = out@;
            let l = crate::text::clone_chars(&ls[i]);
            out.push(l);
            assert(out@.map_values(|l: Vec<char>| l@) =~= before.map_values(|l: Vec<char>| l@).push(
                lv[i as int],
            ));
        }
        i += 1;
    }
    assert(lv.take(lv.len() as int) =~= lv);
    let ghost kept = out@.map_values(|l: Vec<char>| l@);
    let mut u: usize = 0;
    while u < updates.len()
        invariant
            u <= updates.len(),
            pv == pair_views(updates@),
            out@.map_values(|l: Vec<char>| l@) == kept + pv.take(u as int).map_values(
                |kv: (Seq<char>, Seq<char>)| assignment(kv),
            ),
        decreases updates.len() - u,
    {
        let mut line = chars_of(updates[u].0.as_str());
        line.push('=');
        push_str(&mut line, updates[u].1.as_str());
        let ghost before = out@;
        out.push(line);
        proof {
            assert(pv[u as int] == (updates@[u as int].0@, updates@[u as int].1@));
            assert(line@ =~= assignment(pv[u as int]));
            assert(pv.take(u + 1) =~= pv.take(u as int).push(pv[u as int]));
            assert(pv.take(u + 1).map_values(|kv: (Seq<char>, Seq<char>)| assignment(kv)) =~= pv.take(
                u as int,
            ).map_values(|kv: (Seq<char>, Seq<char>)| assignment(kv)).push(assignment(pv[u as int])));
            assert(out@.map_values(|l: Vec<char>| l@) =~= before.map_values(|l: Vec<char>| l@).push(
                line@,
            ));
        }
        u += 1;
    }
    assert(pv.take(pv.len() as int) =~= pv);
    let mut body = join_exec(&out, "\n");
    proof {
        reveal_strlit("\n");
        assert("\n"@ =~= seq!['\n']);
    }
    if body.len() > 0 {
        body.push('\n');
    }
    string_from_chars(&body)
}

pub open spec fn no_newline(s: Seq<char>) -> bool {
    forall|i: int| 0 <= i < s.len() ==> s[i] != '\n'
}

proof fn lemma_pieces_single(x: Seq<char>)
    requires
        no_newline(x),
    ensures
        crate::text::pieces(x) == seq![x],
    decreases x.len(),
{
    if x.len() > 0 {
        lemma_pieces_single(x.drop_last());
        assert(x.drop_last().push(x.last()) =~= x);
        assert(x.last() == x[x.len() - 1]);
        assert(seq![x.drop_last()].update(0, x.drop_last().push(x.last())) =~= seq![x]);
    } else {
        assert(x =~= Seq::<char>::empty());
    }
}

proof fn lemma_pieces_append(s: Seq<char>, x: Seq<char>)
    requires
        no_newline(x),
    ensures
        crate::text::pieces(s + seq!['\n'] + x) == crate::text::pieces(s).push(x),
    decreases x.len(),
{
    let w = s + seq!['\n'] + x;
    if x.len() == 0 {
        assert(w =~= s + seq!['\n']);
        assert(w.drop_last() =~= s);
        assert(w.last() == '\n');
        assert(x =~= Seq::<char>::empty());
    } else {
        assert(x.drop_last().push(x.last()) =~= x);
        assert(x.last() == x[x.len() - 1]);
        lemma_pieces_append(s, x.drop_last());
        assert(w.drop_last() =~= s + seq!['\n'] + x.drop_last());
        assert(w.last() == x.last());
        let p = crate::text::pieces(s).push(x.drop_last());
        assert(p.update(p.len() - 1, p.last().push(x.last())) =~= crate::text::pieces(s).push(x));
    }
}

proof fn lemma_pieces_join(ls: Seq<Seq<char>>)
    requires
        ls.len() > 0,
        forall|i: int| 0 <= i < ls.len() ==> no_newline(#[trigger] ls[i]),
    ensures
        crate::text::pieces(join(ls, seq!['\n'])) == ls,
    decreases ls.len(),
{
    if ls.len() == 1 {
        lemma_pieces_single(ls[0]);
        assert(seq![ls[0]] =~= ls);
    } else {
        lemma_pieces_join(ls.drop_last());
        lemma_pieces_append(join(ls.drop_last(), seq!['\n']), ls.last());
        assert(ls.drop_last().push(ls.last()) =~= ls);
    }
}

proof fn lemma_pieces_no_newline(s: Seq<char>, i: int)
    requires
        0 <= i < crate::text::pieces(s).len(),
    ensures
        no_newline(crate::text::pieces(s)[i]),
    decreases s.len(),
{
    crate::text::lemma_pieces_nonempty(s);
    if s.len() > 0 {
        let p = crate::text::pieces(s.drop_last());
        crate::text::lemma_pieces_nonempty(s.drop_last());
        if i < p.len() {
            lemma_pieces_no_newline(s.drop_last(), i);
        }
        if s.last() != '\n' && i == p.len() - 1 {
            lemma_pieces_no_newline(s.drop_last(), i);
        }
    }
}

proof fn lemma_lines_no_newline(s: Seq<char>, i: int)
    requires
        0 <= i < lines(s).len(),
    ensures
        no_newline(lines(s)[i]),
{
    let p = crate::text::pieces(s);
    crate::text::lemma_pieces_nonempty(s);
    if i < p.len() - 1 {
        lemma_pieces_no_newline(s, i);
        assert(lines(s)[i] == crate::text::strip_cr(p[i]));
    } else {
        lemma_pieces_no_newline(s, p.len() - 1);
    }
}

proof fn lemma_lookup_concat(a: Seq<Seq<char>>, b: Seq<Seq<char>>, key: Seq<char>)
    ensures
        lookup_lines(a + b, key) == match lookup_lines(a, key) {
            Some(v) => Some(v),
            None => lookup_lines(b, key),
        },
    decreases a.len(),
{
    if a.len() == 0 {
        assert(a + b =~= b);
    } else {
        lemma_lookup_concat(a.drop_first(), b, key);
        assert((a + b).drop_first() =~= a.drop_first() + b);
        assert((a + b)[0] == a[0]);
    }
}

proof fn lemma_trim_start_push(s: Seq<char>, c: char)
    ensures
        trim_start(s.push(c)) == if trim_start(s).len() > 0 {
            trim_start(s).push(c)
        } else {
            trim_start(seq![c])
        },
    decreases s.len(),
{
    if s.len() == 0 {
        assert(s.push(c) =~= seq![c]);
    } else if crate::text::is_ws(s[0]) {
        lemma_trim_start_push(s.drop_first(), c);
        assert(s.push(c).drop_first() =~= s.drop_first().push(c));
    }
}

proof fn lemma_trim_push_ws(s: Seq<char>, c: char)
    requires
        crate::text::is_ws(c),
    ensures
        trim(s.push(c)) == trim(s),
{
    lemma_trim_start_push(s, c);
    let a = trim_start(s);
    if a.len() > 0 {
        assert(a.push(c).drop_last() =~= a);
    } else {
        assert(seq![c].drop_first() =~= Seq::<char>::empty());
        assert(seq![c][0] == c);
        assert(trim_start(Seq::<char>::empty()) == Seq::<char>::empty());
        assert(trim_start(seq![c]) == trim_start(seq![c].drop_first()));
        assert(trim_start(seq![c]) =~= Seq::<char>::empty());
        assert(crate::text::trim_end(Seq::<char>::empty()) =~= Seq::<char>::empty());
    }
}

proof fn lemma_line_value_strip_cr(l: Seq<char>, key: Seq<char>)
    ensures
        line_value(crate::text::strip_cr(l), key) == line_value(l, key),
{
    if l.len() > 0 && l.last() == '\r' {
        lemma_trim_push_ws(l.drop_last(), '\r');
        assert(l.drop_last().push('\r') =~= l);
    }
}

proof fn lemma_assignment_value(k: Seq<char>, v: Seq<char>)
    requires
        k == trim(k),
        v == trim(v),
        forall|i: int| 0 <= i < k.len() ==> k[i] != '=',
        !starts_with(k, seq!['#']),
    ensures
        line_value(k + seq!['='] + v, k) == Some(v),
{
    let l = k + seq!['='] + v;
    crate::text::lemma_trim_edges(k);
    crate::text::lemma_trim_edges(v);
    assert(l[k.len() as int] == '=');
    assert(!crate::text::is_ws(l[0]));
    assert(!crate::text::is_ws(l.last()));
    assert(trim_start(l) == l);
    assert(crate::text::trim_end(l) == l);
    assert forall|j: int| 0 <= j < k.len() implies !occurs_at(l, seq!['='], j) by {
        assert(l.subrange(j, j + 1)[0] == k[j]);
    }
    assert(l.subrange(k.len() as int, k.len() + 1int) =~= seq!['=']);
    lemma_first_occurrence(l, seq!['='], 0, k.len() as int);
    assert(l.take(k.len() as int) =~= k);
    assert(l.skip(k.len() + 1int) =~= v);
    if k.len() > 0 {
        assert(!starts_with(l, seq!['#'])) by {
            assert(l.take(1) =~= k.take(1));
        }
    } else {
        assert(!starts_with(l, seq!['#'])) by {
            assert(l[0] == '=');
        }
    }
}

/// A setting saved to the `.env` file is read back as it was written,
/// provided that its key is a plain name (trimmed, without `=`, not a
/// comment), its value is trimmed, no saved text spans lines, no earlier
/// update and no kept line of the old file speaks of the key.
pub proof fn saved_setting_reads_back(
    existing: Seq<char>,
    updates: Seq<(Seq<char>, Seq<char>)>,
    j: int,
)
    requires
        0 <= j < updates.len(),
        forall|i: int|
            0 <= i < updates.len() ==> no_newline(#[trigger] updates[i].0) && no_newline(
                updates[i].1,
            ),
        updates[j].0 == trim(updates[j].0),
        updates[j].1 == trim(updates[j].1),
        forall|i: int| 0 <= i < updates[j].0.len() ==> updates[j].0[i] != '=',
        !starts_with(updates[j].0, seq!['#']),
        forall|i: int| 0 <= i < j ==> line_value(#[trigger] assignment(updates[i]), updates[j].0) is None,
        forall|l: int|
            0 <= l < lines(existing).len() && kept_line(
                #[trigger] lines(existing)[l],
                updates.map_values(|kv: (Seq<char>, Seq<char>)| kv.0),
            ) ==> line_value(lines(existing)[l], updates[j].0) is None,
    ensures
        env_value_spec(updated_env_spec(existing, updates), updates[j].0) == Some(updates[j].1),
{
    let k = updates[j].0;
    let v = updates[j].1;
    let keys = updates.map_values(|kv: (Seq<char>, Seq<char>)| kv.0);
    let kept = kept_lines(lines(existing), keys);
    let assigns = updates.map_values(|kv: (Seq<char>, Seq<char>)| assignment(kv));
    let all = kept + assigns;
    lemma_kept_lines_from(lines(existing), keys, k);
    assert forall|i: int| 0 <= i < all.len() implies no_newline(#[trigger] all[i]) by {
        if i < kept.len() {
            lemma_kept_lines_sub(lines(existing), keys, i);
            let m = choose|m: int| 0 <= m < lines(existing).len() && lines(existing)[m] == kept[i];
            lemma_lines_no_newline(existing, m);
        } else {
            let u = updates[i - kept.len()];
            assert(all[i] == assignment(u));
            assert forall|q: int| 0 <= q < all[i].len() implies all[i][q] != '\n' by {
                if q < u.0.len() {
                    assert(all[i][q] == u.0[q]);
                } else if q > u.0.len() {
                    assert(all[i][q] == u.1[q - u.0.len() - 1]);
                }
            }
        }
    }
    assert(all.len() > 0);
    lemma_pieces_join(all);
    let body = join(all, seq!['\n']);
    assert(body.len() > 0) by {
        if body.len() == 0 {
            assert(crate::text::pieces(body) == seq![Seq::<char>::empty()]);
            assert(all[kept.len() + j] == assignment(updates[j]));
            assert(all[kept.len() + j].len() > 0);
        }
    }
    let content = updated_env_spec(existing, updates);
    assert(content == body.push('\n'));
    lemma_pieces_append(body, Seq::empty());
    assert(body + seq!['\n'] + Seq::<char>::empty() =~= body.push('\n'));
    assert(lines(content) =~= all.map_values(|l: Seq<char>| crate::text::strip_cr(l)));
    let cr = all.map_values(|l: Seq<char>| crate::text::strip_cr(l));
    let cr_kept = kept.map_values(|l: Seq<char>| crate::text::strip_cr(l));
    let cr_assigns = assigns.map_values(|l: Seq<char>| crate::text::strip_cr(l));
    assert(cr =~= cr_kept + cr_assigns);
    lemma_lookup_concat(cr_kept, cr_assigns, k);
    lemma_lookup_none(cr_kept, k, kept);
    let before = cr_assigns.take(j);
    let rest = cr_assigns.skip(j);
    assert(cr_assigns =~= before + rest);
    lemma_lookup_concat(before, rest, k);
    assert forall|i: int| 0 <= i < before.len() implies line_value(#[trigger] before[i], k) is None by {
        lemma_line_value_strip_cr(assigns[i], k);
        assert(assigns[i] == assignment(updates[i]));
    }
    lemma_lookup_all_none(before, k);
    lemma_assignment_value(k, v);
    lemma_line_value_strip_cr(assignment(updates[j]), k);
    assert(rest[0] == crate::text::strip_cr(assignment(updates[j])));
}

proof fn lemma_lookup_all_none(ls: Seq<Seq<char>>, key: Seq<char>)
    requires
        forall|i: int| 0 <= i < ls.len() ==> line_value(#[trigger] ls[i], key) is None,
    ensures
        lookup_lines(ls, key) is None,
    decreases ls.len(),
{
    if ls.len() > 0 {
        assert(line_value(ls[0], key) is None);
        assert forall|i: int| 0 <= i < ls.drop_first().len() implies line_value(
            #[trigger] ls.drop_first()[i],
            key,
        ) is None by {
            assert(ls.drop_first()[i] == ls[i + 1]);
        }
        lemma_lookup_all_none(ls.drop_first(), key);
    }
}

proof fn lemma_lookup_none(cr_kept: Seq<Seq<char>>, key: Seq<char>, kept: Seq<Seq<char>>)
    requires
        cr_kept == kept.map_values(|l: Seq<char>| crate::text::strip_cr(l)),
        forall|i: int| 0 <= i < kept.len() ==> line_value(#[trigger] kept[i], key) is None,
    ensures
        lookup_lines(cr_kept, key) is None,
{
    assert forall|i: int| 0 <= i < cr_kept.len() implies line_value(#[trigger] cr_kept[i], key) is None by {
        lemma_line_value_strip_cr(kept[i], key);
    }
    lemma_lookup_all_none(cr_kept, key);
}

proof fn lemma_kept_lines_sub(ls: Seq<Seq<char>>, keys: Seq<Seq<char>>, i: int)
    requires
        0 <= i < kept_lines(ls, keys).len(),
    ensures
        exists|m: int| 0 <= m < ls.len() && ls[m] == kept_lines(ls, keys)[i] && kept_line(ls[m], keys),
    decreases ls.len(),
{
    let r = kept_lines(ls.drop_last(), keys);
    if i < r.len() {
        lemma_kept_lines_sub(ls.drop_last(), keys, i);
        let m = choose|m: int|
            0 <= m < ls.drop_last().len() && ls.drop_last()[m] == r[i] && kept_line(
                ls.drop_last()[m],
                keys,
            );
        assert(ls[m] == ls.drop_last()[m]);
    } else {
        assert(ls[ls.len() - 1] == ls.last());
    }
}

proof fn lemma_kept_lines_from(ls: Seq<Seq<char>>, keys: Seq<Seq<char>>, key: Seq<char>)
    requires
        forall|l: int|
            0 <= l < ls.len() && kept_line(#[trigger] ls[l], keys) ==> line_value(ls[l], key) is None,
    ensures
        forall|i: int|
            0 <= i < kept_lines(ls, keys).len() ==> line_value(#[trigger] kept_lines(ls, keys)[i], key)
                is None,
{
    assert forall|i: int| 0 <= i < kept_lines(ls, keys).len() implies line_value(
        #[trigger] kept_lines(ls, keys)[i],
        key,
    ) is None by {
        lemma_kept_lines_sub(ls, keys, i);
    }
}

// ---------------------------------------------------------------------------
// Saving settings
// ---------------------------------------------------------------------------

/// The settings a user may save, each as submitted.
#[derive(Clone, Debug)]
pub struct ConfigFields {
    pub bot_token: Option<String>,
    pub bot_user: Option<String>,
    pub bot_email: Option<String>,
    pub api_key: Option<String>,
    pub patchhive_ai_url: Option<String>,
    pub ollama_url: Option<String>,
    pub webhook_secret: Option<String>,
    pub cost_budget: Option<String>,
    pub min_conf: Option<String>,
}

/// A secret the settings page shows masked.
pub open spec fn is_secret_key(key: Seq<char>) -> bool {
    key == "BOT_GITHUB_TOKEN"@ || key == "PROVIDER_API_KEY"@ || key == "WEBHOOK_SECRET"@
}

/// Whether a submitted value is saved: it is not empty, and for a secret it
/// is not the mask the page showed (`(set)` or starting with `*`).
pub open spec fn saved_value(key: Seq<char>, v: Option<String>) -> bool {
    match v {
        Some(s) => s@.len() > 0 && !(is_secret_key(key) && (s@ == "(set)"@ || (s@.len() > 0
            && s@[0] == '*'))),
        None => false,
    }
}

pub open spec fn field_pairs(f: ConfigFields) -> Seq<(Seq<char>, Option<String>)> {
    seq![
        ("BOT_GITHUB_TOKEN"@, f.bot_token),
        ("BOT_GITHUB_USER"@, f.bot_user),
        ("BOT_GITHUB_EMAIL"@, f.bot_email),
        ("PROVIDER_API_KEY"@, f.api_key),
        ("PATCHHIVE_AI_URL"@, f.patchhive_ai_url),
        ("OLLAMA_BASE_URL"@, f.ollama_url),
        ("WEBHOOK_SECRET"@, f.webhook_secret),
        ("COST_BUDGET_USD"@, f.cost_budget),
        ("MIN_REVIEW_CONFIDENCE"@, f.min_conf),
    ]
}

/// The submitted settings that are saved, in the order of the form.
pub open spec fn config_updates_spec(pairs: Seq<(Seq<char>, Option<String>)>) -> Seq<(Seq<char>, Seq<char>)>
    decreases pairs.len(),
{
    if pairs.len() == 0 {
        Seq::empty()
    } else {
        let r = config_updates_spec(pairs.drop_last());
        let (k, v) = pairs.last();
        if saved_value(k, v) {
            r.push((k, v->0@))
        } else {
            r
        }
    }
}

fn push_update(out: &mut Vec<(String, String)>, key: &str, v: &Option<String>)
    ensures
        pair_views(final(out)@) == if saved_value(key@, *v) {
            pair_views(old(out)@).push((key@, v->0@))
        } else {
            pair_views(old(out)@)
        },
{
    proof {
        reveal_strlit("(set)");
    }
    match v {
        Some(s) => {
            let secret = str_eq(key, "BOT_GITHUB_TOKEN") || str_eq(key, "PROVIDER_API_KEY") || str_eq(
                key,
                "WEBHOOK_SECRET",
            );
            let sv = chars_of(s.as_str());
            let masked = str_eq(s.as_str(), "(set)") || (sv.len() > 0 && sv[0] == '*');
            if !s.as_str().is_empty() && !(secret && masked) {
                let ghost before = out@;
                let kv = (owned(key), s.clone());
                out.push(kv);
                assert(pair_views(out@) =~= pair_views(before).push((key@, s@)));
            }
        },
        None => {},
    }
}

/// The settings to write: each submitted value that is saved, under its
/// variable's name.
pub fn config_updates(f: &ConfigFields) -> (res: Vec<(String, String)>)
    ensures
        pair_views(res@) == config_updates_spec(field_pairs(*f)),
{
    let fields: Vec<(&str, &Option<String>)> = vec![
        ("BOT_GITHUB_TOKEN", &f.bot_token),
        ("BOT_GITHUB_USER", &f.bot_user),
        ("BOT_GITHUB_EMAIL", &f.bot_email),
        ("PROVIDER_API_KEY", &f.api_key),
        ("PATCHHIVE_AI_URL", &f.patchhive_ai_url),
        ("OLLAMA_BASE_URL", &f.ollama_url),
        ("WEBHOOK_SECRET", &f.webhook_secret),
        ("COST_BUDGET_USD", &f.cost_budget),
        ("MIN_REVIEW_CONFIDENCE", &f.min_conf),
    ];
    let ghost p = field_pairs(*f);
    assert(forall|k: int| 0 <= k < fields@.len() ==> (#[trigger] fields@[k]).0@ == p[k].0 && *fields@[k].1 == p[k].1);
    let mut out: Vec<(String, String)> = Vec::new();
    let mut i: usize = 0;
    assert(config_updates_spec(p.take(0)) =~= Seq::<(Seq<char>, Seq<char>)>::empty());
    while i < fields.len()
        invariant
            i <= fields.len() == p.len(),
            forall|k: int| 0 <= k < fields@.len() ==> (#[trigger] fields@[k]).0@ == p[k].0 && *fields@[k].1 == p[k].1,
            pair_views(out@) == config_updates_spec(p.take(i as int)),
        decreases fields.len() - i,
    {
        let (key, v) = fields[i];
        push_update(&mut out, key, v);
        assert(p.take(i + 1).drop_last() =~= p.take(i as int));
        assert(p.take(i + 1).last() == p[i as int]);
        i += 1;
    }
    assert(p.take(p.len() as int) =~= p);
    out
}

/// The settings as they are configured, each empty when unset.
#[derive(Clone, Debug)]
pub struct ConfigEnv {
    pub bot_token: String,
    pub bot_user: String,
    pub bot_email: String,
    pub api_key: String,
    pub patchhive_ai_url: String,
    pub ollama_url: String,
    pub webhook_secret: String,
    pub cost_budget: String,
    pub min_conf: String,
}

/// The settings as the settings page is given them: a secret is never sent
/// back, only whether it is set.
#[derive(Clone, Debug)]
pub struct ConfigView {
    pub bot_token: String,
    pub bot_token_set: bool,
    pub bot_user: String,
    pub bot_email: String,
    pub api_key: String,
    pub api_key_set: bool,
    pub patchhive_ai_url: String,
    pub ollama_url: String,
    pub webhook_secret: String,
    pub webhook_secret_set: bool,
    pub cost_budget: String,
    pub min_conf: String,
}

/// The settings page's view of `env`: the secrets (GitHub token, provider
/// key, webhook secret) are blanked and reported as set or not; the other
/// settings are shown as configured.
pub fn config_view(env: &ConfigEnv) -> (res: ConfigView)
    ensures
        res.bot_token@ == Seq::<char>::empty(),
        res.api_key@ == Seq::<char>::empty(),
        res.webhook_secret@ == Seq::<char>::empty(),
        res.bot_token_set == (env.bot_token@.len() > 0),
        res.api_key_set == (env.api_key@.len() > 0),
        res.webhook_secret_set == (env.webhook_secret@.len() > 0),
        res.bot_user@ == env.bot_user@,
        res.bot_email@ == env.bot_email@,
        res.patchhive_ai_url@ == env.patchhive_ai_url@,
        res.ollama_url@ == env.ollama_url@,
        res.cost_budget@ == env.cost_budget@,
        res.min_conf@ == env.min_conf@,
{
    ConfigView {
        bot_token: String::new(),
        bot_token_set: !env.bot_token.as_str().is_empty(),
        bot_user: env.bot_user.clone(),
        bot_email: env.bot_email.clone(),
        api_key: String::new(),
        api_key_set: !env.api_key.as_str().is_empty(),
        patchhive_ai_url: env.patchhive_ai_url.clone(),
        ollama_url: env.ollama_url.clone(),
        webhook_secret: String::new(),
        webhook_secret_set: !env.webhook_secret.as_str().is_empty(),
        cost_budget: env.cost_budget.clone(),
        min_conf: env.min_conf.clone(),
    }
}

// ---------------------------------------------------------------------------
// Model listings
// ---------------------------------------------------------------------------

/// A value given in a request, trimmed, when it holds more than whitespace.
pub fn clean_optional(value: Option<&str>) -> (res: Option<String>)
    ensures
        opt_view(res) == crate::ai_local::setting_spec(opt_str_view(value)),
{
    crate::ai_local::nonempty_setting(value)
}

/// The keys the environment offers for model listings, each as set.
#[derive(Clone, Debug)]
pub struct KeyEnv {
    pub anthropic: Option<String>,
    pub openai: Option<String>,
    pub gemini: Option<String>,
    pub google: Option<String>,
    pub groq: Option<String>,
    pub custom: Option<String>,
    pub provider: Option<String>,
}

pub open spec fn clean(o: Option<String>) -> Option<Seq<char>> {
    crate::ai_local::setting_spec(opt_view(o))
}

pub open spec fn or_spec(a: Option<Seq<char>>, b: Option<Seq<char>>) -> Option<Seq<char>> {
    match a {
        Some(x) => Some(x),
        None => b,
    }
}

/// The key of a provider: its own variable (Gemini also reads
/// `GOOGLE_API_KEY`, a custom endpoint also `OPENAI_API_KEY`), else
/// `PROVIDER_API_KEY`; blank values do not count.
pub open spec fn provider_key_spec(provider: Seq<char>, env: KeyEnv) -> Option<Seq<char>> {
    let own = if provider == "anthropic"@ {
        clean(env.anthropic)
    } else if provider == "openai"@ {
        clean(env.openai)
    } else if provider == "gemini"@ {
        or_spec(clean(env.gemini), clean(env.google))
    } else if provider == "groq"@ {
        clean(env.groq)
    } else if provider == "custom"@ {
        or_spec(clean(env.custom), clean(env.openai))
    } else {
        None
    };
    or_spec(own, clean(env.provider))
}

fn clean_owned(o: &Option<String>) -> (res: Option<String>)
    ensures
        opt_view(res) == clean(*o),
{
    match o {
        Some(s) => crate::ai_local::nonempty_setting(Some(s.as_str())),
        None => None,
    }
}

fn or_opt(a: Option<String>, b: Option<String>) -> (res: Option<String>)
    ensures
        opt_view(res) == or_spec(opt_view(a), opt_view(b)),
{
    match a {
        Some(x) => Some(x),
        None => b,
    }
}

pub fn provider_api_key(provider: &str, env: &KeyEnv) -> (res: Option<String>)
    ensures
        opt_view(res) == provider_key_spec(provider@, *env),
{
    let own = if str_eq(provider, "anthropic") {
        clean_owned(&env.anthropic)
    } else if str_eq(provider, "openai") {
        clean_owned(&env.openai)
    } else if str_eq(provider, "gemini") {
        or_opt(clean_owned(&env.gemini), clean_owned(&env.google))
    } else if str_eq(provider, "groq") {
        clean_owned(&env.groq)
    } else if str_eq(provider, "custom") {
        or_opt(clean_owned(&env.custom), clean_owned(&env.openai))
    } else {
        None
    };
    or_opt(own, clean_owned(&env.provider))
}

/// Model ids as listed: trimmed, blank ones dropped, each kept once, in the
/// order first seen.
pub open spec fn clean_ids_spec(models: Seq<Seq<char>>) -> Seq<Seq<char>>
    decreases models.len(),
{
    if models.len() == 0 {
        Seq::empty()
    } else {
        let r = clean_ids_spec(models.drop_last());
        let m = trim(models.last());
        if m.len() == 0 || r.contains(m) {
            r
        } else {
            r.push(m)
        }
    }
}

pub fn clean_model_ids(models: Vec<String>) -> (res: Vec<String>)
    ensures
        res@.map_values(|s: String| s@) == clean_ids_spec(models@.map_values(|s: String| s@)),
{
    let ghost mv = models@.map_values(|s: String| s@);
    let mut out: Vec<String> = Vec::new();
    let mut i: usize = 0;
    while i < models.len()
        invariant
            i <= models.len(),
            mv == models@.map_values(|s: String| s@),
            out@.map_values(|s: String| s@) == clean_ids_spec(mv.take(i as int)),
        decreases models.len() - i,
    {
        let ghost t = mv.take(i + 1);
        assert(t.drop_last() =~= mv.take(i as int));
        assert(t.last() == models@[i as int]@);
        let m = crate::text::trim_str(models[i].as_str());
        let ghost ov = out@.map_values(|s: String| s@);
        let mut seen = false;
        let mut k: usize = 0;
        while k < out.len()
            invariant
                k <= out.len(),
                ov == out@.map_values(|s: String| s@),
                seen == exists|j: int| 0 <= j < k && ov[j] == m@,
            decreases out.len() - k,
        {
            if str_eq(out[k].as_str(), m.as_str()) {
                assert(ov[k as int] == m@);
                seen = true;
            }
            k += 1;
        }
        proof {
            if seen {
                let j = choose|j: int| 0 <= j < out.len() && ov[j] == m@;
                assert(ov.contains(m@));
            } else {
                assert(!ov.contains(m@));
            }
        }
        if !m.as_str().is_empty() && !seen {
            out.push(m);
            assert(out@.map_values(|s: String| s@) =~= ov.push(m@));
        }
        i += 1;
    }
    assert(mv.take(mv.len() as int) =~= mv);
    out
}

/// Listed model ids are distinct, trimmed and not empty, and every listed
/// id came from the input.
pub proof fn clean_ids_are_distinct(models: Seq<Seq<char>>)
    ensures
        forall|a: int, b: int|
            0 <= a < b < clean_ids_spec(models).len() ==> clean_ids_spec(models)[a] != clean_ids_spec(
                models,
            )[b],
        forall|a: int|
            0 <= a < clean_ids_spec(models).len() ==> trim(#[trigger] clean_ids_spec(models)[a])
                == clean_ids_spec(models)[a] && clean_ids_spec(models)[a].len() > 0,
        forall|a: int|
            #![trigger clean_ids_spec(models)[a]]
            0 <= a < clean_ids_spec(models).len() ==> exists|j: int|
                0 <= j < models.len() && trim(#[trigger] models[j]) == clean_ids_spec(models)[a],
    decreases models.len(),
{
    if models.len() > 0 {
        let d = models.drop_last();
        clean_ids_are_distinct(d);
        let r = clean_ids_spec(d);
        let m = trim(models.last());
        crate::text::lemma_trim_idempotent(models.last());
        assert forall|a: int| #![trigger r[a]] 0 <= a < r.len() implies exists|j: int|
            0 <= j < models.len() && trim(#[trigger] models[j]) == r[a] by {
            let j = choose|j: int| 0 <= j < d.len() && trim(#[trigger] d[j]) == r[a];
            assert(models[j] == d[j]);
        }
        if !(m.len() == 0 || r.contains(m)) {
            assert(models[models.len() - 1] == models.last());
            assert forall|a: int, b: int| 0 <= a < b < r.push(m).len() implies r.push(m)[a] != r.push(
                m,
            )[b] by {
                if b == r.len() {
                    assert(r[a] != m) by {
                        if r[a] == m {
                            assert(r.contains(m));
                        }
                    }
                }
            }
        }
    }
}

/// Where a model listing comes from.
#[derive(Clone, Debug)]
pub enum DiscoveryPlan {
    /// The local gateway's model list.
    Gateway,
    /// The `/models` list of an OpenAI-compatible API at `base`.
    OpenAiCompatible { base: String, key: Option<String> },
    /// Anthropic's model list.
    Anthropic { key: String },
    /// Gemini's model list.
    Gemini { key: String },
    /// The tags of an Ollama server.
    Ollama { base: String },
}

/// The settings a listing may use besides the keys.
#[derive(Clone, Debug)]
pub struct DiscoveryEnv {
    pub gateway_configured: bool,
    pub openai_base_url: Option<String>,
    pub groq_base_url: Option<String>,
    pub custom_base_url: Option<String>,
    pub ollama_base_url: Option<String>,
    pub keys: KeyEnv,
}

pub open spec fn or_default(a: Option<Seq<char>>, d: Seq<char>) -> Seq<char> {
    match a {
        Some(x) => x,
        None => d,
    }
}

/// How the models of `provider` are listed, given the key and base URL in
/// the request (if any); an error when a needed key or URL is missing or the
/// provider is unknown.
pub open spec fn discovery_plan_spec(
    provider: Seq<char>,
    supplied_key: Option<Seq<char>>,
    supplied_base: Option<Seq<char>>,
    env: DiscoveryEnv,
) -> Result<(int, Seq<char>, Option<Seq<char>>), Seq<char>> {
    let key = crate::ai_local::setting_spec(supplied_key);
    let base = crate::ai_local::setting_spec(supplied_base);
    if provider == "openai"@ {
        if key is None && base is None && env.gateway_configured {
            Ok((0, Seq::empty(), None))
        } else {
            Ok(
                (
                    1,
                    or_default(or_spec(base, clean(env.openai_base_url)), "https://api.openai.com/v1"@),
                    or_spec(key, provider_key_spec("openai"@, env.keys)),
                ),
            )
        }
    } else if provider == "anthropic"@ {
        match or_spec(key, provider_key_spec("anthropic"@, env.keys)) {
            Some(k) => Ok((2, Seq::empty(), Some(k))),
            None => Err("No Anthropic API key available for model discovery"@),
        }
    } else if provider == "gemini"@ {
        match or_spec(key, provider_key_spec("gemini"@, env.keys)) {
            Some(k) => Ok((3, Seq::empty(), Some(k))),
            None => Err("No Gemini API key available for model discovery"@),
        }
    } else if provider == "groq"@ {
        Ok(
            (
                1,
                or_default(or_spec(base, clean(env.groq_base_url)), "https://api.groq.com/openai/v1"@),
                or_spec(key, provider_key_spec("groq"@, env.keys)),
            ),
        )
    } else if provider == "custom"@ {
        match or_spec(base, clean(env.custom_base_url)) {
            Some(b) => Ok((1, b, or_spec(key, provider_key_spec("custom"@, env.keys)))),
            None => Err("No custom OpenAI-compatible base URL available for model discovery"@),
        }
    } else if provider == "ollama"@ {
        Ok((4, or_default(or_spec(base, clean(env.ollama_base_url)), "http://localhost:11434"@), None))
    } else {
        Err("Unknown provider: "@ + provider)
    }
}

pub open spec fn plan_view(p: DiscoveryPlan) -> (int, Seq<char>, Option<Seq<char>>) {
    match p {
        DiscoveryPlan::Gateway => (0, Seq::empty(), None),
        DiscoveryPlan::OpenAiCompatible { base, key } => (1, base@, opt_view(key)),
        DiscoveryPlan::Anthropic { key } => (2, Seq::empty(), Some(key@)),
        DiscoveryPlan::Gemini { key } => (3, Seq::empty(), Some(key@)),
        DiscoveryPlan::Ollama { base } => (4, base@, None),
    }
}

fn or_default_exec(a: Option<String>, d: &str) -> (res: String)
    ensures
        res@ == or_default(opt_view(a), d@),
{
    match a {
        Some(x) => x,
        None => owned(d),
    }
}

pub fn discovery_plan(
    provider: &str,
    supplied_key: Option<&str>,
    supplied_base: Option<&str>,
    env: &DiscoveryEnv,
) -> (res: Result<DiscoveryPlan, String>)
    ensures
        match (res, discovery_plan_spec(provider@, opt_str_view(supplied_key), opt_str_view(supplied_base), *env)) {
            (Ok(p), Ok(q)) => plan_view(p) == q,
            (Err(e), Err(m)) => e@ == m,
            _ => false,
        },
{
    let key = clean_optional(supplied_key);
    let base = clean_optional(supplied_base);
    if str_eq(provider, "openai") {
        if key.is_none() && base.is_none() && env.gateway_configured {
            Ok(DiscoveryPlan::Gateway)
        } else {
            let b = or_default_exec(or_opt(base, clean_owned(&env.openai_base_url)), "https://api.openai.com/v1");
            let k = or_opt(key, provider_api_key("openai", &env.keys));
            Ok(DiscoveryPlan::OpenAiCompatible { base: b, key: k })
        }
    } else if str_eq(provider, "anthropic") {
        match or_opt(key, provider_api_key("anthropic", &env.keys)) {
            Some(k) => Ok(DiscoveryPlan::Anthropic { key: k }),
            None => Err(owned("No Anthropic API key available for model discovery")),
        }
    } else if str_eq(provider, "gemini") {
        match or_opt(key, provider_api_key("gemini", &env.keys)) {
            Some(k) => Ok(DiscoveryPlan::Gemini { key: k }),
            None => Err(owned("No Gemini API key available for model discovery")),
        }
    } else if str_eq(provider, "groq") {
        let b = or_default_exec(or_opt(base, clean_owned(&env.groq_base_url)), "https://api.groq.com/openai/v1");
        let k = or_opt(key, provider_api_key("groq", &env.keys));
        Ok(DiscoveryPlan::OpenAiCompatible { base: b, key: k })
    } else if str_eq(provider, "custom") {
        match or_opt(base, clean_owned(&env.custom_base_url)) {
            Some(b) => {
                let k = or_opt(key, provider_api_key("custom", &env.keys));
                Ok(DiscoveryPlan::OpenAiCompatible { base: b, key: k })
            },
            None => Err(owned("No custom OpenAI-compatible base URL available for model discovery")),
        }
    } else if str_eq(provider, "ollama") {
        let b = or_default_exec(or_opt(base, clean_owned(&env.ollama_base_url)), "http://localhost:11434");
        Ok(DiscoveryPlan::Ollama { base: b })
    } else {
        let mut out: Vec<char> = Vec::new();
        push_str(&mut out, "Unknown provider: ");
        push_str(&mut out, provider);
        Err(string_from_chars(&out))
    }
}

/// A model listing as answered: the models, where they came from, and the
/// error that made it fall back to the built-in list.
#[derive(Clone, Debug)]
pub struct ModelListing {
    pub models: Vec<String>,
    pub source: String,
    pub error: Option<String>,
}

/// The answer to a model listing: the provider's own models when it listed
/// some, else the built-in list with the reason; an unknown provider has
/// none. `discovered` is what the listing returned (models and source) or its
/// error.
pub fn model_listing(provider: &str, discovered: Result<(Vec<String>, String), String>) -> (res:
    ModelListing)
    ensures
        provider_models(provider@).len() == 0 ==> {
            &&& res.models@.len() == 0
            &&& res.source@ == "unsupported"@
            &&& opt_view(res.error) == Some("Unknown provider: "@ + provider@)
        },
        provider_models(provider@).len() > 0 ==> match discovered {
            Ok((models, source)) => if models@.len() > 0 {
                &&& res.models@ == models@
                &&& res.source@ == source@
                &&& res.error is None
            } else {
                &&& res.models@.map_values(|s: String| s@) == provider_models(provider@)
                &&& res.source@ == "static_fallback"@
                &&& opt_view(res.error) == Some(source@ + " returned no models"@)
            },
            Err(e) => {
                &&& res.models@.map_values(|s: String| s@) == provider_models(provider@)
                &&& res.source@ == "static_fallback"@
                &&& opt_view(res.error) == Some(e@)
            },
        },
{
    let fallback = static_provider_models(provider);
    if fallback.len() == 0 {
        let mut out: Vec<char> = Vec::new();
        push_str(&mut out, "Unknown provider: ");
        push_str(&mut out, provider);
        return ModelListing {
            models: Vec::new(),
            source: owned("unsupported"),
            error: Some(string_from_chars(&out)),
        };
    }
    match discovered {
        Ok((models, source)) => if models.len() > 0 {
            ModelListing { models, source, error: None }
        } else {
            let mut out = chars_of(source.as_str());
            push_str(&mut out, " returned no models");
            ModelListing {
                models: fallback,
                source: owned("static_fallback"),
                error: Some(string_from_chars(&out)),
            }
        },
        Err(e) => ModelListing { models: fallback, source: owned("static_fallback"), error: Some(e) },
    }
}

/// `url` without the `'/'` characters at its end, then `suffix`.
pub fn endpoint(base: &str, suffix: &str) -> (res: String)
    ensures
        res@ == crate::ai_local::strip_trailing_slashes(base@) + suffix@,
{
    let v = chars_of(base);
    let mut end = v.len();
    assert(v@.take(v@.len() as int) =~= v@);
    while end > 0 && v[end - 1] == '/'
        invariant
            end <= v.len(),
            crate::ai_local::strip_trailing_slashes(v@) == crate::ai_local::strip_trailing_slashes(
                v@.take(end as int),
            ),
        decreases end,
    {
        assert(v@.take(end as int).drop_last() =~= v@.take(end - 1));
        end -= 1;
    }
    let mut out: Vec<char> = Vec::new();
    push_range(&mut out, &v, 0, end);
    proof {
        assert(v@.take(v@.len() as int) =~= v@);
        assert(out@ =~= v@.take(end as int));
    }
    push_str(&mut out, suffix);
    string_from_chars(&out)
}

/// A Gemini model's id: its name without the `models/` prefix.
pub fn gemini_model_id(name: &str) -> (res: String)
    ensures
        res@ == crate::llm::strip_prefix_or_keep(name@, "models/"@),
{
    let v = chars_of(name);
    let p = chars_of("models/");
    if v.len() >= p.len() && crate::text::occurs_at_exec(&v, &p, 0) {
        let mut out: Vec<char> = Vec::new();
        push_range(&mut out, &v, p.len(), v.len());
        assert(v@.subrange(0, p@.len() as int) =~= v@.take(p@.len() as int));
        assert(out@ =~= v@.skip(p@.len() as int));
        string_from_chars(&out)
    } else {
        proof {
            if v@.len() >= p@.len() {
                assert(v@.subrange(0, p@.len() as int) =~= v@.take(p@.len() as int));
            }
        }
        owned(name)
    }
}

/// An agent as the team is saved: a missing id replaced by a fresh one, idle
/// and without a task.
pub fn reset_agent(a: crate::agent::AgentConfig, fresh_id: String) -> (res: crate::agent::AgentConfig)
    ensures
        res.id@ == if a.id@.len() == 0 {
            fresh_id@
        } else {
            a.id@
        },
        res.status@ == "idle"@,
        res.current_task@.len() == 0,
        res.name == a.name,
        res.role == a.role,
        res.provider == a.provider,
        res.model == a.model,
        res.api_key == a.api_key,
        res.bot_token == a.bot_token,
        res.bot_user == a.bot_user,
{
    let id = if a.id.as_str().is_empty() {
        fresh_id
    } else {
        a.id
    };
    crate::agent::AgentConfig {
        id,
        status: owned("idle"),
        current_task: String::new(),
        ..a
    }
}

} // verus!
