//! The working copy of a repository: the settings read from the environment,
//! the identity that clones and pushes, which files are listed and read, and
//! the code digest handed to the models under a byte budget.

use vstd::prelude::*;
use crate::agent::{opt_str_view, opt_view};
use crate::text::{
    ascii_lowercase, ascii_lowercase_exec, chars_of, join, join_exec, nat_decimal, owned,
    push_nat_decimal, push_str, str_eq, string_from_chars, trim,
};

verus! {

// ---------------------------------------------------------------------------
// Settings
// ---------------------------------------------------------------------------

/// Whether a setting is switched on: `1`, `true` or `yes`, in any ASCII case.
pub open spec fn truthy(v: Seq<char>) -> bool {
    let l = ascii_lowercase(v);
    l == "1"@ || l == "true"@ || l == "yes"@
}

/// Whether the value of a setting (empty when unset) switches it on.
pub fn env_truthy(value: &str) -> (res: bool)
    ensures
        res == truthy(value@),
{
    let l = string_from_chars(&ascii_lowercase_exec(&chars_of(value)));
    str_eq(l.as_str(), "1") || str_eq(l.as_str(), "true") || str_eq(l.as_str(), "yes")
}

pub open spec fn is_digit(c: char) -> bool {
    '0' <= c <= '9'
}

/// The number written by the decimal digits `d`.
pub open spec fn digits_value(d: Seq<char>) -> nat
    decreases d.len(),
{
    if d.len() == 0 {
        0
    } else {
        digits_value(d.drop_last()) * 10 + ((d.last() as u32) - 48) as nat
    }
}

pub open spec fn all_digits(d: Seq<char>) -> bool {
    forall|i: int| 0 <= i < d.len() ==> is_digit(#[trigger] d[i])
}

/// `u64::from_str`: an optional `+`, then one or more ASCII digits whose value
/// fits in a `u64`.
pub open spec fn parse_u64_spec(s: Seq<char>) -> Option<u64> {
    let d = if s.len() > 0 && s[0] == '+' {
        s.drop_first()
    } else {
        s
    };
    if d.len() > 0 && all_digits(d) && digits_value(d) <= u64::MAX {
        Some(digits_value(d) as u64)
    } else {
        None
    }
}

pub proof fn lemma_digits_prefix_le(d: Seq<char>, j: int)
    requires
        0 <= j <= d.len(),
        all_digits(d),
    ensures
        digits_value(d.take(j)) <= digits_value(d),
    decreases d.len() - j,
{
    if j < d.len() {
        lemma_digits_prefix_le(d, j + 1);
        let t = d.take(j + 1);
        assert(t.drop_last() =~= d.take(j));
        assert(is_digit(d[j]));
    } else {
        assert(d.take(j) =~= d);
    }
}

/// Reads a `u64` as `str::parse::<u64>` does.
pub fn parse_u64(s: &str) -> (res: Option<u64>)
    ensures
        res == parse_u64_spec(s@),
{
    let v = chars_of(s);
    let start: usize = if v.len() > 0 && v[0] == '+' {
        1
    } else {
        0
    };
    let ghost d = if s@.len() > 0 && s@[0] == '+' {
        s@.drop_first()
    } else {
        s@
    };
    assert(d =~= v@.skip(start as int));
    if start >= v.len() {
        return None;
    }
    let mut val: u64 = 0;
    let mut i = start;
    while i < v.len()
        invariant
            start <= i <= v.len(),
            v@ == s@,
            d == (if s@.len() > 0 && s@[0] == '+' {
                s@.drop_first()
            } else {
                s@
            }),
            d == v@.skip(start as int),
            all_digits(d.take(i - start)),
            val == digits_value(d.take(i - start)),
        decreases v.len() - i,
    {
        let c = v[i];
        let ghost t = d.take(i - start + 1);
        assert(t.drop_last() =~= d.take(i - start));
        assert(t.last() == c);
        assert(d[i - start] == c);
        if c < '0' || c > '9' {
            assert(!is_digit(d[i - start]));
            assert(!all_digits(d));
            return None;
        }
        let digit = (c as u32 - 48) as u64;
        match val.checked_mul(10) {
            Some(m) => match m.checked_add(digit) {
                Some(n) => {
                    val = n;
                },
                None => {
                    proof {
                        assert(digits_value(t) == val * 10 + digit);
                        if all_digits(d) {
                            lemma_digits_prefix_le(d, i - start + 1);
                        }
                    }
                    return None;
                },
            },
            None => {
                proof {
                    if all_digits(d) {
                        lemma_digits_prefix_le(d, i - start + 1);
                    }
                }
                return None;
            },
        }
        i += 1;
    }
    assert(d.take(i - start) =~= d);
    Some(val)
}

/// How long a test run may take, from `REAPER_TEST_TIMEOUT_SECONDS`: a
/// positive number of seconds, else ten minutes.
pub open spec fn test_timeout_spec(raw: Option<Seq<char>>) -> u64 {
    match raw {
        Some(v) => match parse_u64_spec(v) {
            Some(n) => if n > 0 {
                n
            } else {
                600
            },
            None => 600,
        },
        None => 600,
    }
}

pub fn test_timeout_seconds(raw: Option<&str>) -> (res: u64)
    ensures
        res == test_timeout_spec(opt_str_view(raw)),
        res > 0,
{
    match raw {
        Some(v) => match parse_u64(v) {
            Some(n) => if n > 0 {
                n
            } else {
                600
            },
            None => 600,
        },
        None => 600,
    }
}

// ---------------------------------------------------------------------------
// Credentials
// ---------------------------------------------------------------------------

/// The characters of `s` with each `'` written as `'"'"'`.
pub open spec fn quote_body(s: Seq<char>) -> Seq<char>
    decreases s.len(),
{
    if s.len() == 0 {
        Seq::empty()
    } else {
        quote_body(s.drop_last()) + if s.last() == '\'' {
            "'\"'\"'"@
        } else {
            seq![s.last()]
        }
    }
}

/// `s` as one single-quoted shell word.
pub open spec fn shell_quote_spec(s: Seq<char>) -> Seq<char> {
    seq!['\''] + quote_body(s) + seq!['\'']
}

/// `s` as one single-quoted shell word, whatever it holds.
pub fn shell_single_quote(value: &str) -> (res: String)
    ensures
        res@ == shell_quote_spec(value@),
{
    let v = chars_of(value);
    let mut out: Vec<char> = Vec::new();
    out.push('\'');
    let mut i: usize = 0;
    while i < v.len()
        invariant
            i <= v.len(),
            out@ == seq!['\''] + quote_body(v@.take(i as int)),
        decreases v.len() - i,
    {
        let ghost t = v@.take(i + 1);
        assert(t.drop_last() =~= v@.take(i as int));
        if v[i] == '\'' {
            push_str(&mut out, "'\"'\"'");
        } else {
            out.push(v[i]);
        }
        assert(out@ =~= seq!['\''] + quote_body(t));
        i += 1;
    }
    assert(v@.take(v@.len() as int) =~= v@);
    out.push('\'');
    string_from_chars(&out)
}

/// The `GIT_ASKPASS` script that answers git's prompts with the user and the
/// token.
pub open spec fn askpass_script_spec(user: Seq<char>, token: Seq<char>) -> Seq<char> {
    "#!/bin/sh\ncase \"$1\" in\n  *Username*) printf '%s\\n' "@ + shell_quote_spec(user)
        + " ;;\n  *Password*) printf '%s\\n' "@ + shell_quote_spec(token)
        + " ;;\n  *) printf '\\n' ;;\nesac\n"@
}

pub fn askpass_script(user: &str, token: &str) -> (res: String)
    ensures
        res@ == askpass_script_spec(user@, token@),
{
    let mut out: Vec<char> = Vec::new();
    push_str(&mut out, "#!/bin/sh\ncase \"$1\" in\n  *Username*) printf '%s\\n' ");
    push_str(&mut out, shell_single_quote(user).as_str());
    push_str(&mut out, " ;;\n  *Password*) printf '%s\\n' ");
    push_str(&mut out, shell_single_quote(token).as_str());
    push_str(&mut out, " ;;\n  *) printf '\\n' ;;\nesac\n");
    string_from_chars(&out)
}

/// Who clones and pushes: the git user name, the token, the name given to
/// git's prompt, and the e-mail to configure, if any.
#[derive(Clone, Debug)]
pub struct CloneIdentity {
    pub user: String,
    pub token: String,
    pub askpass_user: String,
    pub email: Option<String>,
}

pub open spec fn clone_identity_spec(
    bot_user: Option<Seq<char>>,
    env_user: Seq<char>,
    bot_token: Option<Seq<char>>,
    env_token: Option<Seq<char>>,
    env_email: Seq<char>,
) -> (Seq<char>, Seq<char>, Seq<char>, Option<Seq<char>>) {
    let user = match bot_user {
        Some(u) => u,
        None => env_user,
    };
    let token = match bot_token {
        Some(t) => if trim(t).len() > 0 {
            t
        } else {
            match env_token {
                Some(e) => e,
                None => Seq::empty(),
            }
        },
        None => match env_token {
            Some(e) => e,
            None => Seq::empty(),
        },
    };
    let askpass = if trim(user).len() == 0 {
        "x-access-token"@
    } else {
        user
    };
    let email = if env_email.len() == 0 {
        None
    } else {
        Some(env_email)
    };
    (user, token, askpass, email)
}

/// The identity of a clone: the bot's user, else `BOT_GITHUB_USER` (`env_user`,
/// empty when unset); the bot's token when it holds more than whitespace, else
/// the token configured for the service; `x-access-token` at git's prompt
/// when no user name is known; and `BOT_GITHUB_EMAIL` when it is set.
pub fn clone_identity(
    bot_user: Option<&str>,
    env_user: &str,
    bot_token: Option<&str>,
    env_token: Option<&str>,
    env_email: &str,
) -> (res: CloneIdentity)
    ensures
        (res.user@, res.token@, res.askpass_user@, opt_view(res.email)) == clone_identity_spec(
            opt_str_view(bot_user),
            env_user@,
            opt_str_view(bot_token),
            opt_str_view(env_token),
            env_email@,
        ),
{
    let user = match bot_user {
        Some(u) => owned(u),
        None => owned(env_user),
    };
    let fallback = match env_token {
        Some(e) => owned(e),
        None => String::new(),
    };
    let token = match bot_token {
        Some(t) => if !crate::text::is_blank(t) {
            owned(t)
        } else {
            fallback
        },
        None => fallback,
    };
    let askpass_user = if crate::text::is_blank(user.as_str()) {
        owned("x-access-token")
    } else {
        user.clone()
    };
    let email = if env_email.is_empty() {
        None
    } else {
        Some(owned(env_email))
    };
    CloneIdentity { user, token, askpass_user, email }
}

// ---------------------------------------------------------------------------
// Listing
// ---------------------------------------------------------------------------

/// Directories never listed or read.
pub open spec fn is_skipped_dir(name: Seq<char>) -> bool {
    ||| name == "node_modules"@
    ||| name == ".git"@
    ||| name == "__pycache__"@
    ||| name == "dist"@
    ||| name == "build"@
    ||| name == ".venv"@
    ||| name == "venv"@
    ||| name == "target"@
}

/// Dependency, build and tool directories are never read or listed:
/// `node_modules`, `.git`, `__pycache__`, `dist`, `build`, `.venv`, `venv`
/// and `target`, and no other.
pub proof fn skipped_directories(name: Seq<char>)
    ensures
        is_skipped_dir(name) == (name == "node_modules"@ || name == ".git"@ || name == "__pycache__"@
            || name == "dist"@ || name == "build"@ || name == ".venv"@ || name == "venv"@ || name
            == "target"@),
{
}

fn is_skipped_dir_exec(name: &str) -> (res: bool)
    ensures
        res == is_skipped_dir(name@),
{
    str_eq(name, "node_modules") || str_eq(name, ".git") || str_eq(name, "__pycache__") || str_eq(
        name,
        "dist",
    ) || str_eq(name, "build") || str_eq(name, ".venv") || str_eq(name, "venv") || str_eq(
        name,
        "target",
    )
}

/// Whether a path, given by its components, lies in a skipped directory.
pub fn skip_dir(components: &Vec<String>) -> (res: bool)
    ensures
        res == exists|i: int| 0 <= i < components@.len() && is_skipped_dir(#[trigger] components@[i]@),
{
    let mut i: usize = 0;
    while i < components.len()
        invariant
            i <= components.len(),
            forall|k: int| 0 <= k < i ==> !is_skipped_dir(#[trigger] components@[k]@),
        decreases components.len() - i,
    {
        if is_skipped_dir_exec(components[i].as_str()) {
            return true;
        }
        i += 1;
    }
    false
}

/// The extension of a file name as `Path::extension` gives it: the text after
/// the last `.`, unless that dot starts the name or there is none.
pub open spec fn extension_of(name: Seq<char>) -> Option<Seq<char>> {
    if name == ".."@ {
        None
    } else {
        let dots = name.len() as int - 1 - last_dot_from_end(name);
        if dots <= 0 {
            None
        } else {
            Some(name.skip(dots + 1))
        }
    }
}

/// How many characters follow the last `.` of `s`; `s.len()` when there is
/// none.
pub open spec fn last_dot_from_end(s: Seq<char>) -> int
    decreases s.len(),
{
    if s.len() == 0 {
        0
    } else if s.last() == '.' {
        0
    } else {
        last_dot_from_end(s.drop_last()) + 1
    }
}

pub open spec fn is_code_ext(e: Seq<char>) -> bool {
    ||| e == ".py"@
    ||| e == ".js"@
    ||| e == ".ts"@
    ||| e == ".go"@
    ||| e == ".rs"@
    ||| e == ".java"@
    ||| e == ".cpp"@
    ||| e == ".c"@
    ||| e == ".rb"@
    ||| e == ".tsx"@
    ||| e == ".jsx"@
}

pub open spec fn is_listed_ext(e: Seq<char>) -> bool {
    ||| is_code_ext(e)
    ||| e == ".md"@
    ||| e == ".yaml"@
    ||| e == ".toml"@
    ||| e == ".json"@
    ||| e == ".txt"@
}

/// Whether a file is read as code (`docs` false) or shown in the repository
/// structure (`docs` true), by its extension.
pub open spec fn wanted_file(name: Seq<char>, docs: bool) -> bool {
    let ext = match extension_of(name) {
        Some(e) => seq!['.'] + e,
        None => Seq::empty(),
    };
    if docs {
        is_listed_ext(ext)
    } else {
        is_code_ext(ext)
    }
}

proof fn lemma_last_dot_suffix(stem: Seq<char>, x: Seq<char>)
    requires
        x.len() >= 1,
        x[0] == '.',
        forall|k: int| 1 <= k < x.len() ==> x[k] != '.',
    ensures
        last_dot_from_end(stem + x) == x.len() - 1,
    decreases x.len(),
{
    if x.len() > 1 {
        let y = x.drop_last();
        assert((stem + x).drop_last() =~= stem + y);
        assert((stem + x).last() == x[x.len() - 1]);
        lemma_last_dot_suffix(stem, y);
    } else {
        assert((stem + x).last() == '.');
    }
}

proof fn lemma_ext_suffix(stem: Seq<char>, x: Seq<char>)
    requires
        stem.len() > 0,
        x.len() >= 2,
        x[0] == '.',
        forall|k: int| 1 <= k < x.len() ==> x[k] != '.',
    ensures
        extension_of(stem + x) == Some(x.skip(1)),
        seq!['.'] + x.skip(1) == x,
{
    lemma_last_dot_suffix(stem, x);
    assert(stem + x != ".."@) by {
        reveal_strlit("..");
        assert((stem + x).len() >= 3);
    }
    assert((stem + x).skip(stem.len() + 1int) =~= x.skip(1));
    assert(seq!['.'] + x.skip(1) =~= x);
}

/// Source files are read as code and listed in the repository structure by
/// their extension, whatever their name: `.py`, `.js`, `.ts`, `.go`, `.rs`,
/// `.java`, `.cpp`, `.c`, `.rb`, `.tsx` and `.jsx` are both; `.md`, `.yaml`,
/// `.toml`, `.json` and `.txt` are listed but not read as code.
pub proof fn code_files_are_wanted(stem: Seq<char>)
    requires
        stem.len() > 0,
    ensures
        wanted_file(stem + ".py"@, false) && wanted_file(stem + ".py"@, true),
        wanted_file(stem + ".js"@, false) && wanted_file(stem + ".js"@, true),
        wanted_file(stem + ".ts"@, false) && wanted_file(stem + ".ts"@, true),
        wanted_file(stem + ".go"@, false) && wanted_file(stem + ".go"@, true),
        wanted_file(stem + ".rs"@, false) && wanted_file(stem + ".rs"@, true),
        wanted_file(stem + ".java"@, false) && wanted_file(stem + ".java"@, true),
        wanted_file(stem + ".cpp"@, false) && wanted_file(stem + ".cpp"@, true),
        wanted_file(stem + ".c"@, false) && wanted_file(stem + ".c"@, true),
        wanted_file(stem + ".rb"@, false) && wanted_file(stem + ".rb"@, true),
        wanted_file(stem + ".tsx"@, false) && wanted_file(stem + ".tsx"@, true),
        wanted_file(stem + ".jsx"@, false) && wanted_file(stem + ".jsx"@, true),
        !wanted_file(stem + ".md"@, false) && wanted_file(stem + ".md"@, true),
        !wanted_file(stem + ".yaml"@, false) && wanted_file(stem + ".yaml"@, true),
        !wanted_file(stem + ".toml"@, false) && wanted_file(stem + ".toml"@, true),
        !wanted_file(stem + ".json"@, false) && wanted_file(stem + ".json"@, true),
        !wanted_file(stem + ".txt"@, false) && wanted_file(stem + ".txt"@, true),
{
    reveal_strlit(".py");
    reveal_strlit(".js");
    reveal_strlit(".ts");
    reveal_strlit(".go");
    reveal_strlit(".rs");
    reveal_strlit(".java");
    reveal_strlit(".cpp");
    reveal_strlit(".c");
    reveal_strlit(".rb");
    reveal_strlit(".tsx");
    reveal_strlit(".jsx");
    reveal_strlit(".md");
    reveal_strlit(".yaml");
    reveal_strlit(".toml");
    reveal_strlit(".json");
    reveal_strlit(".txt");
    lemma_ext_suffix(stem, ".py"@);
    lemma_ext_suffix(stem, ".js"@);
    lemma_ext_suffix(stem, ".ts"@);
    lemma_ext_suffix(stem, ".go"@);
    lemma_ext_suffix(stem, ".rs"@);
    lemma_ext_suffix(stem, ".java"@);
    lemma_ext_suffix(stem, ".cpp"@);
    lemma_ext_suffix(stem, ".c"@);
    lemma_ext_suffix(stem, ".rb"@);
    lemma_ext_suffix(stem, ".tsx"@);
    lemma_ext_suffix(stem, ".jsx"@);
    lemma_ext_suffix(stem, ".md"@);
    lemma_ext_suffix(stem, ".yaml"@);
    lemma_ext_suffix(stem, ".toml"@);
    lemma_ext_suffix(stem, ".json"@);
    lemma_ext_suffix(stem, ".txt"@);
}

fn last_dot(v: &Vec<char>) -> (res: usize)
    ensures
        res <= v.len(),
        res == last_dot_from_end(v@),
{
    let mut k: usize = 0;
    let n = v.len();
    assert(v@.take(n as int) =~= v@);
    while k < n && v[n - 1 - k] != '.'
        invariant
            k <= n == v.len(),
            last_dot_from_end(v@) == last_dot_from_end(v@.take(n - k)) + k,
        decreases n - k,
    {
        let ghost t = v@.take(n - k);
        assert(t.drop_last() =~= v@.take(n - k - 1));
        k += 1;
    }
    proof {
        if k < n {
            let t = v@.take(n - k);
            assert(t.last() == v@[n - 1 - k]);
        } else {
            assert(v@.take(0) =~= Seq::<char>::empty());
        }
    }
    k
}

/// Whether a file is read as code or listed in the structure.
pub fn wanted_file_exec(name: &str, docs: bool) -> (res: bool)
    ensures
        res == wanted_file(name@, docs),
{
    let v = chars_of(name);
    let mut ext: Vec<char> = Vec::new();
    if !str_eq(name, "..") {
        let k = last_dot(&v);
        let n = v.len();
        if k < n && n - 1 - k > 0 {
            ext.push('.');
            crate::text::push_range(&mut ext, &v, n - k, n);
            assert(v@.subrange(n - k, n as int) =~= v@.skip(n - k));
        }
        proof {
            if !(k < n && n - 1 - k > 0) {
                assert(n as int - 1 - k <= 0);
            }
        }
    }
    let e = string_from_chars(&ext);
    let s = e.as_str();
    let code = str_eq(s, ".py") || str_eq(s, ".js") || str_eq(s, ".ts") || str_eq(s, ".go")
        || str_eq(s, ".rs") || str_eq(s, ".java") || str_eq(s, ".cpp") || str_eq(s, ".c") || str_eq(
        s,
        ".rb",
    ) || str_eq(s, ".tsx") || str_eq(s, ".jsx");
    if docs {
        code || str_eq(s, ".md") || str_eq(s, ".yaml") || str_eq(s, ".toml") || str_eq(s, ".json")
            || str_eq(s, ".txt")
    } else {
        code
    }
}

/// One line of the repository structure: the relative path and its size.
pub fn structure_line(rel: &str, size: u64) -> (res: String)
    ensures
        res@ == rel@ + " ("@ + nat_decimal(size as nat) + " B)"@,
{
    let mut out = chars_of(rel);
    push_str(&mut out, " (");
    push_nat_decimal(&mut out, size);
    push_str(&mut out, " B)");
    string_from_chars(&out)
}

/// The repository structure: its lines, one per line.
pub fn structure_text(lines: &Vec<String>) -> (res: String)
    ensures
        res@ == join(lines@.map_values(|l: String| l@), "\n"@),
{
    let mut parts: Vec<Vec<char>> = Vec::new();
    let mut i: usize = 0;
    while i < lines.len()
        invariant
            i <= lines.len(),
            parts.len() == i,
            forall|k: int| 0 <= k < i ==> (#[trigger] parts@[k])@ == lines@[k]@,
        decreases lines.len() - i,
    {
        parts.push(chars_of(lines[i].as_str()));
        i += 1;
    }
    assert(parts@.map_values(|p: Vec<char>| p@) =~= lines@.map_values(|l: String| l@));
    string_from_chars(&join_exec(&parts, "\n"))
}

/// `path` relative to `base`, both given by their components, as
/// `Path::strip_prefix` gives it: `None` unless `base` is a prefix of `path`.
pub open spec fn strip_components(base: Seq<Seq<char>>, path: Seq<Seq<char>>) -> Option<Seq<Seq<char>>> {
    if base.len() <= path.len() && path.take(base.len() as int) == base {
        Some(path.skip(base.len() as int))
    } else {
        None
    }
}

/// The part of `path` below `base`, when `path` lies inside `base`: a file
/// is read only when its resolved path lies inside the resolved repository.
pub fn strip_path_prefix(base: &Vec<String>, path: &Vec<String>) -> (res: Option<Vec<String>>)
    ensures
        match res {
            Some(r) => strip_components(
                base@.map_values(|c: String| c@),
                path@.map_values(|c: String| c@),
            ) == Some(r@.map_values(|c: String| c@)),
            None => strip_components(
                base@.map_values(|c: String| c@),
                path@.map_values(|c: String| c@),
            ) is None,
        },
{
    let ghost bv = base@.map_values(|c: String| c@);
    let ghost pv = path@.map_values(|c: String| c@);
    if base.len() > path.len() {
        return None;
    }
    let mut i: usize = 0;
    while i < base.len()
        invariant
            i <= base.len() <= path.len(),
            bv == base@.map_values(|c: String| c@),
            pv == path@.map_values(|c: String| c@),
            forall|k: int| 0 <= k < i ==> bv[k] == pv[k],
        decreases base.len() - i,
    {
        if !str_eq(base[i].as_str(), path[i].as_str()) {
            assert(pv.take(base.len() as int)[i as int] != bv[i as int]);
            return None;
        }
        i += 1;
    }
    assert(pv.take(base.len() as int) =~= bv);
    let mut rest: Vec<String> = Vec::new();
    let mut j = base.len();
    while j < path.len()
        invariant
            base.len() <= j <= path.len(),
            pv == path@.map_values(|c: String| c@),
            rest@.map_values(|c: String| c@) == pv.subrange(base.len() as int, j as int),
        decreases path.len() - j,
    {
        let ghost before = rest@;
        let c = path[j].clone();
        rest.push(c);
        assert(rest@ == before.push(c));
        assert(c@ == pv[j as int]);
        assert(rest@.map_values(|c: String| c@) =~= before.map_values(|c: String| c@).push(c@));
        assert(pv.subrange(base.len() as int, j + 1) =~= pv.subrange(base.len() as int, j as int).push(pv[j as int]));
        assert(rest@.map_values(|c: String| c@) =~= pv.subrange(base.len() as int, j + 1));
        j += 1;
    }
    assert(pv.subrange(base.len() as int, path.len() as int) =~= pv.skip(base.len() as int));
    Some(rest)
}

// ---------------------------------------------------------------------------
// The code digest
// ---------------------------------------------------------------------------

/// The number of bytes of the UTF-8 encoding of `s`.
pub open spec fn utf8_len(s: Seq<char>) -> nat {
    vstd::utf8::encode_utf8(s).len()
}

/// The width in bytes of the UTF-8 encoding of `c`.
pub open spec fn char_width(c: char) -> nat {
    let u = c as u32;
    if u <= 0x7F {
        1
    } else if u <= 0x7FF {
        2
    } else if u <= 0xFFFF {
        3
    } else {
        4
    }
}

proof fn lemma_scalar_width(c: char)
    ensures
        vstd::utf8::encode_scalar(c as u32).len() == char_width(c),
{
    let u = c as u32;
    if u <= 0x7F {
    } else if u <= 0x7FF {
    } else if u <= 0xFFFF {
        assert(!(0xD800 <= u <= 0xDFFF));
    } else {
    }
}

proof fn lemma_utf8_len_push(s: Seq<char>, c: char)
    ensures
        utf8_len(s.push(c)) == utf8_len(s) + char_width(c),
    decreases s.len(),
{
    if s.len() == 0 {
        assert(seq![c].drop_first() =~= Seq::<char>::empty());
        assert(s.push(c) =~= seq![c]);
        lemma_scalar_width(c);
        assert(vstd::utf8::encode_utf8(seq![c]) =~= vstd::utf8::encode_scalar(c as u32)
            + vstd::utf8::encode_utf8(Seq::<char>::empty()));
    } else {
        lemma_utf8_len_push(s.drop_first(), c);
        assert(s.push(c).drop_first() =~= s.drop_first().push(c));
        assert(s.push(c)[0] == s[0]);
    }
}

/// The longest prefix of `s` whose encoding takes at most `n` bytes.
pub open spec fn chars_within(s: Seq<char>, n: nat) -> Seq<char>
    decreases s.len(),
{
    if s.len() == 0 || char_width(s[0]) > n {
        Seq::empty()
    } else {
        seq![s[0]] + chars_within(s.drop_first(), (n - char_width(s[0])) as nat)
    }
}

/// What is kept of a file that does not fit: its first `n` bytes, which must
/// end between two characters, and a mark.
pub open spec fn truncated(content: Seq<char>, n: nat) -> Seq<char> {
    chars_within(content, n) + "\n...(truncated)"@
}

/// One file of the digest.
pub open spec fn section(rel: Seq<char>, content: Seq<char>) -> Seq<char> {
    "### "@ + rel + "\n```\n"@ + content + "\n```"@
}

/// The code handed to a model: files in order, each as a titled block, until
/// `max_bytes` bytes of file text were taken; the file that crosses the
/// budget is cut at it and marked.
#[derive(Clone, Debug)]
pub struct CodeDigest {
    pub max_bytes: usize,
    pub total: usize,
    pub sections: Vec<String>,
}

fn char_width_exec(c: char) -> (res: usize)
    ensures
        res == char_width(c),
{
    let u = c as u32;
    if u <= 0x7F {
        1
    } else if u <= 0x7FF {
        2
    } else if u <= 0xFFFF {
        3
    } else {
        4
    }
}

proof fn lemma_within_prefix(s: Seq<char>, k: int, n: nat, used: nat)
    requires
        0 <= k <= s.len(),
        used == utf8_len(s.take(k)),
        used <= n,
    ensures
        chars_within(s, n) == s.take(k) + chars_within(s.skip(k), (n - used) as nat),
    decreases k,
{
    if k > 0 {
        let t = s.drop_first();
        assert(s.take(k) =~= seq![s[0]] + t.take(k - 1));
        lemma_utf8_len_take_first(s, k);
        lemma_within_prefix(t, k - 1, (n - char_width(s[0])) as nat, (used - char_width(s[0])) as nat);
        assert(t.skip(k - 1) =~= s.skip(k));
        assert(char_width(s[0]) <= n);
    } else {
        assert(s.take(0) =~= Seq::<char>::empty());
        assert(s.skip(0) =~= s);
    }
}

proof fn lemma_utf8_len_take_first(s: Seq<char>, k: int)
    requires
        0 < k <= s.len(),
    ensures
        utf8_len(s.take(k)) == char_width(s[0]) + utf8_len(s.drop_first().take(k - 1)),
        char_width(s[0]) <= utf8_len(s.take(k)),
{
    lemma_utf8_len_concat(seq![s[0]], s.drop_first().take(k - 1));
    assert(s.take(k) =~= seq![s[0]] + s.drop_first().take(k - 1));
    lemma_utf8_len_push(Seq::<char>::empty(), s[0]);
    assert(Seq::<char>::empty().push(s[0]) =~= seq![s[0]]);
}

proof fn lemma_utf8_len_concat(a: Seq<char>, b: Seq<char>)
    ensures
        utf8_len(a + b) == utf8_len(a) + utf8_len(b),
    decreases b.len(),
{
    if b.len() > 0 {
        lemma_utf8_len_concat(a, b.drop_last());
        lemma_utf8_len_push(a + b.drop_last(), b.last());
        lemma_utf8_len_push(b.drop_last(), b.last());
        assert(a + b =~= (a + b.drop_last()).push(b.last()));
        assert(b =~= b.drop_last().push(b.last()));
    } else {
        assert(a + b =~= a);
    }
}

/// The first `n` bytes of `content`, cut between characters.
fn byte_prefix(content: &Vec<char>, n: usize) -> (res: Vec<char>)
    ensures
        res@ == chars_within(content@, n as nat),
{
    let mut k: usize = 0;
    let mut used: usize = 0;
    while k < content.len() && char_width_exec(content[k]) <= n - used
        invariant
            k <= content.len(),
            used <= n,
            used == utf8_len(content@.take(k as int)),
        decreases content.len() - k,
    {
        proof {
            lemma_utf8_len_push(content@.take(k as int), content@[k as int]);
            assert(content@.take(k + 1) =~= content@.take(k as int).push(content@[k as int]));
        }
        used = used + char_width_exec(content[k]);
        k += 1;
    }
    proof {
        lemma_within_prefix(content@, k as int, n as nat, used as nat);
        let rest = content@.skip(k as int);
        if rest.len() > 0 {
            assert(rest[0] == content@[k as int]);
        }
        assert(chars_within(rest, (n - used) as nat) =~= Seq::<char>::empty());
    }
    let mut out: Vec<char> = Vec::new();
    crate::text::push_range(&mut out, content, 0, k);
    assert(out@ =~= content@.take(k as int));
    assert(out@ + Seq::<char>::empty() =~= out@);
    out
}

impl CodeDigest {
    /// An empty digest with a budget of `max_bytes` bytes.
    pub fn new(max_bytes: usize) -> (res: CodeDigest)
        ensures
            res.max_bytes == max_bytes,
            res.total == 0,
            res.sections@ == Seq::<String>::empty(),
    {
        CodeDigest { max_bytes, total: 0, sections: Vec::new() }
    }

    /// Whether another file may still be added.
    pub open spec fn open(&self) -> bool {
        self.total < self.max_bytes
    }

    /// Adds a file; returns whether the budget still allows another one.
    /// A file that does not fit is cut at the budget, which must fall between
    /// two of its characters.
    pub fn add(&mut self, rel: &str, content: &str) -> (more: bool)
        requires
            old(self).total < old(self).max_bytes,
            old(self).max_bytes + 15 <= usize::MAX,
            utf8_len(content@) <= usize::MAX,
            old(self).total + utf8_len(content@) > old(self).max_bytes ==> utf8_len(
                chars_within(content@, (old(self).max_bytes - old(self).total) as nat),
            ) == old(self).max_bytes - old(self).total,
        ensures
            final(self).max_bytes == old(self).max_bytes,
            ({
                let fits = old(self).total + utf8_len(content@) <= old(self).max_bytes;
                let kept = if fits {
                    content@
                } else {
                    truncated(content@, (old(self).max_bytes - old(self).total) as nat)
                };
                &&& final(self).sections@.map_values(|s: String| s@) == old(self).sections@.map_values(
                    |s: String| s@,
                ).push(section(rel@, kept))
                &&& final(self).total == old(self).total + utf8_len(kept)
            }),
            more == (final(self).total < final(self).max_bytes),
    {
        let v = chars_of(content);
        let budget = self.max_bytes - self.total;
        let len = content.len();
        assert(len == utf8_len(content@));
        let kept: Vec<char> = if len > budget {
            let mut cut = byte_prefix(&v, budget);
            push_str(&mut cut, "\n...(truncated)");
            proof {
                reveal_strlit("\n...(truncated)");
                lemma_utf8_len_concat(chars_within(content@, budget as nat), "\n...(truncated)"@);
                assert(utf8_len("\n...(truncated)"@) == 15) by {
                    lemma_ascii_len("\n...(truncated)"@);
                }
            }
            cut
        } else {
            v
        };
        let kept_len = if len > budget {
            budget + 15
        } else {
            len
        };
        assert(kept_len == utf8_len(kept@));
        let mut out: Vec<char> = Vec::new();
        push_str(&mut out, "### ");
        push_str(&mut out, rel);
        push_str(&mut out, "\n```\n");
        crate::text::push_all(&mut out, &kept);
        push_str(&mut out, "\n```");
        let ghost before = self.sections@;
        self.sections.push(string_from_chars(&out));
        assert(self.sections@.map_values(|s: String| s@) =~= before.map_values(|s: String| s@).push(
            out@,
        ));
        self.total = self.total + kept_len;
        self.total < self.max_bytes
    }

    /// The digest's text: its files separated by blank lines.
    pub fn text(&self) -> (res: String)
        ensures
            res@ == join(self.sections@.map_values(|s: String| s@), "\n\n"@),
    {
        let mut parts: Vec<Vec<char>> = Vec::new();
        let mut i: usize = 0;
        while i < self.sections.len()
            invariant
                i <= self.sections.len(),
                parts.len() == i,
                forall|k: int| 0 <= k < i ==> (#[trigger] parts@[k])@ == self.sections@[k]@,
            decreases self.sections.len() - i,
        {
            parts.push(chars_of(self.sections[i].as_str()));
            i += 1;
        }
        assert(parts@.map_values(|p: Vec<char>| p@) =~= self.sections@.map_values(|s: String| s@));
        string_from_chars(&join_exec(&parts, "\n\n"))
    }
}

proof fn lemma_ascii_len(s: Seq<char>)
    requires
        forall|i: int| 0 <= i < s.len() ==> (s[i] as u32) <= 0x7F,
    ensures
        utf8_len(s) == s.len(),
    decreases s.len(),
{
    if s.len() > 0 {
        lemma_ascii_len(s.drop_last());
        lemma_utf8_len_push(s.drop_last(), s.last());
        assert(s =~= s.drop_last().push(s.last()));
    }
}

/// Once the budget is spent no file is added, and the text taken from files
/// never exceeds the budget by more than the truncation mark.
pub proof fn digest_stays_within_budget(total: nat, max: nat, content: Seq<char>)
    requires
        total < max,
        total + utf8_len(content) > max ==> utf8_len(chars_within(content, (max - total) as nat))
            == max - total,
    ensures
        total + utf8_len(content) <= max || total + utf8_len(
            truncated(content, (max - total) as nat),
        ) <= max + 15,
{
    if total + utf8_len(content) > max {
        lemma_utf8_len_concat(chars_within(content, (max - total) as nat), "\n...(truncated)"@);
        reveal_strlit("\n...(truncated)");
        lemma_ascii_len("\n...(truncated)"@);
    }
}

// ---------------------------------------------------------------------------
// Test output
// ---------------------------------------------------------------------------

/// The text of a byte stream with invalid UTF-8 replaced by U+FFFD, as
/// `String::from_utf8_lossy` gives it.
pub uninterp spec fn utf8_lossy(bytes: Seq<u8>) -> Seq<char>;

/// `String::from_utf8_lossy`: the bytes read as UTF-8, each invalid sequence
/// replaced by U+FFFD; the result depends on the bytes alone.
#[verifier::external_body]
fn from_utf8_lossy(bytes: &[u8]) -> (res: String)
    ensures
        res@ == utf8_lossy(bytes@),
{
    String::from_utf8_lossy(bytes).to_string()
}

/// The last `n` characters of `s`.
pub open spec fn last_chars(s: Seq<char>, n: nat) -> Seq<char> {
    if s.len() <= n {
        s
    } else {
        s.skip(s.len() - n)
    }
}

/// The last 2000 characters of a test run's output and error streams.
pub fn tail_of_output(combined: &str) -> (res: String)
    ensures
        res@ == last_chars(combined@, 2000),
{
    let v = chars_of(combined);
    if v.len() <= 2000 {
        string_from_chars(&v)
    } else {
        let mut out: Vec<char> = Vec::new();
        crate::text::push_range(&mut out, &v, v.len() - 2000, v.len());
        assert(out@ =~= v@.skip(v@.len() - 2000));
        string_from_chars(&out)
    }
}

/// What is kept of a test run's output: its standard output then its
/// standard error, read as UTF-8, the last 2000 characters.
pub fn trimmed_test_output(stdout: &[u8], stderr: &[u8]) -> (res: String)
    ensures
        res@ == last_chars(utf8_lossy(stdout@) + utf8_lossy(stderr@), 2000),
{
    let mut all = chars_of(from_utf8_lossy(stdout).as_str());
    push_str(&mut all, from_utf8_lossy(stderr).as_str());
    tail_of_output(string_from_chars(&all).as_str())
}

} // verus!
