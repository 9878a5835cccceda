//! Expansion of `~`, `$VAR` and `${VAR}` in configured module paths.

use vstd::prelude::*;

use crate::sdk::host::{index_of, lemma_index_of, lemma_index_of_bounds};
use crate::text::{has_prefix, owned, starts_with, str_eq};

verus! {

/// `char::is_alphanumeric`: the Unicode `Alphabetic` or `Numeric`
/// property.
pub uninterp spec fn alphanumeric(c: char) -> bool;

/// Calls `char::is_alphanumeric`; the result is `alphanumeric(c)`.
#[verifier::external_body]
fn char_is_alphanumeric(c: char) -> (r: bool)
    ensures
        r == alphanumeric(c),
{
    c.is_alphanumeric()
}

/// A character that may continue an unbraced variable name.
pub open spec fn is_name_char(c: char) -> bool {
    alphanumeric(c) || c == '_'
}

/// The number of name characters at the start of `s`.
pub open spec fn name_len(s: Seq<char>) -> int
    decreases s.len(),
{
    if s.len() > 0 && is_name_char(s[0]) {
        1 + name_len(s.drop_first())
    } else {
        0
    }
}

/// A name run never exceeds the text.
pub proof fn lemma_name_len_bounds(s: Seq<char>)
    ensures
        0 <= name_len(s) <= s.len(),
    decreases s.len(),
{
    if s.len() > 0 && is_name_char(s[0]) {
        lemma_name_len_bounds(s.drop_first());
    }
}

/// A run of `k` name characters that the text does not continue has length `k`.
pub proof fn lemma_name_len(s: Seq<char>, k: int)
    requires
        0 <= k <= s.len(),
        forall|t: int| 0 <= t < k ==> is_name_char(#[trigger] s[t]),
        k < s.len() ==> !is_name_char(s[k]),
    ensures
        name_len(s) == k,
    decreases s.len(),
{
    if s.len() > 0 && is_name_char(s[0]) {
        let d = s.drop_first();
        assert forall|t: int| 0 <= t < k - 1 implies is_name_char(#[trigger] d[t]) by {
            assert(d[t] == s[t + 1]);
        }
        if k - 1 < d.len() {
            assert(d[k - 1] == s[k]);
        }
        lemma_name_len(d, k - 1);
    } else {
        if k > 0 {
            assert(is_name_char(s[0]));
        }
    }
}

/// The value of the first entry of `env` named `name`, as `std::env::var`
/// reads it from a snapshot of the environment.
pub open spec fn env_lookup(env: Seq<(String, String)>, name: Seq<char>) -> Option<Seq<char>>
    decreases env.len(),
{
    if env.len() == 0 {
        None
    } else if env[0].0@ == name {
        Some(env[0].1@)
    } else {
        env_lookup(env.drop_first(), name)
    }
}

proof fn lemma_env_lookup_skip(env: Seq<(String, String)>, name: Seq<char>, i: int)
    requires
        0 <= i <= env.len(),
        forall|k: int| 0 <= k < i ==> (#[trigger] env[k]).0@ != name,
    ensures
        env_lookup(env, name) == env_lookup(env.subrange(i, env.len() as int), name),
    decreases i,
{
    if i > 0 {
        let d = env.drop_first();
        assert forall|k: int| 0 <= k < i - 1 implies (#[trigger] d[k]).0@ != name by {
            assert(d[k] == env[k + 1]);
        }
        lemma_env_lookup_skip(d, name, i - 1);
        assert(d.subrange(i - 1, d.len() as int) =~= env.subrange(i, env.len() as int));
    } else {
        assert(env.subrange(0, env.len() as int) =~= env);
    }
}

fn lookup(env: &Vec<(String, String)>, name: &str) -> (r: Option<usize>)
    ensures
        match r {
            Some(i) => i < env@.len() && env_lookup(env@, name@) == Some(env@[i as int].1@),
            None => env_lookup(env@, name@) is None,
        },
{
    let n = env.len();
    let mut i: usize = 0;
    while i < n
        invariant
            n == env@.len(),
            i <= n,
            forall|k: int| 0 <= k < i ==> (#[trigger] env@[k]).0@ != name@,
        decreases n - i,
    {
        if str_eq(env[i].0.as_str(), name) {
            proof {
                lemma_env_lookup_skip(env@, name@, i as int);
                assert(env@.subrange(i as int, n as int)[0] == env@[i as int]);
            }
            return Some(i);
        }
        i = i + 1;
    }
    proof {
        lemma_env_lookup_skip(env@, name@, n as int);
    }
    None
}

/// What stands in for a variable: its value, or, when it is not set, the
/// reference itself (`${name}` or `$name`).
pub open spec fn substitution(name: Seq<char>, env: Seq<(String, String)>, braced: bool) -> Seq<char> {
    match env_lookup(env, name) {
        Some(v) => v,
        None => if braced {
            "${"@ + name + "}"@
        } else {
            "$"@ + name
        },
    }
}

/// `s` with `$NAME` (a run of alphanumeric or `_` characters) and `${NAME}`
/// (up to the next `}`, or to the end) replaced by the variable's value;
/// the character that ends an unbraced name is kept.
pub open spec fn expand_vars(s: Seq<char>, env: Seq<(String, String)>) -> Seq<char>
    decreases s.len(),
{
    if s.len() == 0 {
        Seq::empty()
    } else if s[0] != '$' {
        seq![s[0]] + expand_vars(s.drop_first(), env)
    } else {
        let rest = s.drop_first();
        if rest.len() > 0 && rest[0] == '{' {
            let body = rest.drop_first();
            let k = index_of(body, '}');
            proof {
                lemma_index_of_bounds(body, '}');
            }
            let after = if k < body.len() {
                body.subrange(k + 1, body.len() as int)
            } else {
                Seq::empty()
            };
            substitution(body.subrange(0, k), env, true) + expand_vars(after, env)
        } else {
            let k = name_len(rest);
            proof {
                lemma_name_len_bounds(rest);
            }
            substitution(rest.subrange(0, k), env, false) + expand_vars(
                rest.subrange(k, rest.len() as int),
                env,
            )
        }
    }
}

/// `~/rest` becomes `home/rest` (an unset home counts as empty); a lone
/// `~` becomes the home directory when it is set; anything else is kept.
pub open spec fn tilde_expanded(raw: Seq<char>, home: Option<Seq<char>>) -> Seq<char> {
    if has_prefix(raw, "~/"@) {
        let h = match home {
            Some(h) => h,
            None => Seq::empty(),
        };
        h + "/"@ + raw.subrange(2, raw.len() as int)
    } else if raw == "~"@ {
        match home {
            Some(h) => h,
            None => raw,
        }
    } else {
        raw
    }
}

/// The expanded path for `raw` in environment `env`.
pub open spec fn expanded_path(raw: Seq<char>, env: Seq<(String, String)>) -> Seq<char> {
    expand_vars(tilde_expanded(raw, env_lookup(env, "HOME"@)), env)
}

fn expand_tilde(raw: &str, env: &Vec<(String, String)>) -> (r: String)
    ensures
        r@ == tilde_expanded(raw@, env_lookup(env@, "HOME"@)),
{
    let home = lookup(env, "HOME");
    if starts_with(raw, "~/") {
        let mut r = match home {
            Some(i) => env[i].1.clone(),
            None => String::new(),
        };
        r.append("/");
        proof {
            reveal_strlit("~/");
        }
        r.append(raw.substring_char(2, raw.unicode_len()));
        r
    } else if str_eq(raw, "~") {
        match home {
            Some(i) => env[i].1.clone(),
            None => owned(raw),
        }
    } else {
        owned(raw)
    }
}

fn push_substitution(r: &mut String, name: &str, env: &Vec<(String, String)>, braced: bool)
    ensures
        final(r)@ == old(r)@ + substitution(name@, env@, braced),
{
    match lookup(env, name) {
        Some(i) => r.append(env[i].1.as_str()),
        None => {
            if braced {
                r.append("${");
                r.append(name);
                r.append("}");
            } else {
                r.append("$");
                r.append(name);
            }
        },
    }
}

/// Expands `~` to the home directory and `$VAR` / `${VAR}` to the values
/// in `env`, a snapshot of the environment. Unknown variables are left as
/// they are written.
pub fn expand_path(raw: &str, env: &Vec<(String, String)>) -> (r: String)
    ensures
        r@ == expanded_path(raw@, env@),
{
    let t = expand_tilde(raw, env);
    let s = t.as_str();
    let n = s.unicode_len();
    let mut r = String::new();
    let mut i: usize = 0;
    assert(s@.subrange(0, n as int) =~= s@);
    while i < n
        invariant
            n == s@.len(),
            i <= n,
            r@ + expand_vars(s@.subrange(i as int, n as int), env@) == expand_vars(s@, env@),
        decreases n - i,
    {
        let ghost u = s@.subrange(i as int, n as int);
        let c = s.get_char(i);
        assert(u[0] == c);
        assert(u.drop_first() =~= s@.subrange(i + 1, n as int));
        if c != '$' {
            r.append(s.substring_char(i, i + 1));
            assert(s@.subrange(i as int, i + 1) =~= seq![c]);
            i = i + 1;
        } else if i + 1 < n && s.get_char(i + 1) == '{' {
            let ghost body = s@.subrange(i + 2, n as int);
            assert(u.drop_first().drop_first() =~= body);
            let mut j: usize = i + 2;
            while j < n && s.get_char(j) != '}'
                invariant
                    n == s@.len(),
                    i + 2 <= j <= n,
                    forall|t: int| i + 2 <= t < j ==> s@[t] != '}',
                decreases n - j,
            {
                j = j + 1;
            }
            proof {
                assert forall|t: int| 0 <= t < j - (i + 2) implies body[t] != '}' by {
                    assert(body[t] == s@[t + i + 2]);
                }
                if j < n {
                    assert(body[j - (i + 2)] == s@[j as int]);
                }
                lemma_index_of(body, '}', j - (i + 2));
                assert(body.subrange(0, j - (i + 2)) =~= s@.subrange(i + 2, j as int));
            }
            let name = s.substring_char(i + 2, j);
            push_substitution(&mut r, name, env, true);
            if j < n {
                assert(body.subrange(j - (i + 2) + 1, body.len() as int) =~= s@.subrange(
                    j + 1,
                    n as int,
                ));
                i = j + 1;
            } else {
                assert(s@.subrange(n as int, n as int) =~= Seq::<char>::empty());
                i = n;
            }
        } else {
            let ghost rest = s@.subrange(i + 1, n as int);
            let mut j: usize = i + 1;
            while j < n && (char_is_alphanumeric(s.get_char(j)) || s.get_char(j) == '_')
                invariant
                    n == s@.len(),
                    i + 1 <= j <= n,
                    forall|t: int| i + 1 <= t < j ==> is_name_char(#[trigger] s@[t]),
                decreases n - j,
            {
                j = j + 1;
            }
            proof {
                assert forall|t: int| 0 <= t < j - (i + 1) implies is_name_char(#[trigger] rest[t]) by {
                    assert(rest[t] == s@[t + i + 1]);
                }
                if j < n {
                    assert(rest[j - (i + 1)] == s@[j as int]);
                }
                lemma_name_len(rest, j - (i + 1));
                assert(rest.subrange(0, j - (i + 1)) =~= s@.subrange(i + 1, j as int));
                assert(rest.subrange(j - (i + 1), rest.len() as int) =~= s@.subrange(
                    j as int,
                    n as int,
                ));
            }
            let name = s.substring_char(i + 1, j);
            push_substitution(&mut r, name, env, false);
            i = j;
        }
    }
    assert(s@.subrange(n as int, n as int) =~= Seq::<char>::empty());
    r
}

} // verus!
