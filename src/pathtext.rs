//! Resolution of the path strings of a configuration: variable mentions,
//! special markers, separator normalisation and the trailing separator.
use crate::paths::{ends_with_sep, same_text};
use vstd::prelude::*;

verus! {

pub open spec fn is_name_start(c: char) -> bool {
    ('a' <= c && c <= 'z') || ('A' <= c && c <= 'Z') || c == '_'
}

pub open spec fn is_name_char(c: char) -> bool {
    is_name_start(c) || ('0' <= c && c <= '9')
}

/// Length of the longest prefix of `s` made of name characters.
pub open spec fn name_len(s: Seq<char>) -> nat
    decreases s.len(),
{
    if s.len() > 0 && is_name_char(s[0]) {
        1 + name_len(s.drop_first())
    } else {
        0
    }
}

/// The length of a variable mention `<sigil>{name}` at the start of `s`,
/// with the name's own length; `None` when `s` does not start with one.
pub open spec fn mention_at(s: Seq<char>, sigil: char) -> Option<(nat, nat)> {
    if s.len() >= 3 && s[0] == sigil && s[1] == '{' && is_name_start(s[2]) {
        let k = name_len(s.skip(2));
        if 2 + k < s.len() && s[2 + k as int] == '}' {
            Some(((k + 3) as nat, k))
        } else {
            None
        }
    } else {
        None
    }
}

/// The value of `name` among `vars` (the first entry that has it), or
/// empty when it is not defined.
pub open spec fn lookup(vars: Seq<(Seq<char>, Seq<char>)>, name: Seq<char>) -> Seq<char>
    decreases vars.len(),
{
    if vars.len() == 0 {
        Seq::empty()
    } else if vars[0].0 == name {
        vars[0].1
    } else {
        lookup(vars.drop_first(), name)
    }
}

/// `s` with every mention `<sigil>{name}` replaced by the variable's value
/// (empty when undefined), scanning once from left to right.
pub open spec fn expand(s: Seq<char>, sigil: char, vars: Seq<(Seq<char>, Seq<char>)>) -> Seq<char>
    decreases s.len(),
{
    if s.len() == 0 {
        Seq::empty()
    } else {
        match mention_at(s, sigil) {
            Some((n, k)) => lookup(vars, s.subrange(2, 2 + k as int)) + expand(s.skip(n as int), sigil, vars),
            None => seq![s[0]] + expand(s.skip(1), sigil, vars),
        }
    }
}

/// Whether `s` holds a mention `<sigil>{name}` anywhere.
pub open spec fn has_mention(s: Seq<char>, sigil: char) -> bool {
    exists|i: int| 0 <= i <= s.len() && (#[trigger] mention_at(s.skip(i), sigil)) is Some
}

/// `s` expanded again and again until no mention is left, within `fuel`
/// passes; `None` when mentions are still left after them.
pub open spec fn expand_repeatedly(
    s: Seq<char>,
    sigil: char,
    vars: Seq<(Seq<char>, Seq<char>)>,
    fuel: nat,
) -> Option<Seq<char>>
    decreases fuel,
{
    if !has_mention(s, sigil) {
        Some(s)
    } else if fuel == 0 {
        None
    } else {
        expand_repeatedly(expand(s, sigil, vars), sigil, vars, (fuel - 1) as nat)
    }
}

/// `s` with every mention expanded, values that mention other variables
/// included; an undefined variable expands to nothing. A chain of mentions
/// goes through each defined variable at most once and may end at one
/// undefined variable, so one pass more than there are variables is enough
/// unless the variables refer to one another in a cycle: then mentions are
/// still left, and the result is `None`.
pub open spec fn expand_all(s: Seq<char>, sigil: char, vars: Seq<(Seq<char>, Seq<char>)>) -> Option<Seq<char>> {
    expand_repeatedly(s, sigil, vars, vars.len() + 1)
}

/// `s` with a leading `~/` standing for the user's home directory and a
/// leading `@/` for the directory of the configuration file.
pub open spec fn with_markers(s: Seq<char>, home: Seq<char>, config_dir: Seq<char>) -> Seq<char> {
    if s.len() >= 2 && s[0] == '~' && s[1] == '/' {
        home + s.skip(1)
    } else if s.len() >= 2 && s[0] == '@' && s[1] == '/' {
        config_dir + s.skip(1)
    } else {
        s
    }
}

/// `s` with backslashes turned into slashes and runs of slashes collapsed.
pub open spec fn normalized(s: Seq<char>) -> Seq<char>
    decreases s.len(),
{
    if s.len() == 0 {
        Seq::empty()
    } else {
        let r = normalized(s.drop_last());
        let c = if s.last() == '\\' { '/' } else { s.last() };
        if c == '/' && r.len() > 0 && r.last() == '/' {
            r
        } else {
            r.push(c)
        }
    }
}

/// `s` ending with a separator.
pub open spec fn with_trailing_sep(s: Seq<char>) -> Seq<char> {
    if ends_with_sep(s) {
        s
    } else {
        s.push('/')
    }
}

pub open spec fn vars_view(vars: Seq<(String, String)>) -> Seq<(Seq<char>, Seq<char>)> {
    vars.map_values(|v: (String, String)| (v.0@, v.1@))
}

fn name_start_char(c: char) -> (r: bool)
    ensures
        r == is_name_start(c),
{
    ('a' <= c && c <= 'z') || ('A' <= c && c <= 'Z') || c == '_'
}

fn name_char(c: char) -> (r: bool)
    ensures
        r == is_name_char(c),
{
    name_start_char(c) || ('0' <= c && c <= '9')
}

/// Length of the run of name characters of `s` starting at `from`.
fn name_length(s: &str, from: usize) -> (r: usize)
    requires
        from <= s@.len(),
    ensures
        r == name_len(s@.skip(from as int)),
        from + r <= s@.len(),
{
    let n = s.unicode_len();
    let mut j: usize = from;
    while j < n && name_char(s.get_char(j))
        invariant
            from <= j <= n == s@.len(),
            name_len(s@.skip(from as int)) == (j - from) + name_len(s@.skip(j as int)),
        decreases n - j,
    {
        proof {
            assert(s@.skip(j as int)[0] == s@[j as int]);
            assert(s@.skip(j as int).drop_first() == s@.skip(j + 1));
        }
        j = j + 1;
    }
    proof {
        if j < n {
            assert(s@.skip(j as int)[0] == s@[j as int]);
        }
    }
    j - from
}

/// The mention `<sigil>{name}` starting at `i`, as its length and the
/// length of its name.
fn mention_length(s: &str, i: usize, sigil: char) -> (r: Option<(usize, usize)>)
    requires
        i <= s@.len(),
    ensures
        match r {
            Some((n, k)) => mention_at(s@.skip(i as int), sigil) == Some((n as nat, k as nat)) && i + n <= s@.len(),
            None => mention_at(s@.skip(i as int), sigil) is None,
        },
{
    let n = s.unicode_len();
    let ghost t = s@.skip(i as int);
    if n - i >= 3 && s.get_char(i) == sigil && s.get_char(i + 1) == '{' && name_start_char(s.get_char(i + 2)) {
        proof {
            assert(t[0] == s@[i as int] && t[1] == s@[i + 1] && t[2] == s@[i + 2]);
            assert(t.skip(2) == s@.skip(i + 2));
        }
        let k = name_length(s, i + 2);
        if i + 2 + k < n && s.get_char(i + 2 + k) == '}' {
            proof {
                assert(t[2 + k] == s@[i + 2 + k]);
            }
            Some((k + 3, k))
        } else {
            proof {
                if 2 + k < t.len() {
                    assert(t[2 + k] == s@[i + 2 + k]);
                }
            }
            None
        }
    } else {
        proof {
            if t.len() >= 3 {
                assert(t[0] == s@[i as int] && t[1] == s@[i + 1] && t[2] == s@[i + 2]);
            }
        }
        None
    }
}

/// The value of `name` among `vars`, empty when undefined.
pub fn lookup_variable(vars: &Vec<(String, String)>, name: &str) -> (r: String)
    ensures
        r@ == lookup(vars_view(vars@), name@),
{
    let ghost vv = vars_view(vars@);
    let mut i: usize = 0;
    proof {
        assert(vv.skip(0) == vv);
    }
    while i < vars.len()
        invariant
            i <= vars.len(),
            vv == vars_view(vars@),
            lookup(vv, name@) == lookup(vv.skip(i as int), name@),
        decreases vars.len() - i,
    {
        proof {
            assert(vv.skip(i as int)[0] == vv[i as int]);
            assert(vv.skip(i as int).drop_first() == vv.skip(i + 1));
            assert(vv[i as int] == (vars@[i as int].0@, vars@[i as int].1@));
        }
        if same_text(vars[i].0.as_str(), name) {
            return vars[i].1.clone();
        }
        i = i + 1;
    }
    String::new()
}

/// Replaces each mention `<sigil>{name}` of `s` by the variable's value
/// (empty when undefined), in one pass from left to right.
pub fn expand_variables(s: &str, sigil: char, vars: &Vec<(String, String)>) -> (r: String)
    ensures
        r@ == expand(s@, sigil, vars_view(vars@)),
{
    let ghost vv = vars_view(vars@);
    let n = s.unicode_len();
    let mut out = String::new();
    let mut i: usize = 0;
    proof {
        assert(s@.skip(0) == s@);
    }
    while i < n
        invariant
            i <= n == s@.len(),
            vv == vars_view(vars@),
            out@ + expand(s@.skip(i as int), sigil, vv) == expand(s@, sigil, vv),
        decreases n - i,
    {
        let t = Ghost(s@.skip(i as int));
        match mention_length(s, i, sigil) {
            Some((len, k)) => {
                let name = s.substring_char(i + 2, i + 2 + k);
                let value = lookup_variable(vars, name);
                proof {
                    assert(name@ == t@.subrange(2, 2 + k as int));
                    assert(t@.skip(len as int) == s@.skip(i + len));
                }
                out.append(value.as_str());
                proof {
                    assert(out@ + expand(s@.skip(i + len), sigil, vv) == expand(s@, sigil, vv));
                }
                i = i + len;
            },
            None => {
                let c = s.substring_char(i, i + 1);
                proof {
                    assert(c@ == seq![t@[0]]);
                    assert(t@.skip(1) == s@.skip(i + 1));
                }
                out.append(c);
                proof {
                    assert(out@ + expand(s@.skip(i + 1), sigil, vv) == expand(s@, sigil, vv));
                }
                i = i + 1;
            },
        }
    }
    proof {
        assert(out@ + expand(s@.skip(n as int), sigil, vv) == out@);
    }
    out
}

/// Expands a leading `~/` to the user's home directory and a leading `@/`
/// to the directory of the configuration file (keeping the separator).
pub fn replace_markers(s: &str, home: &str, config_dir: &str) -> (r: String)
    ensures
        r@ == with_markers(s@, home@, config_dir@),
{
    let n = s.unicode_len();
    if n >= 2 && s.get_char(1) == '/' {
        let first = s.get_char(0);
        if first == '~' || first == '@' {
            let mut r = if first == '~' {
                home.to_string()
            } else {
                config_dir.to_string()
            };
            r.append(s.substring_char(1, n));
            return r;
        }
    }
    s.to_string()
}

/// Turns backslashes into slashes and collapses runs of slashes.
pub fn normalize_separators(s: &str) -> (r: String)
    ensures
        r@ == normalized(s@),
{
    let n = s.unicode_len();
    let mut out = String::new();
    let mut last_was_sep = false;
    let mut i: usize = 0;
    while i < n
        invariant
            i <= n == s@.len(),
            out@ == normalized(s@.take(i as int)),
            last_was_sep == (out@.len() > 0 && out@.last() == '/'),
        decreases n - i,
    {
        proof {
            assert(s@.take(i + 1).drop_last() == s@.take(i as int));
            assert(s@.take(i + 1).last() == s@[i as int]);
            reveal_strlit("/");
        }
        let c = s.get_char(i);
        if c == '/' || c == '\\' {
            if !last_was_sep {
                out.append("/");
                last_was_sep = true;
            }
        } else {
            out.append(s.substring_char(i, i + 1));
            last_was_sep = false;
        }
        i = i + 1;
    }
    proof {
        assert(s@.take(n as int) == s@);
    }
    out
}

/// Adds a trailing separator when `s` has none.
pub fn add_trailing_separator(s: &str) -> (r: String)
    ensures
        r@ == with_trailing_sep(s@),
{
    let mut r = s.to_string();
    let n = s.unicode_len();
    if n == 0 || s.get_char(n - 1) != '/' {
        r.append("/");
        proof {
            reveal_strlit("/");
        }
    }
    r
}

/// Whether `s` holds a mention `<sigil>{name}`.
pub fn contains_mention(s: &str, sigil: char) -> (r: bool)
    ensures
        r == has_mention(s@, sigil),
{
    let n = s.unicode_len();
    let mut i: usize = 0;
    while i < n
        invariant
            i <= n == s@.len(),
            forall|k: int| 0 <= k < i ==> (#[trigger] mention_at(s@.skip(k), sigil)) is None,
        decreases n - i,
    {
        if mention_length(s, i, sigil).is_some() {
            return true;
        }
        i = i + 1;
    }
    proof {
        assert(s@.skip(n as int).len() == 0);
        assert forall|k: int| 0 <= k <= s@.len() implies (#[trigger] mention_at(s@.skip(k), sigil)) is None by {
            if k == n {
                assert(s@.skip(k).len() == 0);
            }
        }
    }
    false
}

/// Expands mentions pass after pass until none is left, at most one pass
/// more than there are variables; `None` when mentions are left after that
/// (the variables refer to one another in a cycle).
pub fn expand_all_variables(s: &str, sigil: char, vars: &Vec<(String, String)>) -> (r: Option<String>)
    ensures
        match r {
            Some(t) => expand_all(s@, sigil, vars_view(vars@)) == Some(t@),
            None => expand_all(s@, sigil, vars_view(vars@)) is None,
        },
{
    let ghost vv = vars_view(vars@);
    if !contains_mention(s, sigil) {
        return Some(s.to_string());
    }
    // the first pass; `fuel` counts the ones still allowed after it
    let mut cur = expand_variables(s, sigil, vars);
    let mut fuel: usize = vars.len();
    loop
        invariant
            vv == vars_view(vars@),
            vv.len() == vars@.len(),
            expand_all(s@, sigil, vv) == expand_repeatedly(cur@, sigil, vv, fuel as nat),
        decreases fuel,
    {
        if !contains_mention(cur.as_str(), sigil) {
            return Some(cur);
        }
        if fuel == 0 {
            return None;
        }
        cur = expand_variables(cur.as_str(), sigil, vars);
        fuel = fuel - 1;
    }
}

/// A source or destination directory as written in a configuration, fully
/// resolved: local variables (`%{name}`), then environment variables
/// (`${name}`), each until none is left, then the leading markers, then the
/// separators. `None` when variables refer to one another in a cycle.
pub open spec fn resolved_dir(
    raw: Seq<char>,
    vars: Seq<(Seq<char>, Seq<char>)>,
    env: Seq<(Seq<char>, Seq<char>)>,
    home: Seq<char>,
    config_dir: Seq<char>,
) -> Option<Seq<char>> {
    match expand_all(raw, '%', vars) {
        None => None,
        Some(local) => match expand_all(local, '$', env) {
            None => None,
            Some(global) => Some(with_trailing_sep(normalized(with_markers(global, home, config_dir)))),
        },
    }
}

pub fn resolve_dir(
    raw: &str,
    vars: &Vec<(String, String)>,
    env: &Vec<(String, String)>,
    home: &str,
    config_dir: &str,
) -> (r: Option<String>)
    ensures
        match r {
            Some(d) => resolved_dir(raw@, vars_view(vars@), vars_view(env@), home@, config_dir@) == Some(d@),
            None => resolved_dir(raw@, vars_view(vars@), vars_view(env@), home@, config_dir@) is None,
        },
{
    let local = match expand_all_variables(raw, '%', vars) {
        Some(t) => t,
        None => {
            return None;
        },
    };
    let global = match expand_all_variables(local.as_str(), '$', env) {
        Some(t) => t,
        None => {
            return None;
        },
    };
    let marked = replace_markers(global.as_str(), home, config_dir);
    let normal = normalize_separators(marked.as_str());
    Some(add_trailing_separator(normal.as_str()))
}

} // verus!
