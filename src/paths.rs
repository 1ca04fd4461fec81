//! Path strings: separators, file names, parents, joining and re-rooting.
//! Paths use `/` as separator and are handled as sequences of characters.
use vstd::prelude::*;

verus! {

pub open spec fn is_sep(c: char) -> bool {
    c == '/'
}

/// Index of the last separator in `s`, or -1 when there is none.
pub open spec fn last_sep(s: Seq<char>) -> int
    decreases s.len(),
{
    if s.len() == 0 {
        -1
    } else if is_sep(s.last()) {
        s.len() - 1
    } else {
        last_sep(s.drop_last())
    }
}

/// What follows the last separator.
pub open spec fn file_name(s: Seq<char>) -> Seq<char> {
    s.subrange(last_sep(s) + 1, s.len() as int)
}

/// The directory that holds `s`: what precedes the last separator, or the
/// root itself when that separator is the first character.
pub open spec fn parent_dir(s: Seq<char>) -> Option<Seq<char>> {
    let k = last_sep(s);
    if k < 0 {
        None
    } else if k == 0 {
        Some(seq!['/'])
    } else {
        Some(s.subrange(0, k))
    }
}

pub open spec fn ends_with_sep(s: Seq<char>) -> bool {
    s.len() > 0 && is_sep(s.last())
}

/// `rel` placed under the directory `dir`.
pub open spec fn join_path(dir: Seq<char>, rel: Seq<char>) -> Seq<char> {
    if dir.len() == 0 || ends_with_sep(dir) {
        dir + rel
    } else {
        dir + seq!['/'] + rel
    }
}

/// The part of `path` below the directory `root`; empty when `path` is not
/// below `root` or is `root` itself.
pub open spec fn relative_to(root: Seq<char>, path: Seq<char>) -> Seq<char> {
    if path.len() >= root.len() && path.subrange(0, root.len() as int) == root {
        let rest = path.subrange(root.len() as int, path.len() as int);
        if root.len() == 0 || ends_with_sep(root) {
            rest
        } else if rest.len() > 0 && is_sep(rest[0]) {
            rest.drop_first()
        } else {
            Seq::empty()
        }
    } else {
        Seq::empty()
    }
}

proof fn lemma_last_sep_bounds(s: Seq<char>)
    ensures
        -1 <= last_sep(s) < s.len(),
        last_sep(s) >= 0 ==> is_sep(s[last_sep(s)]),
        forall|j: int| last_sep(s) < j < s.len() ==> !is_sep(#[trigger] s[j]),
    decreases s.len(),
{
    if s.len() > 0 && !is_sep(s.last()) {
        lemma_last_sep_bounds(s.drop_last());
        assert forall|j: int| last_sep(s) < j < s.len() implies !is_sep(#[trigger] s[j]) by {
            if j < s.len() - 1 {
                assert(s[j] == s.drop_last()[j]);
            }
        }
    }
}

/// Index of the last separator, scanning from the end.
fn find_last_sep(s: &str) -> (r: Option<usize>)
    ensures
        match r {
            Some(k) => k == last_sep(s@),
            None => last_sep(s@) == -1,
        },
{
    let n = s.unicode_len();
    let mut i: usize = n;
    proof {
        assert(s@.take(n as int) == s@);
    }
    while i > 0
        invariant
            i <= n == s@.len(),
            last_sep(s@) == last_sep(s@.take(i as int)),
        decreases i,
    {
        proof {
            assert(s@.take(i as int).drop_last() == s@.take(i - 1));
            assert(s@.take(i as int).last() == s@[i - 1]);
        }
        if s.get_char(i - 1) == '/' {
            return Some(i - 1);
        }
        i = i - 1;
    }
    None
}

/// The last component of `path`: what follows its last separator.
pub fn file_name_of(path: &str) -> (r: String)
    ensures
        r@ == file_name(path@),
{
    let n = path.unicode_len();
    proof {
        lemma_last_sep_bounds(path@);
    }
    match find_last_sep(path) {
        Some(k) => path.substring_char(k + 1, n).to_string(),
        None => path.to_string(),
    }
}

/// The directory holding `path`, when `path` has a separator.
pub fn parent_of(path: &str) -> (r: Option<String>)
    ensures
        match r {
            Some(p) => parent_dir(path@) == Some(p@),
            None => parent_dir(path@) is None,
        },
{
    proof {
        lemma_last_sep_bounds(path@);
        reveal_strlit("/");
    }
    match find_last_sep(path) {
        Some(k) => {
            if k == 0 {
                Some(String::from_str("/"))
            } else {
                Some(path.substring_char(0, k).to_string())
            }
        },
        None => None,
    }
}

fn ends_with_separator(s: &str) -> (r: bool)
    ensures
        r == ends_with_sep(s@),
{
    let n = s.unicode_len();
    n > 0 && s.get_char(n - 1) == '/'
}

/// `rel` placed under the directory `dir`.
pub fn join(dir: &str, rel: &str) -> (r: String)
    ensures
        r@ == join_path(dir@, rel@),
{
    let mut r = dir.to_string();
    if dir.unicode_len() > 0 && !ends_with_separator(dir) {
        r.append("/");
        proof {
            reveal_strlit("/");
        }
    }
    r.append(rel);
    r
}

/// Whether `s` begins with `prefix`.
pub fn starts_with(s: &str, prefix: &str) -> (r: bool)
    ensures
        r == (s@.len() >= prefix@.len() && s@.subrange(0, prefix@.len() as int) == prefix@),
{
    let n = s.unicode_len();
    let m = prefix.unicode_len();
    if n < m {
        return false;
    }
    let mut i: usize = 0;
    while i < m
        invariant
            i <= m <= n,
            n == s@.len(),
            m == prefix@.len(),
            forall|j: int| 0 <= j < i ==> s@[j] == prefix@[j],
        decreases m - i,
    {
        if s.get_char(i) != prefix.get_char(i) {
            proof {
                assert(s@.subrange(0, m as int)[i as int] != prefix@[i as int]);
            }
            return false;
        }
        i = i + 1;
    }
    proof {
        assert(s@.subrange(0, m as int) == prefix@);
    }
    true
}

/// The part of `path` below the directory `root`; empty when `path` is not
/// below `root` or is `root` itself.
pub fn relative_path(root: &str, path: &str) -> (r: String)
    ensures
        r@ == relative_to(root@, path@),
{
    if !starts_with(path, root) {
        return String::new();
    }
    let n = path.unicode_len();
    let m = root.unicode_len();
    let rest = path.substring_char(m, n);
    if m == 0 || ends_with_separator(root) {
        rest.to_string()
    } else if n > m && path.get_char(m) == '/' {
        proof {
            assert(rest@[0] == path@[m as int]);
            assert(rest@.drop_first() == path@.subrange(m + 1, n as int));
        }
        path.substring_char(m + 1, n).to_string()
    } else {
        String::new()
    }
}

/// Whether the two texts are equal.
pub fn same_text(a: &str, b: &str) -> (r: bool)
    ensures
        r == (a@ == b@),
{
    if a.unicode_len() != b.unicode_len() {
        return false;
    }
    proof {
        assert(a@ == a@.subrange(0, a@.len() as int));
    }
    starts_with(a, b)
}

} // verus!
