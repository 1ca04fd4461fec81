//! The file enumerator: which entries of a directory walk are candidates.
//!
//! The walk itself (reading directories, following links, the depth limit)
//! is done by the caller; this module decides, for each entry it produced,
//! whether that entry is a candidate file of the job.
use crate::matcher::JobMatchers;
use crate::paths::{file_name, file_name_of, parent_dir, parent_of};
use vstd::prelude::*;

verus! {

/// One entry produced by a directory walk.
#[derive(Debug)]
pub struct WalkEntry {
    /// The entry's path: the walk's root followed by the entry's own components.
    pub path: String,
    pub is_dir: bool,
    pub is_symlink: bool,
}

/// How deep a walk goes: without limit when recursive, else only the
/// root's immediate children.
pub open spec fn depth_limit(recursive: bool) -> usize {
    if recursive {
        usize::MAX
    } else {
        1
    }
}

pub fn walk_depth(recursive: bool) -> (r: usize)
    ensures
        r == depth_limit(recursive),
{
    if recursive {
        usize::MAX
    } else {
        1
    }
}

/// The directory of an entry as seen from the walk's root: the part of
/// `parent` from the root's own trailing separator on, closed by a
/// separator (`/` for the root itself, `/sub/` below it).
pub open spec fn dir_below_root(root: Seq<char>, parent: Seq<char>) -> Seq<char> {
    let k = if root.len() == 0 { 0 } else { root.len() - 1 };
    let start = if k <= parent.len() { k } else { parent.len() as int };
    parent.subrange(start, parent.len() as int) + seq!['/']
}

/// Whether a walked entry is a candidate file: not a directory, not a link
/// unless links are followed, not inside an excluded directory, its name
/// selected and not excluded.
pub open spec fn is_candidate(
    root: Seq<char>,
    path: Seq<char>,
    is_dir: bool,
    is_symlink: bool,
    m: JobMatchers,
    follow_symlinks: bool,
) -> bool {
    &&& !is_dir
    &&& follow_symlinks || !is_symlink
    &&& parent_dir(path) matches Some(p) && !m.exclude_dir.accepts(dir_below_root(root, p))
    &&& m.select.accepts(file_name(path))
    &&& !m.exclude.accepts(file_name(path))
}

/// The candidate paths among `entries`, in walk order.
pub open spec fn candidates(
    root: Seq<char>,
    entries: Seq<WalkEntry>,
    m: JobMatchers,
    follow_symlinks: bool,
) -> Seq<Seq<char>>
    decreases entries.len(),
{
    if entries.len() == 0 {
        Seq::empty()
    } else {
        let e = entries.last();
        let rest = candidates(root, entries.drop_last(), m, follow_symlinks);
        if is_candidate(root, e.path@, e.is_dir, e.is_symlink, m, follow_symlinks) {
            rest.push(e.path@)
        } else {
            rest
        }
    }
}

fn relative_dir(root: &str, parent: &str) -> (r: String)
    ensures
        r@ == dir_below_root(root@, parent@),
{
    let m = root.unicode_len();
    let n = parent.unicode_len();
    let k = if m == 0 { 0 } else { m - 1 };
    let start = if k <= n { k } else { n };
    let mut r = parent.substring_char(start, n).to_string();
    r.append("/");
    proof {
        reveal_strlit("/");
    }
    r
}

/// Whether one walked entry is a candidate file.
pub fn entry_is_candidate(
    root: &str,
    entry: &WalkEntry,
    matchers: &JobMatchers,
    follow_symlinks: bool,
) -> (r: bool)
    requires
        matchers.wf(),
    ensures
        r == is_candidate(root@, entry.path@, entry.is_dir, entry.is_symlink, *matchers, follow_symlinks),
{
    if entry.is_dir || (entry.is_symlink && !follow_symlinks) {
        return false;
    }
    match parent_of(entry.path.as_str()) {
        None => false,
        Some(parent) => {
            let dir = relative_dir(root, parent.as_str());
            if matchers.exclude_dir.is_match(dir.as_str()) {
                return false;
            }
            let name = file_name_of(entry.path.as_str());
            matchers.select.is_match(name.as_str()) && !matchers.exclude.is_match(name.as_str())
        },
    }
}

/// The candidate files among the entries of a walk rooted at `root`, in the
/// order the walk produced them.
pub fn select_candidates(
    root: &str,
    entries: &Vec<WalkEntry>,
    matchers: &JobMatchers,
    follow_symlinks: bool,
) -> (r: Vec<String>)
    requires
        matchers.wf(),
    ensures
        r@.map_values(|p: String| p@) == candidates(root@, entries@, *matchers, follow_symlinks),
{
    let mut r: Vec<String> = Vec::new();
    let mut i: usize = 0;
    while i < entries.len()
        invariant
            i <= entries.len(),
            matchers.wf(),
            r@.map_values(|p: String| p@) == candidates(
                root@,
                entries@.take(i as int),
                *matchers,
                follow_symlinks,
            ),
        decreases entries.len() - i,
    {
        let e = &entries[i];
        proof {
            assert(entries@.take(i + 1).drop_last() == entries@.take(i as int));
            assert(entries@.take(i + 1).last() == entries@[i as int]);
        }
        if entry_is_candidate(root, e, matchers, follow_symlinks) {
            r.push(e.path.clone());
            proof {
                assert(r@.map_values(|p: String| p@) == candidates(
                    root@,
                    entries@.take(i as int),
                    *matchers,
                    follow_symlinks,
                ).push(e.path@));
            }
        }
        i = i + 1;
    }
    proof {
        assert(entries@.take(entries.len() as int) == entries@);
    }
    r
}

} // verus!
