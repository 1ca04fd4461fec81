//! Resolution of a parsed configuration document into the global settings
//! and the list of fully resolved jobs.
//!
//! The document arrives as plain values (`ConfigValue`); reading and
//! parsing the file, the environment and the home directory is left to the
//! caller.
use crate::job::JobSpec;
use crate::matcher::{combine_regexp_patterns, combined, Matcher, pattern_accepts};
use crate::paths::same_text;
use crate::pathtext::{expand_all, resolve_dir, resolved_dir, vars_view};
use crate::run::{is_active, names_of};
use vstd::prelude::*;

verus! {

/// A value of the configuration document.
#[derive(Debug)]
pub enum ConfigValue {
    Text(String),
    Flag(bool),
    List(Vec<ConfigValue>),
    Table(Vec<(String, ConfigValue)>),
    /// Any other kind of value (a number, a date).
    Other,
}

/// The behaviour flags shared by the global settings and each job.
#[derive(Clone, Copy, Debug, PartialEq, Eq, Structural)]
pub struct Flags {
    pub recursive: bool,
    pub case_sensitive: bool,
    pub follow_symlinks: bool,
    pub overwrite: bool,
    pub skip_newer: bool,
    pub check_content: bool,
    pub remove_others_matching: bool,
    pub create_directories: bool,
    pub keep_structure: bool,
    pub trash_on_delete: bool,
    pub trash_on_overwrite: bool,
    pub halt_on_errors: bool,
}

/// The position of the flag named `key` among `Flags`' fields.
pub open spec fn flag_index(key: Seq<char>) -> Option<int> {
    if key == "recursive"@ {
        Some(0)
    } else if key == "case_sensitive"@ {
        Some(1)
    } else if key == "follow_symlinks"@ {
        Some(2)
    } else if key == "overwrite"@ {
        Some(3)
    } else if key == "skip_newer"@ {
        Some(4)
    } else if key == "check_content"@ {
        Some(5)
    } else if key == "remove_others_matching"@ {
        Some(6)
    } else if key == "create_directories"@ {
        Some(7)
    } else if key == "keep_structure"@ {
        Some(8)
    } else if key == "trash_on_delete"@ {
        Some(9)
    } else if key == "trash_on_overwrite"@ {
        Some(10)
    } else if key == "halt_on_errors"@ {
        Some(11)
    } else {
        None
    }
}

/// Whether `g` is `f` with the flag at position `i` set to `v`.
pub open spec fn flag_set_at(f: Flags, i: int, v: bool, g: Flags) -> bool {
    &&& g.recursive == if i == 0 { v } else { f.recursive }
    &&& g.case_sensitive == if i == 1 { v } else { f.case_sensitive }
    &&& g.follow_symlinks == if i == 2 { v } else { f.follow_symlinks }
    &&& g.overwrite == if i == 3 { v } else { f.overwrite }
    &&& g.skip_newer == if i == 4 { v } else { f.skip_newer }
    &&& g.check_content == if i == 5 { v } else { f.check_content }
    &&& g.remove_others_matching == if i == 6 { v } else { f.remove_others_matching }
    &&& g.create_directories == if i == 7 { v } else { f.create_directories }
    &&& g.keep_structure == if i == 8 { v } else { f.keep_structure }
    &&& g.trash_on_delete == if i == 9 { v } else { f.trash_on_delete }
    &&& g.trash_on_overwrite == if i == 10 { v } else { f.trash_on_overwrite }
    &&& g.halt_on_errors == if i == 11 { v } else { f.halt_on_errors }
}

/// The flag at position `i`.
pub open spec fn flag_at(f: Flags, i: int) -> bool {
    if i == 0 {
        f.recursive
    } else if i == 1 {
        f.case_sensitive
    } else if i == 2 {
        f.follow_symlinks
    } else if i == 3 {
        f.overwrite
    } else if i == 4 {
        f.skip_newer
    } else if i == 5 {
        f.check_content
    } else if i == 6 {
        f.remove_others_matching
    } else if i == 7 {
        f.create_directories
    } else if i == 8 {
        f.keep_structure
    } else if i == 9 {
        f.trash_on_delete
    } else if i == 10 {
        f.trash_on_overwrite
    } else {
        f.halt_on_errors
    }
}

fn flag_index_of(key: &str) -> (r: Option<usize>)
    ensures
        match r {
            Some(i) => flag_index(key@) == Some(i as int),
            None => flag_index(key@) is None,
        },
{
    if same_text(key, "recursive") {
        Some(0)
    } else if same_text(key, "case_sensitive") {
        Some(1)
    } else if same_text(key, "follow_symlinks") {
        Some(2)
    } else if same_text(key, "overwrite") {
        Some(3)
    } else if same_text(key, "skip_newer") {
        Some(4)
    } else if same_text(key, "check_content") {
        Some(5)
    } else if same_text(key, "remove_others_matching") {
        Some(6)
    } else if same_text(key, "create_directories") {
        Some(7)
    } else if same_text(key, "keep_structure") {
        Some(8)
    } else if same_text(key, "trash_on_delete") {
        Some(9)
    } else if same_text(key, "trash_on_overwrite") {
        Some(10)
    } else if same_text(key, "halt_on_errors") {
        Some(11)
    } else {
        None
    }
}

/// The flags that apply where the configuration sets none.
pub open spec fn default_flags() -> Flags {
    Flags {
        recursive: false,
        case_sensitive: true,
        follow_symlinks: true,
        overwrite: true,
        skip_newer: true,
        check_content: false,
        remove_others_matching: false,
        create_directories: true,
        keep_structure: true,
        trash_on_delete: true,
        trash_on_overwrite: false,
        halt_on_errors: false,
    }
}

impl Flags {
    /// The flags that apply where the configuration sets none.
    pub fn defaults() -> (f: Flags)
        ensures
            f == default_flags(),
    {
        Flags {
            recursive: false,
            case_sensitive: true,
            follow_symlinks: true,
            overwrite: true,
            skip_newer: true,
            check_content: false,
            remove_others_matching: false,
            create_directories: true,
            keep_structure: true,
            trash_on_delete: true,
            trash_on_overwrite: false,
            halt_on_errors: false,
        }
    }

    /// Sets the flag at position `i`.
    fn set_at(&mut self, i: usize, value: bool)
        ensures
            flag_set_at(*old(self), i as int, value, *final(self)),
    {
        match i {
            0 => self.recursive = value,
            1 => self.case_sensitive = value,
            2 => self.follow_symlinks = value,
            3 => self.overwrite = value,
            4 => self.skip_newer = value,
            5 => self.check_content = value,
            6 => self.remove_others_matching = value,
            7 => self.create_directories = value,
            8 => self.keep_structure = value,
            9 => self.trash_on_delete = value,
            10 => self.trash_on_overwrite = value,
            11 => self.halt_on_errors = value,
            _ => {},
        }
    }

    /// Sets the flag named `key`; returns whether `key` names a flag (if it
    /// does not, nothing changes).
    pub fn set(&mut self, key: &str, value: bool) -> (r: bool)
        ensures
            r == flag_index(key@) is Some,
            match flag_index(key@) {
                Some(i) => flag_set_at(*old(self), i, value, *final(self)),
                None => *final(self) == *old(self),
            },
    {
        match flag_index_of(key) {
            Some(i) => {
                self.set_at(i, value);
                true
            },
            None => false,
        }
    }
}

/// The pattern that a job name must match: an identifier.
pub const JOB_NAME_PATTERN: &'static str = "^[a-zA-Z_][a-zA-Z0-9_]*$";

/// The pattern that no real file name matches, used where a job gives no
/// exclusion.
pub const MATCH_NO_FILE: &'static str = "^\\*$";

/// Whether `name` may name a job.
pub open spec fn valid_job_name(name: Seq<char>) -> bool {
    pattern_accepts(JOB_NAME_PATTERN@, false, name)
}

pub fn is_job_name(name: &str) -> (r: bool)
    ensures
        r == valid_job_name(name@),
{
    let m = Matcher::new(JOB_NAME_PATTERN, false);
    m.is_match(name)
}

/// The non-empty texts among `items`, in order; other values are ignored.
pub open spec fn nonempty_texts(items: Seq<ConfigValue>) -> Seq<Seq<char>>
    decreases items.len(),
{
    if items.len() == 0 {
        Seq::empty()
    } else {
        let rest = nonempty_texts(items.drop_last());
        match items.last() {
            ConfigValue::Text(t) => if t@.len() > 0 {
                rest.push(t@)
            } else {
                rest
            },
            _ => rest,
        }
    }
}

/// The pattern that a list of sub-patterns stands for: their disjunction.
pub fn pattern_from_list(items: &Vec<ConfigValue>) -> (r: String)
    ensures
        r@ == combined(nonempty_texts(items@)),
{
    let mut texts: Vec<String> = Vec::new();
    let mut i: usize = 0;
    while i < items.len()
        invariant
            i <= items.len(),
            texts@.map_values(|t: String| t@) == nonempty_texts(items@.take(i as int)),
        decreases items.len() - i,
    {
        proof {
            assert(items@.take(i + 1).drop_last() == items@.take(i as int));
            assert(items@.take(i + 1).last() == items@[i as int]);
        }
        match &items[i] {
            ConfigValue::Text(t) => {
                if t.unicode_len() > 0 {
                    texts.push(t.clone());
                    proof {
                        assert(texts@.map_values(|t: String| t@) == nonempty_texts(items@.take(i as int)).push(t@));
                    }
                }
            },
            _ => {},
        }
        i = i + 1;
    }
    proof {
        assert(items@.take(items.len() as int) == items@);
    }
    combine_regexp_patterns(&texts)
}

/// What a key of a job table sets.
#[derive(Clone, Copy, Debug, PartialEq, Eq, Structural)]
pub enum JobKey {
    Name,
    Source,
    Destination,
    SelectPatterns,
    ExcludePatterns,
    ExcludeDirPatterns,
    Flag(usize),
    Unknown,
}

pub open spec fn job_key(key: Seq<char>) -> JobKey {
    if key == "name"@ {
        JobKey::Name
    } else if key == "source"@ {
        JobKey::Source
    } else if key == "destination"@ {
        JobKey::Destination
    } else if key == "patterns_select"@ {
        JobKey::SelectPatterns
    } else if key == "patterns_exclude"@ {
        JobKey::ExcludePatterns
    } else if key == "patterns_exclude_dir"@ {
        JobKey::ExcludeDirPatterns
    } else {
        match flag_index(key) {
            Some(i) => JobKey::Flag(i as usize),
            None => JobKey::Unknown,
        }
    }
}

pub fn classify_job_key(key: &str) -> (r: JobKey)
    ensures
        r == job_key(key@),
{
    if same_text(key, "name") {
        JobKey::Name
    } else if same_text(key, "source") {
        JobKey::Source
    } else if same_text(key, "destination") {
        JobKey::Destination
    } else if same_text(key, "patterns_select") {
        JobKey::SelectPatterns
    } else if same_text(key, "patterns_exclude") {
        JobKey::ExcludePatterns
    } else if same_text(key, "patterns_exclude_dir") {
        JobKey::ExcludeDirPatterns
    } else {
        match flag_index_of(key) {
            Some(i) => JobKey::Flag(i),
            None => JobKey::Unknown,
        }
    }
}

/// Whether the variable mentions of a directory can all be expanded (the
/// variables do not refer to one another in a cycle; an undefined variable
/// simply expands to nothing).
pub open spec fn dir_resolvable(
    raw: Seq<char>,
    vars: Seq<(Seq<char>, Seq<char>)>,
    env: Seq<(Seq<char>, Seq<char>)>,
) -> bool {
    expand_all(raw, '%', vars) matches Some(local) && expand_all(local, '$', env) is Some
}

/// Whether one entry of a job table is acceptable: a known key with a
/// value of the kind it needs, a name that is an identifier, and
/// directories whose variables can be expanded.
pub open spec fn job_entry_ok(
    key: Seq<char>,
    v: ConfigValue,
    vars: Seq<(Seq<char>, Seq<char>)>,
    env: Seq<(Seq<char>, Seq<char>)>,
) -> bool {
    match job_key(key) {
        JobKey::Name => v matches ConfigValue::Text(t) && valid_job_name(t@),
        JobKey::Source | JobKey::Destination => v matches ConfigValue::Text(t) && dir_resolvable(t@, vars, env),
        JobKey::SelectPatterns | JobKey::ExcludePatterns | JobKey::ExcludeDirPatterns => v is List,
        JobKey::Flag(_) => v is Flag,
        JobKey::Unknown => false,
    }
}

pub open spec fn entries_ok(
    t: Seq<(String, ConfigValue)>,
    vars: Seq<(Seq<char>, Seq<char>)>,
    env: Seq<(Seq<char>, Seq<char>)>,
) -> bool {
    forall|i: int| 0 <= i < t.len() ==> job_entry_ok(#[trigger] t[i].0@, t[i].1, vars, env)
}

/// The text of the last entry of `t` whose key is of kind `k`.
pub open spec fn last_text(t: Seq<(String, ConfigValue)>, k: JobKey) -> Option<Seq<char>>
    decreases t.len(),
{
    if t.len() == 0 {
        None
    } else if job_key(t.last().0@) == k && t.last().1 is Text {
        Some(t.last().1->Text_0@)
    } else {
        last_text(t.drop_last(), k)
    }
}

/// The list of the last entry of `t` whose key is of kind `k`.
pub open spec fn last_list(t: Seq<(String, ConfigValue)>, k: JobKey) -> Option<Seq<ConfigValue>>
    decreases t.len(),
{
    if t.len() == 0 {
        None
    } else if job_key(t.last().0@) == k && t.last().1 is List {
        Some(t.last().1->List_0@)
    } else {
        last_list(t.drop_last(), k)
    }
}

/// The flag at position `i` after the entries of `t`, starting from `default`.
pub open spec fn table_flag(t: Seq<(String, ConfigValue)>, i: int, default: bool) -> bool
    decreases t.len(),
{
    if t.len() == 0 {
        default
    } else if job_key(t.last().0@) == JobKey::Flag(i as usize) && t.last().1 is Flag {
        t.last().1->Flag_0
    } else {
        table_flag(t.drop_last(), i, default)
    }
}

/// The flags of a job.
pub open spec fn job_flags(j: JobSpec) -> Flags {
    Flags {
        recursive: j.recursive,
        case_sensitive: j.case_sensitive,
        follow_symlinks: j.follow_symlinks,
        overwrite: j.overwrite,
        skip_newer: j.skip_newer,
        check_content: j.check_content,
        remove_others_matching: j.remove_others_matching,
        create_directories: j.create_directories,
        keep_structure: j.keep_structure,
        trash_on_delete: j.trash_on_delete,
        trash_on_overwrite: j.trash_on_overwrite,
        halt_on_errors: j.halt_on_errors,
    }
}

/// Whether a job table is acceptable as a whole: each entry is, and the
/// job ends up with a non-empty name.
pub open spec fn job_table_ok(
    t: Seq<(String, ConfigValue)>,
    vars: Seq<(Seq<char>, Seq<char>)>,
    env: Seq<(Seq<char>, Seq<char>)>,
) -> bool {
    &&& entries_ok(t, vars, env)
    &&& last_text(t, JobKey::Name) matches Some(n) && n.len() > 0
}

/// A configuration that cannot be used; `key` tells which entry is wrong
/// (`job/<key>` inside a job).
#[derive(Debug)]
pub struct ConfigError {
    pub key: String,
}

fn config_error(key: &str) -> (e: ConfigError)
    ensures
        e.key@ == key@,
{
    ConfigError { key: key.to_string() }
}

/// The error of an entry `key` of a job table.
fn job_entry_error(key: &str) -> (e: ConfigError)
    ensures
        e.key@ == "job/"@ + key@,
        is_job_error_key(e.key@),
{
    proof {
        reveal_strlit("job/");
        assert(("job/"@ + key@).subrange(0, 4) == "job/"@);
    }
    let mut k = String::from_str("job/");
    k.append(key);
    ConfigError { key: k }
}

proof fn lemma_flag_set(f: Flags, idx: int, v: bool, g: Flags)
    requires
        0 <= idx < 12,
        flag_set_at(f, idx, v, g),
    ensures
        forall|k: int| 0 <= k < 12 ==> #[trigger] flag_at(g, k) == if k == idx { v } else { flag_at(f, k) },
{
}

proof fn lemma_flag_index_bounds(key: Seq<char>)
    ensures
        flag_index(key) matches Some(i) ==> 0 <= i < 12,
{
}

/// The flags that a job starts from.
fn job_of(
    name: String,
    source_dir: String,
    destination_dir: String,
    name_pattern: String,
    exclude_pattern: String,
    exclude_dir_pattern: String,
    f: Flags,
) -> (j: JobSpec)
    ensures
        j.name == name,
        j.source_dir == source_dir,
        j.destination_dir == destination_dir,
        j.name_pattern == name_pattern,
        j.exclude_pattern == exclude_pattern,
        j.exclude_dir_pattern == exclude_dir_pattern,
        job_flags(j) == f,
{
    JobSpec {
        name,
        source_dir,
        destination_dir,
        name_pattern,
        exclude_pattern,
        exclude_dir_pattern,
        recursive: f.recursive,
        case_sensitive: f.case_sensitive,
        follow_symlinks: f.follow_symlinks,
        overwrite: f.overwrite,
        skip_newer: f.skip_newer,
        check_content: f.check_content,
        remove_others_matching: f.remove_others_matching,
        create_directories: f.create_directories,
        keep_structure: f.keep_structure,
        trash_on_delete: f.trash_on_delete,
        trash_on_overwrite: f.trash_on_overwrite,
        halt_on_errors: f.halt_on_errors,
    }
}

pub open spec fn text_or(o: Option<Seq<char>>, d: Seq<char>) -> Seq<char> {
    match o {
        Some(t) => t,
        None => d,
    }
}

pub open spec fn pattern_or(o: Option<Seq<ConfigValue>>, d: Seq<char>) -> Seq<char> {
    match o {
        Some(l) => combined(nonempty_texts(l)),
        None => d,
    }
}

pub open spec fn dir_or_empty(
    o: Option<Seq<char>>,
    vars: Seq<(Seq<char>, Seq<char>)>,
    env: Seq<(Seq<char>, Seq<char>)>,
    home: Seq<char>,
    config_dir: Seq<char>,
) -> Seq<char> {
    match o {
        Some(raw) => match resolved_dir(raw, vars, env, home, config_dir) {
            Some(d) => d,
            None => Seq::empty(),
        },
        None => Seq::empty(),
    }
}

/// Whether `k` is the key of an error inside a job table: `job` or `job/...`.
pub open spec fn is_job_error_key(k: Seq<char>) -> bool {
    k == "job"@ || (k.len() >= 4 && k.subrange(0, 4) == "job/"@)
}

/// Whether `j` is the job that the table `t` describes, with `defaults` as
/// the flags it starts from.
pub open spec fn job_resolved(
    j: JobSpec,
    t: Seq<(String, ConfigValue)>,
    defaults: Flags,
    vars: Seq<(Seq<char>, Seq<char>)>,
    env: Seq<(Seq<char>, Seq<char>)>,
    home: Seq<char>,
    config_dir: Seq<char>,
) -> bool {
    &&& j.name@ == text_or(last_text(t, JobKey::Name), Seq::empty())
    &&& valid_job_name(j.name@)
    &&& j.source_dir@ == dir_or_empty(last_text(t, JobKey::Source), vars, env, home, config_dir)
    &&& j.destination_dir@ == dir_or_empty(last_text(t, JobKey::Destination), vars, env, home, config_dir)
    &&& j.name_pattern@ == pattern_or(last_list(t, JobKey::SelectPatterns), Seq::empty())
    &&& j.exclude_pattern@ == pattern_or(last_list(t, JobKey::ExcludePatterns), MATCH_NO_FILE@)
    &&& j.exclude_dir_pattern@ == pattern_or(last_list(t, JobKey::ExcludeDirPatterns), MATCH_NO_FILE@)
    &&& forall|k: int| 0 <= k < 12 ==> #[trigger] flag_at(job_flags(j), k) == table_flag(t, k, flag_at(defaults, k))
}

/// Builds a job from its table. Entries are applied in order, a later one
/// overriding an earlier one of the same key; flags not set start from
/// `defaults`. Every entry must have a known key and a value of the right
/// kind, every name must be an identifier, every directory's variables
/// must expand completely (no cycle among them), and the job must end up
/// with a non-empty name. An error is named `job/<key>`, or `job` for an
/// unknown key or a missing name.
pub fn job_from_table(
    table: &Vec<(String, ConfigValue)>,
    defaults: &Flags,
    vars: &Vec<(String, String)>,
    env: &Vec<(String, String)>,
    home: &str,
    config_dir: &str,
) -> (r: Result<JobSpec, ConfigError>)
    ensures
        r is Ok <==> job_table_ok(table@, vars_view(vars@), vars_view(env@)),
        r matches Ok(j) ==> job_resolved(j, table@, *defaults, vars_view(vars@), vars_view(env@), home@, config_dir@),
        r matches Err(e) ==> is_job_error_key(e.key@),
{
    let ghost vv = vars_view(vars@);
    let ghost ev = vars_view(env@);
    let mut name = String::new();
    let mut source = String::new();
    let mut destination = String::new();
    let mut select = String::new();
    let mut exclude = String::from_str(MATCH_NO_FILE);
    let mut exclude_dir = String::from_str(MATCH_NO_FILE);
    let mut flags = *defaults;
    let mut i: usize = 0;
    while i < table.len()
        invariant
            i <= table.len(),
            vv == vars_view(vars@),
            ev == vars_view(env@),
            entries_ok(table@.take(i as int), vv, ev),
            name@ == text_or(last_text(table@.take(i as int), JobKey::Name), Seq::empty()),
            source@ == dir_or_empty(last_text(table@.take(i as int), JobKey::Source), vv, ev, home@, config_dir@),
            destination@ == dir_or_empty(last_text(table@.take(i as int), JobKey::Destination), vv, ev, home@, config_dir@),
            select@ == pattern_or(last_list(table@.take(i as int), JobKey::SelectPatterns), Seq::empty()),
            exclude@ == pattern_or(last_list(table@.take(i as int), JobKey::ExcludePatterns), MATCH_NO_FILE@),
            exclude_dir@ == pattern_or(last_list(table@.take(i as int), JobKey::ExcludeDirPatterns), MATCH_NO_FILE@),
            forall|k: int| 0 <= k < 12 ==> #[trigger] flag_at(flags, k) == table_flag(table@.take(i as int), k, flag_at(*defaults, k)),
            last_text(table@.take(i as int), JobKey::Name) matches Some(n) ==> valid_job_name(n),
        decreases table.len() - i,
    {
        let ghost t0 = table@.take(i as int);
        let ghost t1 = table@.take(i + 1);
        proof {
            assert(t1.drop_last() == t0);
            assert(t1.last() == table@[i as int]);
        }
        let key = table[i].0.as_str();
        let value = &table[i].1;
        let kind = classify_job_key(key);
        proof {
            lemma_flag_index_bounds(key@);
        }
        match kind {
            JobKey::Name => {
                match value {
                    ConfigValue::Text(t) => {
                        if !is_job_name(t.as_str()) {
                            proof {
                                assert(!job_entry_ok(table@[i as int].0@, table@[i as int].1, vv, ev));
                            }
                            return Err(job_entry_error(key));
                        }
                        name = t.clone();
                    },
                    _ => {
                        proof {
                            assert(!job_entry_ok(table@[i as int].0@, table@[i as int].1, vv, ev));
                        }
                        return Err(job_entry_error(key));
                    },
                }
            },
            JobKey::Source | JobKey::Destination => {
                match value {
                    ConfigValue::Text(t) => {
                        let dir = match resolve_dir(t.as_str(), vars, env, home, config_dir) {
                            Some(d) => d,
                            None => {
                                proof {
                                    assert(!job_entry_ok(table@[i as int].0@, table@[i as int].1, vv, ev));
                                }
                                return Err(job_entry_error(key));
                            },
                        };
                        if kind == JobKey::Source {
                            source = dir;
                        } else {
                            destination = dir;
                        }
                    },
                    _ => {
                        proof {
                            assert(!job_entry_ok(table@[i as int].0@, table@[i as int].1, vv, ev));
                        }
                        return Err(job_entry_error(key));
                    },
                }
            },
            JobKey::SelectPatterns | JobKey::ExcludePatterns | JobKey::ExcludeDirPatterns => {
                match value {
                    ConfigValue::List(items) => {
                        let pattern = pattern_from_list(items);
                        if kind == JobKey::SelectPatterns {
                            select = pattern;
                        } else if kind == JobKey::ExcludePatterns {
                            exclude = pattern;
                        } else {
                            exclude_dir = pattern;
                        }
                    },
                    _ => {
                        proof {
                            assert(!job_entry_ok(table@[i as int].0@, table@[i as int].1, vv, ev));
                        }
                        return Err(job_entry_error(key));
                    },
                }
            },
            JobKey::Flag(idx) => {
                match value {
                    ConfigValue::Flag(b) => {
                        let ghost before = flags;
                        flags.set(key, *b);
                        proof {
                            lemma_flag_set(before, idx as int, *b, flags);
                        }
                    },
                    _ => {
                        proof {
                            assert(!job_entry_ok(table@[i as int].0@, table@[i as int].1, vv, ev));
                        }
                        return Err(job_entry_error(key));
                    },
                }
            },
            JobKey::Unknown => {
                proof {
                    assert(!job_entry_ok(table@[i as int].0@, table@[i as int].1, vv, ev));
                }
                return Err(config_error("job"));
            },
        }
        proof {
            assert(entries_ok(t1, vv, ev)) by {
                assert forall|j: int| 0 <= j < t1.len() implies job_entry_ok(#[trigger] t1[j].0@, t1[j].1, vv, ev) by {
                    if j < i {
                        assert(t1[j] == t0[j]);
                    }
                }
            }
        }
        i = i + 1;
    }
    proof {
        assert(table@.take(table.len() as int) == table@);
    }
    if name.unicode_len() == 0 {
        return Err(config_error("job"));
    }
    Ok(job_of(name, source, destination, select, exclude, exclude_dir, flags))
}

/// Whether `key` may stand at the top of a configuration.
pub open spec fn is_global_key(key: Seq<char>) -> bool {
    key == "active_jobs"@ || key == "variables"@ || key == "job"@ || flag_index(key) is Some
}

fn global_key(key: &str) -> (r: bool)
    ensures
        r == is_global_key(key@),
{
    same_text(key, "active_jobs") || same_text(key, "variables") || same_text(key, "job") || flag_index_of(
        key,
    ).is_some()
}

/// The value of the last entry of `doc` with key `key`.
pub open spec fn doc_value(doc: Seq<(String, ConfigValue)>, key: Seq<char>) -> Option<ConfigValue>
    decreases doc.len(),
{
    if doc.len() == 0 {
        None
    } else if doc.last().0@ == key {
        Some(doc.last().1)
    } else {
        doc_value(doc.drop_last(), key)
    }
}

fn doc_get<'a>(doc: &'a Vec<(String, ConfigValue)>, key: &str) -> (r: Option<&'a ConfigValue>)
    ensures
        match r {
            Some(v) => doc_value(doc@, key@) == Some(*v),
            None => doc_value(doc@, key@) is None,
        },
{
    let mut i: usize = doc.len();
    proof {
        assert(doc@.take(i as int) == doc@);
    }
    while i > 0
        invariant
            i <= doc@.len(),
            doc_value(doc@, key@) == doc_value(doc@.take(i as int), key@),
        decreases i,
    {
        proof {
            assert(doc@.take(i as int).drop_last() == doc@.take(i - 1));
            assert(doc@.take(i as int).last() == doc@[i - 1]);
        }
        if same_text(doc[i - 1].0.as_str(), key) {
            return Some(&doc[i - 1].1);
        }
        i = i - 1;
    }
    None
}

/// The texts of `items` when all of them are texts.
pub open spec fn all_texts(items: Seq<ConfigValue>) -> bool {
    forall|i: int| 0 <= i < items.len() ==> (#[trigger] items[i]) is Text
}

/// The global settings of a configuration.
#[derive(Debug)]
pub struct GlobalConfig {
    /// The names of the jobs to run.
    pub active_jobs: Vec<String>,
    /// The names of all jobs, in declaration order.
    pub job_list: Vec<String>,
    /// The local variables, by name.
    pub variables: Vec<(String, String)>,
    /// The flags that each job starts from.
    pub flags: Flags,
}

fn text_list(items: &Vec<ConfigValue>) -> (r: Option<Vec<String>>)
    ensures
        r is Some <==> all_texts(items@),
        r matches Some(v) ==> v@.len() == items@.len() && forall|i: int|
            0 <= i < items@.len() ==> items@[i] == ConfigValue::Text(#[trigger] v@[i]),
{
    let mut out: Vec<String> = Vec::new();
    let mut i: usize = 0;
    while i < items.len()
        invariant
            i <= items.len(),
            out@.len() == i,
            forall|k: int| 0 <= k < i ==> items@[k] == ConfigValue::Text(#[trigger] out@[k]),
        decreases items.len() - i,
    {
        match &items[i] {
            ConfigValue::Text(t) => {
                out.push(t.clone());
            },
            _ => {
                return None;
            },
        }
        i = i + 1;
    }
    proof {
        assert forall|k: int| 0 <= k < items@.len() implies (#[trigger] items@[k]) is Text by {
            assert(items@[k] == ConfigValue::Text(out@[k]));
        }
    }
    Some(out)
}

/// Whether `v` is a table whose values are all texts.
pub open spec fn is_text_table(v: ConfigValue) -> bool {
    match v {
        ConfigValue::Table(t) => forall|i: int| 0 <= i < t@.len() ==> (#[trigger] t@[i]).1 is Text,
        _ => false,
    }
}

/// The text a value holds; empty for any other value.
pub open spec fn text_of(v: ConfigValue) -> Seq<char> {
    match v {
        ConfigValue::Text(t) => t@,
        _ => Seq::empty(),
    }
}

/// Whether no two entries of `t` have the same key.
pub open spec fn distinct_names(t: Seq<(String, ConfigValue)>) -> bool {
    forall|i: int, j: int| 0 <= i < j < t.len() ==> (#[trigger] t[i]).0@ != (#[trigger] t[j]).0@
}

/// The variables that a table of texts defines.
pub open spec fn table_vars(t: Seq<(String, ConfigValue)>) -> Seq<(Seq<char>, Seq<char>)> {
    t.map_values(|e: (String, ConfigValue)| (e.0@, text_of(e.1)))
}

/// Whether `v` can define the local variables: a table of texts, each
/// name defined once.
pub open spec fn vars_ok(v: ConfigValue) -> bool {
    match v {
        ConfigValue::Table(t) => is_text_table(v) && distinct_names(t@),
        _ => false,
    }
}

/// Whether one of `vars` is named `name`.
fn name_taken(vars: &Vec<(String, String)>, name: &str) -> (r: bool)
    ensures
        r == exists|k: int| 0 <= k < vars@.len() && (#[trigger] vars@[k]).0@ == name@,
{
    let mut k: usize = 0;
    while k < vars.len()
        invariant
            k <= vars@.len(),
            forall|m: int| 0 <= m < k ==> (#[trigger] vars@[m]).0@ != name@,
        decreases vars.len() - k,
    {
        if same_text(vars[k].0.as_str(), name) {
            return true;
        }
        k = k + 1;
    }
    false
}

/// The local variables: a table whose values are all texts, each name once.
fn variables_of(v: &ConfigValue) -> (r: Option<Vec<(String, String)>>)
    ensures
        r is Some <==> vars_ok(*v),
        r matches Some(out) ==> (v matches ConfigValue::Table(t) && vars_view(out@) == table_vars(t@)),
        r matches Some(out) ==> forall|i: int, j: int|
            0 <= i < j < out@.len() ==> (#[trigger] out@[i]).0@ != (#[trigger] out@[j]).0@,
{
    match v {
        ConfigValue::Table(t) => {
            let mut out: Vec<(String, String)> = Vec::new();
            let mut i: usize = 0;
            while i < t.len()
                invariant
                    i <= t.len(),
                    *v == ConfigValue::Table(*t),
                    forall|k: int| 0 <= k < i ==> (#[trigger] t@[k]).1 is Text,
                    distinct_names(t@.take(i as int)),
                    out@.len() == i,
                    vars_view(out@) == table_vars(t@.take(i as int)),
                decreases t.len() - i,
            {
                proof {
                    assert(t@.take(i + 1).drop_last() == t@.take(i as int));
                }
                let value = match &t[i].1 {
                    ConfigValue::Text(value) => value,
                    _ => {
                        proof {
                            assert(!(t@[i as int].1 is Text));
                        }
                        return None;
                    },
                };
                if name_taken(&out, t[i].0.as_str()) {
                    proof {
                        let k = choose|k: int| 0 <= k < out@.len() && out@[k].0@ == t@[i as int].0@;
                        assert(vars_view(out@)[k].0 == out@[k].0@);
                        assert(table_vars(t@.take(i as int))[k].0 == t@[k].0@);
                        assert(t@[k].0@ == t@[i as int].0@);
                        assert(!distinct_names(t@));
                    }
                    return None;
                }
                proof {
                    assert(distinct_names(t@.take(i + 1))) by {
                        assert forall|a: int, b: int| 0 <= a < b < t@.take(i + 1).len() implies (#[trigger] t@.take(i + 1)[a]).0@
                            != (#[trigger] t@.take(i + 1)[b]).0@ by {
                            if b == i {
                                assert(t@.take(i + 1)[a] == t@[a]);
                                assert(vars_view(out@)[a].0 == out@[a].0@);
                                assert(table_vars(t@.take(i as int))[a].0 == t@[a].0@);
                            } else {
                                assert(t@.take(i + 1)[a] == t@.take(i as int)[a]);
                                assert(t@.take(i + 1)[b] == t@.take(i as int)[b]);
                            }
                        }
                    }
                }
                let ghost before = out@;
                out.push((t[i].0.clone(), value.clone()));
                proof {
                    assert forall|m: int| 0 <= m < i + 1 implies vars_view(out@)[m] == table_vars(t@.take(i + 1))[m] by {
                        if m < i {
                            assert(out@[m] == before[m]);
                            assert(vars_view(before)[m] == table_vars(t@.take(i as int))[m]);
                            assert(t@.take(i + 1)[m] == t@.take(i as int)[m]);
                        } else {
                            assert(t@.take(i + 1)[m] == t@[i as int]);
                        }
                    }
                    assert(vars_view(out@) =~= table_vars(t@.take(i + 1)));
                }
                i = i + 1;
            }
            proof {
                assert(t@.take(t.len() as int) == t@);
                assert forall|a: int, b: int| 0 <= a < b < out@.len() implies (#[trigger] out@[a]).0@
                    != (#[trigger] out@[b]).0@ by {
                    assert(vars_view(out@)[a].0 == out@[a].0@);
                    assert(vars_view(out@)[b].0 == out@[b].0@);
                    assert(t@[a] == t@[a] && t@[b] == t@[b]);
                }
            }
            Some(out)
        },
        _ => None,
    }
}

/// Whether every top-level key is known.
pub open spec fn keys_known(doc: Seq<(String, ConfigValue)>) -> bool {
    forall|i: int| 0 <= i < doc.len() ==> is_global_key(#[trigger] doc[i].0@)
}

/// Whether `active_jobs` is a list of texts.
pub open spec fn active_ok(doc: Seq<(String, ConfigValue)>) -> bool {
    doc_value(doc, "active_jobs"@) matches Some(ConfigValue::List(items)) && all_texts(items@)
}

/// The items of `active_jobs`.
pub open spec fn active_items(doc: Seq<(String, ConfigValue)>) -> Seq<ConfigValue> {
    match doc_value(doc, "active_jobs"@) {
        Some(ConfigValue::List(items)) => items@,
        _ => Seq::empty(),
    }
}

/// Whether `variables` is absent or can define the local variables.
pub open spec fn doc_vars_ok(doc: Seq<(String, ConfigValue)>) -> bool {
    match doc_value(doc, "variables"@) {
        None => true,
        Some(v) => vars_ok(v),
    }
}

/// The local variables that the document defines.
pub open spec fn doc_variables(doc: Seq<(String, ConfigValue)>) -> Seq<(Seq<char>, Seq<char>)> {
    match doc_value(doc, "variables"@) {
        Some(ConfigValue::Table(t)) => table_vars(t@),
        _ => Seq::empty(),
    }
}

/// Whether every global flag is a boolean.
pub open spec fn flags_ok(doc: Seq<(String, ConfigValue)>) -> bool {
    forall|i: int| 0 <= i < doc.len() ==> (job_key((#[trigger] doc[i]).0@) is Flag ==> doc[i].1 is Flag)
}

/// The items of `job`.
pub open spec fn job_tables(doc: Seq<(String, ConfigValue)>) -> Seq<ConfigValue> {
    match doc_value(doc, "job"@) {
        Some(ConfigValue::List(items)) => items@,
        _ => Seq::empty(),
    }
}

/// Whether `job` is absent, or a list of acceptable job tables.
pub open spec fn jobs_ok(doc: Seq<(String, ConfigValue)>, env: Seq<(Seq<char>, Seq<char>)>) -> bool {
    &&& match doc_value(doc, "job"@) {
        None => true,
        Some(ConfigValue::List(_)) => true,
        Some(_) => false,
    }
    &&& forall|i: int| 0 <= i < job_tables(doc).len() ==> (#[trigger] job_tables(doc)[i] matches ConfigValue::Table(t)
        && job_table_ok(t@, doc_variables(doc), env))
}

/// The name that a job table gives its job.
pub open spec fn table_name(v: ConfigValue) -> Seq<char> {
    match v {
        ConfigValue::Table(t) => text_or(last_text(t@, JobKey::Name), Seq::empty()),
        _ => Seq::empty(),
    }
}

/// Whether every active job is defined by one of the job tables.
pub open spec fn actives_defined(doc: Seq<(String, ConfigValue)>) -> bool {
    forall|a: int| 0 <= a < active_items(doc).len() ==> job_tables(doc).map_values(|v: ConfigValue| table_name(v)).contains(
        text_of(#[trigger] active_items(doc)[a]),
    )
}

/// Whether `jobs` (named in order by `job_list`) are the jobs of the first
/// `n` job tables of `doc`.
pub open spec fn jobs_resolved(
    doc: Seq<(String, ConfigValue)>,
    env: Seq<(Seq<char>, Seq<char>)>,
    jobs: Seq<JobSpec>,
    job_list: Seq<String>,
    flags: Flags,
    home: Seq<char>,
    config_dir: Seq<char>,
    n: int,
) -> bool {
    &&& jobs.len() == n
    &&& job_list.len() == n
    &&& forall|i: int| 0 <= i < n ==> {
        &&& (#[trigger] job_list[i])@ == jobs[i].name@
        &&& job_tables(doc)[i] matches ConfigValue::Table(t) && job_table_ok(t@, doc_variables(doc), env)
            && job_resolved(jobs[i], t@, flags, doc_variables(doc), env, home, config_dir)
    }
}

/// Whether the document resolves.
pub open spec fn config_ok(doc: Seq<(String, ConfigValue)>, env: Seq<(Seq<char>, Seq<char>)>) -> bool {
    &&& keys_known(doc)
    &&& active_ok(doc)
    &&& doc_vars_ok(doc)
    &&& flags_ok(doc)
    &&& jobs_ok(doc, env)
    &&& actives_defined(doc)
}

/// Resolves a configuration document into the global settings and the
/// jobs, in declaration order.
///
/// Every top-level key must be known; `active_jobs` must be a list of
/// texts; `variables`, when present, a table of texts with each name once;
/// each flag, when present, a boolean; `job`, when present, a list of job
/// tables (see `job_from_table`, where the global flags are the defaults
/// and the local variables are those of `variables`). Every active job must
/// be defined. The first of these that fails names the error.
pub fn resolve_config(
    doc: &Vec<(String, ConfigValue)>,
    env: &Vec<(String, String)>,
    home: &str,
    config_dir: &str,
) -> (r: Result<(GlobalConfig, Vec<JobSpec>), ConfigError>)
    ensures
        r is Ok <==> config_ok(doc@, vars_view(env@)),
        !keys_known(doc@) ==> (r matches Err(e) && !is_global_key(e.key@) && exists|i: int|
            0 <= i < doc@.len() && (#[trigger] doc@[i]).0@ == e.key@),
        keys_known(doc@) && !active_ok(doc@) ==> (r matches Err(e) && e.key@ == "active_jobs"@),
        keys_known(doc@) && active_ok(doc@) && !doc_vars_ok(doc@) ==> (r matches Err(e) && e.key@ == "variables"@),
        keys_known(doc@) && active_ok(doc@) && doc_vars_ok(doc@) && !flags_ok(doc@) ==> (r matches Err(e)
            && flag_index(e.key@) is Some),
        keys_known(doc@) && active_ok(doc@) && doc_vars_ok(doc@) && flags_ok(doc@) && !jobs_ok(doc@, vars_view(env@))
            ==> (r matches Err(e) && is_job_error_key(e.key@)),
        keys_known(doc@) && active_ok(doc@) && doc_vars_ok(doc@) && flags_ok(doc@) && jobs_ok(doc@, vars_view(env@))
            && !actives_defined(doc@) ==> (r matches Err(e) && e.key@ == "active_jobs"@),
        r matches Ok((g, jobs)) ==> {
            &&& g.active_jobs@.len() == active_items(doc@).len()
            &&& forall|i: int| 0 <= i < g.active_jobs@.len() ==> active_items(doc@)[i] == ConfigValue::Text(#[trigger] g.active_jobs@[i])
            &&& vars_view(g.variables@) == doc_variables(doc@)
            &&& forall|i: int, j: int| 0 <= i < j < g.variables@.len() ==> (#[trigger] g.variables@[i]).0@ != (#[trigger] g.variables@[j]).0@
            &&& forall|k: int| 0 <= k < 12 ==> #[trigger] flag_at(g.flags, k) == table_flag(doc@, k, flag_at(default_flags(), k))
            &&& jobs@.len() == job_tables(doc@).len()
            &&& jobs@.len() == g.job_list@.len()
            &&& forall|i: int| 0 <= i < jobs@.len() ==> {
                &&& (#[trigger] g.job_list@[i])@ == jobs@[i].name@
                &&& job_tables(doc@)[i] matches ConfigValue::Table(t) && job_resolved(jobs@[i], t@, g.flags,
                    doc_variables(doc@), vars_view(env@), home@, config_dir@)
            }
            &&& forall|a: int| 0 <= a < g.active_jobs@.len() ==> names_of(g.job_list@).contains(#[trigger] g.active_jobs@[a]@)
        },
{
    let ghost d = doc@;
    let ghost ev = vars_view(env@);
    // every key must be known
    let mut i: usize = 0;
    while i < doc.len()
        invariant
            i <= doc.len(),
            forall|k: int| 0 <= k < i ==> is_global_key(#[trigger] doc@[k].0@),
        decreases doc.len() - i,
    {
        if !global_key(doc[i].0.as_str()) {
            return Err(config_error(doc[i].0.as_str()));
        }
        i = i + 1;
    }
    assert(keys_known(d));
    // the jobs to run
    let active_jobs = match doc_get(doc, "active_jobs") {
        Some(ConfigValue::List(items)) => match text_list(items) {
            Some(names) => names,
            None => {
                return Err(config_error("active_jobs"));
            },
        },
        _ => {
            return Err(config_error("active_jobs"));
        },
    };
    assert(active_ok(d));
    // the local variables
    let variables = match doc_get(doc, "variables") {
        None => Vec::new(),
        Some(v) => match variables_of(v) {
            Some(vars) => vars,
            None => {
                return Err(config_error("variables"));
            },
        },
    };
    assert(doc_vars_ok(d));
    assert(vars_view(variables@) =~= doc_variables(d));
    assert(forall|i: int, j: int| 0 <= i < j < variables@.len() ==> (#[trigger] variables@[i]).0@ != (#[trigger] variables@[j]).0@);
    // the global flags
    let mut flags = Flags::defaults();
    let mut i: usize = 0;
    while i < doc.len()
        invariant
            i <= doc.len(),
            d == doc@,
            keys_known(d),
            active_ok(d),
            doc_vars_ok(d),
            vars_view(variables@) == doc_variables(d),
            forall|i: int, j: int| 0 <= i < j < variables@.len() ==> (#[trigger] variables@[i]).0@ != (#[trigger] variables@[j]).0@,
            forall|k: int| 0 <= k < i ==> (job_key((#[trigger] d[k]).0@) is Flag ==> d[k].1 is Flag),
            forall|k: int| 0 <= k < 12 ==> #[trigger] flag_at(flags, k) == table_flag(doc@.take(i as int), k, flag_at(default_flags(), k)),
        decreases doc.len() - i,
    {
        let ghost t0 = doc@.take(i as int);
        let ghost t1 = doc@.take(i + 1);
        proof {
            assert(t1.drop_last() == t0);
            assert(t1.last() == doc@[i as int]);
        }
        let key = doc[i].0.as_str();
        let kind = classify_job_key(key);
        proof {
            lemma_flag_index_bounds(key@);
        }
        match kind {
            JobKey::Flag(idx) => {
                match &doc[i].1 {
                    ConfigValue::Flag(b) => {
                        let ghost before = flags;
                        flags.set(key, *b);
                        proof {
                            lemma_flag_set(before, idx as int, *b, flags);
                        }
                    },
                    _ => {
                        return Err(config_error(key));
                    },
                }
            },
            _ => {},
        }
        i = i + 1;
    }
    proof {
        assert(doc@.take(doc.len() as int) == doc@);
    }
    assert(flags_ok(d));
    // the jobs
    let mut jobs: Vec<JobSpec> = Vec::new();
    let mut job_list: Vec<String> = Vec::new();
    match doc_get(doc, "job") {
        None => {
            assert(job_tables(d).len() == 0);
        },
        Some(ConfigValue::List(items)) => {
            let mut j: usize = 0;
            while j < items.len()
                invariant
                    j <= items.len(),
                    d == doc@,
                    items@ == job_tables(d),
                    doc_value(d, "job"@) == Some(ConfigValue::List(*items)),
                    keys_known(d),
                    active_ok(d),
                    doc_vars_ok(d),
                    flags_ok(d),
                    vars_view(variables@) == doc_variables(d),
                    forall|i: int, j: int| 0 <= i < j < variables@.len() ==> (#[trigger] variables@[i]).0@ != (#[trigger] variables@[j]).0@,
                    ev == vars_view(env@),
                    forall|k: int| 0 <= k < 12 ==> #[trigger] flag_at(flags, k) == table_flag(d, k, flag_at(default_flags(), k)),
                    jobs_resolved(d, ev, jobs@, job_list@, flags, home@, config_dir@, j as int),
                decreases items.len() - j,
            {
                match &items[j] {
                    ConfigValue::Table(t) => {
                        match job_from_table(t, &flags, &variables, env, home, config_dir) {
                            Ok(job) => {
                                job_list.push(job.name.clone());
                                jobs.push(job);
                            },
                            Err(e) => {
                                proof {
                                    assert(!jobs_ok(d, ev)) by {
                                        assert(!(job_tables(d)[j as int] matches ConfigValue::Table(t) && job_table_ok(t@, doc_variables(d), ev)));
                                    }
                                }
                                return Err(e);
                            },
                        }
                    },
                    _ => {
                        proof {
                            assert(!jobs_ok(d, ev)) by {
                                assert(!(job_tables(d)[j as int] is Table));
                            }
                        }
                        return Err(config_error("job"));
                    },
                }
                j = j + 1;
            }
            assert forall|i: int| 0 <= i < job_tables(d).len() implies (#[trigger] job_tables(d)[i] matches ConfigValue::Table(t)
                && job_table_ok(t@, doc_variables(d), ev)) by {
                assert(job_list@[i]@ == jobs@[i].name@);
            }
            assert(jobs_ok(d, ev));
        },
        Some(_) => {
            return Err(config_error("job"));
        },
    }
    assert(jobs_ok(d, ev));
    assert(jobs_resolved(d, ev, jobs@, job_list@, flags, home@, config_dir@, job_tables(d).len() as int));
    proof {
        assert(names_of(job_list@) =~= job_tables(d).map_values(|v: ConfigValue| table_name(v)));
    }
    // every active job must be defined
    let mut a: usize = 0;
    while a < active_jobs.len()
        invariant
            a <= active_jobs.len(),
            active_jobs@.len() == active_items(d).len(),
            forall|i: int| 0 <= i < active_jobs@.len() ==> active_items(d)[i] == ConfigValue::Text(#[trigger] active_jobs@[i]),
            names_of(job_list@) == job_tables(d).map_values(|v: ConfigValue| table_name(v)),
            d == doc@,
            ev == vars_view(env@),
            keys_known(d),
            active_ok(d),
            doc_vars_ok(d),
            flags_ok(d),
            jobs_ok(d, ev),
            vars_view(variables@) == doc_variables(d),
            forall|i: int, j: int| 0 <= i < j < variables@.len() ==> (#[trigger] variables@[i]).0@ != (#[trigger] variables@[j]).0@,
            forall|k: int| 0 <= k < 12 ==> #[trigger] flag_at(flags, k) == table_flag(d, k, flag_at(default_flags(), k)),
            jobs_resolved(d, ev, jobs@, job_list@, flags, home@, config_dir@, job_tables(d).len() as int),
            forall|k: int| 0 <= k < a ==> names_of(job_list@).contains(#[trigger] active_jobs@[k]@),
        decreases active_jobs.len() - a,
    {
        if !is_active(&job_list, &active_jobs[a]) {
            proof {
                assert(text_of(active_items(d)[a as int]) == active_jobs@[a as int]@);
                assert(!actives_defined(d));
            }
            return Err(config_error("active_jobs"));
        }
        a = a + 1;
    }
    proof {
        assert forall|k: int| 0 <= k < active_items(d).len() implies job_tables(d).map_values(|v: ConfigValue| table_name(v)).contains(
            text_of(#[trigger] active_items(d)[k]),
        ) by {
            assert(text_of(active_items(d)[k]) == active_jobs@[k]@);
        }
    }
    let global = GlobalConfig { active_jobs, job_list, variables, flags };
    Ok((global, jobs))
}

} // verus!
