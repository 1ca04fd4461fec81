//! Name and directory matchers built from regular-expression patterns.
//!
//! A pattern that does not compile yields a matcher that accepts nothing:
//! callers observe it as "no files found", not as a failure.
use regex::Regex;
use regex::RegexBuilder;
use vstd::prelude::*;

verus! {

/// Whether the `regex` crate builds an expression from `pattern` with the
/// given case-insensitivity flag.
pub uninterp spec fn regex_builds(pattern: Seq<char>, case_insensitive: bool) -> bool;

/// Whether the expression built from `pattern` with the given flag finds a
/// match anywhere in `haystack`.
pub uninterp spec fn regex_finds(
    pattern: Seq<char>,
    case_insensitive: bool,
    haystack: Seq<char>,
) -> bool;

#[verifier::external_type_specification]
#[verifier::external_body]
pub struct ExRegex(Regex);

/// A compiled expression together with the text and flag it was built from.
/// Only `compile_regex` creates one, so the two always agree.
pub struct CompiledRegex {
    re: Regex,
    source: String,
    case_insensitive: bool,
}

impl CompiledRegex {
    pub closed spec fn source(&self) -> Seq<char> {
        self.source@
    }

    pub closed spec fn case_insensitive(&self) -> bool {
        self.case_insensitive
    }
}

/// Relies on `regex::RegexBuilder::build`: it succeeds exactly when the
/// pattern is a valid expression within the default size limits, which is a
/// matter of the pattern and the flag alone.
#[verifier::external_body]
fn compile_regex(pattern: &str, case_insensitive: bool) -> (r: Option<CompiledRegex>)
    ensures
        r.is_some() == regex_builds(pattern@, case_insensitive),
        r matches Some(c) ==> c.source() == pattern@ && c.case_insensitive() == case_insensitive,
{
    match RegexBuilder::new(pattern).case_insensitive(case_insensitive).build() {
        Ok(re) => Some(CompiledRegex { re, source: pattern.to_string(), case_insensitive }),
        Err(_) => None,
    }
}

/// Relies on `regex::Regex::is_match`: whether the expression matches
/// anywhere in the text.
#[verifier::external_body]
fn regex_is_match(c: &CompiledRegex, haystack: &str) -> (r: bool)
    ensures
        r == regex_finds(c.source(), c.case_insensitive(), haystack@),
{
    c.re.is_match(haystack)
}

/// What a matcher built from `pattern` accepts: the pattern must compile and
/// find a match in the text.
pub open spec fn pattern_accepts(pattern: Seq<char>, case_insensitive: bool, text: Seq<char>) -> bool {
    regex_builds(pattern, case_insensitive) && regex_finds(pattern, case_insensitive, text)
}

/// A pattern matcher; one whose pattern did not compile accepts nothing.
pub struct Matcher {
    pattern: String,
    case_insensitive: bool,
    compiled: Option<CompiledRegex>,
}

impl Matcher {
    /// The pattern text the matcher was built from.
    pub closed spec fn pattern(&self) -> Seq<char> {
        self.pattern@
    }

    pub closed spec fn is_case_insensitive(&self) -> bool {
        self.case_insensitive
    }

    pub closed spec fn wf(&self) -> bool {
        &&& self.compiled.is_some() == regex_builds(self.pattern@, self.case_insensitive)
        &&& self.compiled matches Some(c) ==> c.source() == self.pattern@
            && c.case_insensitive() == self.case_insensitive
    }

    /// Whether the matcher accepts `text`.
    pub open spec fn accepts(&self, text: Seq<char>) -> bool {
        pattern_accepts(self.pattern(), self.is_case_insensitive(), text)
    }

    /// Builds a matcher for `pattern`, ignoring letter case when
    /// `case_insensitive` is set.
    pub fn new(pattern: &str, case_insensitive: bool) -> (m: Matcher)
        ensures
            m.wf(),
            m.pattern() == pattern@,
            m.is_case_insensitive() == case_insensitive,
    {
        let compiled = compile_regex(pattern, case_insensitive);
        Matcher { pattern: pattern.to_string(), case_insensitive, compiled }
    }

    /// Whether the matcher accepts `text`.
    pub fn is_match(&self, text: &str) -> (r: bool)
        requires
            self.wf(),
        ensures
            r == self.accepts(text@),
    {
        match &self.compiled {
            Some(c) => regex_is_match(c, text),
            None => false,
        }
    }
}

/// The disjunction of several sub-patterns: `(p1|p2|...)`.
pub open spec fn combined(patterns: Seq<Seq<char>>) -> Seq<char> {
    seq!['('] + joined(patterns) + seq![')']
}

/// The sub-patterns separated by `|`.
pub open spec fn joined(patterns: Seq<Seq<char>>) -> Seq<char>
    decreases patterns.len(),
{
    if patterns.len() == 0 {
        Seq::empty()
    } else if patterns.len() == 1 {
        patterns[0]
    } else {
        joined(patterns.drop_last()) + seq!['|'] + patterns.last()
    }
}

/// A pattern that must match the whole text: `^p$`.
pub open spec fn anchored(pattern: Seq<char>) -> Seq<char> {
    seq!['^'] + pattern + seq!['$']
}

/// A pattern that must match a whole run of path segments: `\/p\/`.
pub open spec fn between_separators(pattern: Seq<char>) -> Seq<char> {
    seq!['\\', '/'] + pattern + seq!['\\', '/']
}

/// Combines several sub-patterns into one that matches when any does.
pub fn combine_regexp_patterns(patterns: &Vec<String>) -> (r: String)
    ensures
        r@ == combined(patterns@.map_values(|p: String| p@)),
{
    let ghost views = patterns@.map_values(|p: String| p@);
    let mut body = String::new();
    let mut i: usize = 0;
    while i < patterns.len()
        invariant
            i <= patterns.len(),
            views == patterns@.map_values(|p: String| p@),
            body@ == joined(views.take(i as int)),
        decreases patterns.len() - i,
    {
        if i > 0 {
            body.append("|");
        }
        body.append(patterns[i].as_str());
        proof {
            reveal_strlit("|");
            assert(views.take(i + 1).drop_last() == views.take(i as int));
        }
        i = i + 1;
    }
    proof {
        assert(views.take(patterns.len() as int) == views);
    }
    let mut r = String::from_str("(");
    r.append(body.as_str());
    r.append(")");
    proof {
        reveal_strlit("(");
        reveal_strlit(")");
    }
    r
}

/// The three matchers of a job: file names to select, file names to
/// exclude, and directories whose contents are excluded.
pub struct JobMatchers {
    pub select: Matcher,
    pub exclude: Matcher,
    pub exclude_dir: Matcher,
}

impl JobMatchers {
    pub open spec fn wf(&self) -> bool {
        self.select.wf() && self.exclude.wf() && self.exclude_dir.wf()
    }

    /// Builds the matchers: the selecting and excluding patterns are anchored to the
    /// whole file name; the directory pattern is bounded by separators, so
    /// that it also covers everything below a matching directory.
    pub fn new(select: &str, exclude: &str, exclude_dir: &str, case_sensitive: bool) -> (m: JobMatchers)
        ensures
            m.wf(),
            m.select.pattern() == anchored(select@),
            m.exclude.pattern() == anchored(exclude@),
            m.exclude_dir.pattern() == between_separators(exclude_dir@),
            m.select.is_case_insensitive() == !case_sensitive,
            m.exclude.is_case_insensitive() == !case_sensitive,
            m.exclude_dir.is_case_insensitive() == !case_sensitive,
    {
        proof {
            reveal_strlit("^");
            reveal_strlit("$");
            reveal_strlit("\\/");
        }
        let mut inc = String::from_str("^");
        inc.append(select);
        inc.append("$");
        let mut exc = String::from_str("^");
        exc.append(exclude);
        exc.append("$");
        let mut dir = String::from_str("\\/");
        dir.append(exclude_dir);
        dir.append("\\/");
        JobMatchers {
            select: Matcher::new(inc.as_str(), !case_sensitive),
            exclude: Matcher::new(exc.as_str(), !case_sensitive),
            exclude_dir: Matcher::new(dir.as_str(), !case_sensitive),
        }
    }
}

} // verus!
