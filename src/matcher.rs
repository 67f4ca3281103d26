//! The matcher: one pattern and one strategy, fixed at construction, and a
//! single `execute` that decides whether a line matches.
use crate::regexp::{regex_compiles, regex_finds};
use crate::text::{contains_seq, str_contains};
use vstd::prelude::*;

verus! {

/// What a matcher decides, as a mathematical object: the pattern text and
/// whether it is taken literally or as a regular expression.
pub enum MatchRule {
    Literal(Seq<char>),
    Regexp(Seq<char>),
}

impl MatchRule {
    /// Whether `line` matches under this rule.
    pub open spec fn accepts(self, line: Seq<char>) -> bool {
        match self {
            MatchRule::Literal(p) => contains_seq(line, p),
            MatchRule::Regexp(p) => regex_finds(p, line),
        }
    }
}

/// One strategy for deciding whether a line matches.
pub trait MatcherTrait {
    /// The decision that `execute` makes on `line`.
    spec fn accepts(&self, line: Seq<char>) -> bool;

    fn execute(&self, line: &str) -> (r: bool)
        ensures
            r == self.accepts(line@),
    ;
}

/// A pattern that is looked for verbatim.
#[derive(Debug)]
pub struct FixedStringMatcher {
    pattern: String,
}

impl View for FixedStringMatcher {
    type V = Seq<char>;

    closed spec fn view(&self) -> Seq<char> {
        self.pattern@
    }
}

impl FixedStringMatcher {
    pub fn new(pattern: String) -> (r: FixedStringMatcher)
        ensures
            r@ == pattern@,
    {
        FixedStringMatcher { pattern }
    }
}

impl MatcherTrait for FixedStringMatcher {
    open spec fn accepts(&self, line: Seq<char>) -> bool {
        contains_seq(line, self@)
    }

    fn execute(&self, line: &str) -> (r: bool) {
        str_contains(line, self.pattern.as_str())
    }
}

/// The reason a pattern could not be compiled as a regular expression.
#[derive(Debug, PartialEq, Eq)]
pub struct PatternCompilationError {
    pub message: String,
}

/// A compiled regular expression, searched for anywhere in a line.
///
/// `regex` is always the compilation of `source`: a value of this type is
/// made only by `compile_matcher`, which sets both fields from one pattern.
pub struct ExtendRegexpMatcher {
    regex: regex::Regex,
    source: Ghost<Seq<char>>,
}

impl View for ExtendRegexpMatcher {
    type V = Seq<char>;

    closed spec fn view(&self) -> Seq<char> {
        self.source@
    }
}

/// Relies on `regex::Regex::new`: it returns `Ok` exactly for the patterns it
/// accepts. On success the compiled regex is stored together with the
/// pattern it was compiled from, so that `m@` names the regex in `m.regex`.
#[verifier::external_body]
fn compile_matcher(pattern: &str) -> (r: Result<ExtendRegexpMatcher, regex::Error>)
    ensures
        r is Ok <==> regex_compiles(pattern@),
        r is Ok ==> r->Ok_0@ == pattern@,
{
    regex::Regex::new(pattern).map(|regex| ExtendRegexpMatcher { regex, source: Ghost(pattern@) })
}

/// Relies on `regex::Regex::is_match`: true if and only if the regex matches
/// anywhere in the haystack. `m.regex` was compiled from `m@`, since only
/// `compile_matcher` makes an `ExtendRegexpMatcher`.
#[verifier::external_body]
fn regex_is_match(m: &ExtendRegexpMatcher, line: &str) -> (r: bool)
    ensures
        r == regex_finds(m@, line@),
{
    m.regex.is_match(line)
}

impl ExtendRegexpMatcher {
    pub fn new(pattern: String) -> (r: Result<ExtendRegexpMatcher, PatternCompilationError>)
        ensures
            r is Ok <==> regex_compiles(pattern@),
            r is Ok ==> r->Ok_0@ == pattern@,
    {
        match compile_matcher(pattern.as_str()) {
            Ok(m) => Ok(m),
            Err(e) => Err(PatternCompilationError { message: e.to_string() }),
        }
    }
}

impl MatcherTrait for ExtendRegexpMatcher {
    open spec fn accepts(&self, line: Seq<char>) -> bool {
        regex_finds(self@, line)
    }

    fn execute(&self, line: &str) -> (r: bool) {
        regex_is_match(self, line)
    }
}

/// A matcher with its strategy chosen once, at construction.
pub enum Matcher {
    ExtendedRegexp(ExtendRegexpMatcher),
    FixedString(FixedStringMatcher),
}

impl View for Matcher {
    type V = MatchRule;

    open spec fn view(&self) -> MatchRule {
        match self {
            Matcher::ExtendedRegexp(m) => MatchRule::Regexp(m@),
            Matcher::FixedString(m) => MatchRule::Literal(m@),
        }
    }
}

impl Matcher {
    /// A literal matcher when `is_fixed_string_mode`, else a regular
    /// expression matcher; the latter fails exactly when the pattern does
    /// not compile.
    pub fn new(pattern: String, is_fixed_string_mode: bool) -> (r: Result<
        Matcher,
        PatternCompilationError,
    >)
        ensures
            r is Ok <==> (is_fixed_string_mode || regex_compiles(pattern@)),
            r is Ok ==> r->Ok_0@ == (if is_fixed_string_mode {
                MatchRule::Literal(pattern@)
            } else {
                MatchRule::Regexp(pattern@)
            }),
    {
        if is_fixed_string_mode {
            Ok(Matcher::FixedString(FixedStringMatcher::new(pattern)))
        } else {
            match ExtendRegexpMatcher::new(pattern) {
                Ok(m) => Ok(Matcher::ExtendedRegexp(m)),
                Err(e) => Err(e),
            }
        }
    }

    /// Whether `line` matches.
    pub fn execute(&self, line: &str) -> (r: bool)
        ensures
            r == self@.accepts(line@),
    {
        match self {
            Matcher::FixedString(m) => m.execute(line),
            Matcher::ExtendedRegexp(m) => m.execute(line),
        }
    }
}

} // verus!
