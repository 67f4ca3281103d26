//! Single-line match decisions: does a line contain a literal pattern, or
//! does an extended regular expression match somewhere in it.
pub mod laws;
pub mod matcher;
pub mod regexp;
pub mod text;

pub use matcher::{
    ExtendRegexpMatcher, FixedStringMatcher, MatchRule, Matcher, MatcherTrait,
    PatternCompilationError,
};
