//! Properties that hold of every matcher, stated over `MatchRule`, the model
//! that `Matcher::new` and `Matcher::execute` are specified against.
use crate::matcher::MatchRule;
use crate::regexp::regex_finds;
use crate::text::occurs_at;
use vstd::prelude::*;

verus! {

/// In literal mode a line matches exactly when it contains the pattern: when
/// it splits into some prefix, the pattern itself, and some suffix.
pub proof fn literal_mode_is_containment(p: Seq<char>, l: Seq<char>)
    ensures
        MatchRule::Literal(p).accepts(l) <==> exists|a: Seq<char>, b: Seq<char>| l == a + p + b,
{
    if MatchRule::Literal(p).accepts(l) {
        let i = choose|i: int| occurs_at(l, p, i);
        let a = l.subrange(0, i);
        let b = l.subrange(i + p.len(), l.len() as int);
        assert(l =~= a + p + b);
    }
    if exists|a: Seq<char>, b: Seq<char>| l == a + p + b {
        let (a, b) = choose|a: Seq<char>, b: Seq<char>| l == a + p + b;
        assert(l.subrange(a.len() as int, (a.len() + p.len()) as int) =~= p);
        assert(occurs_at(l, p, a.len() as int));
    }
}

/// The empty literal pattern matches every line, the empty line included.
pub proof fn empty_literal_matches_every_line(l: Seq<char>)
    ensures
        MatchRule::Literal(Seq::empty()).accepts(l),
{
    assert(l.subrange(0, 0) =~= Seq::<char>::empty());
    assert(occurs_at(l, Seq::empty(), 0));
}

/// In regular expression mode a line matches exactly when the compiled
/// pattern matches somewhere in it, not necessarily at its start or end.
pub proof fn regexp_mode_is_unanchored_search(p: Seq<char>, l: Seq<char>)
    ensures
        MatchRule::Regexp(p).accepts(l) == regex_finds(p, l),
{
}

/// A matcher carries no state from one call to the next: two decisions on
/// the same line are the same.
pub proof fn execute_is_repeatable(m: MatchRule, l: Seq<char>, r1: bool, r2: bool)
    requires
        r1 == m.accepts(l),
        r2 == m.accepts(l),
    ensures
        r1 == r2,
{
}

} // verus!
