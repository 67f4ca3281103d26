use linematch::text::{chars_of, contains_chars, str_contains};
use linematch::{ExtendRegexpMatcher, FixedStringMatcher, Matcher, MatcherTrait};

#[test]
fn test_extended_regexp_matcher() {
    let matcher = Matcher::new("Z".to_string(), false).unwrap();
    assert_eq!(false, matcher.execute("abcdefg"));
    let matcher = Matcher::new("a+.b+.".to_string(), true).unwrap();
    assert_eq!(false, matcher.execute("aaa bbb"));
}

#[test]
fn it_works() {
    assert_eq!(2 + 2, 4);
}

#[test]
fn regex_mode_matches_quantifiers_and_dot() {
    let matcher = Matcher::new("a+.b+.".to_string(), false).unwrap();
    assert_eq!(true, matcher.execute("aaa bbb"));
}

#[test]
fn regex_mode_search_is_unanchored() {
    let matcher = Matcher::new("cat".to_string(), false).unwrap();
    assert!(matcher.execute("concatenate"));
    let anchored = Matcher::new("^cat".to_string(), false).unwrap();
    assert!(!anchored.execute("concatenate"));
    assert!(anchored.execute("catalog"));
}

#[test]
fn malformed_regex_is_refused() {
    let err = Matcher::new("(".to_string(), false).err().unwrap();
    assert!(!err.message.is_empty());
    assert!(Matcher::new("a{2".to_string(), false).is_err());
    assert!(ExtendRegexpMatcher::new("[abc".to_string()).is_err());
}

#[test]
fn malformed_regex_is_accepted_literally() {
    let matcher = Matcher::new("(".to_string(), true).unwrap();
    assert!(matcher.execute("f(x)"));
    assert!(!matcher.execute("fx"));
}

#[test]
fn literal_mode_is_substring_containment() {
    let cases = [
        ("abc", "xxabcxx", true),
        ("abc", "abc", true),
        ("abc", "ab", false),
        ("abc", "acb", false),
        ("a+", "aa+b", true),
        ("a+", "aaab", false),
        ("é", "héllo", true),
        ("lo", "héllo", true),
        ("hé", "hello", false),
    ];
    for (p, l, expected) in cases {
        let matcher = Matcher::new(p.to_string(), true).unwrap();
        assert_eq!(expected, matcher.execute(l));
        assert_eq!(l.contains(p), matcher.execute(l));
    }
}

#[test]
fn empty_literal_matches_every_line() {
    let matcher = Matcher::new(String::new(), true).unwrap();
    assert!(matcher.execute(""));
    assert!(matcher.execute("abc"));
    assert!(matcher.execute("héllo wörld"));
}

#[test]
fn empty_regex_matches_every_line() {
    let matcher = Matcher::new(String::new(), false).unwrap();
    assert!(matcher.execute(""));
    assert!(matcher.execute("abc"));
}

#[test]
fn longer_literal_than_line_does_not_match() {
    let matcher = Matcher::new("abcdef".to_string(), true).unwrap();
    assert!(!matcher.execute("abc"));
    assert!(!matcher.execute(""));
}

#[test]
fn execute_is_repeatable() {
    let literal = Matcher::new("bb".to_string(), true).unwrap();
    let regex = Matcher::new("b+$".to_string(), false).unwrap();
    for _ in 0..3 {
        assert!(literal.execute("aaa bbb"));
        assert!(regex.execute("aaa bbb"));
        assert!(!regex.execute("bbb aaa"));
    }
}

#[test]
fn strategies_through_the_trait() {
    let fixed = FixedStringMatcher::new("b+".to_string());
    assert!(fixed.execute("ab+c"));
    assert!(!fixed.execute("abbc"));
    let regex = ExtendRegexpMatcher::new("b+".to_string()).unwrap();
    assert!(regex.execute("abbc"));
    assert!(!regex.execute("ac"));
}

#[test]
fn character_helpers() {
    assert_eq!(vec!['h', 'é', 'l'], chars_of("hél"));
    assert!(chars_of("").is_empty());
    assert!(contains_chars(&vec!['a', 'b', 'c'], &vec!['b', 'c']));
    assert!(!contains_chars(&vec!['a', 'b'], &vec!['b', 'c']));
    assert!(contains_chars(&vec![], &vec![]));
    assert!(str_contains("needle in haystack", "in hay"));
    assert!(!str_contains("needle", "needles"));
}
