use setmod::aliases::{Aliases, Match, MatchReplace, Part, Replace, Template};
use setmod::text::{decimal, str_eq};
use setmod::words::Words;

fn alias(name: &str, parts: Vec<Part>) -> MatchReplace {
    MatchReplace {
        m: Match::parse(name).unwrap(),
        replace: Replace::Template(Template { parts }),
    }
}

#[test]
fn words_are_split_on_whitespace() {
    let mut w = Words::split("  !so   some one\tthere ");
    assert_eq!(w.next().as_deref(), Some("!so"));
    assert_eq!(w.rest(), "some one\tthere ");
    assert_eq!(w.next().as_deref(), Some("some"));
    assert_eq!(w.next().as_deref(), Some("one"));
    assert_eq!(w.next().as_deref(), Some("there"));
    assert_eq!(w.next(), None);
    assert_eq!(w.rest(), "");
}

#[test]
fn match_needs_bang() {
    assert!(Match::parse("song").is_none());
    assert!(Match::parse("").is_none());
    assert!(Match::parse("!song").is_some());
}

#[test]
fn alias_renders_rest() {
    let a = alias("!sr", vec![Part::Text("!song request ".to_string()), Part::Rest]);
    assert_eq!(a.matches(Words::split("!sr never gonna")), Some("!song request never gonna".to_string()));
    assert_eq!(a.matches(Words::split("!srx never")), None);
    assert_eq!(a.matches(Words::split("sr never")), None);
    assert_eq!(a.matches(Words::split("")), None);
}

#[test]
fn lookup_takes_first_match() {
    let aliases = Aliases::new(vec![
        alias("!a", vec![Part::Text("first".to_string())]),
        alias("!b", vec![Part::Text("second ".to_string()), Part::Rest]),
        alias("!b", vec![Part::Text("third".to_string())]),
    ]);
    assert_eq!(aliases.lookup(Words::split("!b x y")), Some("second x y".to_string()));
    assert_eq!(aliases.lookup(Words::split("!a")), Some("first".to_string()));
    assert_eq!(aliases.lookup(Words::split("!c")), None);
}

#[test]
fn render_with_empty_rest() {
    let r = Replace::Template(Template { parts: vec![Part::Rest, Part::Text("!".to_string())] });
    assert_eq!(r.render(Words::split("   ")), Some("!".to_string()));
}

#[test]
fn decimal_digits() {
    assert_eq!(decimal(0), "0");
    assert_eq!(decimal(7), "7");
    assert_eq!(decimal(1_234_567_890), "1234567890");
    assert_eq!(decimal(u32::MAX), "4294967295");
}

#[test]
fn str_eq_compares_characters() {
    assert!(str_eq("undo", "undo"));
    assert!(!str_eq("undo", "und"));
    assert!(!str_eq("undo", "Undo"));
}
