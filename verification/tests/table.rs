use morse_blink::code::{lookup, Symbol};

#[test]
fn every_supported_character_has_a_nonempty_pattern() {
    let supported = "ABCDEFGHIJKLMNOPQRSTUVWXYZ0123456789.,?";
    for c in supported.chars() {
        let pattern = lookup(c);
        assert!(pattern.is_some(), "{} should be supported", c);
        assert!(!pattern.unwrap().is_empty(), "{} should have a nonempty pattern", c);
    }
}

#[test]
fn unsupported_characters_have_no_pattern() {
    for c in [' ', '\t', '\n', 'a', 'e', 'z', '!', ';', ':', '-', '/', '@', 'é', 'µ'] {
        assert!(lookup(c).is_none(), "{:?} should be unsupported", c);
    }
}

#[test]
fn letter_patterns_match_the_table() {
    assert_eq!(lookup('E'), Some(vec![Symbol::Dot]));
    assert_eq!(lookup('T'), Some(vec![Symbol::Dash]));
    assert_eq!(lookup('A'), Some(vec![Symbol::Dot, Symbol::Dash]));
    assert_eq!(lookup('S'), Some(vec![Symbol::Dot, Symbol::Dot, Symbol::Dot]));
    assert_eq!(lookup('O'), Some(vec![Symbol::Dash, Symbol::Dash, Symbol::Dash]));
    assert_eq!(
        lookup('Q'),
        Some(vec![Symbol::Dash, Symbol::Dash, Symbol::Dot, Symbol::Dash])
    );
}

#[test]
fn digit_patterns_match_the_table() {
    assert_eq!(
        lookup('0'),
        Some(vec![Symbol::Dash, Symbol::Dash, Symbol::Dash, Symbol::Dash, Symbol::Dash])
    );
    assert_eq!(
        lookup('5'),
        Some(vec![Symbol::Dot, Symbol::Dot, Symbol::Dot, Symbol::Dot, Symbol::Dot])
    );
    assert_eq!(
        lookup('7'),
        Some(vec![Symbol::Dash, Symbol::Dash, Symbol::Dot, Symbol::Dot, Symbol::Dot])
    );
}

#[test]
fn punctuation_patterns_match_the_table() {
    assert_eq!(
        lookup('.'),
        Some(vec![
            Symbol::Dot,
            Symbol::Dash,
            Symbol::Dot,
            Symbol::Dash,
            Symbol::Dot,
            Symbol::Dash
        ])
    );
    assert_eq!(
        lookup(','),
        Some(vec![
            Symbol::Dash,
            Symbol::Dash,
            Symbol::Dot,
            Symbol::Dot,
            Symbol::Dash,
            Symbol::Dash
        ])
    );
    assert_eq!(
        lookup('?'),
        Some(vec![
            Symbol::Dot,
            Symbol::Dot,
            Symbol::Dash,
            Symbol::Dash,
            Symbol::Dot,
            Symbol::Dot
        ])
    );
}

#[test]
fn lowercase_letters_are_unsupported() {
    for c in 'a'..='z' {
        assert!(lookup(c).is_none(), "{} should be unsupported", c);
    }
}
