use morse_blink::code::Symbol;
use morse_blink::player::{emit_symbol, is_blank_char, play, play_cycle, Slot};

#[test]
fn emit_symbol_appends_pulse_and_gap() {
    let mut out: Vec<Slot> = Vec::new();
    emit_symbol(&mut out, Symbol::Dot, 100);
    assert_eq!(
        out,
        vec![
            Slot { high: true, millis: 100 },
            Slot { high: false, millis: 100 },
        ]
    );
    emit_symbol(&mut out, Symbol::Dash, 100);
    assert_eq!(
        out,
        vec![
            Slot { high: true, millis: 100 },
            Slot { high: false, millis: 100 },
            Slot { high: true, millis: 300 },
            Slot { high: false, millis: 100 },
        ]
    );
}

#[test]
fn blanks_separate_words() {
    assert!(is_blank_char(' '));
    assert!(is_blank_char('\t'));
    assert!(is_blank_char('\n'));
    assert!(is_blank_char('\r'));
    assert!(!is_blank_char('A'));
    assert!(!is_blank_char('!'));
}

#[test]
fn single_dot_letter_round_trip() {
    // "E" is one dot: a one-unit pulse, the one-unit symbol gap, the
    // three-unit character gap, then the word's seven-unit trailing gap.
    let timeline = play("E", 100);
    assert_eq!(
        timeline,
        vec![
            Slot { high: true, millis: 100 },
            Slot { high: false, millis: 100 },
            Slot { high: false, millis: 300 },
            Slot { high: false, millis: 700 },
        ]
    );
}

#[test]
fn sos_pulse_pattern() {
    let base: u64 = 200;
    let timeline = play("SOS", base);
    let mut expected: Vec<Slot> = Vec::new();
    // S: three dots.
    for _ in 0..3 {
        expected.push(Slot { high: true, millis: 200 });
        expected.push(Slot { high: false, millis: 200 });
    }
    expected.push(Slot { high: false, millis: 600 });
    // O: three dashes.
    for _ in 0..3 {
        expected.push(Slot { high: true, millis: 600 });
        expected.push(Slot { high: false, millis: 200 });
    }
    expected.push(Slot { high: false, millis: 600 });
    // S: three dots.
    for _ in 0..3 {
        expected.push(Slot { high: true, millis: 200 });
        expected.push(Slot { high: false, millis: 200 });
    }
    expected.push(Slot { high: false, millis: 600 });
    // Inter-word gap.
    expected.push(Slot { high: false, millis: 1400 });
    assert_eq!(timeline, expected);

    let pulses = timeline.iter().filter(|s| s.high).count();
    assert_eq!(pulses, 9);
}

#[test]
fn sos_timing_totals() {
    // base_unit = 200ms: the dot pulses hold the line high for 6 x 200ms,
    // the dash pulses for 3 x 600ms = 9 x 200ms = 1800ms, and the whole
    // timeline is fully determined.
    let timeline = play("SOS", 200);
    let dot_on: u64 = timeline
        .iter()
        .filter(|s| s.high && s.millis == 200)
        .map(|s| s.millis)
        .sum();
    let dash_on: u64 = timeline
        .iter()
        .filter(|s| s.high && s.millis == 600)
        .map(|s| s.millis)
        .sum();
    let total_on: u64 = timeline.iter().filter(|s| s.high).map(|s| s.millis).sum();
    let total: u64 = timeline.iter().map(|s| s.millis).sum();
    assert_eq!(dot_on, 1200);
    assert_eq!(dash_on, 1800);
    assert_eq!(total_on, 3000);
    assert_eq!(total, 8000);
}

#[test]
fn playing_twice_gives_the_same_timeline() {
    let first = play("HELLO, WORLD?", 200);
    let second = play("HELLO, WORLD?", 200);
    assert_eq!(first, second);
}

#[test]
fn unsupported_only_message_keeps_the_word_gap() {
    let timeline = play("!!!", 50);
    assert_eq!(timeline, vec![Slot { high: false, millis: 350 }]);
    assert_eq!(timeline.iter().filter(|s| s.high).count(), 0);
}

#[test]
fn empty_message_is_one_word_gap() {
    let timeline = play("", 100);
    assert_eq!(timeline, vec![Slot { high: false, millis: 700 }]);
}

#[test]
fn unsupported_characters_are_skipped_inside_words() {
    // Lowercase letters are skipped with no gap of their own: "aEa" plays
    // exactly as "E" does.
    assert_eq!(play("aEa", 100), play("E", 100));
}

#[test]
fn consecutive_blanks_keep_their_word_gaps() {
    // "E  E" splits into the words ["E", "", "E"]: the empty middle word
    // still incurs an inter-word gap.
    let timeline = play("E  E", 100);
    let e_steps = [
        Slot { high: true, millis: 100 },
        Slot { high: false, millis: 100 },
        Slot { high: false, millis: 300 },
    ];
    let mut expected: Vec<Slot> = Vec::new();
    expected.extend_from_slice(&e_steps);
    expected.push(Slot { high: false, millis: 700 });
    expected.push(Slot { high: false, millis: 700 });
    expected.extend_from_slice(&e_steps);
    expected.push(Slot { high: false, millis: 700 });
    assert_eq!(timeline, expected);
}

#[test]
fn cycle_plays_each_message_with_its_gap() {
    let messages = vec!["E", "T"];
    let timeline = play_cycle(&messages, 100);
    let mut expected = play("E", 100);
    expected.push(Slot { high: false, millis: 1400 });
    expected.extend(play("T", 100));
    expected.push(Slot { high: false, millis: 1400 });
    assert_eq!(timeline, expected);
}

#[test]
fn cycle_of_no_messages_is_empty() {
    let messages: Vec<&str> = Vec::new();
    assert_eq!(play_cycle(&messages, 100), Vec::new());
}

#[test]
fn cycle_is_repeatable() {
    let messages = vec!["YYZ", "HELLO, WORLD?", "SOS"];
    assert_eq!(play_cycle(&messages, 200), play_cycle(&messages, 200));
}
