//! The mathematical model of a played signal: a sequence of timed steps,
//! each holding the output line high or low for some number of milliseconds.
//!
//! Durations are multiples of one base time unit: a dot pulse lasts one
//! unit and a dash pulse three; every pulse is followed by a one-unit gap,
//! every played character by a three-unit gap, and every word by a
//! seven-unit gap.

use vstd::prelude::*;
use crate::code::{Symbol, pattern_of, is_supported};

verus! {

/// One step of a signal timeline: the line level and how long it is held.
pub struct Step {
    pub high: bool,
    pub millis: int,
}

/// How long a symbol holds the line high: one base unit for a dot,
/// three for a dash.
pub open spec fn on_time(s: Symbol, base: int) -> int {
    match s {
        Symbol::Dot => base,
        Symbol::Dash => 3 * base,
    }
}

/// The two steps of one symbol: its pulse, then the one-unit
/// inter-symbol gap.
pub open spec fn symbol_steps(s: Symbol, base: int) -> Seq<Step> {
    seq![
        Step { high: true, millis: on_time(s, base) },
        Step { high: false, millis: base },
    ]
}

/// The steps of a whole pattern: each symbol's steps in order.
pub open spec fn pattern_steps(p: Seq<Symbol>, base: int) -> Seq<Step>
    decreases p.len(),
{
    if p.len() == 0 {
        Seq::empty()
    } else {
        pattern_steps(p.drop_last(), base) + symbol_steps(p.last(), base)
    }
}

/// The steps of one character: its pattern followed by the three-unit
/// inter-character gap if it is supported, nothing at all otherwise.
pub open spec fn char_steps(c: char, base: int) -> Seq<Step> {
    match pattern_of(c) {
        Some(p) => pattern_steps(p, base) + seq![Step { high: false, millis: 3 * base }],
        None => Seq::empty(),
    }
}

/// The steps of a word's characters, in order, without the trailing
/// inter-word gap.
pub open spec fn chars_steps(w: Seq<char>, base: int) -> Seq<Step>
    decreases w.len(),
{
    if w.len() == 0 {
        Seq::empty()
    } else {
        chars_steps(w.drop_last(), base) + char_steps(w.last(), base)
    }
}

/// The steps of one word: its characters' steps, then the seven-unit
/// inter-word gap. A word incurs the gap even when none of its characters
/// is playable.
pub open spec fn word_steps(w: Seq<char>, base: int) -> Seq<Step> {
    chars_steps(w, base) + seq![Step { high: false, millis: 7 * base }]
}

/// The steps of a sequence of words, in order.
pub open spec fn words_steps(ws: Seq<Seq<char>>, base: int) -> Seq<Step>
    decreases ws.len(),
{
    if ws.len() == 0 {
        Seq::empty()
    } else {
        words_steps(ws.drop_last(), base) + word_steps(ws.last(), base)
    }
}

/// Whether `c` separates words: ASCII whitespace.
pub open spec fn is_blank(c: char) -> bool {
    c == ' ' || c == '\t' || c == '\n' || c == '\r'
}

/// The words of a message: the message split at every blank character.
/// Consecutive blanks yield empty words, and a message always holds at
/// least one word (an empty message holds exactly one, the empty word).
pub open spec fn words_of(s: Seq<char>) -> Seq<Seq<char>>
    decreases s.len(),
{
    if s.len() == 0 {
        seq![Seq::empty()]
    } else if is_blank(s.last()) {
        words_of(s.drop_last()).push(Seq::empty())
    } else {
        let ws = words_of(s.drop_last());
        ws.update(ws.len() - 1, ws.last().push(s.last()))
    }
}

/// The full timeline of a message: the steps of each of its words.
pub open spec fn message_steps(s: Seq<char>, base: int) -> Seq<Step> {
    words_steps(words_of(s), base)
}

/// The timeline accumulated after reading a prefix of a message: every
/// finished word's steps, then the still-open last word's characters.
pub open spec fn prefix_steps(s: Seq<char>, base: int) -> Seq<Step> {
    words_steps(words_of(s).drop_last(), base) + chars_steps(words_of(s).last(), base)
}

/// A message always splits into at least one word.
pub proof fn lemma_words_of_nonempty(s: Seq<char>)
    ensures
        words_of(s).len() >= 1,
    decreases s.len(),
{
    if s.len() > 0 {
        lemma_words_of_nonempty(s.drop_last());
    }
}

/// Before anything is read, the accumulated timeline is empty.
pub proof fn lemma_prefix_steps_empty(base: int)
    ensures
        prefix_steps(Seq::empty(), base) == Seq::<Step>::empty(),
{
    assert(words_of(Seq::empty()).drop_last() =~= Seq::<Seq<char>>::empty());
    assert(prefix_steps(Seq::empty(), base) =~= Seq::<Step>::empty());
}

/// Reading a blank closes the current word: the accumulated timeline grows
/// by one inter-word gap.
pub proof fn lemma_prefix_steps_blank(s: Seq<char>, c: char, base: int)
    requires
        is_blank(c),
    ensures
        prefix_steps(s.push(c), base) == prefix_steps(s, base) + seq![
            Step { high: false, millis: 7 * base },
        ],
{
    lemma_words_of_nonempty(s);
    let ws = words_of(s);
    assert(s.push(c).drop_last() =~= s);
    assert(s.push(c).last() == c);
    assert(words_of(s.push(c)) == ws.push(Seq::<char>::empty()));
    assert(ws.push(Seq::<char>::empty()).drop_last() =~= ws);
    assert(ws.push(Seq::<char>::empty()).last() == Seq::<char>::empty());
    assert(prefix_steps(s.push(c), base) =~= words_steps(ws, base));
    assert(words_steps(ws, base) == words_steps(ws.drop_last(), base) + word_steps(
        ws.last(),
        base,
    ));
    assert(words_steps(ws, base) =~= prefix_steps(s, base) + seq![
        Step { high: false, millis: 7 * base },
    ]);
}

/// Reading a non-blank character extends the open word: the accumulated
/// timeline grows by that character's steps.
pub proof fn lemma_prefix_steps_char(s: Seq<char>, c: char, base: int)
    requires
        !is_blank(c),
    ensures
        prefix_steps(s.push(c), base) == prefix_steps(s, base) + char_steps(c, base),
{
    lemma_words_of_nonempty(s);
    let ws = words_of(s);
    let grown = ws.last().push(c);
    assert(s.push(c).drop_last() =~= s);
    assert(s.push(c).last() == c);
    assert(words_of(s.push(c)) == ws.update(ws.len() - 1, grown));
    assert(ws.update(ws.len() - 1, grown).drop_last() =~= ws.drop_last());
    assert(ws.update(ws.len() - 1, grown).last() == grown);
    assert(grown.drop_last() =~= ws.last());
    assert(grown.last() == c);
    assert(chars_steps(grown, base) == chars_steps(ws.last(), base) + char_steps(c, base));
    assert(prefix_steps(s.push(c), base) =~= prefix_steps(s, base) + char_steps(c, base));
}

/// A full message's timeline is the timeline accumulated over all of it,
/// closed by the final inter-word gap.
pub proof fn lemma_message_steps_close(s: Seq<char>, base: int)
    ensures
        message_steps(s, base) == prefix_steps(s, base) + seq![
            Step { high: false, millis: 7 * base },
        ],
{
    lemma_words_of_nonempty(s);
    let ws = words_of(s);
    assert(words_steps(ws, base) == words_steps(ws.drop_last(), base) + word_steps(
        ws.last(),
        base,
    ));
    assert(message_steps(s, base) =~= prefix_steps(s, base) + seq![
        Step { high: false, millis: 7 * base },
    ]);
}

/// A word of unsupported characters plays nothing at all.
proof fn lemma_unsupported_chars_steps(w: Seq<char>, base: int)
    requires
        forall|i: int| 0 <= i < w.len() ==> !is_supported(#[trigger] w[i]),
    ensures
        chars_steps(w, base) == Seq::<Step>::empty(),
    decreases w.len(),
{
    if w.len() > 0 {
        lemma_unsupported_chars_steps(w.drop_last(), base);
        assert(!is_supported(w[w.len() - 1]));
        assert(chars_steps(w, base) =~= Seq::<Step>::empty());
    } else {
        assert(chars_steps(w, base) =~= Seq::<Step>::empty());
    }
}

/// A word whose characters are all unsupported produces no pulse: its whole
/// timeline is the single trailing inter-word gap.
pub proof fn lemma_unsupported_word(w: Seq<char>, base: int)
    requires
        forall|i: int| 0 <= i < w.len() ==> !is_supported(#[trigger] w[i]),
    ensures
        word_steps(w, base) == seq![Step { high: false, millis: 7 * base }],
{
    lemma_unsupported_chars_steps(w, base);
    assert(word_steps(w, base) =~= seq![Step { high: false, millis: 7 * base }]);
}

/// A message without blanks is one single word.
pub proof fn lemma_words_of_solid(s: Seq<char>)
    requires
        forall|i: int| 0 <= i < s.len() ==> !is_blank(#[trigger] s[i]),
    ensures
        words_of(s) == seq![s],
    decreases s.len(),
{
    if s.len() == 0 {
        assert(words_of(s) =~~= seq![s]);
    } else {
        assert(!is_blank(s[s.len() - 1]));
        lemma_words_of_solid(s.drop_last());
        let ws = words_of(s.drop_last());
        assert(ws == seq![s.drop_last()]);
        assert(ws.last().push(s.last()) =~= s);
        assert(words_of(s) =~~= seq![s]);
    }
}

/// A message whose characters are all unsupported and none of them blank
/// produces zero pulses: its whole timeline is one inter-word gap.
pub proof fn lemma_unsupported_message(s: Seq<char>, base: int)
    requires
        forall|i: int| 0 <= i < s.len() ==> !is_blank(#[trigger] s[i]) && !is_supported(s[i]),
    ensures
        message_steps(s, base) == seq![Step { high: false, millis: 7 * base }],
{
    lemma_words_of_solid(s);
    lemma_unsupported_word(s, base);
    assert(seq![s].drop_last() =~= Seq::<Seq<char>>::empty());
    assert(seq![s].last() == s);
    assert(message_steps(s, base) == words_steps(Seq::<Seq<char>>::empty(), base) + word_steps(
        s,
        base,
    ));
    assert(message_steps(s, base) =~= seq![Step { high: false, millis: 7 * base }]);
}

/// Playing the same message with the same base unit twice yields the same
/// timeline: the schedule is a function of the message and the base unit
/// alone, so playback is repeatable.
pub proof fn lemma_play_repeatable(
    first: Seq<Step>,
    second: Seq<Step>,
    message: Seq<char>,
    base: int,
)
    requires
        first == message_steps(message, base),
        second == message_steps(message, base),
    ensures
        first == second,
{
}

} // verus!
