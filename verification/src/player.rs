//! The executable scheduler: it computes, for a message and a base time
//! unit, the exact timeline of pulses and gaps that plays the message,
//! and for a list of messages the timeline of one full pass of the
//! driver loop.
//!
//! The schedule is plain data; whatever drives the physical line walks
//! it slot by slot, setting the level and waiting out each duration.

use vstd::prelude::*;
use crate::code::{Symbol, pattern_of, lookup};
use crate::timeline::{
    Step,
    symbol_steps,
    pattern_steps,
    char_steps,
    message_steps,
    prefix_steps,
    is_blank,
    lemma_prefix_steps_empty,
    lemma_prefix_steps_blank,
    lemma_prefix_steps_char,
    lemma_message_steps_close,
};

verus! {

/// One entry of a playable schedule: hold the line at level `high`
/// for `millis` milliseconds.
#[derive(Clone, Copy, PartialEq, Eq, Structural, Debug)]
pub struct Slot {
    pub high: bool,
    pub millis: u64,
}

impl Slot {
    /// The timeline step this slot performs.
    pub open spec fn step(self) -> Step {
        Step { high: self.high, millis: self.millis as int }
    }
}

/// The timeline that a schedule performs, slot by slot.
pub open spec fn steps(slots: Seq<Slot>) -> Seq<Step> {
    slots.map_values(|s: Slot| s.step())
}

/// Whether `c` separates words.
pub fn is_blank_char(c: char) -> (r: bool)
    ensures
        r == is_blank(c),
{
    c == ' ' || c == '\t' || c == '\n' || c == '\r'
}

/// Append the two timed slots of one symbol: its pulse, then the
/// one-unit inter-symbol gap.
pub fn emit_symbol(out: &mut Vec<Slot>, sym: Symbol, base_unit: u64)
    requires
        3 * (base_unit as int) <= u64::MAX,
    ensures
        steps(final(out)@) == steps(old(out)@) + symbol_steps(sym, base_unit as int),
{
    let on: u64 = match sym {
        Symbol::Dot => base_unit,
        Symbol::Dash => 3 * base_unit,
    };
    let ghost before = out@;
    out.push(Slot { high: true, millis: on });
    let ghost mid = out@;
    out.push(Slot { high: false, millis: base_unit });
    proof {
        let f = |s: Slot| s.step();
        before.lemma_push_map_commute(f, Slot { high: true, millis: on });
        mid.lemma_push_map_commute(f, Slot { high: false, millis: base_unit });
        assert(steps(out@) =~= steps(before) + symbol_steps(sym, base_unit as int));
    }
}

/// Compute the schedule of one message: for each word, each supported
/// character's pulses with their gaps, unsupported characters skipped,
/// and the inter-word gap after every word.
pub fn play(message: &str, base_unit: u64) -> (timeline: Vec<Slot>)
    requires
        7 * (base_unit as int) <= u64::MAX,
    ensures
        steps(timeline@) == message_steps(message@, base_unit as int),
{
    let ghost base = base_unit as int;
    let mut out: Vec<Slot> = Vec::new();
    let n: usize = message.unicode_len();
    proof {
        lemma_prefix_steps_empty(base);
        assert(message@.take(0) =~= Seq::<char>::empty());
        assert(steps(out@) =~= Seq::<Step>::empty());
    }
    let mut i: usize = 0;
    while i < n
        invariant
            i <= n,
            n == message@.len(),
            7 * base <= u64::MAX,
            base == base_unit as int,
            steps(out@) == prefix_steps(message@.take(i as int), base),
        decreases n - i,
    {
        let c = message.get_char(i);
        let ghost seen = message@.take(i as int);
        proof {
            assert(message@.take(i as int + 1) =~= seen.push(c));
        }
        if is_blank_char(c) {
            let ghost before = out@;
            let word_gap: u64 = 7 * base_unit;
            out.push(Slot { high: false, millis: word_gap });
            proof {
                before.lemma_push_map_commute(
                    |s: Slot| s.step(),
                    Slot { high: false, millis: word_gap },
                );
                lemma_prefix_steps_blank(seen, c, base);
                assert(steps(out@) =~= prefix_steps(seen.push(c), base));
            }
        } else {
            match lookup(c) {
                Some(pattern) => {
                    let ghost at_char = out@;
                    let mut j: usize = 0;
                    while j < pattern.len()
                        invariant
                            j <= pattern@.len(),
                            pattern_of(c) == Some(pattern@),
                            7 * base <= u64::MAX,
                            base == base_unit as int,
                            steps(out@) == steps(at_char) + pattern_steps(
                                pattern@.take(j as int),
                                base,
                            ),
                        decreases pattern@.len() - j,
                    {
                        emit_symbol(&mut out, pattern[j], base_unit);
                        proof {
                            assert(pattern@.take(j as int + 1).drop_last() =~= pattern@.take(
                                j as int,
                            ));
                            assert(pattern@.take(j as int + 1).last() == pattern@[j as int]);
                            assert(steps(out@) =~= steps(at_char) + pattern_steps(
                                pattern@.take(j as int + 1),
                                base,
                            ));
                        }
                        j += 1;
                    }
                    let ghost before = out@;
                    let char_gap: u64 = 3 * base_unit;
                    out.push(Slot { high: false, millis: char_gap });
                    proof {
                        assert(pattern@.take(pattern@.len() as int) =~= pattern@);
                        before.lemma_push_map_commute(
                            |s: Slot| s.step(),
                            Slot { high: false, millis: char_gap },
                        );
                        lemma_prefix_steps_char(seen, c, base);
                        assert(steps(out@) =~= prefix_steps(seen.push(c), base));
                    }
                },
                None => {
                    proof {
                        lemma_prefix_steps_char(seen, c, base);
                        assert(char_steps(c, base) =~= Seq::<Step>::empty());
                        assert(steps(out@) =~= prefix_steps(seen.push(c), base));
                    }
                },
            }
        }
        i += 1;
    }
    proof {
        assert(message@.take(n as int) =~= message@);
    }
    let ghost before = out@;
    let word_gap: u64 = 7 * base_unit;
    out.push(Slot { high: false, millis: word_gap });
    proof {
        before.lemma_push_map_commute(
            |s: Slot| s.step(),
            Slot { high: false, millis: word_gap },
        );
        lemma_message_steps_close(message@, base);
        assert(steps(out@) =~= message_steps(message@, base));
    }
    out
}

/// The timeline of one full pass of the driver loop: each message's
/// timeline in order, each followed by the fourteen-unit
/// inter-message gap.
pub open spec fn cycle_steps(msgs: Seq<Seq<char>>, base: int) -> Seq<Step>
    decreases msgs.len(),
{
    if msgs.len() == 0 {
        Seq::empty()
    } else {
        cycle_steps(msgs.drop_last(), base) + message_steps(msgs.last(), base) + seq![
            Step { high: false, millis: 14 * base },
        ]
    }
}

/// Compute the schedule of one full pass over a fixed list of messages:
/// play each in order and rest for the inter-message gap after each.
/// The driver repeats this schedule forever.
pub fn play_cycle(messages: &Vec<&str>, base_unit: u64) -> (timeline: Vec<Slot>)
    requires
        14 * (base_unit as int) <= u64::MAX,
    ensures
        steps(timeline@) == cycle_steps(
            messages@.map_values(|m: &str| m@),
            base_unit as int,
        ),
{
    let ghost base = base_unit as int;
    let ghost msgs = messages@.map_values(|m: &str| m@);
    let mut out: Vec<Slot> = Vec::new();
    proof {
        assert(msgs.take(0) =~= Seq::<Seq<char>>::empty());
        assert(steps(out@) =~= Seq::<Step>::empty());
    }
    let mut k: usize = 0;
    while k < messages.len()
        invariant
            k <= messages@.len(),
            14 * base <= u64::MAX,
            base == base_unit as int,
            msgs == messages@.map_values(|m: &str| m@),
            steps(out@) == cycle_steps(msgs.take(k as int), base),
        decreases messages@.len() - k,
    {
        let mut played = play(messages[k], base_unit);
        let ghost at_msg = out@;
        let ghost played_view = played@;
        out.append(&mut played);
        let ghost mid = out@;
        let message_gap: u64 = 14 * base_unit;
        out.push(Slot { high: false, millis: message_gap });
        proof {
            assert(msgs.take(k as int + 1).drop_last() =~= msgs.take(k as int));
            assert(msgs.take(k as int + 1).last() == msgs[k as int]);
            assert(msgs[k as int] == messages@[k as int]@);
            assert(steps(mid) =~= steps(at_msg) + steps(played_view));
            mid.lemma_push_map_commute(
                |s: Slot| s.step(),
                Slot { high: false, millis: message_gap },
            );
            assert(steps(out@) =~= cycle_steps(msgs.take(k as int + 1), base));
        }
        k += 1;
    }
    proof {
        assert(msgs.take(messages@.len() as int) =~= msgs);
    }
    out
}

} // verus!

