//! When a step sounds: conditions, chances and the track's probability.
use crate::audio::schedule::{fresh_clock, ClockModel};
use crate::model::event::{StepEvent, TriggerCondition};
use crate::model::percent::Percent;
use crate::model::project::TRACK_COUNT;
use vstd::prelude::*;

verus! {

/// Between the extremes the track's generator moves one state on, and the step
/// sounds exactly where that state, modulo a hundred, is below the probability.
/// Nothing else of the clock changes.
pub proof fn probability_is_a_threshold(clock: ClockModel, probability: Percent)
    requires
        0 < probability@ < 100,
    ensures
        ({
            let (sounds, next) = clock.after_probability(probability);
            &&& sounds <==> (next.probability_rng as int) % 100 < probability@
            &&& next.probability_rng == (clock.probability_rng * 1_664_525 + 1_013_904_223)
                % 0x1_0000_0000
            &&& next.condition_rng == clock.condition_rng
            &&& next.cycle_counts == clock.cycle_counts
            &&& next.next_step == clock.next_step
            &&& next.early_armed == clock.early_armed
        }),
{
    generator_is_congruential(clock.probability_rng);
}

/// A step that sounds at one probability sounds at every higher one: from
/// never at nothing up to always at a hundred.
pub proof fn likelier_tracks_sound_whenever_others_do(
    clock: ClockModel,
    low: Percent,
    high: Percent,
)
    requires
        0 <= low@ <= high@ <= 100,
    ensures
        clock.after_probability(low).0 ==> clock.after_probability(high).0,
        low@ == 0 ==> !clock.after_probability(low).0,
        high@ == 100 ==> clock.after_probability(high).0,
{
}

/// The higher of two probabilities lets exactly those draws through that the
/// lower rejects and that fall short of it.
pub proof fn probabilities_differ_by_their_draws(clock: ClockModel, low: Percent, high: Percent)
    requires
        0 < low@ <= high@ < 100,
    ensures
        ({
            let drawn = clock.after_probability(low).1.probability_rng as int;
            clock.after_probability(high).0 && !clock.after_probability(low).0 <==> low@ <= drawn
                % 100 < high@
        }),
{
}

/// A chance draws from the generator of conditions and comes up exactly where
/// the state drawn, modulo a hundred, is below it: never at nothing, always at
/// a hundred, and the more often the higher it is.
pub proof fn chances_are_thresholds(clock: ClockModel, step: int, low: Percent, high: Percent)
    requires
        0 <= low@ <= high@ <= 100,
    ensures
        ({
            let (sounds, next) = clock.after_condition(
                step,
                TriggerCondition::Chance { probability: low },
            );
            &&& sounds <==> (next.condition_rng as int) % 100 < low@
            &&& next.condition_rng == (clock.condition_rng * 1_664_525 + 1_013_904_223)
                % 0x1_0000_0000
            &&& next.probability_rng == clock.probability_rng
            &&& next.cycle_counts == clock.cycle_counts
            &&& next.next_step == clock.next_step
            &&& next.early_armed == clock.early_armed
            &&& low@ == 0 ==> !sounds
            &&& low@ == 100 ==> sounds
            &&& sounds ==> clock.after_condition(
                step,
                TriggerCondition::Chance { probability: high },
            ).0
        }),
{
    generator_is_congruential(clock.condition_rng);
}

/// A step without a condition passes, and leaves nothing behind.
pub proof fn unconditional_steps_pass(clock: ClockModel, step: int)
    ensures
        clock.after_condition(step, TriggerCondition::Always) == (true, clock),
{
}

/// A cycle counts the passes of its own step alone, and draws no chance.
pub proof fn cycles_count_their_own_step(
    clock: ClockModel,
    step: int,
    other: int,
    position: u8,
    length: u8,
)
    requires
        1 <= position <= length,
        0 <= step < clock.cycle_counts.len(),
        0 <= other < clock.cycle_counts.len(),
        other != step,
    ensures
        ({
            let (sounds, next) = clock.after_condition(
                step,
                TriggerCondition::Cycle { position, length },
            );
            &&& sounds <==> (clock.cycle_counts[step] - (position - 1)) % (length as int) == 0
            &&& next.cycle_counts[step] == (clock.cycle_counts[step] + 1) % 0x1_0000_0000
            &&& next.cycle_counts[other] == clock.cycle_counts[other]
            &&& next.cycle_counts.len() == clock.cycle_counts.len()
            &&& next.condition_rng == clock.condition_rng
            &&& next.probability_rng == clock.probability_rng
            &&& next.next_step == clock.next_step
            &&& next.early_armed == clock.early_armed
        }),
{
    let count = clock.cycle_counts[step] as int;
    let n = length as int;
    let p = position - 1;
    vstd::arithmetic::div_mod::lemma_fundamental_div_mod(count, n);
    vstd::arithmetic::div_mod::lemma_fundamental_div_mod(count - p, n);
    if count % n == p {
        assert(count - p == (count / n) * n + 0) by (nonlinear_arith)
            requires
                count == n * (count / n) + count % n,
                count % n == p,
        ;
        vstd::arithmetic::div_mod::lemma_fundamental_div_mod_converse(
            count - p,
            n,
            count / n,
            0,
        );
    }
    if (count - p) % n == 0 {
        let q = (count - p) / n;
        assert(count == q * n + p) by (nonlinear_arith)
            requires
                count - p == n * q + (count - p) % n,
                (count - p) % n == 0,
        ;
        vstd::arithmetic::div_mod::lemma_fundamental_div_mod_converse(count, n, q, p);
    }
    if clock.cycle_counts[step] == u32::MAX {
        assert(0x1_0000_0000int % 0x1_0000_0000 == 0);
    }
}

/// A hit sounds where its condition and the track's probability both let it:
/// the condition is asked first, and the probability only of what it passes.
pub proof fn gates_ask_both(
    clock: ClockModel,
    step: int,
    event: StepEvent,
    condition: TriggerCondition,
    probability: Percent,
)
    requires
        event matches StepEvent::Trigger { condition: c, .. } ==> c == condition,
        event matches StepEvent::BassNote { condition: c, .. } ==> c == condition,
        event matches StepEvent::Note { condition: c, .. } ==> c == condition,
        event matches StepEvent::LeadNote { condition: c, .. } ==> c == condition,
        !(event is Tie),
        0 <= probability@ <= 100,
    ensures
        ({
            let (passed, asked) = clock.after_condition(step, condition);
            let (sounds, next) = clock.after_gate(step, Some(event), probability);
            &&& sounds ==> passed
            &&& probability@ == 0 ==> !sounds
            &&& probability@ == 100 ==> sounds == passed && next == asked
            &&& !passed ==> next == asked
            &&& passed && 0 < probability@ < 100 ==> (sounds <==> (next.probability_rng as int)
                % 100 < probability@) && next.condition_rng == asked.condition_rng
                && next.cycle_counts == asked.cycle_counts && next.probability_rng == (
            clock.probability_rng * 1_664_525 + 1_013_904_223) % 0x1_0000_0000
        }),
{
    generator_is_congruential(clock.probability_rng);
}

/// Ties and empty steps are never gated: they pass at any probability, draw
/// nothing and count nothing.
pub proof fn ties_and_rests_are_not_gated(
    clock: ClockModel,
    step: int,
    event: Option<StepEvent>,
    probability: Percent,
)
    requires
        event matches Some(e) ==> e is Tie,
    ensures
        clock.after_gate(step, event, probability) == (true, clock),
{
}

/// A track that has not played stands at its first step, has counted no pass
/// and has scheduled nothing ahead. No two tracks draw the same chances.
pub proof fn fresh_clocks_start_over(track: int, other: int, step: int)
    requires
        0 <= track < TRACK_COUNT,
        0 <= other < TRACK_COUNT,
        track != other,
        0 <= step < 64,
    ensures
        fresh_clock(track).next_step == 0,
        fresh_clock(track).early_armed is None,
        fresh_clock(track).cycle_counts.len() == 64,
        fresh_clock(track).cycle_counts[step] == 0,
        fresh_clock(track).condition_rng != fresh_clock(other).condition_rng,
        fresh_clock(track).probability_rng != fresh_clock(other).probability_rng,
{
    let a = track as u32;
    let b = other as u32;
    let ca = a.wrapping_mul(0x9e37_79b9);
    let cb = b.wrapping_mul(0x9e37_79b9);
    let pa = a.wrapping_mul(0x7f4a_7c15);
    let pb = b.wrapping_mul(0x7f4a_7c15);
    products_differ(a, b);
    assert(ca != cb ==> 0x8a5c_9d31u32 ^ ca != 0x8a5c_9d31u32 ^ cb) by (bit_vector);
    assert(pa != pb ==> 0x3c6e_f372u32 ^ pa != 0x3c6e_f372u32 ^ pb) by (bit_vector);
}

proof fn products_differ(a: u32, b: u32)
    requires
        a < 10,
        b < 10,
        a != b,
    ensures
        (a * 0x9e37_79b9) % 0x1_0000_0000 != (b * 0x9e37_79b9) % 0x1_0000_0000,
        (a * 0x7f4a_7c15) % 0x1_0000_0000 != (b * 0x7f4a_7c15) % 0x1_0000_0000,
{
    assert((a * 0x9e37_79b9) % 0x1_0000_0000 != (b * 0x9e37_79b9) % 0x1_0000_0000 && (a
        * 0x7f4a_7c15) % 0x1_0000_0000 != (b * 0x7f4a_7c15) % 0x1_0000_0000) by (bit_vector)
        requires
            a < 10,
            b < 10,
            a != b,
    ;
}

proof fn generator_is_congruential(state: u32)
    ensures
        crate::audio::schedule::lcg(state) == (state * 1_664_525 + 1_013_904_223) % 0x1_0000_0000,
{
    let m = state.wrapping_mul(1_664_525);
    assert(m == (state * 1_664_525) % 0x1_0000_0000);
    assert(((state * 1_664_525) % 0x1_0000_0000 + 1_013_904_223) % 0x1_0000_0000 == (state
        * 1_664_525 + 1_013_904_223) % 0x1_0000_0000);
    let s = m + 1_013_904_223;
    assert(m.wrapping_add(1_013_904_223) == s % 0x1_0000_0000);
}

} // verus!
