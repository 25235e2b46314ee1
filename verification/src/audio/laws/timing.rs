//! When a step is heard: swing, microtiming, retriggers and early starts.
use crate::audio::schedule::{
    burst_actions, burst_timing, early_start, event_offset, hit_count, last_offset, micro_offset,
    swing_delay, takeover, track_boundary, ClockModel, ScheduledTrackAction,
};
use crate::audio::snapshot::{AudioTrack, SequenceModel};
use crate::audio::transport::MAX_STEP_SAMPLES;
use crate::model::event::StepEvent;
use crate::model::percent::Microtiming;
use crate::model::project::step_wf;
use vstd::prelude::*;

verus! {

proof fn quotients_round_down(value: int, parts: int)
    requires
        parts > 0,
    ensures
        parts * (value / parts) <= value < parts * (value / parts + 1),
{
    vstd::arithmetic::div_mod::lemma_fundamental_div_mod(value, parts);
    assert(parts * (value / parts + 1) == parts * (value / parts) + parts) by (nonlinear_arith);
}

proof fn shares_grow(whole: int, low: int, high: int, parts: int)
    requires
        0 <= whole,
        0 <= low <= high <= parts,
        parts >= 1,
    ensures
        0 <= whole * low / parts <= whole * high / parts <= whole,
        high < parts && whole > 0 ==> whole * high / parts < whole,
{
    quotients_round_down(whole * low, parts);
    quotients_round_down(whole * high, parts);
    let a = whole * low / parts;
    let b = whole * high / parts;
    assert(0 <= whole * low <= whole * high <= whole * parts) by (nonlinear_arith)
        requires
            0 <= whole,
            0 <= low <= high <= parts,
    ;
    assert(0 <= a) by (nonlinear_arith)
        requires
            0 <= whole * low < parts * (a + 1),
            parts >= 1,
    ;
    assert(a <= b) by (nonlinear_arith)
        requires
            parts * a <= whole * low <= whole * high < parts * (b + 1),
            parts >= 1,
    ;
    assert(b <= whole) by (nonlinear_arith)
        requires
            parts * b <= whole * high <= whole * parts,
            parts >= 1,
    ;
    if high < parts && whole > 0 {
        assert(whole * high < whole * parts) by (nonlinear_arith)
            requires
                high < parts,
                whole > 0,
        ;
        assert(b < whole) by (nonlinear_arith)
            requires
                parts * b < whole * parts,
                parts >= 1,
        ;
    }
}

/// Swing delays every second step of a bar by its share of a step, rounded
/// down, and no other: nothing at none, a whole step at full swing, and the
/// more the higher it is.
pub proof fn swing_delays_every_second_step(swing: int, more: int, step_samples: int)
    requires
        0 <= swing <= more <= 100,
        0 <= step_samples,
    ensures
        swing_delay(false, swing, step_samples) == 0,
        100 * swing_delay(true, swing, step_samples) <= step_samples * swing,
        step_samples * swing < 100 * (swing_delay(true, swing, step_samples) + 1),
        swing_delay(true, 0, step_samples) == 0,
        swing_delay(true, 100, step_samples) == step_samples,
        0 <= swing_delay(true, swing, step_samples) <= swing_delay(true, more, step_samples)
            <= step_samples,
{
    quotients_round_down(step_samples * swing, 100);
    shares_grow(step_samples, swing, more, 100);
    assert(step_samples * 0 == 0) by (nonlinear_arith);
}

/// Microtiming moves an event by its share of a step, rounded towards the
/// step: late where it is above nothing, and early by as much where it is as
/// far below.
pub proof fn microtiming_moves_by_its_share(step_samples: int, timing: int)
    requires
        0 <= step_samples,
        0 <= timing <= 50,
    ensures
        100 * micro_offset(step_samples, timing) <= step_samples * timing,
        step_samples * timing < 100 * (micro_offset(step_samples, timing) + 1),
        micro_offset(step_samples, -timing) == -micro_offset(step_samples, timing),
        0 <= 2 * micro_offset(step_samples, timing) <= step_samples,
        micro_offset(step_samples, 0) == 0,
{
    quotients_round_down(step_samples * timing, 100);
    assert(0 <= step_samples * timing <= step_samples * 50) by (nonlinear_arith)
        requires
            0 <= step_samples,
            0 <= timing <= 50,
    ;
    assert(step_samples * 0 == 0) by (nonlinear_arith);
}

/// Every event but a tie moves by its own microtiming and hits as often as it
/// is retriggered; ties and empty steps stay on the step and come once.
pub proof fn events_bring_their_timing(event: StepEvent, step_samples: int)
    ensures
        event matches StepEvent::Trigger { microtiming, retrigger_count, .. } ==> event_offset(
            Some(event),
            step_samples,
        ) == micro_offset(step_samples, microtiming@) && hit_count(Some(event)) == retrigger_count,
        event matches StepEvent::BassNote { microtiming, retrigger_count, .. } ==> event_offset(
            Some(event),
            step_samples,
        ) == micro_offset(step_samples, microtiming@) && hit_count(Some(event)) == retrigger_count,
        event matches StepEvent::Note { microtiming, retrigger_count, .. } ==> event_offset(
            Some(event),
            step_samples,
        ) == micro_offset(step_samples, microtiming@) && hit_count(Some(event)) == retrigger_count,
        event matches StepEvent::LeadNote { microtiming, retrigger_count, .. } ==> event_offset(
            Some(event),
            step_samples,
        ) == micro_offset(step_samples, microtiming@) && hit_count(Some(event)) == retrigger_count,
        event is Tie ==> event_offset(Some(event), step_samples) == 0 && hit_count(Some(event))
            == 1,
        event_offset(None, step_samples) == 0,
        hit_count(None) == 1,
{
}

/// A step that sounds hits as often as it is retriggered, in order; one that
/// does not leaves a single action behind. All of them name the step, and only
/// the first is not a retrigger.
pub proof fn bursts_have_their_hits(
    event: Option<StepEvent>,
    odd: bool,
    swing: int,
    step_samples: int,
    lookahead: bool,
    next_early: Option<int>,
    track: u8,
    step: u8,
    allowed: bool,
    hit: int,
)
    requires
        step_wf(event),
        0 <= hit < hit_count(event),
        allowed || hit == 0,
    ensures
        ({
            let timing = burst_timing(event, odd, swing, step_samples, lookahead, next_early);
            let actions = burst_actions(timing, hit_count(event), track, step, allowed);
            &&& allowed ==> actions.len() == hit_count(event)
            &&& !allowed ==> actions.len() == 1
            &&& actions[hit].track == track
            &&& actions[hit].step == step
            &&& actions[hit].trigger_allowed == allowed
            &&& actions[hit].retrigger == (hit > 0)
        }),
{
}

/// A step with nothing early behind it and no microtiming hits first where
/// swing puts it, and then evenly over the time to where swing puts the next
/// step: of `n` hits, hit number `k` comes after `k` parts in `n` of it.
pub proof fn plain_steps_hit_evenly(
    event: Option<StepEvent>,
    odd: bool,
    swing: int,
    step_samples: int,
    track: u8,
    step: u8,
    hit: int,
)
    requires
        step_wf(event),
        0 <= swing < 100,
        1 <= step_samples <= MAX_STEP_SAMPLES,
        event_offset(event, step_samples) == 0,
        0 <= hit < hit_count(event),
    ensures
        ({
            let count = hit_count(event);
            let actions = burst_actions(
                burst_timing(event, odd, swing, step_samples, false, None),
                count,
                track,
                step,
                true,
            );
            let span = step_samples + swing_delay(!odd, swing, step_samples) - swing_delay(
                odd,
                swing,
                step_samples,
            );
            let waited = actions[hit].remaining - actions[0].remaining;
            &&& actions[0].remaining == swing_delay(odd, swing, step_samples)
            &&& count * waited <= span * hit
            &&& span * hit < count * (waited + 1)
        }),
{
    let count = hit_count(event);
    let current = swing_delay(odd, swing, step_samples);
    let neighbour = swing_delay(!odd, swing, step_samples);
    let span = step_samples + neighbour - current;
    swing_delays_every_second_step(swing, swing, step_samples);
    assert(step_samples * swing < step_samples * 100) by (nonlinear_arith)
        requires
            0 <= swing < 100,
            1 <= step_samples,
    ;
    assert(span >= 1);
    shares_grow(span, 0, count - 1, count);
    shares_grow(span, hit, hit, count);
    let timing = burst_timing(event, odd, swing, step_samples, false, None);
    assert(timing.start == current);
    assert(timing.span == span);
    quotients_round_down(span * hit, count);
    assert(span * 0 == 0) by (nonlinear_arith);
}

/// A burst starts where swing and microtiming put it, as far as all its hits
/// then still fit before the event that follows; else as late as they do, and
/// never before the boundary. From there it lasts until the next step, or
/// until the event that follows where that is sooner.
pub proof fn bursts_start_where_they_are_put(
    event: Option<StepEvent>,
    odd: bool,
    swing: int,
    step_samples: int,
    next_early: Option<int>,
)
    requires
        step_wf(event),
        0 <= swing <= 100,
        1 <= step_samples,
        next_early matches Some(start) ==> 1 <= start,
    ensures
        ({
            let timing = burst_timing(event, odd, swing, step_samples, false, next_early);
            let now = swing_delay(odd, swing, step_samples);
            let next = step_samples + swing_delay(!odd, swing, step_samples);
            let put = now + event_offset(event, step_samples);
            let last = last_offset(next - now, hit_count(event));
            let end = match next_early {
                Some(start) => start,
                None => next,
            };
            &&& 0 <= put && put + last < end ==> timing.start == put
            &&& 0 <= put && put + last >= end && last < end ==> timing.start == end - 1 - last
            &&& put < 0 || last >= end ==> timing.start == 0
            &&& 0 <= timing.start < end
            &&& timing.span <= next - now
            &&& timing.span <= end - timing.start
            &&& timing.span == next - now || timing.span == end - timing.start
        }),
{
    let count = hit_count(event);
    let current = swing_delay(odd, swing, step_samples);
    let neighbour = swing_delay(!odd, swing, step_samples);
    swing_delays_every_second_step(swing, swing, step_samples);
    shares_grow(step_samples + neighbour - current, 0, count - 1, count);
}

/// The last hit of a burst comes all but one share of its time after the
/// first, rounded down; a single hit is the first and the last.
pub proof fn last_hits_leave_one_share(span: int, count: int)
    requires
        0 <= span,
        1 <= count,
    ensures
        count * last_offset(span, count) <= span * (count - 1),
        span * (count - 1) < count * (last_offset(span, count) + 1),
        last_offset(span, 1) == 0,
{
    quotients_round_down(span * (count - 1), count);
    assert(span * 0 == 0) by (nonlinear_arith);
}

/// A step gives way to the event that follows it: to one that starts early
/// where it starts, to any other where swing puts its step.
pub proof fn steps_give_way_to_the_next(
    odd: bool,
    swing: int,
    step_samples: int,
    start: int,
)
    ensures
        takeover(odd, swing, step_samples, Some(start)) == start,
        takeover(true, swing, step_samples, None) == step_samples,
        takeover(false, swing, step_samples, None) == step_samples + swing_delay(
            true,
            swing,
            step_samples,
        ),
{
}

/// An event starts early exactly where its microtiming takes it back further
/// than swing delays its step. It then starts that much before its boundary,
/// but not before swing puts the step that comes first.
pub proof fn events_start_early_by_their_microtiming(
    event: StepEvent,
    timing: Microtiming,
    odd: bool,
    swing: int,
    step_samples: int,
)
    requires
        event matches StepEvent::Trigger { microtiming, .. } ==> microtiming == timing,
        event matches StepEvent::BassNote { microtiming, .. } ==> microtiming == timing,
        event matches StepEvent::Note { microtiming, .. } ==> microtiming == timing,
        event matches StepEvent::LeadNote { microtiming, .. } ==> microtiming == timing,
        !(event is Tie),
    ensures
        ({
            let put = swing_delay(odd, swing, step_samples) + micro_offset(step_samples, timing@);
            let before = swing_delay(!odd, swing, step_samples);
            let start = early_start(Some(event), odd, swing, step_samples);
            &&& start is Some <==> put < 0
            &&& put < 0 && step_samples + put >= before ==> start == Some(step_samples + put)
            &&& put < 0 && step_samples + put < before ==> start == Some(before)
        }),
{
}

/// Ties and empty steps never start early.
pub proof fn ties_and_rests_wait_for_their_step(
    event: Option<StepEvent>,
    odd: bool,
    swing: int,
    step_samples: int,
)
    requires
        event matches Some(e) ==> e is Tie,
    ensures
        early_start(event, odd, swing, step_samples) is None,
{
}

/// An event that is scheduled ahead starts on the very sample by which the
/// step before it has to be over.
pub proof fn early_bursts_start_where_room_was_made(
    event: Option<StepEvent>,
    odd: bool,
    swing: int,
    step_samples: int,
)
    requires
        step_wf(event),
        0 <= swing <= 100,
        1 <= step_samples,
        early_start(event, odd, swing, step_samples) is Some,
    ensures
        Some(burst_timing(event, odd, swing, step_samples, true, None).start) == early_start(
            event,
            odd,
            swing,
            step_samples,
        ),
{
    let current = swing_delay(odd, swing, step_samples);
    let neighbour = swing_delay(!odd, swing, step_samples);
    swing_delays_every_second_step(swing, swing, step_samples);
    shares_grow(step_samples + neighbour - current, 0, hit_count(event) - 1, hit_count(event));
}

/// The steps that a boundary of a track schedules: the one under the playhead
/// unless that was scheduled ahead, and the one after it where it starts early
/// and no change of pattern stands between.
pub proof fn boundaries_schedule_what_is_near(
    clock: ClockModel,
    sequence: SequenceModel,
    settings: AudioTrack,
    track: u8,
    odd: bool,
    step_samples: int,
    transition_next: bool,
    i: int,
)
    requires
        clock.wf(),
        sequence.wf(),
        clock.next_step < sequence.step_count,
        ({
            let done = track_boundary(
                clock,
                sequence,
                settings,
                track,
                odd,
                step_samples,
                transition_next,
            );
            0 <= i < done.actions.len()
        }),
    ensures
        ({
            let done = track_boundary(
                clock,
                sequence,
                settings,
                track,
                odd,
                step_samples,
                transition_next,
            );
            let next = if clock.next_step + 1 == sequence.step_count {
                0
            } else {
                clock.next_step + 1
            };
            let armed = clock.early_armed == Some(clock.next_step as u8);
            let early = !transition_next && early_start(
                sequence.steps[next],
                !odd,
                settings.swing@,
                step_samples,
            ) is Some;
            &&& done.actions[i].track == track
            &&& done.actions[i].step == clock.next_step || done.actions[i].step == next
            &&& armed ==> early && done.actions[i].step == next
            &&& !early ==> !armed && done.actions[i].step == clock.next_step
            &&& early <==> done.clock.early_armed == Some(next as u8)
            &&& !early <==> done.clock.early_armed is None
        }),
{
    let step = clock.next_step;
    if step + 1 == sequence.step_count {
        vstd::arithmetic::div_mod::lemma_mod_self_0(step + 1);
    } else {
        vstd::arithmetic::div_mod::lemma_small_mod((step + 1) as nat, sequence.step_count as nat);
    }
}

/// A step that was not scheduled ahead is gated and scheduled at its own
/// boundary, to be over when the next event takes over; with nothing early
/// behind it that is all a boundary schedules.
pub proof fn steps_are_scheduled_at_their_boundary(
    clock: ClockModel,
    sequence: SequenceModel,
    settings: AudioTrack,
    track: u8,
    odd: bool,
    step_samples: int,
)
    requires
        clock.wf(),
        sequence.wf(),
        clock.next_step < sequence.step_count,
        clock.early_armed != Some(clock.next_step as u8),
    ensures
        ({
            let event = sequence.steps[clock.next_step];
            let (allowed, gated) = clock.after_gate(
                clock.next_step,
                event,
                settings.probability,
            );
            let done = track_boundary(
                clock,
                sequence,
                settings,
                track,
                odd,
                step_samples,
                true,
            );
            &&& done.actions == burst_actions(
                burst_timing(event, odd, settings.swing@, step_samples, false, None),
                hit_count(event),
                track,
                clock.next_step as u8,
                allowed,
            )
            &&& done.clock.cycle_counts == gated.cycle_counts
            &&& done.clock.condition_rng == gated.condition_rng
            &&& done.clock.probability_rng == gated.probability_rng
        }),
{
}

/// A step that was scheduled ahead is gated once: its boundary asks neither
/// its condition nor the track's probability again.
pub proof fn armed_steps_are_gated_once(
    clock: ClockModel,
    sequence: SequenceModel,
    settings: AudioTrack,
    track: u8,
    odd: bool,
    step_samples: int,
)
    requires
        clock.wf(),
        sequence.wf(),
        clock.early_armed == Some(clock.next_step as u8),
    ensures
        ({
            let done = track_boundary(
                clock,
                sequence,
                settings,
                track,
                odd,
                step_samples,
                true,
            );
            &&& done.actions.len() == 0
            &&& done.clock.cycle_counts == clock.cycle_counts
            &&& done.clock.condition_rng == clock.condition_rng
            &&& done.clock.probability_rng == clock.probability_rng
        }),
{
}

/// An event that starts early is gated and scheduled from the boundary before
/// its own: its hits come behind those of the step before it.
pub proof fn early_events_are_scheduled_ahead(
    clock: ClockModel,
    sequence: SequenceModel,
    settings: AudioTrack,
    track: u8,
    odd: bool,
    step_samples: int,
)
    requires
        clock.wf(),
        sequence.wf(),
        clock.next_step + 1 < sequence.step_count,
        clock.early_armed == Some(clock.next_step as u8),
        early_start(
            sequence.steps[clock.next_step + 1],
            !odd,
            settings.swing@,
            step_samples,
        ) is Some,
    ensures
        ({
            let event = sequence.steps[clock.next_step + 1];
            let done = track_boundary(
                clock,
                sequence,
                settings,
                track,
                odd,
                step_samples,
                false,
            );
            let moved = ClockModel {
                early_armed: None,
                next_step: clock.next_step + 1,
                ..clock
            };
            let (allowed, gated) = moved.after_gate(
                clock.next_step + 1,
                event,
                settings.probability,
            );
            &&& done.actions == burst_actions(
                burst_timing(event, !odd, settings.swing@, step_samples, true, None),
                hit_count(event),
                track,
                (clock.next_step + 1) as u8,
                allowed,
            )
            &&& done.clock.cycle_counts == gated.cycle_counts
            &&& done.clock.condition_rng == gated.condition_rng
            &&& done.clock.probability_rng == gated.probability_rng
        }),
{
    vstd::arithmetic::div_mod::lemma_small_mod(
        (clock.next_step + 1) as nat,
        sequence.step_count as nat,
    );
    assert(Seq::<ScheduledTrackAction>::empty() + track_boundary(
        clock,
        sequence,
        settings,
        track,
        odd,
        step_samples,
        false,
    ).actions =~= track_boundary(
        clock,
        sequence,
        settings,
        track,
        odd,
        step_samples,
        false,
    ).actions);
}

} // verus!
