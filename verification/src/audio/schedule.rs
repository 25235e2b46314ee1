//! The step scheduler: conditions, swing, microtiming, retriggers and the
//! queue of actions that wait for their sample.
use super::snapshot::{AudioProject, AudioSequence, AudioTrack, ProjectModel, SequenceModel};
use super::transport::MAX_STEP_SAMPLES;
use crate::model::event::{same_step, StepEvent, TriggerCondition};
use crate::model::percent::{Microtiming, Percent};
use crate::model::project::{step_wf, MAX_STEP_COUNT, TRACK_COUNT};
use vstd::prelude::*;

verus! {

pub const SCHEDULED_ACTION_COUNT: usize = 96;

pub const PREVIEW_ACTION_COUNT: usize = 24;

/// One hit of a step, and the samples until it falls due.
#[derive(Clone, Copy, Debug, PartialEq, Eq, Structural)]
pub struct ScheduledTrackAction {
    pub remaining: u32,
    pub track: u8,
    pub step: u8,
    pub retrigger: bool,
    pub trigger_allowed: bool,
}

/// One hit of an audition, and the samples until it falls due.
#[derive(Clone, Copy, Debug, PartialEq, Eq, Structural)]
pub struct PreviewAction {
    pub remaining: u32,
    pub track: u8,
    pub step: u8,
}

pub type ActionQueue = Seq<Option<ScheduledTrackAction>>;

/// The linear congruential generator behind chances.
pub open spec fn lcg(state: u32) -> u32 {
    state.wrapping_mul(1_664_525).wrapping_add(1_013_904_223)
}

fn next_lcg(state: u32) -> (r: u32)
    ensures
        r == lcg(state),
{
    state.wrapping_mul(1_664_525).wrapping_add(1_013_904_223)
}

pub open spec fn condition_seed(track: u32) -> u32 {
    0x8a5c_9d31u32 ^ track.wrapping_mul(0x9e37_79b9)
}

pub open spec fn probability_seed(track: u32) -> u32 {
    0x3c6e_f372u32 ^ track.wrapping_mul(0x7f4a_7c15)
}

/// Where a track stands in its sequence, and what its conditions remember.
pub struct TrackClock {
    pub next_step: usize,
    /// The step that was already scheduled ahead of its boundary.
    pub early_armed: Option<u8>,
    pub cycle_counts: Vec<u32>,
    pub condition_rng: u32,
    pub probability_rng: u32,
}

#[verifier::ext_equal]
pub struct ClockModel {
    pub next_step: int,
    pub early_armed: Option<u8>,
    pub cycle_counts: Seq<u32>,
    pub condition_rng: u32,
    pub probability_rng: u32,
}

impl View for TrackClock {
    type V = ClockModel;

    open spec fn view(&self) -> ClockModel {
        ClockModel {
            next_step: self.next_step as int,
            early_armed: self.early_armed,
            cycle_counts: self.cycle_counts@,
            condition_rng: self.condition_rng,
            probability_rng: self.probability_rng,
        }
    }
}

/// The clock of a track that has not played.
pub open spec fn fresh_clock(track: int) -> ClockModel {
    ClockModel {
        next_step: 0,
        early_armed: None,
        cycle_counts: Seq::new(MAX_STEP_COUNT as nat, |s: int| 0u32),
        condition_rng: condition_seed(track as u32),
        probability_rng: probability_seed(track as u32),
    }
}

/// Whether a chance comes up, given the state that was drawn.
pub open spec fn chance_comes_up(drawn: u32, percent: int) -> bool {
    drawn % 100 < percent
}

impl ClockModel {
    pub open spec fn wf(self) -> bool {
        &&& 0 <= self.next_step < MAX_STEP_COUNT
        &&& self.cycle_counts.len() == MAX_STEP_COUNT
    }

    /// Whether a condition lets a step sound, and what it leaves behind.
    pub open spec fn after_condition(self, step: int, condition: TriggerCondition) -> (
        bool,
        ClockModel,
    ) {
        match condition {
            TriggerCondition::Always => (true, self),
            TriggerCondition::Cycle { position, length } => {
                let count = self.cycle_counts[step];
                (
                    count % (length as u32) + 1 == position,
                    ClockModel {
                        cycle_counts: self.cycle_counts.update(step, count.wrapping_add(1)),
                        ..self
                    },
                )
            },
            TriggerCondition::Chance { probability } => {
                let drawn = lcg(self.condition_rng);
                (
                    chance_comes_up(drawn, probability@),
                    ClockModel { condition_rng: drawn, ..self },
                )
            },
        }
    }

    /// Whether the track's probability lets a step sound. The generator is
    /// drawn from only where the outcome is open.
    pub open spec fn after_probability(self, probability: Percent) -> (bool, ClockModel) {
        if probability@ == 0 {
            (false, self)
        } else if probability@ == 100 {
            (true, self)
        } else {
            let drawn = lcg(self.probability_rng);
            (
                chance_comes_up(drawn, probability@),
                ClockModel { probability_rng: drawn, ..self },
            )
        }
    }

    /// Whether a step sounds: its condition first, then the track's
    /// probability. Ties and empty steps are not gated.
    pub open spec fn after_gate(
        self,
        step: int,
        event: Option<StepEvent>,
        probability: Percent,
    ) -> (bool, ClockModel) {
        match event {
            Some(e) => match e.condition_of() {
                Some(condition) => {
                    let (passed, next) = self.after_condition(step, condition);
                    if passed {
                        next.after_probability(probability)
                    } else {
                        (false, next)
                    }
                },
                None => (true, self),
            },
            None => (true, self),
        }
    }
}

/// Samples by which swing delays every second step.
pub open spec fn swing_delay(odd: bool, swing: int, step_samples: int) -> int {
    if odd {
        step_samples * swing / 100
    } else {
        0
    }
}

/// Samples that microtiming moves an event, rounded towards its step.
pub open spec fn micro_offset(step_samples: int, timing: int) -> int {
    if timing >= 0 {
        step_samples * timing / 100
    } else {
        -(step_samples * -timing / 100)
    }
}

pub open spec fn event_offset(event: Option<StepEvent>, step_samples: int) -> int {
    match event {
        Some(e) => match e.timing() {
            Some(timing) => micro_offset(step_samples, timing@),
            None => 0,
        },
        None => 0,
    }
}

pub open spec fn hit_count(event: Option<StepEvent>) -> int {
    match event {
        Some(e) => match e.retriggers() {
            Some(count) => count as int,
            None => 1,
        },
        None => 1,
    }
}

/// When the hits of a step fall: the first after `start` samples, the others
/// spread evenly over `span`.
pub struct BurstTiming {
    pub start: int,
    pub span: int,
}

/// Sample, counted from the boundary, at which the following event takes over
/// and by which a step must have played all its hits.
pub open spec fn takeover(odd: bool, swing: int, step_samples: int, next_early: Option<int>) -> int {
    match next_early {
        Some(start) => start,
        None => step_samples + swing_delay(!odd, swing, step_samples),
    }
}

pub open spec fn clamp(value: int, low: int, high: int) -> int {
    if value < low {
        low
    } else if value > high {
        high
    } else {
        value
    }
}

pub open spec fn widened(start: Option<u32>) -> Option<int> {
    match start {
        Some(n) => Some(n as int),
        None => None,
    }
}

/// Fits a burst between the events around it. `current` and `neighbour` are
/// the swing delays of the step and of those beside it.
pub open spec fn fitted(
    current: int,
    neighbour: int,
    offset: int,
    last: int,
    cutoff: int,
    step_samples: int,
    lookahead: bool,
) -> BurstTiming {
    let horizon = step_samples + neighbour - current;
    let latest = if cutoff - 1 - last > 0 {
        cutoff - 1 - last
    } else {
        0
    };
    let earliest = if lookahead {
        neighbour - step_samples
    } else {
        0
    };
    let start = clamp(current + offset, earliest, latest);
    let room = if cutoff - start > 0 {
        cutoff - start
    } else {
        0
    };
    BurstTiming {
        start: start + if lookahead {
            step_samples
        } else {
            0
        },
        span: if horizon < room {
            horizon
        } else {
            room
        },
    }
}

/// Samples from the first hit of an undisturbed burst to its last.
pub open spec fn last_offset(horizon: int, count: int) -> int {
    horizon * (count - 1) / count
}

/// The hits of a step. `odd` is the parity of the step in the bar; a
/// lookahead schedules the following step from the boundary before it.
pub open spec fn burst_timing(
    event: Option<StepEvent>,
    odd: bool,
    swing: int,
    step_samples: int,
    lookahead: bool,
    next_early: Option<int>,
) -> BurstTiming {
    let current = swing_delay(odd, swing, step_samples);
    let neighbour = swing_delay(!odd, swing, step_samples);
    fitted(
        current,
        neighbour,
        event_offset(event, step_samples),
        last_offset(step_samples + neighbour - current, hit_count(event)),
        takeover(odd, swing, step_samples, next_early),
        step_samples,
        lookahead,
    )
}

/// The actions of a step: one for the step itself and, where it sounds, one
/// for every retrigger.
pub open spec fn burst_actions(
    timing: BurstTiming,
    count: int,
    track: u8,
    step: u8,
    allowed: bool,
) -> Seq<ScheduledTrackAction> {
    Seq::new(
        if allowed {
            count as nat
        } else {
            1
        },
        |hit: int|
            ScheduledTrackAction {
                remaining: (timing.start + timing.span * hit / count) as u32,
                track,
                step,
                retrigger: hit > 0,
                trigger_allowed: allowed,
            },
    )
}

/// Sample, counted from the boundary before it, at which an early event
/// starts; none for an event that waits for its own boundary.
pub open spec fn early_start(
    event: Option<StepEvent>,
    odd: bool,
    swing: int,
    step_samples: int,
) -> Option<int> {
    match event {
        Some(e) => match e.timing() {
            Some(timing) => {
                let requested = swing_delay(odd, swing, step_samples) + micro_offset(
                    step_samples,
                    timing@,
                );
                if requested >= 0 {
                    None
                } else {
                    let earliest = swing_delay(!odd, swing, step_samples) - step_samples;
                    Some(step_samples + if requested < earliest {
                        earliest
                    } else {
                        requested
                    })
                }
            },
            None => None,
        },
        None => None,
    }
}

/// What a boundary makes of one track.
pub struct TrackBoundary {
    pub clock: ClockModel,
    pub actions: Seq<ScheduledTrackAction>,
}

/// One boundary of one track: the step under the playhead is scheduled unless
/// it already was, and the next one too where it starts early.
pub open spec fn track_boundary(
    clock: ClockModel,
    sequence: SequenceModel,
    settings: AudioTrack,
    track: u8,
    odd: bool,
    step_samples: int,
    transition_next: bool,
) -> TrackBoundary {
    let step = clock.next_step;
    let event = sequence.steps[step];
    let next_step = (step + 1) % (sequence.step_count as int);
    let next_event = sequence.steps[next_step];
    let swing = settings.swing@;
    let next_early = if transition_next {
        None
    } else {
        early_start(next_event, !odd, swing, step_samples)
    };
    let (played, first) = if clock.early_armed == Some(step as u8) {
        (clock, Seq::empty())
    } else {
        let (allowed, gated) = clock.after_gate(step, event, settings.probability);
        (
            gated,
            burst_actions(
                burst_timing(event, odd, swing, step_samples, false, next_early),
                hit_count(event),
                track,
                step as u8,
                allowed,
            ),
        )
    };
    let moved = ClockModel { early_armed: None, next_step, ..played };
    if next_early is None {
        TrackBoundary { clock: moved, actions: first }
    } else {
        let (allowed, gated) = moved.after_gate(next_step, next_event, settings.probability);
        TrackBoundary {
            clock: ClockModel { early_armed: Some(next_step as u8), ..gated },
            actions: first + burst_actions(
                burst_timing(next_event, !odd, swing, step_samples, true, None),
                hit_count(next_event),
                track,
                next_step as u8,
                allowed,
            ),
        }
    }
}

/// The first free place of a queue, or its length.
pub open spec fn free_place<T>(queue: Seq<Option<T>>, from: int) -> int
    decreases queue.len() - from,
{
    if from >= queue.len() {
        queue.len() as int
    } else if queue[from] is None {
        from
    } else {
        free_place(queue, from + 1)
    }
}

/// A queue with one more item; a full queue drops it.
pub open spec fn enqueued<T>(queue: Seq<Option<T>>, item: T) -> Seq<Option<T>> {
    let place = free_place(queue, 0);
    if place < queue.len() {
        queue.update(place, Some(item))
    } else {
        queue
    }
}

pub open spec fn enqueued_all<T>(queue: Seq<Option<T>>, items: Seq<T>) -> Seq<Option<T>>
    decreases items.len(),
{
    if items.len() == 0 {
        queue
    } else {
        enqueued(enqueued_all(queue, items.drop_last()), items.last())
    }
}

/// Whether an action still names a step of the pattern that plays.
pub open spec fn still_valid(
    project: ProjectModel,
    pattern: int,
    action: ScheduledTrackAction,
) -> bool {
    &&& 0 <= pattern < project.patterns.len()
    &&& (action.track as int) < project.patterns[pattern].len()
    &&& action.step < project.patterns[pattern][action.track as int].step_count
}

pub open spec fn pruned(queue: ActionQueue, project: ProjectModel, pattern: int) -> ActionQueue {
    Seq::new(
        queue.len(),
        |i: int|
            match queue[i] {
                Some(action) => if still_valid(project, pattern, action) {
                    Some(action)
                } else {
                    None
                },
                None => None,
            },
    )
}

/// Whether the event behind an action changed with the project.
pub open spec fn event_replaced(
    before: ProjectModel,
    before_pattern: int,
    after: ProjectModel,
    after_pattern: int,
    track: int,
    step: int,
) -> bool {
    before.event(before_pattern, track, step) != after.event(after_pattern, track, step)
}

pub open spec fn without_replaced(
    queue: ActionQueue,
    before: ProjectModel,
    before_pattern: int,
    after: ProjectModel,
    after_pattern: int,
) -> ActionQueue {
    Seq::new(
        queue.len(),
        |i: int|
            match queue[i] {
                Some(action) => if event_replaced(
                    before,
                    before_pattern,
                    after,
                    after_pattern,
                    action.track as int,
                    action.step as int,
                ) {
                    None
                } else {
                    Some(action)
                },
                None => None,
            },
    )
}

/// A queue one sample on: what was due has left it.
pub open spec fn counted_down(queue: ActionQueue) -> ActionQueue {
    Seq::new(
        queue.len(),
        |i: int|
            match queue[i] {
                Some(action) => if action.remaining > 0 {
                    Some(
                        ScheduledTrackAction {
                            remaining: (action.remaining - 1) as u32,
                            ..action
                        },
                    )
                } else {
                    None
                },
                None => None,
            },
    )
}

pub open spec fn is_due(slot: Option<ScheduledTrackAction>) -> bool {
    slot matches Some(action) && action.remaining == 0
}

/// What is due in the first `n` places, in their order.
pub open spec fn due_actions(queue: ActionQueue, n: int) -> Seq<ScheduledTrackAction>
    decreases n,
{
    if n <= 0 {
        Seq::empty()
    } else if is_due(queue[n - 1]) {
        due_actions(queue, n - 1).push(queue[n - 1]->0)
    } else {
        due_actions(queue, n - 1)
    }
}

impl TrackClock {
    pub fn new(track: usize) -> (clock: TrackClock)
        requires
            track < TRACK_COUNT,
        ensures
            clock@ == fresh_clock(track as int),
            clock@.wf(),
    {
        let mut cycle_counts: Vec<u32> = Vec::with_capacity(MAX_STEP_COUNT);
        while cycle_counts.len() < MAX_STEP_COUNT
            invariant
                cycle_counts@.len() <= MAX_STEP_COUNT,
                forall|s: int| 0 <= s < cycle_counts@.len() ==> cycle_counts@[s] == 0,
            decreases MAX_STEP_COUNT - cycle_counts@.len(),
        {
            cycle_counts.push(0);
        }
        let index: u32 = track as u32;
        let clock = TrackClock {
            next_step: 0,
            early_armed: None,
            cycle_counts,
            condition_rng: 0x8a5c_9d31u32 ^ index.wrapping_mul(0x9e37_79b9),
            probability_rng: 0x3c6e_f372u32 ^ index.wrapping_mul(0x7f4a_7c15),
        };
        assert(clock@ =~= fresh_clock(track as int));
        clock
    }

    /// Forgets everything but the place in the sequence.
    pub fn reset_trigger_state(&mut self, track: usize)
        requires
            track < TRACK_COUNT,
            old(self)@.wf(),
        ensures
            final(self)@ == (ClockModel {
                next_step: old(self)@.next_step,
                ..fresh_clock(track as int)
            }),
            final(self)@.wf(),
    {
        let mut s: usize = 0;
        while s < MAX_STEP_COUNT
            invariant
                s <= MAX_STEP_COUNT,
                self.cycle_counts@.len() == MAX_STEP_COUNT,
                self.next_step == old(self).next_step,
                forall|k: int| 0 <= k < s ==> self.cycle_counts@[k] == 0,
            decreases MAX_STEP_COUNT - s,
        {
            self.cycle_counts[s] = 0;
            s = s + 1;
        }
        let index: u32 = track as u32;
        self.early_armed = None;
        self.condition_rng = 0x8a5c_9d31u32 ^ index.wrapping_mul(0x9e37_79b9);
        self.probability_rng = 0x3c6e_f372u32 ^ index.wrapping_mul(0x7f4a_7c15);
        assert(self.cycle_counts@ =~= fresh_clock(track as int).cycle_counts);
    }

    pub fn condition_passes(&mut self, step: usize, condition: TriggerCondition) -> (passed: bool)
        requires
            old(self)@.wf(),
            step < MAX_STEP_COUNT,
            condition.wf(),
        ensures
            (passed, final(self)@) == old(self)@.after_condition(step as int, condition),
            final(self)@.wf(),
    {
        match condition {
            TriggerCondition::Always => true,
            TriggerCondition::Cycle { position, length } => {
                let count: u32 = self.cycle_counts[step];
                self.cycle_counts[step] = count.wrapping_add(1);
                (count % (length as u32)) + 1 == position as u32
            },
            TriggerCondition::Chance { probability } => {
                self.condition_rng = next_lcg(self.condition_rng);
                (self.condition_rng % 100) < probability.get() as u32
            },
        }
    }

    pub fn probability_passes(&mut self, probability: Percent) -> (passed: bool)
        requires
            old(self)@.wf(),
        ensures
            (passed, final(self)@) == old(self)@.after_probability(probability),
            final(self)@.wf(),
    {
        let percent: u8 = probability.get();
        if percent == 0 {
            return false;
        }
        if percent == 100 {
            return true;
        }
        self.probability_rng = next_lcg(self.probability_rng);
        (self.probability_rng % 100) < percent as u32
    }

    pub fn trigger_allowed_for(
        &mut self,
        step: usize,
        event: &Option<StepEvent>,
        probability: Percent,
    ) -> (allowed: bool)
        requires
            old(self)@.wf(),
            step < MAX_STEP_COUNT,
            step_wf(*event),
        ensures
            (allowed, final(self)@) == old(self)@.after_gate(step as int, *event, probability),
            final(self)@.wf(),
    {
        match event {
            Some(e) => match e.condition() {
                Some(condition) => {
                    if self.condition_passes(step, condition) {
                        self.probability_passes(probability)
                    } else {
                        false
                    }
                },
                None => true,
            },
            None => true,
        }
    }
}

fn swing_samples(odd: bool, swing: u8, step_samples: u32) -> (delay: u32)
    requires
        swing <= 100,
        step_samples <= MAX_STEP_SAMPLES,
    ensures
        delay == swing_delay(odd, swing as int, step_samples as int),
        delay <= step_samples,
{
    if odd {
        assert(step_samples * swing <= step_samples * 100) by (nonlinear_arith)
            requires
                swing <= 100,
        ;
        assert(step_samples * swing / 100 <= step_samples) by (nonlinear_arith)
            requires
                step_samples * swing <= step_samples * 100,
        ;
        step_samples * (swing as u32) / 100
    } else {
        0
    }
}

fn offset_samples(event: &Option<StepEvent>, step_samples: u32) -> (offset: i64)
    requires
        step_samples <= MAX_STEP_SAMPLES,
    ensures
        offset == event_offset(*event, step_samples as int),
        -(step_samples as int) <= 2 * offset <= step_samples,
{
    match event {
        Some(e) => match e.microtiming() {
            Some(timing) => micro_samples(timing, step_samples),
            None => 0,
        },
        None => 0,
    }
}

fn micro_samples(timing: Microtiming, step_samples: u32) -> (offset: i64)
    requires
        step_samples <= MAX_STEP_SAMPLES,
    ensures
        offset == micro_offset(step_samples as int, timing@),
        -(step_samples as int) <= 2 * offset <= step_samples,
{
    let percent: i8 = timing.get();
    let span: i64 = step_samples as i64;
    if percent >= 0 {
        let p: i64 = percent as i64;
        assert(0 <= span * p <= span * 50) by (nonlinear_arith)
            requires
                0 <= p <= 50,
                0 <= span,
        ;
        (span * p) / 100
    } else {
        let p: i64 = -(percent as i64);
        assert(0 <= span * p <= span * 50) by (nonlinear_arith)
            requires
                0 <= p <= 50,
                0 <= span,
        ;
        -((span * p) / 100)
    }
}

fn count_hits(event: &Option<StepEvent>) -> (count: u8)
    requires
        step_wf(*event),
    ensures
        count == hit_count(*event),
        count >= 1,
{
    match event {
        Some(e) => match e.retrigger_count() {
            Some(count) => count,
            None => 1,
        },
        None => 1,
    }
}

/// `span * hit / count` stays below a positive span for every hit.
proof fn share_is_below(span: int, hit: int, count: int)
    requires
        0 <= span,
        0 <= hit < count,
    ensures
        0 <= span * hit / count <= span,
        0 <= span * hit <= span * count,
        span > 0 ==> span * hit / count < span,
{
    assert(0 <= span * hit <= span * count) by (nonlinear_arith)
        requires
            0 <= span,
            0 <= hit < count,
    ;
    assert(0 <= span * hit / count <= span) by (nonlinear_arith)
        requires
            0 <= span * hit <= span * count,
            count > 0,
    ;
    if span > 0 {
        assert(span * hit < span * count) by (nonlinear_arith)
            requires
                0 < span,
                0 <= hit < count,
        ;
        assert(span * hit / count < span) by (nonlinear_arith)
            requires
                0 <= span * hit < span * count,
                count > 0,
        ;
    }
}

/// Samples from the first hit of a burst to the last.
fn last_hit(horizon: u32, count: u8) -> (last: u32)
    requires
        horizon <= 2 * MAX_STEP_SAMPLES,
        1 <= count,
    ensures
        last == last_offset(horizon as int, count as int),
        last <= horizon,
{
    let hits: u32 = count as u32;
    proof {
        share_is_below(horizon as int, hits - 1, hits as int);
        assert(horizon * (hits - 1) <= 2 * MAX_STEP_SAMPLES * 254) by (nonlinear_arith)
            requires
                horizon <= 2 * MAX_STEP_SAMPLES,
                1 <= hits <= 255,
        ;
    }
    horizon * (hits - 1) / hits
}

fn fit(
    current: u32,
    neighbour: u32,
    offset: i64,
    last: u32,
    cutoff: u32,
    step_samples: u32,
    lookahead: bool,
) -> (r: (u32, u32))
    requires
        step_samples <= MAX_STEP_SAMPLES,
        current <= step_samples,
        neighbour <= step_samples,
        -(step_samples as int) <= 2 * offset <= step_samples,
        last <= 2 * step_samples,
        cutoff <= 2 * step_samples,
    ensures
        r.0 == fitted(
            current as int,
            neighbour as int,
            offset as int,
            last as int,
            cutoff as int,
            step_samples as int,
            lookahead,
        ).start,
        r.1 == fitted(
            current as int,
            neighbour as int,
            offset as int,
            last as int,
            cutoff as int,
            step_samples as int,
            lookahead,
        ).span,
        r.0 <= 3 * step_samples,
        r.1 <= 2 * step_samples,
{
    let horizon: u32 = step_samples + neighbour - current;
    // The cutoff is exclusive: the following event wins the sample at its own
    // start. Where the whole burst cannot fit, its retriggers are compressed.
    let before: u32 = if cutoff == 0 { 0 } else { cutoff - 1 };
    let latest: u32 = if before < last { 0 } else { before - last };
    let earliest: i64 = if lookahead {
        neighbour as i64 - step_samples as i64
    } else {
        0
    };
    let requested: i64 = current as i64 + offset;
    let start: i64 = if requested < earliest {
        earliest
    } else if requested > latest as i64 {
        latest as i64
    } else {
        requested
    };
    let room: u32 = if (cutoff as i64) - start > 0 { ((cutoff as i64) - start) as u32 } else { 0 };
    let span: u32 = if horizon < room { horizon } else { room };
    let origin: i64 = if lookahead { step_samples as i64 } else { 0 };
    ((origin + start) as u32, span)
}

/// Start and span of a step's hits in samples.
fn time_burst(
    event: &Option<StepEvent>,
    odd: bool,
    swing: u8,
    step_samples: u32,
    lookahead: bool,
    next_early: Option<u32>,
) -> (r: (u32, u32))
    requires
        swing <= 100,
        step_samples <= MAX_STEP_SAMPLES,
        step_wf(*event),
        next_early matches Some(n) ==> n <= 2 * step_samples,
    ensures
        r.0 == burst_timing(
            *event,
            odd,
            swing as int,
            step_samples as int,
            lookahead,
            widened(next_early),
        ).start,
        r.1 == burst_timing(
            *event,
            odd,
            swing as int,
            step_samples as int,
            lookahead,
            widened(next_early),
        ).span,
        r.0 <= 3 * step_samples,
        r.1 <= 2 * step_samples,
{
    let current: u32 = swing_samples(odd, swing, step_samples);
    let neighbour: u32 = swing_samples(!odd, swing, step_samples);
    let cutoff: u32 = match next_early {
        Some(n) => n,
        None => step_samples + neighbour,
    };
    let offset: i64 = offset_samples(event, step_samples);
    let last: u32 = last_hit(step_samples + neighbour - current, count_hits(event));
    fit(current, neighbour, offset, last, cutoff, step_samples, lookahead)
}

fn early_samples(event: &Option<StepEvent>, odd: bool, swing: u8, step_samples: u32) -> (r: Option<
    u32,
>)
    requires
        swing <= 100,
        step_samples <= MAX_STEP_SAMPLES,
    ensures
        match early_start(*event, odd, swing as int, step_samples as int) {
            Some(n) => r matches Some(m) && m == n && m <= 2 * step_samples,
            None => r is None,
        },
{
    match event {
        Some(e) => match e.microtiming() {
            Some(timing) => {
                let current: u32 = swing_samples(odd, swing, step_samples);
                let requested: i64 = current as i64 + micro_samples(timing, step_samples);
                if requested >= 0 {
                    return None;
                }
                let neighbour: u32 = swing_samples(!odd, swing, step_samples);
                let earliest: i64 = neighbour as i64 - step_samples as i64;
                let start: i64 = if requested < earliest { earliest } else { requested };
                Some((step_samples as i64 + start) as u32)
            },
            None => None,
        },
        None => None,
    }
}

/// Puts an item in the first free place of a queue, or drops it.
pub fn enqueue<T>(queue: &mut Vec<Option<T>>, item: T)
    ensures
        final(queue)@ == enqueued(old(queue)@, item),
        final(queue)@.len() == old(queue)@.len(),
{
    let mut i: usize = 0;
    while i < queue.len()
        invariant
            i <= queue@.len(),
            queue@ == old(queue)@,
            free_place(queue@, 0) == free_place(queue@, i as int),
        decreases queue@.len() - i,
    {
        if queue[i].is_none() {
            queue[i] = Some(item);
            return;
        }
        i = i + 1;
    }
}

/// Queues the hits of a step.
fn schedule_track_actions(
    queue: &mut Vec<Option<ScheduledTrackAction>>,
    timing: (u32, u32),
    count: u8,
    track: u8,
    step: u8,
    allowed: bool,
)
    requires
        count >= 1,
        timing.0 <= 3 * MAX_STEP_SAMPLES,
        timing.1 <= 2 * MAX_STEP_SAMPLES,
    ensures
        final(queue)@ == enqueued_all(
            old(queue)@,
            burst_actions(
                BurstTiming { start: timing.0 as int, span: timing.1 as int },
                count as int,
                track,
                step,
                allowed,
            ),
        ),
        final(queue)@.len() == old(queue)@.len(),
{
    let ghost burst = BurstTiming { start: timing.0 as int, span: timing.1 as int };
    let ghost actions = burst_actions(burst, count as int, track, step, allowed);
    let hits: u8 = if allowed { count } else { 1 };
    let mut hit: u8 = 0;
    assert(actions.take(0) =~= Seq::empty());
    while hit < hits
        invariant
            hit <= hits <= count,
            count >= 1,
            actions.len() == hits,
            actions == burst_actions(burst, count as int, track, step, allowed),
            burst == (BurstTiming { start: timing.0 as int, span: timing.1 as int }),
            timing.0 <= 3 * MAX_STEP_SAMPLES,
            timing.1 <= 2 * MAX_STEP_SAMPLES,
            queue@ == enqueued_all(old(queue)@, actions.take(hit as int)),
            queue@.len() == old(queue)@.len(),
        decreases hits - hit,
    {
        proof {
            share_is_below(timing.1 as int, hit as int, count as int);
            assert(timing.1 * hit <= 2 * MAX_STEP_SAMPLES * 255) by (nonlinear_arith)
                requires
                    timing.1 <= 2 * MAX_STEP_SAMPLES,
                    hit <= 255,
            ;
            assert(actions.take(hit + 1).drop_last() =~= actions.take(hit as int));
        }
        let remaining: u32 = timing.0 + timing.1 * (hit as u32) / (count as u32);
        enqueue(
            queue,
            ScheduledTrackAction {
                remaining,
                track,
                step,
                retrigger: hit > 0,
                trigger_allowed: allowed,
            },
        );
        hit = hit + 1;
    }
    assert(actions.take(hits as int) =~= actions);
}

proof fn enqueueing_in_parts<T>(queue: Seq<Option<T>>, first: Seq<T>, second: Seq<T>)
    ensures
        enqueued_all(enqueued_all(queue, first), second) == enqueued_all(queue, first + second),
    decreases second.len(),
{
    if second.len() == 0 {
        assert(first + second =~= first);
    } else {
        enqueueing_in_parts(queue, first, second.drop_last());
        assert((first + second).drop_last() =~= first + second.drop_last());
        assert((first + second).last() == second.last());
    }
}

/// Takes one track over a boundary and queues what it is to play.
pub fn advance_track(
    clock: &mut TrackClock,
    queue: &mut Vec<Option<ScheduledTrackAction>>,
    sequence: &AudioSequence,
    settings: &AudioTrack,
    track: usize,
    odd: bool,
    step_samples: u32,
    transition_next: bool,
)
    requires
        old(clock)@.wf(),
        sequence@.wf(),
        track < TRACK_COUNT,
        step_samples <= MAX_STEP_SAMPLES,
    ensures
        ({
            let b = track_boundary(
                old(clock)@,
                sequence@,
                *settings,
                track as u8,
                odd,
                step_samples as int,
                transition_next,
            );
            &&& final(clock)@ == b.clock
            &&& final(queue)@ == enqueued_all(old(queue)@, b.actions)
        }),
        final(clock)@.wf(),
        final(queue)@.len() == old(queue)@.len(),
{
    let step: usize = clock.next_step;
    let event = sequence.steps[step];
    let count: usize = sequence.step_count as usize;
    let next_step: usize = (step + 1) % count;
    let next_event = sequence.steps[next_step];
    let swing: u8 = settings.swing.get();
    assert(step_wf(sequence@.steps[step as int]));
    assert(step_wf(sequence@.steps[next_step as int]));
    let next_early: Option<u32> = if transition_next {
        None
    } else {
        early_samples(&next_event, !odd, swing, step_samples)
    };
    let prearmed: bool = match clock.early_armed {
        Some(armed) => armed as usize == step,
        None => false,
    };
    let ghost mut first: Seq<ScheduledTrackAction> = Seq::empty();
    if !prearmed {
        let allowed: bool = clock.trigger_allowed_for(step, &event, settings.probability);
        let timing = time_burst(&event, odd, swing, step_samples, false, next_early);
        let hits: u8 = count_hits(&event);
        schedule_track_actions(queue, timing, hits, track as u8, step as u8, allowed);
        proof {
            first =
            burst_actions(
                BurstTiming { start: timing.0 as int, span: timing.1 as int },
                hits as int,
                track as u8,
                step as u8,
                allowed,
            );
        }
    }
    assert(queue@ == enqueued_all(old(queue)@, first));
    clock.early_armed = None;
    clock.next_step = next_step;
    if next_early.is_some() {
        let allowed: bool = clock.trigger_allowed_for(next_step, &next_event, settings.probability);
        let timing = time_burst(&next_event, !odd, swing, step_samples, true, None);
        let hits: u8 = count_hits(&next_event);
        schedule_track_actions(queue, timing, hits, track as u8, next_step as u8, allowed);
        proof {
            enqueueing_in_parts(
                old(queue)@,
                first,
                burst_actions(
                    BurstTiming { start: timing.0 as int, span: timing.1 as int },
                    hits as int,
                    track as u8,
                    next_step as u8,
                    allowed,
                ),
            );
        }
        clock.early_armed = Some(next_step as u8);
    }
}

/// Drops the actions whose step the project no longer has.
pub fn prune_scheduled_actions(
    queue: &mut Vec<Option<ScheduledTrackAction>>,
    project: &AudioProject,
    pattern: usize,
)
    ensures
        final(queue)@ == pruned(old(queue)@, project@, pattern as int),
{
    let mut i: usize = 0;
    while i < queue.len()
        invariant
            i <= queue@.len(),
            queue@.len() == old(queue)@.len(),
            forall|k: int|
                0 <= k < queue@.len() ==> #[trigger] queue@[k] == if k < i {
                    pruned(old(queue)@, project@, pattern as int)[k]
                } else {
                    old(queue)@[k]
                },
        decreases queue@.len() - i,
    {
        if let Some(action) = queue[i] {
            let mut valid: bool = false;
            if pattern < project.patterns.0.len() {
                let tracks = &project.patterns.0[pattern].tracks;
                assert(project@.patterns[pattern as int] == project.patterns.0@[pattern as int]@);
                let track: usize = action.track as usize;
                if track < tracks.len() {
                    valid = action.step < tracks[track].step_count;
                }
            }
            if !valid {
                queue[i] = None;
            }
        }
        i = i + 1;
    }
    assert(queue@ =~= pruned(old(queue)@, project@, pattern as int));
}

/// Drops the actions whose event an edit replaced.
pub fn invalidate_replaced_scheduled_actions(
    queue: &mut Vec<Option<ScheduledTrackAction>>,
    before: &AudioProject,
    before_pattern: usize,
    after: &AudioProject,
    after_pattern: usize,
)
    ensures
        final(queue)@ == without_replaced(
            old(queue)@,
            before@,
            before_pattern as int,
            after@,
            after_pattern as int,
        ),
{
    let ghost target = without_replaced(
        queue@,
        before@,
        before_pattern as int,
        after@,
        after_pattern as int,
    );
    let mut i: usize = 0;
    while i < queue.len()
        invariant
            i <= queue@.len(),
            queue@.len() == old(queue)@.len(),
            target == without_replaced(
                old(queue)@,
                before@,
                before_pattern as int,
                after@,
                after_pattern as int,
            ),
            forall|k: int|
                0 <= k < queue@.len() ==> #[trigger] queue@[k] == if k < i {
                    target[k]
                } else {
                    old(queue)@[k]
                },
        decreases queue@.len() - i,
    {
        if let Some(action) = queue[i] {
            let track: usize = action.track as usize;
            let step: usize = action.step as usize;
            let was = before.event_at(before_pattern, track, step);
            let is = after.event_at(after_pattern, track, step);
            if !same_step(&was, &is) {
                queue[i] = None;
            }
        }
        i = i + 1;
    }
    assert(queue@ =~= target);
}

/// Counts one sample; `ready` gets what falls due, in the order of the queue.
pub fn count_down(
    queue: &mut Vec<Option<ScheduledTrackAction>>,
    ready: &mut Vec<ScheduledTrackAction>,
)
    ensures
        final(queue)@ == counted_down(old(queue)@),
        final(ready)@ == due_actions(old(queue)@, old(queue)@.len() as int),
{
    ready.clear();
    let mut i: usize = 0;
    while i < queue.len()
        invariant
            i <= queue@.len(),
            queue@.len() == old(queue)@.len(),
            ready@ == due_actions(old(queue)@, i as int),
            forall|k: int|
                0 <= k < queue@.len() ==> #[trigger] queue@[k] == if k < i {
                    counted_down(old(queue)@)[k]
                } else {
                    old(queue)@[k]
                },
        decreases queue@.len() - i,
    {
        if let Some(action) = queue[i] {
            if action.remaining > 0 {
                queue[i] = Some(
                    ScheduledTrackAction { remaining: action.remaining - 1, ..action },
                );
            } else {
                ready.push(action);
                queue[i] = None;
            }
        }
        i = i + 1;
    }
    assert(queue@ =~= counted_down(old(queue)@));
}

/// Every hit of a step falls before the event that follows it, and not before
/// the boundary it is scheduled from.
pub proof fn hits_precede_the_next_event(
    event: Option<StepEvent>,
    odd: bool,
    swing: int,
    step_samples: int,
    next_early: Option<int>,
    hit: int,
)
    requires
        step_wf(event),
        0 <= swing <= 100,
        1 <= step_samples,
        next_early matches Some(start) ==> 1 <= start,
        0 <= hit < hit_count(event),
    ensures
        ({
            let timing = burst_timing(event, odd, swing, step_samples, false, next_early);
            0 <= timing.start + timing.span * hit / hit_count(event) < takeover(
                odd,
                swing,
                step_samples,
                next_early,
            )
        }),
{
    let timing = burst_timing(event, odd, swing, step_samples, false, next_early);
    let count = hit_count(event);
    swing_stays_in_step(odd, swing, step_samples);
    swing_stays_in_step(!odd, swing, step_samples);
    let horizon = step_samples + swing_delay(!odd, swing, step_samples) - swing_delay(
        odd,
        swing,
        step_samples,
    );
    share_is_below(horizon, count - 1, count);
    share_is_below(timing.span, hit, count);
}

proof fn swing_stays_in_step(odd: bool, swing: int, step_samples: int)
    requires
        0 <= swing <= 100,
        0 <= step_samples,
    ensures
        0 <= swing_delay(odd, swing, step_samples) <= step_samples,
{
    assert(0 <= step_samples * swing <= step_samples * 100) by (nonlinear_arith)
        requires
            0 <= swing <= 100,
            0 <= step_samples,
    ;
}

/// An early event starts after the boundary before it, by its own at the
/// latest, and never before the delayed place of the step before it. Only full
/// swing pushes it all the way to its own boundary.
pub proof fn early_events_stay_between_boundaries(
    event: Option<StepEvent>,
    odd: bool,
    swing: int,
    step_samples: int,
)
    requires
        0 <= swing <= 100,
        0 <= step_samples,
        event matches Some(e) ==> (e.timing() matches Some(t) ==> -50 <= t@ <= 50),
    ensures
        early_start(event, odd, swing, step_samples) matches Some(start) ==> {
            &&& swing_delay(!odd, swing, step_samples) <= start <= step_samples
            &&& swing < 100 ==> start < step_samples
            &&& 1 <= start
        },
{
    swing_stays_in_step(odd, swing, step_samples);
    swing_stays_in_step(!odd, swing, step_samples);
    if swing < 100 && step_samples > 0 {
        assert(step_samples * swing < step_samples * 100) by (nonlinear_arith)
            requires
                swing < 100,
                step_samples > 0,
        ;
    }
    if let Some(e) = event {
        if let Some(t) = e.timing() {
            offsets_stay_in_half_a_step(step_samples, t@);
        }
    }
}

proof fn offsets_stay_in_half_a_step(step_samples: int, timing: int)
    requires
        0 <= step_samples,
        -50 <= timing <= 50,
    ensures
        -step_samples <= 2 * micro_offset(step_samples, timing) <= step_samples,
{
    let size = if timing < 0 {
        -timing
    } else {
        timing
    };
    assert(0 <= step_samples * size <= step_samples * 50) by (nonlinear_arith)
        requires
            0 <= size <= 50,
            0 <= step_samples,
    ;
}

/// A track whose probability is zero never sounds, and one whose probability
/// is full sounds whenever its condition lets it; neither draws a chance.
pub proof fn probability_extremes_draw_nothing(clock: ClockModel, probability: Percent)
    requires
        probability@ == 0 || probability@ == 100,
    ensures
        clock.after_probability(probability) == (probability@ == 100, clock),
{
}

/// The chances of conditions and of tracks come from separate generators: a
/// step that its condition rejects leaves the track's generator alone.
pub proof fn conditions_and_probability_share_no_chance(
    clock: ClockModel,
    step: int,
    event: StepEvent,
    probability: Percent,
)
    requires
        event.condition_of() matches Some(c) && !clock.after_condition(step, c).0,
    ensures
        !clock.after_gate(step, Some(event), probability).0,
        clock.after_gate(step, Some(event), probability).1.probability_rng == clock.probability_rng,
{
}

/// A cycle sounds on exactly one pass out of its length: on the pass that its
/// position names.
pub proof fn cycles_sound_once_per_length(clock: ClockModel, step: int, position: u8, length: u8)
    requires
        1 <= position <= length,
        0 <= step < clock.cycle_counts.len(),
    ensures
        clock.after_condition(step, TriggerCondition::Cycle { position, length }).0 <==> (
        clock.cycle_counts[step] as int) % (length as int) == position - 1,
        clock.cycle_counts[step] < u32::MAX ==> clock.after_condition(
            step,
            TriggerCondition::Cycle { position, length },
        ).1.cycle_counts[step] == clock.cycle_counts[step] + 1,
{
}

proof fn gates_keep_the_place(
    clock: ClockModel,
    step: int,
    event: Option<StepEvent>,
    probability: Percent,
)
    ensures
        clock.after_gate(step, event, probability).1.next_step == clock.next_step,
        clock.after_gate(step, event, probability).1.early_armed == clock.early_armed,
{
}

/// The playhead of a track loops through its own sequence, whatever the other
/// tracks do.
pub proof fn playheads_loop_independently(
    clock: ClockModel,
    sequence: SequenceModel,
    settings: AudioTrack,
    track: u8,
    odd: bool,
    step_samples: int,
    transition_next: bool,
)
    requires
        clock.wf(),
        sequence.wf(),
        clock.next_step < sequence.step_count,
    ensures
        ({
            let next = track_boundary(
                clock,
                sequence,
                settings,
                track,
                odd,
                step_samples,
                transition_next,
            ).clock;
            next.next_step == if clock.next_step + 1 == sequence.step_count {
                0
            } else {
                clock.next_step + 1
            }
        }),
{
    let step = clock.next_step;
    let next = (step + 1) % (sequence.step_count as int);
    let gated = if clock.early_armed == Some(step as u8) {
        clock
    } else {
        clock.after_gate(step, sequence.steps[step], settings.probability).1
    };
    gates_keep_the_place(
        ClockModel { early_armed: None, next_step: next, ..gated },
        next,
        sequence.steps[next],
        settings.probability,
    );
    if step + 1 == sequence.step_count {
        vstd::arithmetic::div_mod::lemma_mod_self_0(step + 1);
    } else {
        vstd::arithmetic::div_mod::lemma_small_mod((step + 1) as nat, sequence.step_count as nat);
    }
}

/// A step that was scheduled ahead is not scheduled again at its boundary.
pub proof fn armed_steps_play_once(
    clock: ClockModel,
    sequence: SequenceModel,
    settings: AudioTrack,
    track: u8,
    odd: bool,
    step_samples: int,
)
    requires
        clock.wf(),
        sequence.wf(),
        clock.early_armed == Some(clock.next_step as u8),
    ensures
        track_boundary(clock, sequence, settings, track, odd, step_samples, true).actions
            == Seq::<ScheduledTrackAction>::empty(),
        track_boundary(clock, sequence, settings, track, odd, step_samples, true).clock.early_armed
            is None,
{
}

} // verus!
