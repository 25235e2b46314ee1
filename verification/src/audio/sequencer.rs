//! The sequencer: transport, step clock, track clocks and the queues of
//! actions, with the status that shows them.
use super::schedule::{
    advance_track, count_down, counted_down, due_actions, enqueue, enqueued_all, event_replaced,
    fresh_clock, invalidate_replaced_scheduled_actions, prune_scheduled_actions, pruned,
    still_valid, track_boundary, without_replaced, ActionQueue, ClockModel, PreviewAction,
    ScheduledTrackAction, TrackClock, PREVIEW_ACTION_COUNT, SCHEDULED_ACTION_COUNT,
};
use super::snapshot::{AudioProject, ProjectModel};
use super::slot::sequence_of;
use super::status::{no_playheads, AudioStatus, StatusModel, NO_INDEX, NO_SONG};
use super::transport::{BarChange, StepClock, Transport, MAX_SAMPLE_RATE, MAX_STEP_SAMPLES};
use crate::model::event::same_step;
use crate::model::index_map::{PatternIndexMap, SongIndexMap};
use crate::model::project::TRACK_COUNT;
use vstd::prelude::*;

verus! {

pub struct Sequencer {
    pub transport: Transport,
    pub clock: StepClock,
    pub tracks: Vec<TrackClock>,
    pub scheduled: Vec<Option<ScheduledTrackAction>>,
    pub preview_scheduled: Vec<Option<PreviewAction>>,
    pub status: AudioStatus,
}

pub type PreviewQueue = Seq<Option<PreviewAction>>;

#[verifier::ext_equal]
pub struct SequencerModel {
    pub transport: Transport,
    pub clock: StepClock,
    pub tracks: Seq<ClockModel>,
    pub scheduled: ActionQueue,
    pub previews: PreviewQueue,
    pub status: StatusModel,
}

impl View for Sequencer {
    type V = SequencerModel;

    open spec fn view(&self) -> SequencerModel {
        SequencerModel {
            transport: self.transport,
            clock: self.clock,
            tracks: clock_models(self.tracks@),
            scheduled: self.scheduled@,
            previews: self.preview_scheduled@,
            status: self.status@,
        }
    }
}

pub open spec fn clock_models(clocks: Seq<TrackClock>) -> Seq<ClockModel> {
    Seq::new(clocks.len(), |t: int| clocks[t]@)
}

pub open spec fn fresh_clocks() -> Seq<ClockModel> {
    Seq::new(TRACK_COUNT as nat, |t: int| fresh_clock(t))
}

pub open spec fn no_actions() -> ActionQueue {
    Seq::new(SCHEDULED_ACTION_COUNT as nat, |i: int| None)
}

pub open spec fn no_previews() -> PreviewQueue {
    Seq::new(PREVIEW_ACTION_COUNT as nat, |i: int| None)
}

/// The status that shows where the transport stands.
pub open spec fn shown(status: StatusModel, transport: Transport) -> StatusModel {
    StatusModel {
        active_pattern: transport.active_pattern as u8,
        queued_pattern: match transport.queued_pattern {
            Some(pattern) => pattern as u8,
            None => NO_INDEX,
        },
        song_mode: transport.song_mode,
        active_song: transport.active_song as u8,
        queued_song: match transport.queued_song {
            Some(entry) => entry as u16,
            None => NO_SONG,
        },
        song_bar: transport.song_bar,
        ..status
    }
}

/// The queue after the first `n` tracks crossed a boundary.
pub open spec fn boundary_queue(
    queue: ActionQueue,
    clocks: Seq<ClockModel>,
    project: ProjectModel,
    pattern: int,
    odd: bool,
    step_samples: int,
    transition_next: bool,
    n: int,
) -> ActionQueue
    decreases n,
{
    if n <= 0 {
        queue
    } else {
        enqueued_all(
            boundary_queue(
                queue,
                clocks,
                project,
                pattern,
                odd,
                step_samples,
                transition_next,
                n - 1,
            ),
            track_boundary(
                clocks[n - 1],
                project.patterns[pattern][n - 1],
                project.tracks[n - 1],
                (n - 1) as u8,
                odd,
                step_samples,
                transition_next,
            ).actions,
        )
    }
}

/// A preview queue one sample on.
pub open spec fn previews_counted_down(queue: PreviewQueue) -> PreviewQueue {
    Seq::new(
        queue.len(),
        |i: int|
            match queue[i] {
                Some(action) => if action.remaining > 0 {
                    Some(PreviewAction { remaining: (action.remaining - 1) as u32, ..action })
                } else {
                    None
                },
                None => None,
            },
    )
}

/// The auditions that are due in the first `n` places, in their order.
pub open spec fn due_previews(queue: PreviewQueue, n: int) -> Seq<PreviewAction>
    decreases n,
{
    if n <= 0 {
        Seq::empty()
    } else {
        match queue[n - 1] {
            Some(action) => if action.remaining == 0 {
                due_previews(queue, n - 1).push(action)
            } else {
                due_previews(queue, n - 1)
            },
            None => due_previews(queue, n - 1),
        }
    }
}

/// The further hits of an audition, spread over a step.
pub open spec fn audition_hits(track: u8, step: u8, count: int, step_samples: int) -> Seq<
    PreviewAction,
> {
    Seq::new(
        (count - 1) as nat,
        |i: int|
            PreviewAction { remaining: (step_samples * (i + 1) / count) as u32, track, step },
    )
}

/// Which tracks changed their instrument.
pub open spec fn changed_kinds(before: ProjectModel, after: ProjectModel) -> Seq<bool> {
    Seq::new(
        TRACK_COUNT as nat,
        |t: int| before.tracks[t].kind() != after.tracks[t].kind(),
    )
}

pub open spec fn actions_kept(queue: ActionQueue, changed: Seq<bool>) -> ActionQueue {
    Seq::new(
        queue.len(),
        |i: int|
            match queue[i] {
                Some(action) => if (action.track as int) < changed.len()
                    && changed[action.track as int] {
                    None
                } else {
                    Some(action)
                },
                None => None,
            },
    )
}

pub open spec fn previews_kept(queue: PreviewQueue, changed: Seq<bool>) -> PreviewQueue {
    Seq::new(
        queue.len(),
        |i: int|
            match queue[i] {
                Some(action) => if (action.track as int) < changed.len()
                    && changed[action.track as int] {
                    None
                } else {
                    Some(action)
                },
                None => None,
            },
    )
}

/// A track clock brought over to an edited project: a new instrument starts
/// over, a step that was armed stays so only where its event is the same, and
/// the playhead stays inside its sequence.
pub open spec fn clock_followed(
    clock: ClockModel,
    before: ProjectModel,
    before_pattern: int,
    after: ProjectModel,
    after_pattern: int,
    track: int,
) -> ClockModel {
    if before.tracks[track].kind() != after.tracks[track].kind() {
        fresh_clock(track)
    } else {
        ClockModel {
            early_armed: match clock.early_armed {
                Some(step) => if before_pattern != after_pattern || event_replaced(
                    before,
                    before_pattern,
                    after,
                    after_pattern,
                    track,
                    step as int,
                ) {
                    None
                } else {
                    Some(step)
                },
                None => None,
            },
            next_step: if clock.next_step >= after.patterns[after_pattern][track].step_count {
                0
            } else {
                clock.next_step
            },
            ..clock
        }
    }
}

pub open spec fn playhead_followed(
    playhead: u8,
    before: ProjectModel,
    after: ProjectModel,
    after_pattern: int,
    track: int,
) -> u8 {
    if before.tracks[track].kind() != after.tracks[track].kind() || playhead
        >= after.patterns[after_pattern][track].step_count {
        NO_INDEX
    } else {
        playhead
    }
}

/// The clock at another tempo: the wait for the next step keeps its part of
/// the step.
pub open spec fn clock_at(clock: StepClock, tempo_bpm: u16) -> StepClock {
    StepClock {
        tempo_bpm,
        countdown: if clock.countdown > clock.step_units() {
            clock.step_units() as u64
        } else {
            clock.countdown
        },
        ..clock
    }
}

impl SequencerModel {
    pub open spec fn wf(self, project: ProjectModel) -> bool {
        &&& self.transport.wf(project)
        &&& self.clock.wf()
        &&& self.tracks.len() == TRACK_COUNT
        &&& forall|t: int| 0 <= t < TRACK_COUNT ==> (#[trigger] self.tracks[t]).wf()
        &&& self.scheduled.len() == SCHEDULED_ACTION_COUNT
        &&& self.previews.len() == PREVIEW_ACTION_COUNT
        &&& self.status.playheads.len() == TRACK_COUNT
        &&& self.mirrored()
    }

    /// The status shows the transport.
    pub open spec fn mirrored(self) -> bool {
        self.status == shown(self.status, self.transport)
    }

    /// Every track from its first step, with nothing remembered or queued.
    pub open spec fn rewound(self) -> SequencerModel {
        SequencerModel {
            tracks: fresh_clocks(),
            scheduled: no_actions(),
            previews: no_previews(),
            ..self
        }
    }

    pub open spec fn with_transport(self, transport: Transport) -> SequencerModel {
        SequencerModel { transport, status: shown(self.status, transport), ..self }
    }

    pub open spec fn pattern_activated(self, pattern: usize) -> SequencerModel {
        self.rewound().with_transport(self.transport.pattern_entered(pattern))
    }

    pub open spec fn song_activated(self, project: ProjectModel, entry: int) -> SequencerModel {
        self.rewound().with_transport(self.transport.song_entered(project, entry))
    }

    /// All tracks across a boundary that changes no pattern.
    pub open spec fn tracks_advanced(
        self,
        project: ProjectModel,
        global_step: usize,
    ) -> SequencerModel {
        let pattern = self.transport.active_pattern as int;
        let odd = global_step % 2 == 1;
        let step_samples = self.clock.rounded_step();
        let transition_next = self.transport.transition_due(
            project,
            global_step.wrapping_add(1) as int,
        );
        SequencerModel {
            tracks: Seq::new(
                TRACK_COUNT as nat,
                |t: int|
                    track_boundary(
                        self.tracks[t],
                        project.patterns[pattern][t],
                        project.tracks[t],
                        t as u8,
                        odd,
                        step_samples,
                        transition_next,
                    ).clock,
            ),
            scheduled: boundary_queue(
                self.scheduled,
                self.tracks,
                project,
                pattern,
                odd,
                step_samples,
                transition_next,
                TRACK_COUNT as int,
            ),
            status: StatusModel {
                playheads: Seq::new(
                    TRACK_COUNT as nat,
                    |t: int| self.tracks[t].next_step as u8,
                ),
                ..self.status
            },
            ..self
        }
    }

    /// The sequencer after its transport crossed a boundary, and what the
    /// boundary changed.
    pub open spec fn bar_crossed(self, project: ProjectModel, global_step: usize) -> (
        SequencerModel,
        BarChange,
    ) {
        let (transport, change) = self.transport.at_boundary(project, global_step as int);
        (
            if change is Enter {
                self.rewound().with_transport(transport)
            } else {
                self.with_transport(transport)
            },
            change,
        )
    }

    /// One sample of the queue: what no longer has its step is dropped, the
    /// rest counts down, and what was due has left.
    pub open spec fn queue_advanced(self, project: ProjectModel) -> SequencerModel {
        SequencerModel {
            scheduled: counted_down(
                pruned(self.scheduled, project, self.transport.active_pattern as int),
            ),
            ..self
        }
    }

    /// What leaves the queue on that sample.
    pub open spec fn due(self, project: ProjectModel) -> Seq<ScheduledTrackAction> {
        due_actions(
            pruned(self.scheduled, project, self.transport.active_pattern as int),
            SCHEDULED_ACTION_COUNT as int,
        )
    }

    pub open spec fn toggled(self) -> SequencerModel {
        let playing = !self.transport.playing;
        SequencerModel {
            transport: Transport { playing, ..self.transport },
            clock: if playing && self.status.paused {
                StepClock { countdown: 0, ..self.clock }
            } else {
                self.clock
            },
            status: StatusModel { running: playing, paused: !playing, ..self.status },
            ..self
        }
    }

    pub open spec fn stopped(self) -> SequencerModel {
        let rest = self.rewound().with_transport(self.transport.stopped());
        SequencerModel {
            clock: StepClock { countdown: 0, next_step: 0, ..self.clock },
            status: StatusModel {
                running: false,
                paused: false,
                playheads: no_playheads(),
                ..rest.status
            },
            ..rest
        }
    }

    /// A pattern was asked for: while playing it waits for the next bar.
    pub open spec fn pattern_selected(self, project: ProjectModel, pattern: u8) -> SequencerModel {
        if pattern >= project.patterns.len() {
            self
        } else if self.transport.playing {
            self.with_transport(
                Transport { queued_pattern: Some(pattern as usize), ..self.transport },
            )
        } else {
            self.pattern_activated(pattern as usize)
        }
    }

    pub open spec fn song_selected(self, project: ProjectModel, entry: u16) -> SequencerModel {
        if self.transport.playing {
            self.with_transport(Transport { queued_song: Some(entry as usize), ..self.transport })
        } else {
            self.song_activated(project, entry as int)
        }
    }

    /// The sequencer brought over to an edited project.
    pub open spec fn followed(
        self,
        before: ProjectModel,
        after: ProjectModel,
        pattern_map: PatternIndexMap,
        song_map: SongIndexMap,
    ) -> SequencerModel {
        let transport = self.transport.moved(after, pattern_map, song_map);
        let was = self.transport.active_pattern as int;
        let is = transport.active_pattern as int;
        let changed = changed_kinds(before, after);
        SequencerModel {
            transport,
            clock: clock_at(self.clock, after.globals.tempo_bpm),
            tracks: Seq::new(
                TRACK_COUNT as nat,
                |t: int| clock_followed(self.tracks[t], before, was, after, is, t),
            ),
            scheduled: pruned(
                actions_kept(without_replaced(self.scheduled, before, was, after, is), changed),
                after,
                is,
            ),
            previews: previews_kept(self.previews, changed),
            status: shown(
                StatusModel {
                    playheads: Seq::new(
                        TRACK_COUNT as nat,
                        |t: int|
                            playhead_followed(self.status.playheads[t], before, after, is, t),
                    ),
                    ..self.status
                },
                transport,
            ),
        }
    }
}

/// What leaves a pruned queue still has its step.
proof fn due_actions_are_valid(queue: ActionQueue, project: ProjectModel, pattern: int, n: int)
    requires
        0 <= n <= queue.len(),
    ensures
        forall|i: int|
            0 <= i < due_actions(pruned(queue, project, pattern), n).len() ==> still_valid(
                project,
                pattern,
                #[trigger] due_actions(pruned(queue, project, pattern), n)[i],
            ),
    decreases n,
{
    if n > 0 {
        due_actions_are_valid(queue, project, pattern, n - 1);
        let kept = pruned(queue, project, pattern);
        let before = due_actions(kept, n - 1);
        assert forall|i: int| 0 <= i < due_actions(kept, n).len() implies still_valid(
            project,
            pattern,
            #[trigger] due_actions(kept, n)[i],
        ) by {
            if i < before.len() {
                assert(due_actions(kept, n)[i] == before[i]);
            }
        }
    }
}

impl Sequencer {
    pub fn new(sample_rate: u32, tempo_bpm: u16) -> (s: Sequencer)
        requires
            tempo_bpm >= 1,
            sample_rate <= MAX_SAMPLE_RATE,
        ensures
            s@.transport == Transport::initial(),
            s@.clock == (StepClock { sample_rate, tempo_bpm, countdown: 0, next_step: 0 }),
            s@.tracks == fresh_clocks(),
            s@.scheduled == no_actions(),
            s@.previews == no_previews(),
            s@.status == super::status::initial_status(),
            forall|project: ProjectModel| #[trigger] project.wf() ==> s@.wf(project),
    {
        let mut tracks: Vec<TrackClock> = Vec::with_capacity(TRACK_COUNT);
        while tracks.len() < TRACK_COUNT
            invariant
                tracks@.len() <= TRACK_COUNT,
                forall|t: int| 0 <= t < tracks@.len() ==> (#[trigger] tracks@[t])@ == fresh_clock(t),
            decreases TRACK_COUNT - tracks@.len(),
        {
            let t: usize = tracks.len();
            tracks.push(TrackClock::new(t));
        }
        let mut scheduled: Vec<Option<ScheduledTrackAction>> = Vec::with_capacity(
            SCHEDULED_ACTION_COUNT,
        );
        while scheduled.len() < SCHEDULED_ACTION_COUNT
            invariant
                scheduled@.len() <= SCHEDULED_ACTION_COUNT,
                forall|i: int| 0 <= i < scheduled@.len() ==> (#[trigger] scheduled@[i]) is None,
            decreases SCHEDULED_ACTION_COUNT - scheduled@.len(),
        {
            scheduled.push(None);
        }
        let mut preview_scheduled: Vec<Option<PreviewAction>> = Vec::with_capacity(
            PREVIEW_ACTION_COUNT,
        );
        while preview_scheduled.len() < PREVIEW_ACTION_COUNT
            invariant
                preview_scheduled@.len() <= PREVIEW_ACTION_COUNT,
                forall|i: int|
                    0 <= i < preview_scheduled@.len() ==> (#[trigger] preview_scheduled@[i]) is None,
            decreases PREVIEW_ACTION_COUNT - preview_scheduled@.len(),
        {
            preview_scheduled.push(None);
        }
        let s = Sequencer {
            transport: Transport::new(),
            clock: StepClock::new(sample_rate, tempo_bpm),
            tracks,
            scheduled,
            preview_scheduled,
            status: AudioStatus::default(),
        };
        assert(s@.tracks =~= fresh_clocks());
        assert(s@.scheduled =~= no_actions());
        assert(s@.previews =~= no_previews());
        s
    }

    /// Shows the transport in the status.
    fn show(&mut self)
        ensures
            final(self)@ == (SequencerModel {
                status: shown(old(self)@.status, old(self)@.transport),
                ..old(self)@
            }),
    {
        self.status.active_pattern = self.transport.active_pattern as u8;
        self.status.queued_pattern =
        match self.transport.queued_pattern {
            Some(pattern) => pattern as u8,
            None => NO_INDEX,
        };
        self.status.song_mode = self.transport.song_mode;
        self.status.active_song = self.transport.active_song as u8;
        self.status.queued_song =
        match self.transport.queued_song {
            Some(entry) => entry as u16,
            None => NO_SONG,
        };
        self.status.song_bar = self.transport.song_bar;
    }

    fn clear_previews(&mut self)
        requires
            old(self)@.previews.len() == PREVIEW_ACTION_COUNT,
        ensures
            final(self)@ == (SequencerModel { previews: no_previews(), ..old(self)@ }),
    {
        let mut i: usize = 0;
        while i < PREVIEW_ACTION_COUNT
            invariant
                i <= PREVIEW_ACTION_COUNT,
                self.preview_scheduled@.len() == PREVIEW_ACTION_COUNT,
                self@ == (SequencerModel { previews: self.preview_scheduled@, ..old(self)@ }),
                forall|k: int| 0 <= k < i ==> (#[trigger] self.preview_scheduled@[k]) is None,
            decreases PREVIEW_ACTION_COUNT - i,
        {
            self.preview_scheduled[i] = None;
            i = i + 1;
        }
        assert(self@.previews =~= no_previews());
    }

    /// Starts every track over, with nothing remembered or queued.
    pub fn rewind(&mut self)
        requires
            old(self)@.tracks.len() == TRACK_COUNT,
            forall|t: int| 0 <= t < TRACK_COUNT ==> (#[trigger] old(self)@.tracks[t]).wf(),
            old(self)@.scheduled.len() == SCHEDULED_ACTION_COUNT,
            old(self)@.previews.len() == PREVIEW_ACTION_COUNT,
        ensures
            final(self)@ == old(self)@.rewound(),
    {
        self.clear_previews();
        let mut i: usize = 0;
        while i < SCHEDULED_ACTION_COUNT
            invariant
                i <= SCHEDULED_ACTION_COUNT,
                self.scheduled@.len() == SCHEDULED_ACTION_COUNT,
                self@ == (SequencerModel {
                    previews: no_previews(),
                    scheduled: self.scheduled@,
                    ..old(self)@
                }),
                forall|k: int| 0 <= k < i ==> (#[trigger] self.scheduled@[k]) is None,
            decreases SCHEDULED_ACTION_COUNT - i,
        {
            self.scheduled[i] = None;
            i = i + 1;
        }
        assert(self@.scheduled =~= no_actions());
        assert forall|k: int| 0 <= k < TRACK_COUNT implies (#[trigger] self.tracks@[k])@.wf() by {
            assert(old(self)@.tracks[k].wf());
        }
        let mut t: usize = 0;
        while t < TRACK_COUNT
            invariant
                t <= TRACK_COUNT,
                self.tracks@.len() == TRACK_COUNT,
                self@ == (SequencerModel {
                    previews: no_previews(),
                    scheduled: no_actions(),
                    tracks: self@.tracks,
                    ..old(self)@
                }),
                forall|k: int| 0 <= k < t ==> (#[trigger] self.tracks@[k])@ == fresh_clock(k),
                forall|k: int| t <= k < TRACK_COUNT ==> (#[trigger] self.tracks@[k])@.wf(),
            decreases TRACK_COUNT - t,
        {
            self.tracks[t].reset_trigger_state(t);
            self.tracks[t].next_step = 0;
            assert(self.tracks@[t as int]@ =~= fresh_clock(t as int));
            t = t + 1;
        }
        assert(self@.tracks =~= fresh_clocks());
    }

    pub fn activate_pattern(&mut self, project: &AudioProject, pattern: usize)
        requires
            old(self)@.wf(project@),
            pattern < project@.patterns.len(),
        ensures
            final(self)@ == old(self)@.pattern_activated(pattern),
            final(self)@.wf(project@),
    {
        self.rewind();
        self.transport.enter_pattern(pattern);
        self.show();
    }

    pub fn activate_song(&mut self, project: &AudioProject, entry: usize)
        requires
            project@.wf(),
            old(self)@.wf(project@),
        ensures
            final(self)@ == old(self)@.song_activated(project@, entry as int),
            final(self)@.wf(project@),
    {
        self.rewind();
        self.transport.enter_song(project, entry);
        self.show();
    }

    /// Crosses a bar line where the step is on one.
    pub fn cross_bar(&mut self, project: &AudioProject, global_step: usize) -> (change: BarChange)
        requires
            project@.wf(),
            old(self)@.wf(project@),
        ensures
            (final(self)@, change) == old(self)@.bar_crossed(project@, global_step),
            final(self)@.wf(project@),
    {
        let change = self.transport.cross_boundary(project, global_step);
        if let BarChange::Enter { .. } = change {
            self.rewind();
        }
        self.show();
        change
    }

    /// Takes every track over a step boundary.
    pub fn advance_tracks(&mut self, project: &AudioProject, global_step: usize)
        requires
            project@.wf(),
            old(self)@.wf(project@),
        ensures
            final(self)@ == old(self)@.tracks_advanced(project@, global_step),
            final(self)@.wf(project@),
    {
        let ghost before = self@;
        let pattern: usize = self.transport.active_pattern;
        let odd: bool = global_step % 2 == 1;
        let step_samples: u32 = self.clock.step_samples();
        let transition_next: bool = self.transport.transition_due_at(
            project,
            global_step.wrapping_add(1),
        );
        let ghost after = before.tracks_advanced(project@, global_step);
        let mut t: usize = 0;
        while t < TRACK_COUNT
            invariant
                t <= TRACK_COUNT,
                project@.wf(),
                before == old(self)@,
                before.wf(project@),
                pattern == before.transport.active_pattern,
                odd == (global_step % 2 == 1),
                step_samples == before.clock.rounded_step(),
                step_samples <= MAX_STEP_SAMPLES,
                transition_next == before.transport.transition_due(
                    project@,
                    global_step.wrapping_add(1) as int,
                ),
                after == before.tracks_advanced(project@, global_step),
                self@ == (SequencerModel {
                    tracks: self@.tracks,
                    scheduled: self@.scheduled,
                    status: StatusModel { playheads: self@.status.playheads, ..before.status },
                    ..before
                }),
                self.tracks@.len() == TRACK_COUNT,
                self.scheduled@.len() == SCHEDULED_ACTION_COUNT,
                self@.status.playheads.len() == TRACK_COUNT,
                self.scheduled@ == boundary_queue(
                    before.scheduled,
                    before.tracks,
                    project@,
                    pattern as int,
                    odd,
                    step_samples as int,
                    transition_next,
                    t as int,
                ),
                forall|k: int|
                    0 <= k < TRACK_COUNT ==> (#[trigger] self.tracks@[k])@ == if k < t {
                        after.tracks[k]
                    } else {
                        before.tracks[k]
                    },
                forall|k: int| 0 <= k < t ==> (#[trigger] self.tracks@[k])@.wf(),
                forall|k: int|
                    0 <= k < TRACK_COUNT ==> #[trigger] self@.status.playheads[k] == if k < t {
                        after.status.playheads[k]
                    } else {
                        before.status.playheads[k]
                    },
            decreases TRACK_COUNT - t,
        {
            let sequence = sequence_of(project, pattern, t);
            assert(before.tracks[t as int].wf());
            self.status.playheads[t] = self.tracks[t].next_step as u8;
            advance_track(
                &mut self.tracks[t],
                &mut self.scheduled,
                sequence,
                &project.tracks[t],
                t,
                odd,
                step_samples,
                transition_next,
            );
            t = t + 1;
        }
        assert(self@.tracks =~= after.tracks);
        assert(self@.status.playheads =~= after.status.playheads);
        assert forall|k: int| 0 <= k < TRACK_COUNT implies (#[trigger] self@.tracks[k]).wf() by {
            assert(self.tracks@[k]@.wf());
        }
    }

    /// One sample of the queue; `ready` gets what falls due.
    pub fn advance_scheduled(
        &mut self,
        project: &AudioProject,
        ready: &mut Vec<ScheduledTrackAction>,
    )
        requires
            old(self)@.wf(project@),
        ensures
            final(self)@ == old(self)@.queue_advanced(project@),
            final(self)@.wf(project@),
            final(ready)@ == old(self)@.due(project@),
            forall|i: int|
                0 <= i < final(ready)@.len() ==> still_valid(
                    project@,
                    old(self)@.transport.active_pattern as int,
                    #[trigger] final(ready)@[i],
                ),
    {
        prune_scheduled_actions(&mut self.scheduled, project, self.transport.active_pattern);
        count_down(&mut self.scheduled, ready);
        proof {
            due_actions_are_valid(
                old(self)@.scheduled,
                project@,
                old(self)@.transport.active_pattern as int,
                SCHEDULED_ACTION_COUNT as int,
            );
        }
    }

    /// One sample of the auditions; `ready` gets what falls due.
    pub fn advance_previews(&mut self, ready: &mut Vec<PreviewAction>)
        requires
            old(self)@.previews.len() == PREVIEW_ACTION_COUNT,
        ensures
            final(self)@ == (SequencerModel {
                previews: previews_counted_down(old(self)@.previews),
                ..old(self)@
            }),
            final(ready)@ == due_previews(old(self)@.previews, PREVIEW_ACTION_COUNT as int),
    {
        let ghost queue = self.preview_scheduled@;
        ready.clear();
        let mut i: usize = 0;
        while i < PREVIEW_ACTION_COUNT
            invariant
                i <= PREVIEW_ACTION_COUNT,
                queue == old(self)@.previews,
                queue.len() == PREVIEW_ACTION_COUNT,
                self.preview_scheduled@.len() == PREVIEW_ACTION_COUNT,
                self@ == (SequencerModel { previews: self.preview_scheduled@, ..old(self)@ }),
                ready@ == due_previews(queue, i as int),
                forall|k: int|
                    0 <= k < PREVIEW_ACTION_COUNT ==> #[trigger] self.preview_scheduled@[k]
                        == if k < i {
                        previews_counted_down(queue)[k]
                    } else {
                        queue[k]
                    },
            decreases PREVIEW_ACTION_COUNT - i,
        {
            if let Some(action) = self.preview_scheduled[i] {
                if action.remaining > 0 {
                    self.preview_scheduled[i] = Some(
                        PreviewAction { remaining: action.remaining - 1, ..action },
                    );
                } else {
                    ready.push(action);
                    self.preview_scheduled[i] = None;
                }
            }
            i = i + 1;
        }
        assert(self@.previews =~= previews_counted_down(queue));
    }

    /// Queues the further hits of an audition in place of any other.
    pub fn schedule_audition(&mut self, track: u8, step: u8, count: u8)
        requires
            old(self)@.previews.len() == PREVIEW_ACTION_COUNT,
            old(self)@.clock.wf(),
            count >= 1,
        ensures
            final(self)@ == (SequencerModel {
                previews: enqueued_all(
                    no_previews(),
                    audition_hits(track, step, count as int, old(self)@.clock.rounded_step()),
                ),
                ..old(self)@
            }),
            final(self)@.previews.len() == PREVIEW_ACTION_COUNT,
    {
        self.clear_previews();
        let step_samples: u32 = self.clock.step_samples();
        let ghost hits = audition_hits(track, step, count as int, step_samples as int);
        let ghost before = self@;
        assert(hits.take(0) =~= Seq::empty());
        let mut hit: u8 = 1;
        while hit < count
            invariant
                1 <= hit <= count,
                step_samples <= MAX_STEP_SAMPLES,
                hits == audition_hits(track, step, count as int, step_samples as int),
                self@ == (SequencerModel { previews: self.preview_scheduled@, ..before }),
                self.preview_scheduled@ == enqueued_all(no_previews(), hits.take(hit - 1)),
                self.preview_scheduled@.len() == PREVIEW_ACTION_COUNT,
            decreases count - hit,
        {
            assert(step_samples * hit <= MAX_STEP_SAMPLES * 255) by (nonlinear_arith)
                requires
                    step_samples <= MAX_STEP_SAMPLES,
                    hit <= 255,
            ;
            proof {
                assert(hits.take(hit as int).drop_last() =~= hits.take(hit - 1));
            }
            let remaining: u32 = step_samples * (hit as u32) / (count as u32);
            enqueue(&mut self.preview_scheduled, PreviewAction { remaining, track, step });
            assert(hits[hit - 1].remaining == remaining);
            hit = hit + 1;
        }
        assert(hits.take(count - 1) =~= hits);
    }

    /// Starts or pauses playback. What was paused goes on with its next step
    /// at once.
    pub fn play_pause(&mut self, project: &AudioProject)
        requires
            old(self)@.wf(project@),
        ensures
            final(self)@ == old(self)@.toggled(),
            final(self)@.wf(project@),
    {
        if !self.transport.playing && self.status.paused {
            self.clock.restart_timing();
        }
        self.transport.playing = !self.transport.playing;
        self.status.running = self.transport.playing;
        self.status.paused = !self.transport.playing;
    }

    pub fn stop(&mut self, project: &AudioProject)
        requires
            project@.wf(),
            old(self)@.wf(project@),
        ensures
            final(self)@ == old(self)@.stopped(),
            final(self)@.wf(project@),
    {
        self.rewind();
        self.transport.stop();
        self.clock.reset();
        self.show();
        self.status.running = false;
        self.status.paused = false;
        self.status.playheads = [NO_INDEX; TRACK_COUNT];
        assert(self@.status.playheads =~= no_playheads());
    }

    pub fn select_pattern(&mut self, project: &AudioProject, pattern: u8)
        requires
            old(self)@.wf(project@),
        ensures
            final(self)@ == old(self)@.pattern_selected(project@, pattern),
            final(self)@.wf(project@),
    {
        if (pattern as usize) < project.patterns.len() {
            if self.transport.playing {
                self.transport.queued_pattern = Some(pattern as usize);
                self.show();
            } else {
                self.activate_pattern(project, pattern as usize);
            }
        }
    }

    pub fn select_song(&mut self, project: &AudioProject, entry: u16)
        requires
            project@.wf(),
            old(self)@.wf(project@),
        ensures
            final(self)@ == old(self)@.song_selected(project@, entry),
            final(self)@.wf(project@),
    {
        if self.transport.playing {
            self.transport.queued_song = Some(entry as usize);
            self.show();
        } else {
            self.activate_song(project, entry as usize);
        }
    }

    /// Follows an edit of the project: the transport keeps its place, what was
    /// queued for an event that changed is dropped, and a track with a new
    /// instrument starts over.
    pub fn follow(
        &mut self,
        before: &AudioProject,
        after: &AudioProject,
        pattern_map: PatternIndexMap,
        song_map: SongIndexMap,
    )
        requires
            before@.wf(),
            after@.wf(),
            old(self)@.wf(before@),
        ensures
            final(self)@ == old(self)@.followed(before@, after@, pattern_map, song_map),
            final(self)@.wf(after@),
    {
        let was: usize = self.transport.active_pattern;
        self.transport.rebase(after, pattern_map, song_map);
        let is: usize = self.transport.active_pattern;
        self.clock.set_bpm(after.globals.tempo_bpm);
        invalidate_replaced_scheduled_actions(&mut self.scheduled, before, was, after, is);
        let changed = compare_kinds(before, after);
        drop_actions(&mut self.scheduled, &changed);
        drop_previews(&mut self.preview_scheduled, &changed);
        prune_scheduled_actions(&mut self.scheduled, after, is);
        self.follow_tracks(before, was, after, is);
        self.show();
    }

    fn follow_tracks(
        &mut self,
        before: &AudioProject,
        was: usize,
        after: &AudioProject,
        is: usize,
    )
        requires
            before@.wf(),
            after@.wf(),
            is < after@.patterns.len(),
            old(self)@.tracks.len() == TRACK_COUNT,
            forall|t: int| 0 <= t < TRACK_COUNT ==> (#[trigger] old(self)@.tracks[t]).wf(),
            old(self)@.status.playheads.len() == TRACK_COUNT,
        ensures
            final(self)@ == (SequencerModel {
                tracks: Seq::new(
                    TRACK_COUNT as nat,
                    |t: int|
                        clock_followed(
                            old(self)@.tracks[t],
                            before@,
                            was as int,
                            after@,
                            is as int,
                            t,
                        ),
                ),
                status: StatusModel {
                    playheads: Seq::new(
                        TRACK_COUNT as nat,
                        |t: int|
                            playhead_followed(
                                old(self)@.status.playheads[t],
                                before@,
                                after@,
                                is as int,
                                t,
                            ),
                    ),
                    ..old(self)@.status
                },
                ..old(self)@
            }),
            forall|t: int| 0 <= t < TRACK_COUNT ==> (#[trigger] final(self)@.tracks[t]).wf(),
    {
        let ghost start = self@;
        let mut t: usize = 0;
        while t < TRACK_COUNT
            invariant
                t <= TRACK_COUNT,
                before@.wf(),
                after@.wf(),
                is < after@.patterns.len(),
                start == old(self)@,
                start.tracks.len() == TRACK_COUNT,
                start.status.playheads.len() == TRACK_COUNT,
                forall|k: int| 0 <= k < TRACK_COUNT ==> (#[trigger] start.tracks[k]).wf(),
                self@ == (SequencerModel {
                    tracks: self@.tracks,
                    status: StatusModel { playheads: self@.status.playheads, ..start.status },
                    ..start
                }),
                self.tracks@.len() == TRACK_COUNT,
                self@.status.playheads.len() == TRACK_COUNT,
                forall|k: int|
                    0 <= k < TRACK_COUNT ==> (#[trigger] self.tracks@[k])@ == if k < t {
                        clock_followed(
                            start.tracks[k],
                            before@,
                            was as int,
                            after@,
                            is as int,
                            k,
                        )
                    } else {
                        start.tracks[k]
                    },
                forall|k: int| 0 <= k < t ==> (#[trigger] self.tracks@[k])@.wf(),
                forall|k: int|
                    0 <= k < TRACK_COUNT ==> #[trigger] self@.status.playheads[k] == if k < t {
                        playhead_followed(
                            start.status.playheads[k],
                            before@,
                            after@,
                            is as int,
                            k,
                        )
                    } else {
                        start.status.playheads[k]
                    },
            decreases TRACK_COUNT - t,
        {
            assert(start.tracks[t as int].wf());
            let sequence = sequence_of(after, is, t);
            if before.tracks[t].instrument_kind() != after.tracks[t].instrument_kind() {
                self.tracks[t] = TrackClock::new(t);
                self.status.playheads[t] = NO_INDEX;
            } else {
                if let Some(armed) = self.tracks[t].early_armed {
                    let step: usize = armed as usize;
                    let held = before.event_at(was, t, step);
                    let now = after.event_at(is, t, step);
                    if was != is || !same_step(&held, &now) {
                        self.tracks[t].early_armed = None;
                    }
                }
                if self.tracks[t].next_step >= sequence.step_count as usize {
                    self.tracks[t].next_step = 0;
                }
                if self.status.playheads[t] >= sequence.step_count {
                    self.status.playheads[t] = NO_INDEX;
                }
            }
            t = t + 1;
        }
        assert(self@.tracks =~= Seq::new(
            TRACK_COUNT as nat,
            |t: int|
                clock_followed(start.tracks[t], before@, was as int, after@, is as int, t),
        ));
        assert(self@.status.playheads =~= Seq::new(
            TRACK_COUNT as nat,
            |t: int|
                playhead_followed(start.status.playheads[t], before@, after@, is as int, t),
        ));
        assert forall|k: int| 0 <= k < TRACK_COUNT implies (#[trigger] self@.tracks[k]).wf() by {
            assert(self.tracks@[k]@.wf());
        }
    }
}

/// Which tracks changed their instrument.
pub fn compare_kinds(before: &AudioProject, after: &AudioProject) -> (changed: [bool;
    TRACK_COUNT])
    requires
        before@.wf(),
        after@.wf(),
    ensures
        changed@ == changed_kinds(before@, after@),
{
    let mut changed: [bool; TRACK_COUNT] = [false; TRACK_COUNT];
    let mut t: usize = 0;
    while t < TRACK_COUNT
        invariant
            t <= TRACK_COUNT,
            before@.wf(),
            after@.wf(),
            forall|k: int|
                0 <= k < t ==> #[trigger] changed@[k] == changed_kinds(before@, after@)[k],
        decreases TRACK_COUNT - t,
    {
        changed[t] = before.tracks[t].instrument_kind() != after.tracks[t].instrument_kind();
        t = t + 1;
    }
    assert(changed@ =~= changed_kinds(before@, after@));
    changed
}

fn drop_actions(queue: &mut Vec<Option<ScheduledTrackAction>>, changed: &[bool; TRACK_COUNT])
    ensures
        final(queue)@ == actions_kept(old(queue)@, changed@),
{
    let mut i: usize = 0;
    while i < queue.len()
        invariant
            i <= queue@.len(),
            queue@.len() == old(queue)@.len(),
            forall|k: int|
                0 <= k < queue@.len() ==> #[trigger] queue@[k] == if k < i {
                    actions_kept(old(queue)@, changed@)[k]
                } else {
                    old(queue)@[k]
                },
        decreases queue@.len() - i,
    {
        if let Some(action) = queue[i] {
            let track: usize = action.track as usize;
            if track < TRACK_COUNT && changed[track] {
                queue[i] = None;
            }
        }
        i = i + 1;
    }
    assert(queue@ =~= actions_kept(old(queue)@, changed@));
}

fn drop_previews(queue: &mut Vec<Option<PreviewAction>>, changed: &[bool; TRACK_COUNT])
    ensures
        final(queue)@ == previews_kept(old(queue)@, changed@),
{
    let mut i: usize = 0;
    while i < queue.len()
        invariant
            i <= queue@.len(),
            queue@.len() == old(queue)@.len(),
            forall|k: int|
                0 <= k < queue@.len() ==> #[trigger] queue@[k] == if k < i {
                    previews_kept(old(queue)@, changed@)[k]
                } else {
                    old(queue)@[k]
                },
        decreases queue@.len() - i,
    {
        if let Some(action) = queue[i] {
            let track: usize = action.track as usize;
            if track < TRACK_COUNT && changed[track] {
                queue[i] = None;
            }
        }
        i = i + 1;
    }
    assert(queue@ =~= previews_kept(old(queue)@, changed@));
}

} // verus!
