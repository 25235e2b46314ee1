//! The engine: it carries out commands, runs the sequencer and the voices, and
//! leaves cues for the sound that they make.
use super::channel::{
    commands_taken, commands_waiting, pop_command, project_slots, projects_room, projects_sent,
    push_project,
};
use super::command::{AudioCommand, CommandModel, Replacement};
use super::controls::ParameterSmoothing;
use super::cue::Cue;
use super::recording::{
    take_ended, take_started, ProducerModel, RecordingItem, RecordingProducer,
};
use super::schedule::{
    enqueued_all, still_valid, PreviewAction, ScheduledTrackAction, PREVIEW_ACTION_COUNT,
    SCHEDULED_ACTION_COUNT,
};
use super::sequencer::{
    audition_hits, changed_kinds, compare_kinds, due_previews, no_previews, previews_counted_down,
    Sequencer, SequencerModel,
};
use super::slot::{sequence_of, DrumVoice, SlotModel, TrackSlot};
use super::snapshot::{AudioProject, ProjectModel};
use super::status::StatusModel;
use super::transport::{BarChange, MAX_SAMPLE_RATE};
use crate::model::index_map::{PatternIndexMap, SongIndexMap};
use crate::model::parameter::PARAMETER_COUNT;
use crate::model::project::{step_wf, TRACK_COUNT};
use rtrb::{Consumer, Producer};
use vstd::prelude::*;

verus! {

/// A project that waits for a place to retire the current one to.
pub struct PendingProject {
    pub project: Box<AudioProject>,
    pub smoothing: ParameterSmoothing,
    pub pattern_map: PatternIndexMap,
    pub song_map: SongIndexMap,
}

impl View for PendingProject {
    type V = Replacement;

    open spec fn view(&self) -> Replacement {
        Replacement {
            project: self.project@,
            smoothing: self.smoothing,
            pattern_map: self.pattern_map,
            song_map: self.song_map,
        }
    }
}

/// Cues that there is room for from the start.
pub const CUE_ROOM: usize = 4096;

/// The engine. Its buffers are made with it and used again from frame to
/// frame.
pub struct Renderer {
    pub project: Box<AudioProject>,
    pub retire: Producer<Box<AudioProject>>,
    pub pending: Option<PendingProject>,
    pub sequencer: Sequencer,
    pub live: Vec<TrackSlot>,
    pub preview: Vec<TrackSlot>,
    pub preview_activity: [bool; TRACK_COUNT],
    pub recording: RecordingProducer,
    pub cues: Vec<Cue>,
    pub sample_rate: u32,
    pub ready: Vec<ScheduledTrackAction>,
    pub ready_previews: Vec<PreviewAction>,
}

#[verifier::ext_equal]
pub struct RendererModel {
    pub project: ProjectModel,
    pub retired: Seq<ProjectModel>,
    pub pending: Option<Replacement>,
    pub sequencer: SequencerModel,
    pub live: Seq<SlotModel>,
    pub preview: Seq<SlotModel>,
    pub preview_activity: Seq<bool>,
    pub recording: ProducerModel,
    pub cues: Seq<Cue>,
    pub sample_rate: u32,
}

pub open spec fn slot_models(slots: Seq<TrackSlot>) -> Seq<SlotModel> {
    Seq::new(slots.len(), |t: int| slots[t]@)
}

impl View for Renderer {
    type V = RendererModel;

    open spec fn view(&self) -> RendererModel {
        RendererModel {
            project: self.project@,
            retired: projects_sent(self.retire),
            pending: match self.pending {
                Some(p) => Some(p@),
                None => None,
            },
            sequencer: self.sequencer@,
            live: slot_models(self.live@),
            preview: slot_models(self.preview@),
            preview_activity: self.preview_activity@,
            recording: self.recording@,
            cues: self.cues@,
            sample_rate: self.sample_rate,
        }
    }
}

pub open spec fn slots_wf(slots: Seq<SlotModel>) -> bool {
    &&& slots.len() == TRACK_COUNT
    &&& forall|t: int| 0 <= t < TRACK_COUNT ==> (#[trigger] slots[t]).wf()
}

/// Samples over which an ordinary change of settings is smoothed.
pub open spec fn default_smoothing(sample_rate: u32) -> u32 {
    ParameterSmoothing::Default.length(sample_rate as int) as u32
}

/// Samples over which a track is muted.
pub open spec fn mute_smoothing(sample_rate: u32) -> u32 {
    (sample_rate as int * 5 / 1000) as u32
}

/// What is told of the oscillators that an edit switches, for the first `n`
/// parameters, counted through all tracks.
pub open spec fn lfo_cues(before: ProjectModel, after: ProjectModel, n: int) -> Seq<Cue>
    decreases n,
{
    if n <= 0 {
        Seq::empty()
    } else {
        let rest = lfo_cues(before, after, n - 1);
        let track = (n - 1) / (PARAMETER_COUNT as int);
        let parameter = (n - 1) % (PARAMETER_COUNT as int);
        let ran = before.tracks[track].lfos.enabled_at(parameter);
        let runs = after.tracks[track].lfos.enabled_at(parameter);
        if !ran && runs {
            rest.push(Cue::ResetLfo { track: track as u8, parameter: parameter as u8 })
        } else if ran && !runs {
            rest.push(Cue::DisableLfo { track: track as u8, parameter: parameter as u8 })
        } else {
            rest
        }
    }
}

/// What is told of the first `n` tracks where their instrument changed.
pub open spec fn reset_cues(changed: Seq<bool>, n: int) -> Seq<Cue>
    decreases n,
{
    if n <= 0 {
        Seq::empty()
    } else if changed[n - 1] {
        reset_cues(changed, n - 1).push(Cue::ResetTrack { track: (n - 1) as u8 })
    } else {
        reset_cues(changed, n - 1)
    }
}

/// What is told of the first `n` tracks under new settings.
pub open spec fn refresh_all_cues(
    live: Seq<SlotModel>,
    preview: Seq<SlotModel>,
    project: ProjectModel,
    smoothing: u32,
    n: int,
) -> Seq<Cue>
    decreases n,
{
    if n <= 0 {
        Seq::empty()
    } else {
        refresh_all_cues(live, preview, project, smoothing, n - 1) + live[n - 1].refresh_cues(
            project.tracks[n - 1],
            n - 1,
            false,
            smoothing,
        ) + preview[n - 1].refresh_cues(project.tracks[n - 1], n - 1, true, smoothing)
    }
}

/// Slots of which those with a new instrument are at rest.
pub open spec fn slots_rested(slots: Seq<SlotModel>, changed: Seq<bool>) -> Seq<SlotModel> {
    Seq::new(
        slots.len(),
        |t: int|
            if changed[t] {
                slots[t].at_rest()
            } else {
                slots[t]
            },
    )
}

pub open spec fn slots_refreshed(slots: Seq<SlotModel>, project: ProjectModel) -> Seq<SlotModel> {
    Seq::new(slots.len(), |t: int| slots[t].refreshed(project.tracks[t]))
}

impl RendererModel {
    pub open spec fn wf(self) -> bool {
        &&& self.project.wf()
        &&& self.sequencer.wf(self.project)
        &&& slots_wf(self.live)
        &&& slots_wf(self.preview)
        &&& self.preview_activity.len() == TRACK_COUNT
        &&& self.sample_rate <= MAX_SAMPLE_RATE
    }

    pub open spec fn pattern(self) -> int {
        self.sequencer.transport.active_pattern as int
    }

    pub open spec fn playing(self) -> bool {
        self.sequencer.transport.playing
    }

    /// Whether a step of a track is in the pattern that plays.
    pub open spec fn has_step(self, track: int, step: int) -> bool {
        0 <= track < TRACK_COUNT && 0 <= step < self.project.patterns[self.pattern()][track].step_count
    }

    /// The engine after an action of the sequence.
    pub open spec fn acted(self, action: ScheduledTrackAction) -> RendererModel {
        let t = action.track as int;
        let slot = self.live[t];
        RendererModel {
            live: self.live.update(
                t,
                slot.acted(
                    self.project,
                    self.pattern(),
                    t,
                    action.step as int,
                    action.retrigger,
                    action.trigger_allowed,
                ),
            ),
            cues: self.cues + slot.action_cues(
                self.project,
                self.pattern(),
                t,
                action.step as int,
                action.retrigger,
                action.trigger_allowed,
                default_smoothing(self.sample_rate),
            ),
            ..self
        }
    }

    pub open spec fn all_acted(self, actions: Seq<ScheduledTrackAction>) -> RendererModel
        decreases actions.len(),
    {
        if actions.len() == 0 {
            self
        } else {
            self.all_acted(actions.drop_last()).acted(actions.last())
        }
    }

    /// The engine after one hit of an audition; a step that is not there is
    /// not auditioned.
    pub open spec fn auditioned_once(self, track: int, step: int) -> RendererModel {
        if !self.has_step(track, step) {
            self
        } else {
            RendererModel {
                preview: self.preview.update(
                    track,
                    self.preview[track].auditioned(
                        self.project,
                        self.pattern(),
                        track,
                        step,
                        self.sample_rate as int,
                    ),
                ),
                cues: self.cues + self.preview[track].audition_cues(
                    self.project,
                    self.pattern(),
                    track,
                    step,
                    default_smoothing(self.sample_rate),
                ),
                ..self
            }
        }
    }

    pub open spec fn previews_auditioned(self, actions: Seq<PreviewAction>) -> RendererModel
        decreases actions.len(),
    {
        if actions.len() == 0 {
            self
        } else {
            self.previews_auditioned(actions.drop_last()).auditioned_once(
                actions.last().track as int,
                actions.last().step as int,
            )
        }
    }

    /// How often a step is hit.
    pub open spec fn hits_of(self, track: int, step: int) -> int {
        super::schedule::hit_count(self.project.patterns[self.pattern()][track].steps[step])
    }

    /// The engine after an audition was asked for: the first hit at once, the
    /// others over a step, in place of any other audition's.
    #[verifier::opaque]
    pub open spec fn auditioned(self, track: u8, step: u8) -> RendererModel {
        if !self.has_step(track as int, step as int) {
            self
        } else {
            let started = RendererModel {
                cues: self.cues.push(Cue::ResetPreviewLfos { track }),
                ..self
            }.auditioned_once(track as int, step as int);
            RendererModel {
                sequencer: SequencerModel {
                    previews: enqueued_all(
                        no_previews(),
                        audition_hits(
                            track,
                            step,
                            self.hits_of(track as int, step as int),
                            self.sequencer.clock.rounded_step(),
                        ),
                    ),
                    ..started.sequencer
                },
                ..started
            }
        }
    }

    /// The engine after a pause or the start of another pattern released what
    /// was held.
    pub open spec fn relaxed(self) -> RendererModel {
        RendererModel {
            live: slots_relaxed(self.live),
            ..self
        }
    }

    #[verifier::opaque]
    pub open spec fn toggled(self) -> RendererModel {
        let sequencer = self.sequencer.toggled();
        if sequencer.transport.playing {
            RendererModel { sequencer, ..self }
        } else {
            RendererModel {
                sequencer,
                live: slots_paused(self.live),
                ..self
            }
        }
    }

    #[verifier::opaque]
    pub open spec fn stopped(self) -> RendererModel {
        RendererModel {
            sequencer: self.sequencer.stopped(),
            live: slots_stopped(self.live, self.project),
            preview: slots_stopped(self.preview, self.project),
            preview_activity: Seq::new(TRACK_COUNT as nat, |t: int| false),
            cues: self.cues.push(Cue::Clear),
            ..self
        }
    }

    /// One sample of the queue, with everything that falls due.
    pub open spec fn queue_advanced(self) -> RendererModel {
        RendererModel {
            sequencer: self.sequencer.queue_advanced(self.project),
            ..self
        }.all_acted(self.sequencer.due(self.project))
    }

    /// The engine after a step boundary. The end of a song stops it; a new
    /// pattern releases what was held; then every track schedules its step,
    /// and what falls on the boundary sounds at once.
    pub open spec fn at_boundary(self, global_step: usize) -> RendererModel {
        let (sequencer, change) = self.sequencer.bar_crossed(self.project, global_step);
        let crossed = RendererModel { sequencer, ..self };
        match change {
            BarChange::Finish => crossed.stopped(),
            BarChange::Enter { release } => (if release {
                crossed.relaxed()
            } else {
                crossed
            }).tracks_advanced(global_step).queue_advanced(),
            BarChange::Continue => crossed.tracks_advanced(global_step).queue_advanced(),
        }
    }

    pub open spec fn tracks_advanced(self, global_step: usize) -> RendererModel {
        RendererModel {
            sequencer: self.sequencer.tracks_advanced(self.project, global_step),
            ..self
        }
    }

    /// The engine under new settings of the tracks.
    pub open spec fn refreshed(self, smoothing: u32) -> RendererModel {
        RendererModel {
            live: slots_refreshed(self.live, self.project),
            preview: slots_refreshed(self.preview, self.project),
            cues: self.cues + refresh_all_cues(
                self.live,
                self.preview,
                self.project,
                smoothing,
                TRACK_COUNT as int,
            ),
            ..self
        }
    }

    /// The engine after another project took over: everything keeps its place
    /// where it can, tracks with a new instrument start over, and the old
    /// project is retired.
    #[verifier::opaque]
    pub open spec fn replaced(self, next: Replacement) -> RendererModel {
        let changed = changed_kinds(self.project, next.project);
        let smoothing = next.smoothing.length(self.sample_rate as int) as u32;
        RendererModel {
            project: next.project,
            retired: self.retired.push(self.project),
            sequencer: self.sequencer.followed(
                self.project,
                next.project,
                next.pattern_map,
                next.song_map,
            ),
            live: slots_rested(self.live, changed),
            preview: slots_rested(self.preview, changed),
            preview_activity: Seq::new(
                TRACK_COUNT as nat,
                |t: int| self.preview_activity[t] && !changed[t],
            ),
            cues: (self.cues + lfo_cues(
                self.project,
                next.project,
                TRACK_COUNT * PARAMETER_COUNT,
            ) + reset_cues(changed, TRACK_COUNT as int)).push(Cue::Globals { smoothing }).push(
                Cue::Mutes { smoothing: mute_smoothing(self.sample_rate) },
            ),
            ..self
        }.refreshed(smoothing)
    }

    /// The engine after another project was dealt with: one that can be played
    /// takes over, any other is retired unplayed.
    pub open spec fn received(self, next: Replacement) -> RendererModel {
        if next.project.wf() {
            self.replaced(next)
        } else {
            RendererModel { retired: self.retired.push(next.project), ..self }
        }
    }

    /// The engine while a project waits for a place to retire the current one
    /// to.
    pub open spec fn deferred(self, next: Replacement) -> RendererModel {
        RendererModel { pending: Some(next), ..self }
    }
}

/// The seed of the noise of a drum: no two drums sound alike.
pub open spec fn drum_seed_of(track: int, preview: bool) -> u32 {
    if preview {
        if track == 0 {
            0x4a31_27dd
        } else if track == 1 {
            0xa187_4c29
        } else if track == 2 {
            0x6d2b_f193
        } else if track == 3 {
            0x8c1e_5a77
        } else if track == 4 {
            0xb643_92e0
        } else {
            0x4a31_27ddu32 ^ (track as u32).wrapping_mul(0x7f4a_7c15)
        }
    } else {
        if track == 0 {
            0x1234_abcd
        } else if track == 1 {
            0x9137_2468
        } else if track == 2 {
            0xdead_beef
        } else if track == 3 {
            0x71a2_4c9d
        } else if track == 4 {
            0x4f83_d2b1
        } else {
            0x1234_abcdu32 ^ (track as u32).wrapping_mul(0x9e37_79b9)
        }
    }
}

fn drum_seed(track: usize, preview: bool) -> (seed: u32)
    requires
        track < TRACK_COUNT,
    ensures
        seed == drum_seed_of(track as int, preview),
{
    let index: u32 = track as u32;
    if preview {
        match track {
            0 => 0x4a31_27dd,
            1 => 0xa187_4c29,
            2 => 0x6d2b_f193,
            3 => 0x8c1e_5a77,
            4 => 0xb643_92e0,
            _ => 0x4a31_27ddu32 ^ index.wrapping_mul(0x7f4a_7c15),
        }
    } else {
        match track {
            0 => 0x1234_abcd,
            1 => 0x9137_2468,
            2 => 0xdead_beef,
            3 => 0x71a2_4c9d,
            4 => 0x4f83_d2b1,
            _ => 0x1234_abcdu32 ^ index.wrapping_mul(0x9e37_79b9),
        }
    }
}

/// A slot that has not sounded.
pub open spec fn slot_is_fresh(slot: SlotModel, track: int, preview: bool) -> bool {
    &&& slot.drum == DrumVoice::fresh(drum_seed_of(track, preview))
    &&& slot.synth.is_fresh(synth_seed_of(track, preview))
    &&& slot.voicing.is_fresh()
}

/// The seed of the noise of a single voice.
pub open spec fn synth_seed_of(track: int, preview: bool) -> u32 {
    if preview {
        0x2468_ace1u32 ^ (track as u32).wrapping_mul(0x7f4a_7c15)
    } else {
        0x1357_9bdfu32 ^ (track as u32).wrapping_mul(0x9e37_79b9)
    }
}

fn new_slots(preview: bool) -> (slots: Vec<TrackSlot>)
    ensures
        slots_wf(slot_models(slots@)),
        forall|t: int|
            0 <= t < TRACK_COUNT ==> slot_is_fresh((#[trigger] slots@[t])@, t, preview),
{
    let mut slots: Vec<TrackSlot> = Vec::with_capacity(TRACK_COUNT);
    while slots.len() < TRACK_COUNT
        invariant
            slots@.len() <= TRACK_COUNT,
            forall|t: int|
                0 <= t < slots@.len() ==> (#[trigger] slots@[t])@.wf() && slot_is_fresh(
                    slots@[t]@,
                    t,
                    preview,
                ),
        decreases TRACK_COUNT - slots@.len(),
    {
        let track: usize = slots.len();
        let index: u32 = track as u32;
        let synth_seed: u32 = if preview {
            0x2468_ace1u32 ^ index.wrapping_mul(0x7f4a_7c15)
        } else {
            0x1357_9bdfu32 ^ index.wrapping_mul(0x9e37_79b9)
        };
        slots.push(TrackSlot::new(drum_seed(track, preview), synth_seed));
    }
    slots
}

impl Renderer {
    /// An engine at rest. Old projects go to `retire`, captured frames to
    /// `recording`.
    pub fn new_with_retirement(
        project: Box<AudioProject>,
        sample_rate: u32,
        retire: Producer<Box<AudioProject>>,
        recording: RecordingProducer,
    ) -> (renderer: Renderer)
        requires
            project@.wf(),
            sample_rate <= MAX_SAMPLE_RATE,
        ensures
            renderer@.wf(),
            renderer@.project == project@,
            renderer.retire == retire,
            renderer.recording == recording,
            renderer@.pending is None,
            renderer@.sequencer.transport == super::transport::Transport::initial(),
            renderer@.sequencer.clock == (super::transport::StepClock {
                sample_rate,
                tempo_bpm: project@.globals.tempo_bpm,
                countdown: 0,
                next_step: 0,
            }),
            renderer@.sequencer.tracks == super::sequencer::fresh_clocks(),
            renderer@.sequencer.scheduled == super::sequencer::no_actions(),
            renderer@.sequencer.previews == no_previews(),
            renderer@.sequencer.status == super::status::initial_status(),
            forall|t: int|
                0 <= t < TRACK_COUNT ==> slot_is_fresh(#[trigger] renderer@.live[t], t, false),
            forall|t: int|
                0 <= t < TRACK_COUNT ==> slot_is_fresh(#[trigger] renderer@.preview[t], t, true),
            renderer@.preview_activity == Seq::new(TRACK_COUNT as nat, |t: int| false),
            renderer@.cues == seq![Cue::Globals { smoothing: 0 }],
            renderer@.sample_rate == sample_rate,
    {
        let tempo_bpm: u16 = project.globals.tempo_bpm;
        let mut cues: Vec<Cue> = Vec::with_capacity(CUE_ROOM);
        cues.push(Cue::Globals { smoothing: 0 });
        let renderer = Renderer {
            project,
            retire,
            pending: None,
            sequencer: Sequencer::new(sample_rate, tempo_bpm),
            live: new_slots(false),
            preview: new_slots(true),
            preview_activity: [false; TRACK_COUNT],
            recording,
            cues,
            sample_rate,
            ready: Vec::with_capacity(SCHEDULED_ACTION_COUNT),
            ready_previews: Vec::with_capacity(PREVIEW_ACTION_COUNT),
        };
        assert(renderer@.preview_activity =~= Seq::new(TRACK_COUNT as nat, |t: int| false));
        assert(renderer@.cues =~= seq![Cue::Globals { smoothing: 0 }]);
        renderer
    }

    /// Performs an action of the sequence.
    pub fn process_track_action(&mut self, action: ScheduledTrackAction)
        requires
            old(self)@.wf(),
            old(self)@.has_step(action.track as int, action.step as int),
        ensures
            final(self)@ == old(self)@.acted(action),
            final(self)@.wf(),
            projects_room(final(self).retire) == projects_room(old(self).retire),
            final(self).recording == old(self).recording,
    {
        let ghost before = self@;
        let track: usize = action.track as usize;
        let smoothing: u32 = ParameterSmoothing::Default.samples(self.sample_rate);
        assert(before.live[track as int].wf());
        self.live[track].process_track_action(
            &mut self.cues,
            &self.project,
            self.sequencer.transport.active_pattern,
            track,
            action.step as usize,
            action.retrigger,
            action.trigger_allowed,
            smoothing,
        );
        assert(self@.live =~= before.acted(action).live);
        assert(self@ =~= before.acted(action));
    }

    fn process_all(&mut self, actions: &Vec<ScheduledTrackAction>)
        requires
            old(self)@.wf(),
            forall|i: int|
                0 <= i < actions@.len() ==> still_valid(
                    old(self)@.project,
                    old(self)@.pattern(),
                    #[trigger] actions@[i],
                ),
        ensures
            final(self)@ == old(self)@.all_acted(actions@),
            final(self)@.wf(),
            projects_room(final(self).retire) == projects_room(old(self).retire),
            final(self).recording == old(self).recording,
    {
        let ghost before = self@;
        let mut i: usize = 0;
        assert(actions@.take(0) =~= Seq::empty());
        while i < actions.len()
            invariant
                i <= actions@.len(),
                before.wf(),
                before == old(self)@,
                forall|k: int|
                    0 <= k < actions@.len() ==> still_valid(
                        before.project,
                        before.pattern(),
                        #[trigger] actions@[k],
                    ),
                self@ == before.all_acted(actions@.take(i as int)),
                self@.wf(),
                self@.project == before.project,
                self@.sequencer == before.sequencer,
                projects_room(self.retire) == projects_room(old(self).retire),
                self.recording == old(self).recording,
            decreases actions@.len() - i,
        {
            proof {
                let part = actions@.take(i + 1);
                assert(part.drop_last() =~= actions@.take(i as int));
                assert(part.last() == actions@[i as int]);
                assert(still_valid(before.project, before.pattern(), actions@[i as int]));
                assert(super::snapshot::pattern_wf(before.project.patterns[before.pattern()]));
            }
            self.process_track_action(actions[i]);
            i = i + 1;
        }
        assert(actions@.take(actions@.len() as int) =~= actions@);
    }

    /// One hit of an audition.
    pub fn audition_once(&mut self, track: usize, step: usize)
        requires
            old(self)@.wf(),
        ensures
            final(self)@ == old(self)@.auditioned_once(track as int, step as int),
            final(self)@.wf(),
            projects_room(final(self).retire) == projects_room(old(self).retire),
            final(self).recording == old(self).recording,
    {
        let ghost before = self@;
        if track >= TRACK_COUNT {
            return;
        }
        let pattern: usize = self.sequencer.transport.active_pattern;
        let count: usize = sequence_of(&self.project, pattern, track).step_count as usize;
        if step >= count {
            return;
        }
        let smoothing: u32 = ParameterSmoothing::Default.samples(self.sample_rate);
        assert(before.preview[track as int].wf());
        self.preview[track].audition_once(
            &mut self.cues,
            &self.project,
            pattern,
            track,
            step,
            self.sample_rate,
            smoothing,
        );
        assert(self@.preview =~= before.auditioned_once(track as int, step as int).preview);
        assert(self@ =~= before.auditioned_once(track as int, step as int));
    }

    fn audition_all(&mut self, actions: &Vec<PreviewAction>)
        requires
            old(self)@.wf(),
        ensures
            final(self)@ == old(self)@.previews_auditioned(actions@),
            final(self)@.wf(),
            projects_room(final(self).retire) == projects_room(old(self).retire),
            final(self).recording == old(self).recording,
    {
        let ghost before = self@;
        let mut i: usize = 0;
        assert(actions@.take(0) =~= Seq::empty());
        while i < actions.len()
            invariant
                i <= actions@.len(),
                before == old(self)@,
                self@ == before.previews_auditioned(actions@.take(i as int)),
                self@.wf(),
                projects_room(self.retire) == projects_room(old(self).retire),
                self.recording == old(self).recording,
            decreases actions@.len() - i,
        {
            proof {
                let part = actions@.take(i + 1);
                assert(part.drop_last() =~= actions@.take(i as int));
                assert(part.last() == actions@[i as int]);
            }
            let action = actions[i];
            self.audition_once(action.track as usize, action.step as usize);
            i = i + 1;
        }
        assert(actions@.take(actions@.len() as int) =~= actions@);
    }

    /// Auditions a step with all its hits.
    pub fn audition(&mut self, track: u8, step: u8)
        requires
            old(self)@.wf(),
        ensures
            final(self)@ == old(self)@.auditioned(track, step),
            final(self)@.wf(),
            projects_room(final(self).retire) == projects_room(old(self).retire),
            final(self).recording == old(self).recording,
    {
        reveal(RendererModel::auditioned);
        let ghost before = self@;
        let t: usize = track as usize;
        let s: usize = step as usize;
        if t >= TRACK_COUNT {
            return;
        }
        let sequence = sequence_of(&self.project, self.sequencer.transport.active_pattern, t);
        if s >= sequence.step_count as usize {
            return;
        }
        assert(step_wf(sequence@.steps[s as int]));
        let count: u8 = match &sequence.steps[s] {
            Some(event) => match event.retrigger_count() {
                Some(count) => count,
                None => 1,
            },
            None => 1,
        };
        self.cues.push(Cue::ResetPreviewLfos { track });
        self.audition_once(t, s);
        self.sequencer.schedule_audition(track, step, count);
        assert(self@ =~= before.auditioned(track, step));
    }
}

/// Every slot after a pause.
pub open spec fn slots_paused(slots: Seq<SlotModel>) -> Seq<SlotModel> {
    Seq::new(slots.len(), |t: int| slots[t].paused())
}

pub open spec fn slots_relaxed(slots: Seq<SlotModel>) -> Seq<SlotModel> {
    Seq::new(slots.len(), |t: int| slots[t].relaxed())
}

pub open spec fn slots_stopped(slots: Seq<SlotModel>, project: ProjectModel) -> Seq<SlotModel> {
    Seq::new(slots.len(), |t: int| slots[t].stopped(project.tracks[t]))
}

fn pause_slots(slots: &mut Vec<TrackSlot>)
    requires
        slots_wf(slot_models(old(slots)@)),
    ensures
        slot_models(final(slots)@) == slots_paused(slot_models(old(slots)@)),
        slots_wf(slot_models(final(slots)@)),
{
    let ghost before = slot_models(slots@);
    let mut t: usize = 0;
    while t < TRACK_COUNT
        invariant
            t <= TRACK_COUNT,
            slots@.len() == TRACK_COUNT,
            slots_wf(before),
            forall|k: int|
                0 <= k < TRACK_COUNT ==> (#[trigger] slots@[k])@.wf() && slots@[k]@ == if k < t {
                    before[k].paused()
                } else {
                    before[k]
                },
        decreases TRACK_COUNT - t,
    {
        slots[t].pause();
        t = t + 1;
    }
    assert(slot_models(slots@) =~= slots_paused(before));
}

fn relax_slots(slots: &mut Vec<TrackSlot>)
    requires
        slots_wf(slot_models(old(slots)@)),
    ensures
        slot_models(final(slots)@) == slots_relaxed(slot_models(old(slots)@)),
        slots_wf(slot_models(final(slots)@)),
{
    let ghost before = slot_models(slots@);
    let mut t: usize = 0;
    while t < TRACK_COUNT
        invariant
            t <= TRACK_COUNT,
            slots@.len() == TRACK_COUNT,
            slots_wf(before),
            forall|k: int|
                0 <= k < TRACK_COUNT ==> (#[trigger] slots@[k])@.wf() && slots@[k]@ == if k < t {
                    before[k].relaxed()
                } else {
                    before[k]
                },
        decreases TRACK_COUNT - t,
    {
        slots[t].relax();
        t = t + 1;
    }
    assert(slot_models(slots@) =~= slots_relaxed(before));
}

fn stop_slots(slots: &mut Vec<TrackSlot>, project: &AudioProject)
    requires
        slots_wf(slot_models(old(slots)@)),
        project@.wf(),
    ensures
        slot_models(final(slots)@) == slots_stopped(slot_models(old(slots)@), project@),
        slots_wf(slot_models(final(slots)@)),
{
    let ghost before = slot_models(slots@);
    let mut t: usize = 0;
    while t < TRACK_COUNT
        invariant
            t <= TRACK_COUNT,
            slots@.len() == TRACK_COUNT,
            slots_wf(before),
            project@.wf(),
            forall|k: int|
                0 <= k < TRACK_COUNT ==> (#[trigger] slots@[k])@.wf() && slots@[k]@ == if k < t {
                    before[k].stopped(project@.tracks[k])
                } else {
                    before[k]
                },
        decreases TRACK_COUNT - t,
    {
        slots[t].stop(&project.tracks[t]);
        t = t + 1;
    }
    assert(slot_models(slots@) =~= slots_stopped(before, project@));
}

fn rest_slots(slots: &mut Vec<TrackSlot>, changed: &[bool; TRACK_COUNT])
    requires
        slots_wf(slot_models(old(slots)@)),
    ensures
        slot_models(final(slots)@) == slots_rested(slot_models(old(slots)@), changed@),
        slots_wf(slot_models(final(slots)@)),
{
    let ghost before = slot_models(slots@);
    assert forall|k: int| 0 <= k < TRACK_COUNT implies (#[trigger] slots@[k])@.wf() by {
        assert(before[k].wf());
    }
    let mut t: usize = 0;
    while t < TRACK_COUNT
        invariant
            t <= TRACK_COUNT,
            slots@.len() == TRACK_COUNT,
            slots_wf(before),
            forall|k: int|
                0 <= k < TRACK_COUNT ==> (#[trigger] slots@[k])@.wf() && slots@[k]@ == if k < t {
                    slots_rested(before, changed@)[k]
                } else {
                    before[k]
                },
        decreases TRACK_COUNT - t,
    {
        if changed[t] {
            slots[t].reset_runtime();
        }
        t = t + 1;
    }
    assert(slot_models(slots@) =~= slots_rested(before, changed@));
}

impl Renderer {
    /// Starts or pauses playback.
    pub fn play_pause(&mut self)
        requires
            old(self)@.wf(),
        ensures
            final(self)@ == old(self)@.toggled(),
            final(self)@.wf(),
            projects_room(final(self).retire) == projects_room(old(self).retire),
            final(self).recording == old(self).recording,
    {
        reveal(RendererModel::toggled);
        self.sequencer.play_pause(&self.project);
        if !self.sequencer.transport.playing {
            pause_slots(&mut self.live);
        }
    }

    /// Stops playback. What sounds is cut or fades out.
    pub fn stop(&mut self)
        requires
            old(self)@.wf(),
        ensures
            final(self)@ == old(self)@.stopped(),
            final(self)@.wf(),
            projects_room(final(self).retire) == projects_room(old(self).retire),
            final(self).recording == old(self).recording,
    {
        reveal(RendererModel::stopped);
        self.sequencer.stop(&self.project);
        stop_slots(&mut self.live, &self.project);
        stop_slots(&mut self.preview, &self.project);
        self.preview_activity = [false; TRACK_COUNT];
        self.cues.push(Cue::Clear);
        assert(self@.preview_activity =~= Seq::new(TRACK_COUNT as nat, |t: int| false));
    }

    /// Counts one sample of the queue and performs what falls due.
    pub fn advance_scheduled(&mut self)
        requires
            old(self)@.wf(),
        ensures
            final(self)@ == old(self)@.queue_advanced(),
            final(self)@.wf(),
            projects_room(final(self).retire) == projects_room(old(self).retire),
            final(self).recording == old(self).recording,
    {
        let ghost before = self@;
        let mut ready: Vec<ScheduledTrackAction> = Vec::new();
        std::mem::swap(&mut ready, &mut self.ready);
        self.sequencer.advance_scheduled(&self.project, &mut ready);
        assert(self@ =~= (RendererModel {
            sequencer: before.sequencer.queue_advanced(before.project),
            ..before
        }));
        self.process_all(&ready);
        self.ready = ready;
    }

    /// Crosses a step boundary.
    pub fn boundary(&mut self, global_step: usize)
        requires
            old(self)@.wf(),
        ensures
            final(self)@ == old(self)@.at_boundary(global_step),
            final(self)@.wf(),
            projects_room(final(self).retire) == projects_room(old(self).retire),
            final(self).recording == old(self).recording,
    {
        let ghost before = self@;
        let change = self.sequencer.cross_bar(&self.project, global_step);
        let ghost crossed = RendererModel {
            sequencer: before.sequencer.bar_crossed(before.project, global_step).0,
            ..before
        };
        assert(self@ =~= crossed);
        match change {
            BarChange::Finish => {
                self.stop();
                return;
            },
            BarChange::Enter { release } => {
                if release {
                    relax_slots(&mut self.live);
                    assert(self@ =~= crossed.relaxed());
                }
            },
            BarChange::Continue => {},
        }
        let ghost ready = self@;
        self.sequencer.advance_tracks(&self.project, global_step);
        assert(self@ =~= ready.tracks_advanced(global_step));
        self.advance_scheduled();
    }
}

/// Tells of the oscillators that an edit switches.
fn cue_lfos(cues: &mut Vec<Cue>, before: &AudioProject, after: &AudioProject)
    requires
        before@.wf(),
        after@.wf(),
    ensures
        final(cues)@ == old(cues)@ + lfo_cues(before@, after@, TRACK_COUNT * PARAMETER_COUNT),
{
    assert(cues@ =~= old(cues)@ + lfo_cues(before@, after@, 0));
    let mut track: usize = 0;
    while track < TRACK_COUNT
        invariant
            track <= TRACK_COUNT,
            before@.wf(),
            after@.wf(),
            cues@ == old(cues)@ + lfo_cues(before@, after@, track * PARAMETER_COUNT),
        decreases TRACK_COUNT - track,
    {
        let mut parameter: usize = 0;
        while parameter < PARAMETER_COUNT
            invariant
                parameter <= PARAMETER_COUNT,
                track < TRACK_COUNT,
                before@.wf(),
                after@.wf(),
                cues@ == old(cues)@ + lfo_cues(
                    before@,
                    after@,
                    track * PARAMETER_COUNT + parameter,
                ),
            decreases PARAMETER_COUNT - parameter,
        {
            let ran: bool = before.tracks[track].lfos.is_enabled(parameter);
            let runs: bool = after.tracks[track].lfos.is_enabled(parameter);
            proof {
                let n = track * PARAMETER_COUNT + parameter + 1;
                assert((n - 1) / (PARAMETER_COUNT as int) == track);
                assert((n - 1) % (PARAMETER_COUNT as int) == parameter);
            }
            if !ran && runs {
                cues.push(Cue::ResetLfo { track: track as u8, parameter: parameter as u8 });
            } else if ran && !runs {
                cues.push(Cue::DisableLfo { track: track as u8, parameter: parameter as u8 });
            }
            assert(cues@ =~= old(cues)@ + lfo_cues(
                before@,
                after@,
                track * PARAMETER_COUNT + parameter + 1,
            ));
            parameter = parameter + 1;
        }
        track = track + 1;
    }
}

/// Tells of the tracks with a new instrument.
fn cue_resets(cues: &mut Vec<Cue>, changed: &[bool; TRACK_COUNT])
    ensures
        final(cues)@ == old(cues)@ + reset_cues(changed@, TRACK_COUNT as int),
{
    assert(cues@ =~= old(cues)@ + reset_cues(changed@, 0));
    let mut t: usize = 0;
    while t < TRACK_COUNT
        invariant
            t <= TRACK_COUNT,
            cues@ == old(cues)@ + reset_cues(changed@, t as int),
        decreases TRACK_COUNT - t,
    {
        if changed[t] {
            cues.push(Cue::ResetTrack { track: t as u8 });
        }
        assert(cues@ =~= old(cues)@ + reset_cues(changed@, t + 1));
        t = t + 1;
    }
}

impl Renderer {
    /// Puts everything that sounds under the settings of the project.
    pub fn refresh_active_parameters(&mut self, smoothing: u32)
        requires
            old(self)@.wf(),
        ensures
            final(self)@ == old(self)@.refreshed(smoothing),
            final(self)@.wf(),
            projects_room(final(self).retire) == projects_room(old(self).retire),
            final(self).recording == old(self).recording,
    {
        let ghost before = self@;
        assert(self@.cues =~= before.cues + refresh_all_cues(
            before.live,
            before.preview,
            before.project,
            smoothing,
            0,
        ));
        let mut t: usize = 0;
        while t < TRACK_COUNT
            invariant
                t <= TRACK_COUNT,
                before == old(self)@,
                before.wf(),
                self@ == (RendererModel {
                    live: self@.live,
                    preview: self@.preview,
                    cues: self@.cues,
                    ..before
                }),
                projects_room(self.retire) == projects_room(old(self).retire),
                self.recording == old(self).recording,
                self.live@.len() == TRACK_COUNT,
                self.preview@.len() == TRACK_COUNT,
                forall|k: int|
                    0 <= k < TRACK_COUNT ==> (#[trigger] self.live@[k])@.wf() && self.live@[k]@
                        == if k < t {
                        before.live[k].refreshed(before.project.tracks[k])
                    } else {
                        before.live[k]
                    },
                forall|k: int|
                    0 <= k < TRACK_COUNT ==> (#[trigger] self.preview@[k])@.wf()
                        && self.preview@[k]@ == if k < t {
                        before.preview[k].refreshed(before.project.tracks[k])
                    } else {
                        before.preview[k]
                    },
                self@.cues == before.cues + refresh_all_cues(
                    before.live,
                    before.preview,
                    before.project,
                    smoothing,
                    t as int,
                ),
            decreases TRACK_COUNT - t,
        {
            let settings = &self.project.tracks[t];
            self.live[t].refresh(&mut self.cues, settings, t, false, smoothing);
            self.preview[t].refresh(&mut self.cues, settings, t, true, smoothing);
            assert(self@.cues =~= before.cues + refresh_all_cues(
                before.live,
                before.preview,
                before.project,
                smoothing,
                t + 1,
            ));
            t = t + 1;
        }
        assert(self@.live =~= slots_refreshed(before.live, before.project));
        assert(self@.preview =~= slots_refreshed(before.preview, before.project));
    }
}

fn clear_changed(activity: &mut [bool; TRACK_COUNT], changed: &[bool; TRACK_COUNT])
    ensures
        final(activity)@ == Seq::new(
            TRACK_COUNT as nat,
            |t: int| old(activity)@[t] && !changed@[t],
        ),
{
    let mut t: usize = 0;
    while t < TRACK_COUNT
        invariant
            t <= TRACK_COUNT,
            forall|k: int|
                0 <= k < TRACK_COUNT ==> #[trigger] activity@[k] == if k < t {
                    old(activity)@[k] && !changed@[k]
                } else {
                    old(activity)@[k]
                },
        decreases TRACK_COUNT - t,
    {
        if changed[t] {
            activity[t] = false;
        }
        t = t + 1;
    }
    assert(activity@ =~= Seq::new(
        TRACK_COUNT as nat,
        |t: int| old(activity)@[t] && !changed@[t],
    ));
}

impl Renderer {
    /// Lets another project take over, or keeps it waiting until the current
    /// one can be retired. Whether it can depends on the other end of the
    /// ring; where a slot is known to be free it can. A project that cannot be
    /// played is retired itself.
    pub fn replace_project(&mut self, next: PendingProject) -> (applied: bool)
        requires
            old(self)@.wf(),
        ensures
            final(self)@ == if applied {
                old(self)@.received(next@)
            } else {
                old(self)@.deferred(next@)
            },
            final(self)@.wf(),
            projects_room(old(self).retire) > 0 ==> applied,
            !applied ==> projects_room(final(self).retire) == 0,
            projects_room(final(self).retire) + 1 >= projects_room(old(self).retire),
            final(self).recording == old(self).recording,
    {
        reveal(RendererModel::replaced);
        let ghost before = self@;
        if project_slots(&mut self.retire) == 0 {
            self.pending = Some(next);
            return false;
        }
        if !next.project.is_playable() {
            let _ = push_project(&mut self.retire, next.project);
            assert(self@ =~= before.received(next@));
            return true;
        }
        let PendingProject { project, smoothing, pattern_map, song_map } = next;
        let mut project = project;
        let samples: u32 = smoothing.samples(self.sample_rate);
        let changed = compare_kinds(&self.project, &project);
        cue_lfos(&mut self.cues, &self.project, &project);
        cue_resets(&mut self.cues, &changed);
        self.cues.push(Cue::Globals { smoothing: samples });
        self.cues.push(Cue::Mutes { smoothing: self.sample_rate * 5 / 1000 });
        self.sequencer.follow(&self.project, &project, pattern_map, song_map);
        rest_slots(&mut self.live, &changed);
        rest_slots(&mut self.preview, &changed);
        clear_changed(&mut self.preview_activity, &changed);
        std::mem::swap(&mut self.project, &mut project);
        let _ = push_project(&mut self.retire, project);
        self.refresh_active_parameters(samples);
        true
    }

    /// Lets a waiting project take over where it can; says whether none is
    /// left waiting.
    pub fn apply_pending(&mut self) -> (clear: bool)
        requires
            old(self)@.wf(),
        ensures
            final(self)@.wf(),
            final(self)@ == match old(self)@.pending {
                None => old(self)@,
                Some(next) => if clear {
                    (RendererModel { pending: None, ..old(self)@ }).received(next)
                } else {
                    old(self)@
                },
            },
            old(self)@.pending is None ==> clear,
            projects_room(old(self).retire) > 0 ==> clear,
            clear == (final(self)@.pending is None),
            projects_room(final(self).retire) + if old(self)@.pending is Some {
                1int
            } else {
                0
            } >= projects_room(old(self).retire),
            final(self).recording == old(self).recording,
    {
        reveal(RendererModel::replaced);
        match self.pending.take() {
            None => true,
            Some(next) => self.replace_project(next),
        }
    }
}

impl RendererModel {
    /// The engine after a command whose outcome it decides alone.
    pub open spec fn obeyed(self, command: CommandModel) -> RendererModel {
        match command {
            CommandModel::PlayPause => self.toggled(),
            CommandModel::Stop => self.stopped(),
            CommandModel::SelectPattern { pattern } => RendererModel {
                sequencer: self.sequencer.pattern_selected(self.project, pattern),
                ..self
            },
            CommandModel::SelectSong { entry } => RendererModel {
                sequencer: self.sequencer.song_selected(self.project, entry),
                ..self
            },
            CommandModel::Audition { track, step } => self.auditioned(track, step),
            CommandModel::AutoAudition { track, step } => if self.playing() {
                self
            } else {
                self.auditioned(track, step)
            },
            CommandModel::StartRecording => self.with_status(
                if self.recording.active {
                    self.sequencer.status
                } else {
                    take_started(self.sequencer.status)
                },
            ).with_recording(ProducerModel { active: true, ..self.recording }),
            _ => self,
        }
    }

    pub open spec fn with_status(self, status: StatusModel) -> RendererModel {
        RendererModel { sequencer: SequencerModel { status, ..self.sequencer }, ..self }
    }

    pub open spec fn with_recording(self, recording: ProducerModel) -> RendererModel {
        RendererModel { recording, ..self }
    }

    /// The engine after a recording was stopped; whether the end of the take
    /// was delivered depends on the ring.
    pub open spec fn recording_stopped(self, delivered: bool) -> RendererModel {
        if !self.recording.active {
            self
        } else {
            self.with_status(take_ended(self.sequencer.status, delivered)).with_recording(
                ProducerModel {
                    active: false,
                    sent: if delivered {
                        self.recording.sent.push(RecordingItem::End { overflowed: false })
                    } else {
                        self.recording.sent
                    },
                },
            )
        }
    }
}

/// What a command may make of the engine. A project takes over or waits; the
/// end of a take is delivered or lost; all else is settled.
pub open spec fn carried_out(
    before: RendererModel,
    command: CommandModel,
    after: RendererModel,
) -> bool {
    match command {
        CommandModel::ReplaceProject(next) => after == before.received(next) || after
            == before.deferred(next),
        CommandModel::StopRecording => after == before.recording_stopped(true) || after
            == before.recording_stopped(false),
        _ => after == before.obeyed(command),
    }
}

impl Renderer {
    /// Carries out a command.
    pub fn handle(&mut self, command: AudioCommand)
        requires
            old(self)@.wf(),
        ensures
            carried_out(old(self)@, command@, final(self)@),
            final(self)@.wf(),
            command@ matches CommandModel::ReplaceProject(next) && projects_room(old(self).retire)
                > 0 ==> final(self)@ == old(self)@.received(command@->ReplaceProject_0),
            command@ is StopRecording && old(self).recording.room() > 0 ==> final(self)@
                == old(self)@.recording_stopped(true),
            !(command@ is ReplaceProject) ==> projects_room(final(self).retire) == projects_room(
                old(self).retire,
            ),
            projects_room(final(self).retire) + 1 >= projects_room(old(self).retire),
            final(self).recording.room() + if command@ is StopRecording {
                1int
            } else {
                0
            } >= old(self).recording.room(),
    {
        match command {
            AudioCommand::PlayPause => {
                self.play_pause();
            },
            AudioCommand::Stop => {
                self.stop();
            },
            AudioCommand::SelectPattern { pattern } => {
                self.sequencer.select_pattern(&self.project, pattern);
            },
            AudioCommand::SelectSong { entry } => {
                self.sequencer.select_song(&self.project, entry);
            },
            AudioCommand::ReplaceProject { project, smoothing, pattern_map, song_map } => {
                self.replace_project(PendingProject { project, smoothing, pattern_map, song_map });
            },
            AudioCommand::Audition { track, step } => {
                self.audition(track, step);
            },
            AudioCommand::AutoAudition { track, step } => {
                if !self.sequencer.transport.playing {
                    self.audition(track, step);
                }
            },
            AudioCommand::StartRecording => {
                self.recording.start(&mut self.sequencer.status);
            },
            AudioCommand::StopRecording => {
                let delivered: bool = self.recording.stop(&mut self.sequencer.status);
                assert(self@ =~= old(self)@.recording_stopped(delivered));
            },
        }
    }
}

/// Whether an audition of a track is still queued.
pub open spec fn awaits_audition(queue: Seq<Option<PreviewAction>>, track: int) -> bool {
    exists|i: int| 0 <= i < queue.len() && auditions(#[trigger] queue[i], track)
}

pub open spec fn auditions(place: Option<PreviewAction>, track: int) -> bool {
    place matches Some(action) && action.track == track
}

/// Slots one sample on in their arpeggios.
pub open spec fn arpeggios_advanced(
    slots: Seq<SlotModel>,
    project: ProjectModel,
    preview: bool,
    due: Seq<bool>,
) -> Seq<SlotModel> {
    Seq::new(
        slots.len(),
        |t: int| slots[t].arpeggio_advanced(project, t, preview, due[t]),
    )
}

/// What is told of the arpeggios of the first `n` tracks.
pub open spec fn arpeggio_cues(
    slots: Seq<SlotModel>,
    project: ProjectModel,
    preview: bool,
    due: Seq<bool>,
    n: int,
) -> Seq<Cue>
    decreases n,
{
    if n <= 0 {
        Seq::empty()
    } else {
        arpeggio_cues(slots, project, preview, due, n - 1) + slots[n - 1].arpeggio_cues(
            project,
            n - 1,
            preview,
            due[n - 1],
        )
    }
}

/// Slots one sample on in their timed notes, where they are rendered.
pub open spec fn gates_advanced(
    slots: Seq<SlotModel>,
    project: ProjectModel,
    rendered: Seq<bool>,
) -> Seq<SlotModel> {
    Seq::new(
        slots.len(),
        |t: int|
            if rendered[t] {
                slots[t].gates_advanced(project.tracks[t])
            } else {
                slots[t]
            },
    )
}

impl RendererModel {
    /// Whether an audition of a track is still heard or to come; `tails` tells
    /// of effects that still ring.
    pub open spec fn preview_active(self, track: int, tails: Seq<bool>) -> bool {
        self.preview[track].busy(self.project.tracks[track]) || tails[track] || awaits_audition(
            self.sequencer.previews,
            track,
        )
    }

    pub open spec fn activity_refreshed(self, tails: Seq<bool>) -> RendererModel {
        RendererModel {
            preview_activity: Seq::new(
                TRACK_COUNT as nat,
                |t: int| self.preview_active(t, tails),
            ),
            ..self
        }
    }

    /// One sample of the auditions.
    pub open spec fn previews_advanced(self) -> RendererModel {
        RendererModel {
            sequencer: SequencerModel {
                previews: previews_counted_down(self.sequencer.previews),
                ..self.sequencer
            },
            ..self
        }.previews_auditioned(
            due_previews(
                self.sequencer.previews,
                PREVIEW_ACTION_COUNT as int,
            ),
        )
    }

    /// One sample of the step clock, and the boundary that falls on it.
    pub open spec fn clock_ticked(self) -> RendererModel {
        let clock = self.sequencer.clock;
        let ticked = RendererModel {
            sequencer: SequencerModel { clock: clock.ticked(), ..self.sequencer },
            ..self
        };
        if clock.countdown < clock.tempo_bpm {
            ticked.at_boundary(clock.next_step)
        } else {
            ticked
        }
    }

    /// Everything that a sample decides before its sound: the auditions, then,
    /// while playing, the boundary and the queue.
    pub open spec fn frame_begun(self, tails: Seq<bool>) -> RendererModel {
        let previewed = self.activity_refreshed(tails).previews_advanced();
        let ticked = if previewed.playing() {
            previewed.clock_ticked()
        } else {
            previewed
        };
        if ticked.playing() {
            ticked.queue_advanced()
        } else {
            ticked
        }
    }

    /// The arpeggios and timed notes of a sample, given which tones are over.
    pub open spec fn frame_finished(
        self,
        live_due: Seq<bool>,
        preview_due: Seq<bool>,
    ) -> RendererModel {
        let live = arpeggios_advanced(self.live, self.project, false, live_due);
        let preview = arpeggios_advanced(self.preview, self.project, true, preview_due);
        RendererModel {
            live: gates_advanced(
                live,
                self.project,
                Seq::new(TRACK_COUNT as nat, |t: int| true),
            ),
            preview: gates_advanced(preview, self.project, self.preview_activity),
            cues: self.cues + arpeggio_cues(
                self.live,
                self.project,
                false,
                live_due,
                TRACK_COUNT as int,
            ) + arpeggio_cues(
                self.preview,
                self.project,
                true,
                preview_due,
                TRACK_COUNT as int,
            ),
            ..self
        }
    }
}

fn is_awaiting(queue: &Vec<Option<PreviewAction>>, track: usize) -> (r: bool)
    ensures
        r == awaits_audition(queue@, track as int),
{
    let mut i: usize = 0;
    while i < queue.len()
        invariant
            i <= queue@.len(),
            forall|k: int| 0 <= k < i ==> !auditions(#[trigger] queue@[k], track as int),
        decreases queue@.len() - i,
    {
        if let Some(action) = queue[i] {
            if action.track as usize == track {
                assert(auditions(queue@[i as int], track as int));
                return true;
            }
        }
        i = i + 1;
    }
    false
}

fn advance_arpeggios(
    slots: &mut Vec<TrackSlot>,
    cues: &mut Vec<Cue>,
    project: &AudioProject,
    preview: bool,
    due: &[bool; TRACK_COUNT],
)
    requires
        slots_wf(slot_models(old(slots)@)),
        project@.wf(),
    ensures
        slot_models(final(slots)@) == arpeggios_advanced(
            slot_models(old(slots)@),
            project@,
            preview,
            due@,
        ),
        slots_wf(slot_models(final(slots)@)),
        final(cues)@ == old(cues)@ + arpeggio_cues(
            slot_models(old(slots)@),
            project@,
            preview,
            due@,
            TRACK_COUNT as int,
        ),
{
    let ghost before = slot_models(slots@);
    assert(cues@ =~= old(cues)@ + arpeggio_cues(before, project@, preview, due@, 0));
    assert forall|k: int| 0 <= k < TRACK_COUNT implies (#[trigger] slots@[k])@.wf() by {
        assert(before[k].wf());
    }
    let mut t: usize = 0;
    while t < TRACK_COUNT
        invariant
            t <= TRACK_COUNT,
            slots@.len() == TRACK_COUNT,
            before == slot_models(old(slots)@),
            before.len() == TRACK_COUNT,
            project@.wf(),
            forall|k: int|
                0 <= k < TRACK_COUNT ==> (#[trigger] slots@[k])@.wf() && slots@[k]@ == if k < t {
                    arpeggios_advanced(before, project@, preview, due@)[k]
                } else {
                    before[k]
                },
            cues@ == old(cues)@ + arpeggio_cues(before, project@, preview, due@, t as int),
        decreases TRACK_COUNT - t,
    {
        slots[t].advance_arpeggio(cues, project, t, preview, due[t]);
        assert(cues@ =~= old(cues)@ + arpeggio_cues(before, project@, preview, due@, t + 1));
        t = t + 1;
    }
    assert(slot_models(slots@) =~= arpeggios_advanced(before, project@, preview, due@));
}

fn advance_slot_gates(
    slots: &mut Vec<TrackSlot>,
    project: &AudioProject,
    rendered: &[bool; TRACK_COUNT],
)
    requires
        slots_wf(slot_models(old(slots)@)),
        project@.wf(),
    ensures
        slot_models(final(slots)@) == gates_advanced(
            slot_models(old(slots)@),
            project@,
            rendered@,
        ),
        slots_wf(slot_models(final(slots)@)),
{
    let ghost before = slot_models(slots@);
    assert forall|k: int| 0 <= k < TRACK_COUNT implies (#[trigger] slots@[k])@.wf() by {
        assert(before[k].wf());
    }
    let mut t: usize = 0;
    while t < TRACK_COUNT
        invariant
            t <= TRACK_COUNT,
            slots@.len() == TRACK_COUNT,
            before.len() == TRACK_COUNT,
            project@.wf(),
            forall|k: int|
                0 <= k < TRACK_COUNT ==> (#[trigger] slots@[k])@.wf() && slots@[k]@ == if k < t {
                    gates_advanced(before, project@, rendered@)[k]
                } else {
                    before[k]
                },
        decreases TRACK_COUNT - t,
    {
        if rendered[t] {
            slots[t].advance_gates(&project.tracks[t]);
        }
        t = t + 1;
    }
    assert(slot_models(slots@) =~= gates_advanced(before, project@, rendered@));
}

impl Renderer {
    /// Notes which auditions are still heard or to come.
    pub fn refresh_preview_activity(&mut self, tails: &[bool; TRACK_COUNT])
        requires
            old(self)@.wf(),
        ensures
            final(self)@ == old(self)@.activity_refreshed(tails@),
            final(self)@.wf(),
            final(self).retire == old(self).retire,
            final(self).recording == old(self).recording,
    {
        let ghost before = self@;
        let mut t: usize = 0;
        while t < TRACK_COUNT
            invariant
                t <= TRACK_COUNT,
                before == old(self)@,
                before.wf(),
                self@ == (RendererModel { preview_activity: self@.preview_activity, ..before }),
                self.retire == old(self).retire,
                self.recording == old(self).recording,
                self@.preview_activity.len() == TRACK_COUNT,
                forall|k: int|
                    0 <= k < t ==> #[trigger] self@.preview_activity[k] == before.preview_active(
                        k,
                        tails@,
                    ),
            decreases TRACK_COUNT - t,
        {
            assert(before.preview[t as int].wf());
            let active: bool = self.preview[t].is_busy(&self.project.tracks[t]) || tails[t]
                || is_awaiting(&self.sequencer.preview_scheduled, t);
            self.preview_activity[t] = active;
            t = t + 1;
        }
        assert(self@.preview_activity =~= before.activity_refreshed(tails@).preview_activity);
    }

    /// Decides everything that comes before the sound of a sample. `tails`
    /// tells which auditions have effects that still ring.
    pub fn begin_frame(&mut self, tails: &[bool; TRACK_COUNT])
        requires
            old(self)@.wf(),
        ensures
            final(self)@ == old(self)@.frame_begun(tails@),
            final(self)@.wf(),
            projects_room(final(self).retire) == projects_room(old(self).retire),
            final(self).recording == old(self).recording,
    {
        self.refresh_preview_activity(tails);
        let ghost active = self@;
        let mut ready: Vec<PreviewAction> = Vec::new();
        std::mem::swap(&mut ready, &mut self.ready_previews);
        self.sequencer.advance_previews(&mut ready);
        self.audition_all(&ready);
        self.ready_previews = ready;
        assert(self@ == active.previews_advanced());
        if self.sequencer.transport.playing {
            self.tick_clock();
        }
        if self.sequencer.transport.playing {
            self.advance_scheduled();
        }
    }

    fn tick_clock(&mut self)
        requires
            old(self)@.wf(),
        ensures
            final(self)@ == old(self)@.clock_ticked(),
            final(self)@.wf(),
            projects_room(final(self).retire) == projects_room(old(self).retire),
            final(self).recording == old(self).recording,
    {
        let ghost before = self@;
        let due = self.sequencer.clock.tick();
        assert(self@ =~= (RendererModel {
            sequencer: SequencerModel {
                clock: before.sequencer.clock.ticked(),
                ..before.sequencer
            },
            ..before
        }));
        if let Some(global_step) = due {
            self.boundary(global_step);
        }
    }

    /// Advances the arpeggios and timed notes of a sample. The flags say which
    /// arpeggio tones are over.
    pub fn finish_frame(
        &mut self,
        live_due: &[bool; TRACK_COUNT],
        preview_due: &[bool; TRACK_COUNT],
    )
        requires
            old(self)@.wf(),
        ensures
            final(self)@ == old(self)@.frame_finished(live_due@, preview_due@),
            final(self)@.wf(),
            final(self).retire == old(self).retire,
            final(self).recording == old(self).recording,
    {
        advance_arpeggios(&mut self.live, &mut self.cues, &self.project, false, live_due);
        advance_arpeggios(&mut self.preview, &mut self.cues, &self.project, true, preview_due);
        let all: [bool; TRACK_COUNT] = [true; TRACK_COUNT];
        assert(all@ =~= Seq::new(TRACK_COUNT as nat, |t: int| true));
        advance_slot_gates(&mut self.live, &self.project, &all);
        let active = self.preview_activity;
        advance_slot_gates(&mut self.preview, &self.project, &active);
    }

    /// Takes the cues for the sound engine. What `cues` held is forgotten.
    pub fn take_cues(&mut self, cues: &mut Vec<Cue>)
        ensures
            final(cues)@ == old(self)@.cues,
            final(self)@ == (RendererModel { cues: Seq::empty(), ..old(self)@ }),
            final(self).retire == old(self).retire,
            final(self).recording == old(self).recording,
    {
        cues.clear();
        std::mem::swap(cues, &mut self.cues);
    }
}

/// Commands that one callback carries out at most.
pub const MAX_COMMANDS_PER_CALLBACK: usize = 8;

/// The engine between two commands of a callback, and a project that a later
/// one may still take the place of.
#[verifier::ext_equal]
pub struct DrainState {
    pub engine: RendererModel,
    pub held: Option<Replacement>,
}

pub open spec fn held_view(held: Option<PendingProject>) -> Option<Replacement> {
    match held {
        Some(h) => Some(h@),
        None => None,
    }
}

impl DrainState {
    pub open spec fn wf(self) -> bool {
        &&& self.engine.wf()
        &&& self.held matches Some(h) ==> h.in_place()
    }

    /// The engine once the held project took over.
    pub open spec fn settled(self) -> RendererModel {
        match self.held {
            Some(next) => self.engine.received(next),
            None => self.engine,
        }
    }

    /// The held project retired without having played.
    pub open spec fn skipped(self) -> RendererModel {
        RendererModel {
            retired: self.engine.retired.push(self.held->0.project),
            ..self.engine
        }
    }
}

/// What a callback may make of one command. A project that moves nothing is
/// held back; the next of its kind may take its place, and any other command
/// comes after it.
pub open spec fn took(before: DrainState, command: CommandModel, after: DrainState) -> bool {
    if command.coalescible() {
        &&& after.held == Some(command->ReplaceProject_0)
        &&& after.engine == before.settled() || (before.held is Some && after.engine
            == before.skipped())
    } else {
        &&& after.held is None
        &&& carried_out(before.settled(), command, after.engine)
    }
}

/// What a command comes to where the projects that it touches can be retired: a
/// project that was held back is skipped for the next of its kind, and one that
/// moves something takes over at once.
pub open spec fn took_with_room(
    before: DrainState,
    command: CommandModel,
    after: DrainState,
) -> bool {
    &&& command.coalescible() && before.held is Some ==> after.engine == before.skipped()
    &&& command is ReplaceProject && !command.coalescible() ==> after.engine
        == before.settled().received(command->ReplaceProject_0)
}

/// What the end of a take comes to where there is room for its marker.
pub open spec fn ended_with_room(
    before: DrainState,
    command: CommandModel,
    after: DrainState,
) -> bool {
    command is StopRecording ==> after.engine == before.settled().recording_stopped(true)
}

/// How many of the first `n` commands end a take.
pub open spec fn stops(commands: Seq<CommandModel>, n: int) -> nat
    decreases n,
{
    if n <= 0 {
        0
    } else {
        stops(commands, n - 1) + if commands[n - 1] is StopRecording {
            1nat
        } else {
            0
        }
    }
}

proof fn stops_of_a_prefix(commands: Seq<CommandModel>, last: CommandModel, n: int)
    requires
        n <= commands.len(),
    ensures
        stops(commands.push(last), n) == stops(commands, n),
    decreases n,
{
    if n > 0 {
        stops_of_a_prefix(commands, last, n - 1);
    }
}

/// What a callback may make of the commands that it took: `trace` tells of the
/// engine between them.
pub open spec fn drained(
    before: RendererModel,
    taken: Seq<CommandModel>,
    trace: Seq<DrainState>,
    after: RendererModel,
) -> bool {
    &&& trace.len() == taken.len() + 1
    &&& trace[0] == (DrainState { engine: before, held: None })
    &&& forall|i: int|
        0 <= i < taken.len() ==> took(#[trigger] trace[i], taken[i], trace[i + 1])
    &&& match trace.last().held {
        Some(next) => after == trace.last().engine.received(next) || after
            == trace.last().engine.deferred(next),
        None => after == trace.last().engine,
    }
}

impl Renderer {
    /// Carries out one command of a callback. A project that was held back
    /// before it takes over first, or makes room for another.
    pub fn offer(&mut self, held: Option<PendingProject>, command: AudioCommand) -> (next: Option<
        PendingProject,
    >)
        requires
            (DrainState { engine: old(self)@, held: held_view(held) }).wf(),
            held is Some ==> projects_room(old(self).retire) > 0,
        ensures
            took(
                DrainState { engine: old(self)@, held: held_view(held) },
                command@,
                DrainState { engine: final(self)@, held: held_view(next) },
            ),
            (DrainState { engine: final(self)@, held: held_view(next) }).wf(),
            projects_room(old(self).retire) >= 1 + if held is Some {
                1int
            } else {
                0
            } ==> took_with_room(
                DrainState { engine: old(self)@, held: held_view(held) },
                command@,
                DrainState { engine: final(self)@, held: held_view(next) },
            ),
            old(self).recording.room() > 0 ==> ended_with_room(
                DrainState { engine: old(self)@, held: held_view(held) },
                command@,
                DrainState { engine: final(self)@, held: held_view(next) },
            ),
            final(self).recording.room() + if command@ is StopRecording {
                1int
            } else {
                0
            } >= old(self).recording.room(),
            projects_room(final(self).retire) + 1 + if held is Some {
                1int
            } else {
                0
            } >= projects_room(old(self).retire) + if next is Some {
                1int
            } else {
                0
            },
    {
        if command.is_coalescible() {
            if let Some(previous) = held {
                if project_slots(&mut self.retire) >= 2 {
                    let ghost before = self@;
                    let _ = push_project(&mut self.retire, previous.project);
                    assert(self@ =~= (DrainState {
                        engine: before,
                        held: Some(previous@),
                    }).skipped());
                } else {
                    self.replace_project(previous);
                }
            }
            match command {
                AudioCommand::ReplaceProject { project, smoothing, pattern_map, song_map } => {
                    Some(PendingProject { project, smoothing, pattern_map, song_map })
                },
                _ => None,
            }
        } else {
            if let Some(previous) = held {
                self.replace_project(previous);
            }
            self.handle(command);
            None
        }
    }

    /// Lets a waiting project take over and then carries out commands, until
    /// the callback has done its share, none is left, or a project has to
    /// wait. Says whether commands were looked at.
    pub fn drain_commands(&mut self, commands: &mut Consumer<AudioCommand>) -> (ran: bool)
        requires
            old(self)@.wf(),
        ensures
            final(self)@.wf(),
            old(self)@.pending is None ==> ran,
            projects_room(old(self).retire) > 0 ==> ran,
            !ran ==> final(self)@ == old(self)@ && *final(commands) == *old(commands),
            ran ==> exists|taken: Seq<CommandModel>, trace: Seq<DrainState>|
                {
                    &&& commands_taken(*final(commands)) == commands_taken(*old(commands)) + taken
                    &&& taken.len() <= old(self)@.share()
                    &&& #[trigger] drained(
                        old(self)@.unblocked(),
                        taken,
                        trace,
                        final(self)@,
                    )
                    &&& taken.len() <= commands_waiting(*old(commands)) ==> commands_waiting(
                        *final(commands),
                    ) + taken.len() == commands_waiting(*old(commands))
                    &&& {
                        ||| taken.len() == old(self)@.share()
                        ||| commands_waiting(*final(commands)) == 0
                        ||| trace.last().engine.pending is Some
                        ||| trace.last().held is Some && projects_room(old(self).retire)
                            < taken.len() + MAX_COMMANDS_PER_CALLBACK - old(self)@.share()
                    }
                    &&& projects_room(old(self).retire) >= taken.len() + MAX_COMMANDS_PER_CALLBACK
                        - old(self)@.share() ==> final(self)@ == trace.last().settled()
                    &&& forall|i: int|
                        0 <= i < taken.len() && projects_room(old(self).retire) > i
                            + MAX_COMMANDS_PER_CALLBACK - old(self)@.share() ==> took_with_room(
                            #[trigger] trace[i],
                            taken[i],
                            trace[i + 1],
                        )
                    &&& forall|i: int|
                        0 <= i < taken.len() && old(self).recording.room() > stops(taken, i)
                            ==> ended_with_room(#[trigger] trace[i], taken[i], trace[i + 1])
                },
    {
        let waiting: bool = self.pending.is_some();
        if !self.apply_pending() {
            return false;
        }
        let ghost start = self@;
        let budget: usize = if waiting {
            MAX_COMMANDS_PER_CALLBACK - 1
        } else {
            MAX_COMMANDS_PER_CALLBACK
        };
        let ghost mut taken: Seq<CommandModel> = Seq::empty();
        let ghost mut trace: Seq<DrainState> = seq![DrainState { engine: start, held: None }];
        let mut held: Option<PendingProject> = None;
        let mut count: usize = 0;
        let mut open: bool = true;
        while open && count < budget
            invariant
                count <= budget <= MAX_COMMANDS_PER_CALLBACK,
                taken.len() <= count,
                open ==> taken.len() == count,
                !open ==> commands_waiting(*commands) == 0 || self@.pending is Some || (held is Some
                    && projects_room(old(self).retire) < taken.len() + MAX_COMMANDS_PER_CALLBACK
                    - budget),
                budget == old(self)@.share(),
                projects_room(self.retire) + taken.len() + MAX_COMMANDS_PER_CALLBACK - budget
                    >= projects_room(old(self).retire) + if held is Some {
                    1int
                } else {
                    0
                },
                taken.len() <= commands_waiting(*old(commands)) ==> commands_waiting(*commands)
                    + taken.len() == commands_waiting(*old(commands)),
                trace.len() == taken.len() + 1,
                trace[0] == (DrainState { engine: start, held: None }),
                trace.last() == (DrainState { engine: self@, held: held_view(held) }),
                trace.last().wf(),
                forall|i: int|
                    0 <= i < taken.len() ==> took(#[trigger] trace[i], taken[i], trace[i + 1]),
                forall|i: int|
                    0 <= i < taken.len() && projects_room(old(self).retire) > i
                        + MAX_COMMANDS_PER_CALLBACK - budget ==> took_with_room(
                        #[trigger] trace[i],
                        taken[i],
                        trace[i + 1],
                    ),
                self.recording.room() + stops(taken, taken.len() as int)
                    >= old(self).recording.room(),
                forall|i: int|
                    0 <= i < taken.len() && old(self).recording.room() > stops(taken, i)
                        ==> ended_with_room(#[trigger] trace[i], taken[i], trace[i + 1]),
                commands_taken(*commands) == commands_taken(*old(commands)) + taken,
            decreases budget - count,
        {
            count = count + 1;
            if held.is_some() && project_slots(&mut self.retire) == 0 {
                assert(trace.last().engine =~= self@);
                open = false;
            } else {
                assert(trace.last().engine =~= self@);
                match pop_command(commands) {
                    None => {
                        open = false;
                    },
                    Some(command) => {
                        let ghost said = command@;
                        held = self.offer(held, command);
                        proof {
                            let ghost next = DrainState { engine: self@, held: held_view(held) };
                            let ghost earlier = trace;
                            let ghost heard = taken;
                            trace = trace.push(next);
                            taken = taken.push(said);
                            assert forall|i: int| 0 <= i < taken.len() implies took(
                                #[trigger] trace[i],
                                taken[i],
                                trace[i + 1],
                            ) by {
                                if i < heard.len() {
                                    assert(trace[i] == earlier[i]);
                                    assert(trace[i + 1] == earlier[i + 1]);
                                    assert(taken[i] == heard[i]);
                                }
                            }
                            assert forall|i: int|
                                0 <= i < taken.len() && projects_room(old(self).retire) > i
                                    + MAX_COMMANDS_PER_CALLBACK - budget implies took_with_room(
                                #[trigger] trace[i],
                                taken[i],
                                trace[i + 1],
                            ) by {
                                if i < heard.len() {
                                    assert(trace[i] == earlier[i]);
                                    assert(trace[i + 1] == earlier[i + 1]);
                                    assert(taken[i] == heard[i]);
                                }
                            }
                            stops_of_a_prefix(heard, said, heard.len() as int);
                            assert forall|i: int|
                                0 <= i < taken.len() && old(self).recording.room() > stops(
                                    taken,
                                    i,
                                ) implies ended_with_room(
                                #[trigger] trace[i],
                                taken[i],
                                trace[i + 1],
                            ) by {
                                stops_of_a_prefix(heard, said, i);
                                if i < heard.len() {
                                    assert(trace[i] == earlier[i]);
                                    assert(trace[i + 1] == earlier[i + 1]);
                                    assert(taken[i] == heard[i]);
                                }
                            }
                            assert(commands_taken(*commands) =~= commands_taken(*old(commands))
                                + taken);
                        }
                        if self.pending.is_some() {
                            open = false;
                        }
                    },
                }
            }
        }
        if let Some(next) = held {
            self.replace_project(next);
        }
        assert(drained(start, taken, trace, self@));
        true
    }
}

impl RendererModel {
    /// How many commands a callback carries out at most. A project that waits
    /// counts as one.
    pub open spec fn share(self) -> int {
        if self.pending is Some {
            MAX_COMMANDS_PER_CALLBACK - 1
        } else {
            MAX_COMMANDS_PER_CALLBACK as int
        }
    }

    /// The engine after a waiting project took over.
    pub open spec fn unblocked(self) -> RendererModel {
        match self.pending {
            Some(next) => RendererModel { pending: None, ..self }.received(next),
            None => self,
        }
    }
}

} // verus!
