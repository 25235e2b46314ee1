//! The voices of one track: a drum, a voice for single notes and a pool for
//! chords, of which the instrument of the track picks one.
use super::controls::{
    closed_mix, drum_controls, drum_controls_under, effects_under, mix_under, resolve_effects,
    resolve_mix, MixControls,
};
use super::cue::{Cue, DrumHit, MONO_PLACE};
use super::pool::{ChordVoicePool, PoolModel, CHORD_GROUP_SIZE, POOL_SIZE};
use super::snapshot::{AudioProject, AudioSequence, AudioTrack, ProjectModel, SequenceModel};
use super::transport::MAX_SAMPLE_RATE;
use super::voice::{configure_synth_voice, degree_midi, SynthVoice, SynthVoiceKind};
use crate::dsp::envelope::EnvStage;
use crate::dsp::noise::{next_xorshift, xorshift};
use crate::model::event::{
    effective_event_locks, gate_action, locks_in_force, reach_is_behind, source_distance, step_before, synth_action,
    tie_source, ArpeggioConfig, GateAction, StepEvent, SynthTrigger,
};
use crate::model::instrument::DrumRecipeSlot;
use crate::model::parameter::{locks_are_their_values, locks_valued, unlocked, ParameterLocks};
use crate::model::project::{step_wf, TRACK_COUNT};
use vstd::prelude::*;

verus! {

/// The state of a drum between its hits.
#[derive(Clone, Copy, Debug)]
pub struct DrumVoice {
    pub seed: u32,
    pub noise: u32,
    pub sounding: bool,
    pub hit: Option<DrumHit>,
    pub mix: MixControls,
    pub locks: ParameterLocks,
}

pub open spec fn no_locks() -> ParameterLocks {
    locks_valued(unlocked())
}

fn empty_locks() -> (locks: ParameterLocks)
    ensures
        locks == no_locks(),
{
    let locks = ParameterLocks::new();
    proof {
        locks_are_their_values(locks);
    }
    locks
}

impl DrumVoice {
    /// A drum that has not sounded.
    pub open spec fn fresh(seed: u32) -> DrumVoice {
        DrumVoice {
            seed,
            noise: seed,
            sounding: false,
            hit: None,
            mix: closed_mix(),
            locks: no_locks(),
        }
    }

    /// The drum after a hit; a pitched track has no drum to hit.
    pub open spec fn struck(
        self,
        track: AudioTrack,
        accent: bool,
        recipe: DrumRecipeSlot,
        locks: ParameterLocks,
    ) -> DrumVoice {
        match drum_controls_under(track, recipe, locks) {
            Some(controls) => DrumVoice {
                sounding: true,
                hit: Some(DrumHit { controls, accent }),
                ..self
            },
            None => self,
        }
    }

    /// The drum under a track's mixer settings and the locks of a step.
    pub open spec fn mixed(self, track: AudioTrack, locks: ParameterLocks) -> DrumVoice {
        DrumVoice { mix: mix_under(track, locks), locks, ..self }
    }

    pub open spec fn quiet(self) -> DrumVoice {
        DrumVoice { sounding: false, ..self }
    }

    pub fn new(seed: u32) -> (voice: DrumVoice)
        ensures
            voice == DrumVoice::fresh(seed),
    {
        DrumVoice {
            seed,
            noise: seed,
            sounding: false,
            hit: None,
            mix: MixControls::closed(),
            locks: empty_locks(),
        }
    }

    /// The next noise of the drum: the numerator of a sample over `i32::MAX`.
    pub fn next_noise(&mut self) -> (numerator: i32)
        ensures
            *final(self) == (DrumVoice { noise: xorshift(old(self).noise), ..*old(self) }),
            numerator == xorshift(old(self).noise) as i32,
    {
        let value: u32 = next_xorshift(self.noise);
        self.noise = value;
        value as i32
    }

    pub fn start_drum_voice(
        &mut self,
        track: &AudioTrack,
        accent: bool,
        recipe: DrumRecipeSlot,
        locks: &ParameterLocks,
    ) -> (hit: Option<DrumHit>)
        ensures
            *final(self) == old(self).struck(*track, accent, recipe, *locks),
            hit == match drum_controls_under(*track, recipe, *locks) {
                Some(controls) => Some(DrumHit { controls, accent }),
                None => None,
            },
    {
        match drum_controls(track, recipe, locks) {
            Some(controls) => {
                let hit = DrumHit { controls, accent };
                *self = DrumVoice { sounding: true, hit: Some(hit), ..*self };
                Some(hit)
            },
            None => None,
        }
    }

    pub fn apply_drum_mix(&mut self, track: &AudioTrack, locks: &ParameterLocks)
        ensures
            *final(self) == old(self).mixed(*track, *locks),
    {
        *self = DrumVoice { mix: resolve_mix(track, locks), locks: *locks, ..*self };
    }

    /// Takes over that the envelope of the hit has run out.
    pub fn finish(&mut self)
        ensures
            *final(self) == old(self).quiet(),
    {
        self.sounding = false;
    }

    /// Back to a drum that has not sounded.
    pub fn reset_runtime(&mut self)
        ensures
            *final(self) == DrumVoice::fresh(old(self).seed),
    {
        *self = DrumVoice::new(self.seed);
    }
}

pub struct TrackSlot {
    pub drum: DrumVoice,
    pub synth: SynthVoice,
    pub voicing: ChordVoicePool,
}

#[verifier::ext_equal]
pub struct SlotModel {
    pub drum: DrumVoice,
    pub synth: SynthVoice,
    pub voicing: PoolModel,
}

impl View for TrackSlot {
    type V = SlotModel;

    open spec fn view(&self) -> SlotModel {
        SlotModel { drum: self.drum, synth: self.synth, voicing: self.voicing@ }
    }
}

/// The locks in force at a step of a sequence; none on an empty step.
pub open spec fn locks_at_step(sequence: SequenceModel, step: int) -> ParameterLocks {
    match locks_in_force(sequence.cycle(), step) {
        Some(values) => locks_valued(values),
        None => no_locks(),
    }
}

pub fn locks_at(sequence: &AudioSequence, step: usize) -> (locks: ParameterLocks)
    requires
        sequence@.wf(),
        step < sequence@.step_count,
    ensures
        locks == locks_at_step(sequence@, step as int),
{
    match effective_event_locks(&sequence.steps, sequence.step_count as usize, step) {
        Some(locks) => {
            proof {
                locks_are_their_values(locks);
            }
            locks
        },
        None => empty_locks(),
    }
}

/// The sequence of a track in a pattern.
pub fn sequence_of<'a>(project: &'a AudioProject, pattern: usize, track: usize) -> (sequence: &'a
    AudioSequence)
    requires
        project@.wf(),
        pattern < project@.patterns.len(),
        track < TRACK_COUNT,
    ensures
        sequence@ == project@.patterns[pattern as int][track as int],
        sequence@.wf(),
{
    assert(project@.patterns[pattern as int] == project.patterns.0@[pattern as int]@);
    assert(project@.patterns[pattern as int][track as int].wf());
    &project.patterns.0[pattern].tracks[track]
}

/// What a step asks of the voices of a pitched track. A note that its chances
/// rejected releases what sounds.
pub open spec fn gate_for(
    sequence: SequenceModel,
    step: int,
    active: bool,
    retrigger: bool,
    allowed: bool,
) -> GateAction {
    if !allowed && !retrigger && (sequence.steps[step] matches Some(event)
        && event.condition_of() is Some) {
        GateAction::Release
    } else {
        gate_action(sequence.cycle(), step, active)
    }
}

fn choose_gate(
    sequence: &AudioSequence,
    step: usize,
    active: bool,
    retrigger: bool,
    allowed: bool,
) -> (action: GateAction)
    requires
        sequence@.wf(),
        step < sequence@.step_count,
    ensures
        action == gate_for(sequence@, step as int, active, retrigger, allowed),
        action matches GateAction::Trigger(trigger) ==> trigger.wf(),
{
    assert(step_wf(sequence@.steps[step as int]));
    let conditional: bool = match &sequence.steps[step] {
        Some(event) => event.condition().is_some(),
        None => false,
    };
    if !allowed && !retrigger && conditional {
        return GateAction::Release;
    }
    let action = synth_action(&sequence.steps, sequence.step_count as usize, step, active);
    proof {
        triggers_are_valid(sequence@, step as int, active);
    }
    action
}

/// A step never triggers anything but a note of its sequence.
proof fn triggers_are_valid(sequence: SequenceModel, step: int, active: bool)
    requires
        sequence.wf(),
        0 <= step < sequence.step_count,
    ensures
        gate_action(sequence.cycle(), step, active) matches GateAction::Trigger(trigger)
            ==> trigger.wf(),
{
    let steps = sequence.cycle();
    assert(step_wf(sequence.steps[step]));
    if let Some(d) = source_distance(steps, step) {
        let at = step_before(steps.len() as int, step, d);
        reach_is_behind(steps, step, 1);
        assert(step_wf(sequence.steps[at]));
    }
}

pub open spec fn effects_cue(
    settings: AudioTrack,
    track: int,
    preview: bool,
    locks: ParameterLocks,
    smoothing: u32,
) -> Cue {
    Cue::Effects {
        track: track as u8,
        preview,
        effects: effects_under(settings.effects, locks),
        smoothing,
    }
}

pub open spec fn note_cue(track: int, preview: bool, place: int, voice: SynthVoice) -> Cue {
    Cue::Note { track: track as u8, preview, place: place as u8, voice }
}

pub open spec fn settings_cue(
    track: int,
    preview: bool,
    place: int,
    voice: SynthVoice,
    smoothing: u32,
) -> Cue {
    Cue::Settings { track: track as u8, preview, place: place as u8, voice, smoothing }
}

/// What the sound engine is told of a chord that has just started: the rest of
/// its group is silent, then each of its notes.
pub open spec fn chord_cues(pool: PoolModel, track: int, preview: bool) -> Seq<Cue> {
    let start = pool.start();
    let rest = Cue::Silence {
        track: track as u8,
        preview,
        from: (start + pool.voice_count) as u8,
        to: (start + CHORD_GROUP_SIZE) as u8,
    };
    let notes = Seq::new(
        pool.voice_count as nat,
        |i: int| note_cue(track, preview, start + i, pool.voices[start + i]),
    );
    if pool.arpeggiated {
        seq![
            rest,
            Cue::Arpeggio { track: track as u8, preview, rate: pool.arpeggio.rate },
        ] + notes
    } else {
        seq![rest] + notes
    }
}

pub open spec fn group_settings_cues(
    pool: PoolModel,
    track: int,
    preview: bool,
    smoothing: u32,
) -> Seq<Cue> {
    Seq::new(
        pool.voice_count as nat,
        |i: int|
            settings_cue(
                track,
                preview,
                pool.start() + i,
                pool.voices[pool.start() + i],
                smoothing,
            ),
    )
}

/// The voice after its step released it: its settings return to the track's
/// own, its gate closes and no slide is left over.
pub open spec fn voice_released(voice: SynthVoice, settings: AudioTrack) -> SynthVoice {
    SynthVoice { slide_armed: false, ..voice.configured(settings, no_locks()).note_ended() }
}

impl SlotModel {
    pub open spec fn wf(self) -> bool {
        self.voicing.wf()
    }

    /// Whether a note is held on the voices that the track plays.
    pub open spec fn holds(self, settings: AudioTrack) -> bool {
        if settings.kind().voiced() {
            self.voicing.active
        } else {
            self.synth.active
        }
    }

    /// The slot after a drum step: the mixer follows the step, a hit sounds
    /// only where the step may.
    #[verifier::opaque]
    pub open spec fn drummed(
        self,
        settings: AudioTrack,
        sequence: SequenceModel,
        step: int,
        retrigger: bool,
        allowed: bool,
    ) -> SlotModel {
        let mixed = if retrigger {
            self.drum
        } else {
            self.drum.mixed(settings, locks_at_step(sequence, step))
        };
        SlotModel {
            drum: match sequence.steps[step] {
                Some(StepEvent::Trigger { accent, recipe, locks, .. }) => if allowed {
                    mixed.struck(settings, accent, recipe, locks)
                } else {
                    mixed
                },
                _ => mixed,
            },
            ..self
        }
    }

    #[verifier::opaque]
    pub open spec fn drum_cues(
        self,
        settings: AudioTrack,
        sequence: SequenceModel,
        track: int,
        step: int,
        retrigger: bool,
        allowed: bool,
        smoothing: u32,
    ) -> Seq<Cue> {
        let mix = if retrigger {
            Seq::empty()
        } else {
            seq![
                Cue::DrumMix {
                    track: track as u8,
                    preview: false,
                    mix: mix_under(settings, locks_at_step(sequence, step)),
                    smoothing,
                },
            ]
        };
        mix + match sequence.steps[step] {
            Some(StepEvent::Trigger { accent, recipe, locks, .. }) => if allowed {
                hit_cues(settings, track, false, accent, recipe, locks)
            } else {
                Seq::empty()
            },
            _ => Seq::empty(),
        }
    }

    /// The slot after its voices were given a note.
    pub open spec fn started(
        self,
        project: ProjectModel,
        track: int,
        trigger: SynthTrigger,
        locks: ParameterLocks,
    ) -> SlotModel {
        if project.tracks[track].kind().voiced() {
            SlotModel { voicing: self.voicing.triggered(project, track, trigger, locks), ..self }
        } else {
            SlotModel {
                synth: self.synth.note_started(
                    project.tracks[track],
                    degree_midi(
                        project.globals,
                        trigger.degree as int,
                        trigger.octave as int,
                    ) as i32,
                    trigger,
                    locks,
                ),
                ..self
            }
        }
    }

    /// What the sound engine is told of the note that has just started here.
    pub open spec fn start_cues(self, settings: AudioTrack, track: int, preview: bool) -> Seq<Cue> {
        let restart = Cue::RestartLfos { track: track as u8, preview };
        if settings.kind().voiced() {
            seq![restart] + chord_cues(self.voicing, track, preview)
        } else {
            seq![restart, note_cue(track, preview, MONO_PLACE as int, self.synth)]
        }
    }

    /// The slot while a tie goes on holding its note.
    pub open spec fn held(self, settings: AudioTrack, locks: ParameterLocks) -> SlotModel {
        if settings.kind().voiced() {
            SlotModel { voicing: self.voicing.tied(settings, locks), ..self }
        } else {
            SlotModel { synth: self.synth.configured(settings, locks), ..self }
        }
    }

    pub open spec fn hold_cues(self, settings: AudioTrack, track: int, smoothing: u32) -> Seq<Cue> {
        if settings.kind().voiced() {
            group_settings_cues(self.voicing, track, false, smoothing)
        } else {
            seq![settings_cue(track, false, MONO_PLACE as int, self.synth, smoothing)]
        }
    }

    /// The slot after a step without a note.
    pub open spec fn let_go(self, settings: AudioTrack) -> SlotModel {
        if settings.kind().voiced() {
            SlotModel { voicing: self.voicing.released(), ..self }
        } else {
            SlotModel { synth: voice_released(self.synth, settings), ..self }
        }
    }

    pub open spec fn release_cues(
        self,
        settings: AudioTrack,
        track: int,
        smoothing: u32,
    ) -> Seq<Cue> {
        let effects = effects_cue(settings, track, false, no_locks(), smoothing);
        if settings.kind().voiced() {
            seq![effects]
        } else {
            seq![effects, settings_cue(track, false, MONO_PLACE as int, self.synth, smoothing)]
        }
    }

    /// The slot of a pitched track after an action of its sequence.
    #[verifier::opaque]
    pub open spec fn pitched(
        self,
        project: ProjectModel,
        pattern: int,
        track: int,
        step: int,
        retrigger: bool,
        allowed: bool,
    ) -> SlotModel {
        let settings = project.tracks[track];
        let sequence = project.patterns[pattern][track];
        match gate_for(sequence, step, self.holds(settings), retrigger, allowed) {
            GateAction::Trigger(trigger) => self.started(
                project,
                track,
                trigger,
                locks_at_step(sequence, step),
            ),
            GateAction::Hold => if retrigger {
                self
            } else {
                self.held(settings, locks_at_step(sequence, step))
            },
            GateAction::Release => if retrigger {
                self
            } else {
                self.let_go(settings)
            },
        }
    }

    #[verifier::opaque]
    pub open spec fn pitched_cues(
        self,
        project: ProjectModel,
        pattern: int,
        track: int,
        step: int,
        retrigger: bool,
        allowed: bool,
        smoothing: u32,
    ) -> Seq<Cue> {
        let settings = project.tracks[track];
        let sequence = project.patterns[pattern][track];
        let next = self.pitched(project, pattern, track, step, retrigger, allowed);
        match gate_for(sequence, step, self.holds(settings), retrigger, allowed) {
            GateAction::Trigger(trigger) => next.start_cues(settings, track, false),
            GateAction::Hold => if retrigger {
                Seq::empty()
            } else {
                next.hold_cues(settings, track, smoothing)
            },
            GateAction::Release => if retrigger {
                Seq::empty()
            } else {
                next.release_cues(settings, track, smoothing)
            },
        }
    }

    /// The slot after an action of its sequence fell due.
    pub open spec fn acted(
        self,
        project: ProjectModel,
        pattern: int,
        track: int,
        step: int,
        retrigger: bool,
        allowed: bool,
    ) -> SlotModel {
        if project.tracks[track].kind().drum() {
            self.drummed(
                project.tracks[track],
                project.patterns[pattern][track],
                step,
                retrigger,
                allowed,
            )
        } else {
            self.pitched(project, pattern, track, step, retrigger, allowed)
        }
    }

    /// What the sound engine is told of that action.
    pub open spec fn action_cues(
        self,
        project: ProjectModel,
        pattern: int,
        track: int,
        step: int,
        retrigger: bool,
        allowed: bool,
        smoothing: u32,
    ) -> Seq<Cue> {
        let settings = project.tracks[track];
        let sequence = project.patterns[pattern][track];
        let effects = if retrigger {
            Seq::empty()
        } else {
            seq![effects_cue(settings, track, false, locks_at_step(sequence, step), smoothing)]
        };
        effects + if settings.kind().drum() {
            self.drum_cues(settings, sequence, track, step, retrigger, allowed, smoothing)
        } else {
            self.pitched_cues(project, pattern, track, step, retrigger, allowed, smoothing)
        }
    }
}

/// What the sound engine is told of a hit.
pub open spec fn hit_cues(
    settings: AudioTrack,
    track: int,
    preview: bool,
    accent: bool,
    recipe: DrumRecipeSlot,
    locks: ParameterLocks,
) -> Seq<Cue> {
    let restart = Cue::RestartLfos { track: track as u8, preview };
    match drum_controls_under(settings, recipe, locks) {
        Some(controls) => seq![
            restart,
            Cue::DrumHit { track: track as u8, preview, hit: DrumHit { controls, accent } },
        ],
        None => seq![restart],
    }
}

fn cue_chord(cues: &mut Vec<Cue>, pool: &ChordVoicePool, track: usize, preview: bool)
    requires
        pool@.wf(),
        track < TRACK_COUNT,
    ensures
        final(cues)@ == old(cues)@ + chord_cues(pool@, track as int, preview),
{
    let start: usize = pool.group * CHORD_GROUP_SIZE;
    cues.push(
        Cue::Silence {
            track: track as u8,
            preview,
            from: (start + pool.voice_count) as u8,
            to: (start + CHORD_GROUP_SIZE) as u8,
        },
    );
    if pool.arpeggiated {
        cues.push(Cue::Arpeggio { track: track as u8, preview, rate: pool.arpeggio.rate });
    }
    let ghost before = cues@;
    let ghost notes = Seq::new(
        pool.voice_count as nat,
        |i: int| note_cue(track as int, preview, start + i, pool@.voices[start + i]),
    );
    let mut i: usize = 0;
    while i < pool.voice_count
        invariant
            pool@.wf(),
            start == pool.group * CHORD_GROUP_SIZE,
            i <= pool.voice_count,
            notes == Seq::new(
                pool.voice_count as nat,
                |i: int| note_cue(track as int, preview, start + i, pool@.voices[start + i]),
            ),
            cues@ == before + notes.take(i as int),
        decreases pool.voice_count - i,
    {
        cues.push(
            Cue::Note {
                track: track as u8,
                preview,
                place: (start + i) as u8,
                voice: pool.voices[start + i],
            },
        );
        assert(notes.take(i + 1) =~= notes.take(i as int).push(notes[i as int]));
        i = i + 1;
    }
    assert(notes.take(pool.voice_count as int) =~= notes);
    assert(cues@ =~= old(cues)@ + chord_cues(pool@, track as int, preview));
}

fn cue_group_settings(
    cues: &mut Vec<Cue>,
    pool: &ChordVoicePool,
    track: usize,
    preview: bool,
    smoothing: u32,
)
    requires
        pool@.wf(),
    ensures
        final(cues)@ == old(cues)@ + group_settings_cues(pool@, track as int, preview, smoothing),
{
    let start: usize = pool.group * CHORD_GROUP_SIZE;
    let ghost all = group_settings_cues(pool@, track as int, preview, smoothing);
    let mut i: usize = 0;
    while i < pool.voice_count
        invariant
            pool@.wf(),
            start == pool.group * CHORD_GROUP_SIZE,
            i <= pool.voice_count,
            all == group_settings_cues(pool@, track as int, preview, smoothing),
            cues@ == old(cues)@ + all.take(i as int),
        decreases pool.voice_count - i,
    {
        cues.push(
            Cue::Settings {
                track: track as u8,
                preview,
                place: (start + i) as u8,
                voice: pool.voices[start + i],
                smoothing,
            },
        );
        assert(all.take(i + 1) =~= all.take(i as int).push(all[i as int]));
        i = i + 1;
    }
    assert(all.take(pool.voice_count as int) =~= all);
}

impl TrackSlot {
    /// Puts the effects of the track under the locks of a step.
    fn cue_effects(
        cues: &mut Vec<Cue>,
        settings: &AudioTrack,
        track: usize,
        preview: bool,
        locks: &ParameterLocks,
        smoothing: u32,
    )
        ensures
            final(cues)@ == old(cues)@.push(
                effects_cue(*settings, track as int, preview, *locks, smoothing),
            ),
    {
        cues.push(
            Cue::Effects {
                track: track as u8,
                preview,
                effects: resolve_effects(&settings.effects, locks),
                smoothing,
            },
        );
    }

    /// Starts a note on the voices of the track.
    fn start(
        &mut self,
        cues: &mut Vec<Cue>,
        project: &AudioProject,
        track: usize,
        preview: bool,
        trigger: &SynthTrigger,
        locks: &ParameterLocks,
    )
        requires
            old(self)@.wf(),
            project@.globals.wf(),
            track < TRACK_COUNT,
            track < project@.tracks.len(),
            trigger.wf(),
        ensures
            final(self)@ == old(self)@.started(project@, track as int, *trigger, *locks),
            final(self)@.wf(),
            final(cues)@ == old(cues)@ + final(self)@.start_cues(
                project@.tracks[track as int],
                track as int,
                preview,
            ),
    {
        cues.push(Cue::RestartLfos { track: track as u8, preview });
        if project.tracks[track].instrument_kind().supports_voicing() {
            self.voicing.trigger_chord(project, track, trigger, locks);
            cue_chord(cues, &self.voicing, track, preview);
        } else {
            configure_synth_voice(project, track, trigger, locks, &mut self.synth);
            cues.push(
                Cue::Note { track: track as u8, preview, place: MONO_PLACE, voice: self.synth },
            );
        }
        assert(cues@ =~= old(cues)@ + self@.start_cues(
            project@.tracks[track as int],
            track as int,
            preview,
        ));
    }

    fn strike(
        &mut self,
        cues: &mut Vec<Cue>,
        settings: &AudioTrack,
        track: usize,
        preview: bool,
        accent: bool,
        recipe: DrumRecipeSlot,
        locks: &ParameterLocks,
    )
        ensures
            final(self)@ == (SlotModel {
                drum: old(self).drum.struck(*settings, accent, recipe, *locks),
                ..old(self)@
            }),
            final(cues)@ == old(cues)@ + hit_cues(
                *settings,
                track as int,
                preview,
                accent,
                recipe,
                *locks,
            ),
    {
        cues.push(Cue::RestartLfos { track: track as u8, preview });
        if let Some(hit) = self.drum.start_drum_voice(settings, accent, recipe, locks) {
            cues.push(Cue::DrumHit { track: track as u8, preview, hit });
        }
        assert(cues@ =~= old(cues)@ + hit_cues(
            *settings,
            track as int,
            preview,
            accent,
            recipe,
            *locks,
        ));
    }

    fn act_on_drum(
        &mut self,
        cues: &mut Vec<Cue>,
        settings: &AudioTrack,
        sequence: &AudioSequence,
        track: usize,
        step: usize,
        retrigger: bool,
        allowed: bool,
        smoothing: u32,
    )
        requires
            old(self)@.wf(),
            sequence@.wf(),
            step < sequence@.step_count,
        ensures
            final(self)@.wf(),
            final(self)@ == old(self)@.drummed(
                *settings,
                sequence@,
                step as int,
                retrigger,
                allowed,
            ),
            final(cues)@ == old(cues)@ + old(self)@.drum_cues(
                *settings,
                sequence@,
                track as int,
                step as int,
                retrigger,
                allowed,
                smoothing,
            ),
    {
        reveal(SlotModel::drummed);
        reveal(SlotModel::drum_cues);
        if !retrigger {
            let locks = locks_at(sequence, step);
            self.drum.apply_drum_mix(settings, &locks);
            cues.push(
                Cue::DrumMix { track: track as u8, preview: false, mix: self.drum.mix, smoothing },
            );
        }
        if allowed {
            if let Some(StepEvent::Trigger { accent, recipe, locks, .. }) = &sequence.steps[step] {
                self.strike(cues, settings, track, false, *accent, *recipe, locks);
            }
        }
        assert(cues@ =~= old(cues)@ + old(self)@.drum_cues(
            *settings,
            sequence@,
            track as int,
            step as int,
            retrigger,
            allowed,
            smoothing,
        ));
    }

    fn hold(
        &mut self,
        cues: &mut Vec<Cue>,
        settings: &AudioTrack,
        track: usize,
        locks: &ParameterLocks,
        smoothing: u32,
    )
        requires
            old(self)@.wf(),
        ensures
            final(self)@ == old(self)@.held(*settings, *locks),
            final(self)@.wf(),
            final(cues)@ == old(cues)@ + final(self)@.hold_cues(*settings, track as int, smoothing),
    {
        if settings.instrument_kind().supports_voicing() {
            self.voicing.apply_voicing_tie(settings, locks);
            cue_group_settings(cues, &self.voicing, track, false, smoothing);
        } else {
            self.synth.apply_synth_params_core(settings, locks);
            cues.push(
                Cue::Settings {
                    track: track as u8,
                    preview: false,
                    place: MONO_PLACE,
                    voice: self.synth,
                    smoothing,
                },
            );
        }
        assert(cues@ =~= old(cues)@ + self@.hold_cues(*settings, track as int, smoothing));
    }

    fn release(
        &mut self,
        cues: &mut Vec<Cue>,
        settings: &AudioTrack,
        track: usize,
        smoothing: u32,
    )
        requires
            old(self)@.wf(),
        ensures
            final(self)@ == old(self)@.let_go(*settings),
            final(self)@.wf(),
            final(cues)@ == old(cues)@ + final(self)@.release_cues(
                *settings,
                track as int,
                smoothing,
            ),
    {
        let locks = empty_locks();
        TrackSlot::cue_effects(cues, settings, track, false, &locks, smoothing);
        if settings.instrument_kind().supports_voicing() {
            self.voicing.release_chord();
        } else {
            self.synth.apply_synth_params_core(settings, &locks);
            self.synth.end_note();
            self.synth.slide_armed = false;
            cues.push(
                Cue::Settings {
                    track: track as u8,
                    preview: false,
                    place: MONO_PLACE,
                    voice: self.synth,
                    smoothing,
                },
            );
        }
        assert(cues@ =~= old(cues)@ + self@.release_cues(*settings, track as int, smoothing));
    }

    fn act_on_voices(
        &mut self,
        cues: &mut Vec<Cue>,
        project: &AudioProject,
        pattern: usize,
        track: usize,
        step: usize,
        retrigger: bool,
        allowed: bool,
        smoothing: u32,
    )
        requires
            old(self)@.wf(),
            project@.wf(),
            pattern < project@.patterns.len(),
            track < TRACK_COUNT,
            step < project@.patterns[pattern as int][track as int].step_count,
        ensures
            final(self)@ == old(self)@.pitched(
                project@,
                pattern as int,
                track as int,
                step as int,
                retrigger,
                allowed,
            ),
            final(self)@.wf(),
            final(cues)@ == old(cues)@ + old(self)@.pitched_cues(
                project@,
                pattern as int,
                track as int,
                step as int,
                retrigger,
                allowed,
                smoothing,
            ),
    {
        reveal(SlotModel::pitched);
        reveal(SlotModel::pitched_cues);
        let settings = &project.tracks[track];
        let sequence = sequence_of(project, pattern, track);
        let active: bool = if settings.instrument_kind().supports_voicing() {
            self.voicing.active
        } else {
            self.synth.active
        };
        match choose_gate(sequence, step, active, retrigger, allowed) {
            GateAction::Trigger(trigger) => {
                let locks = locks_at(sequence, step);
                self.start(cues, project, track, false, &trigger, &locks);
            },
            GateAction::Hold => {
                if !retrigger {
                    let locks = locks_at(sequence, step);
                    self.hold(cues, settings, track, &locks, smoothing);
                } else {
                    assert(cues@ =~= old(cues)@ + Seq::<Cue>::empty());
                }
            },
            GateAction::Release => {
                if !retrigger {
                    self.release(cues, settings, track, smoothing);
                } else {
                    assert(cues@ =~= old(cues)@ + Seq::<Cue>::empty());
                }
            },
        }
    }

    /// Performs an action of the sequence that fell due.
    pub fn process_track_action(
        &mut self,
        cues: &mut Vec<Cue>,
        project: &AudioProject,
        pattern: usize,
        track: usize,
        step: usize,
        retrigger: bool,
        allowed: bool,
        smoothing: u32,
    )
        requires
            old(self)@.wf(),
            project@.wf(),
            pattern < project@.patterns.len(),
            track < TRACK_COUNT,
            step < project@.patterns[pattern as int][track as int].step_count,
        ensures
            final(self)@ == old(self)@.acted(
                project@,
                pattern as int,
                track as int,
                step as int,
                retrigger,
                allowed,
            ),
            final(self)@.wf(),
            final(cues)@ == old(cues)@ + old(self)@.action_cues(
                project@,
                pattern as int,
                track as int,
                step as int,
                retrigger,
                allowed,
                smoothing,
            ),
    {
        let ghost told = cues@;
        let settings = &project.tracks[track];
        let sequence = sequence_of(project, pattern, track);
        if !retrigger {
            let locks = locks_at(sequence, step);
            TrackSlot::cue_effects(cues, settings, track, false, &locks, smoothing);
        }
        let ghost head = cues@;
        let ghost effects = head.skip(told.len() as int);
        assert(head =~= told + effects);
        if settings.instrument_kind().is_drum() {
            self.act_on_drum(cues, settings, sequence, track, step, retrigger, allowed, smoothing);
        } else {
            self.act_on_voices(cues, project, pattern, track, step, retrigger, allowed, smoothing);
        }
        let ghost body = cues@.skip(head.len() as int);
        assert(cues@ =~= told + (effects + body));
        assert(retrigger ==> effects =~= Seq::<Cue>::empty());
        assert(!retrigger ==> effects =~= seq![
            effects_cue(
                *settings,
                track as int,
                false,
                locks_at_step(sequence@, step as int),
                smoothing,
            ),
        ]);
    }
}

/// Samples of one beat: the length of an auditioned note.
pub open spec fn beat_length(sample_rate: int, tempo_bpm: int) -> int {
    60 * sample_rate / tempo_bpm
}

/// Samples of one pass of an arpeggio, rounded up. A tone lasts a number of
/// eighths of a beat.
pub open spec fn phrase_length(sample_rate: int, tempo_bpm: int, eighths: int, tones: int) -> int {
    (60 * sample_rate * eighths * tones + 8 * tempo_bpm - 1) / (8 * tempo_bpm)
}

pub fn beat_samples(sample_rate: u32, tempo_bpm: u16) -> (n: u32)
    requires
        sample_rate <= MAX_SAMPLE_RATE,
        tempo_bpm >= 1,
    ensures
        n == beat_length(sample_rate as int, tempo_bpm as int),
{
    60 * sample_rate / tempo_bpm as u32
}

pub fn phrase_samples(sample_rate: u32, tempo_bpm: u16, eighths: u8, tones: u8) -> (n: u64)
    requires
        sample_rate <= MAX_SAMPLE_RATE,
        tempo_bpm >= 1,
    ensures
        n == phrase_length(sample_rate as int, tempo_bpm as int, eighths as int, tones as int),
{
    let beat: u64 = 60 * sample_rate as u64;
    let part: u64 = eighths as u64;
    let count: u64 = tones as u64;
    assert(beat * part <= 33_600_000 * 255) by (nonlinear_arith)
        requires
            beat <= 33_600_000,
            part <= 255,
    ;
    assert(beat * part * count <= 33_600_000 * 255 * 255) by (nonlinear_arith)
        requires
            0 <= beat * part <= 33_600_000 * 255,
            count <= 255,
    ;
    let units: u64 = 8 * tempo_bpm as u64;
    (beat * part * count + units - 1) / units
}

/// The note that an empty step is auditioned with.
pub open spec fn input_note(settings: AudioTrack) -> SynthTrigger {
    SynthTrigger {
        degree: settings.input_degree,
        octave: settings.input_octave,
        accent: settings.input_accent,
        slide: false,
        chord_shape: if settings.kind().voiced() {
            Some(settings.input_chord_shape)
        } else {
            None
        },
        arpeggio: if settings.kind().voiced() {
            settings.input_chord_arpeggio
        } else {
            crate::model::event::no_arpeggio()
        },
    }
}

/// What an audition of a step plays on a pitched track: its note, the note
/// that a tie holds, or the input note; a tie without a note plays nothing.
pub open spec fn audition_note(settings: AudioTrack, sequence: SequenceModel, step: int) -> Option<
    (SynthTrigger, ParameterLocks),
> {
    let locks = locks_at_step(sequence, step);
    let steps = sequence.cycle();
    match sequence.steps[step] {
        Some(StepEvent::Tie { .. }) => match source_distance(steps, step) {
            Some(d) => Some(
                (steps[step_before(steps.len() as int, step, d)]->0.note()->0, locks),
            ),
            None => None,
        },
        Some(event) => match event.note() {
            Some(note) => Some((note, locks)),
            None => Some((input_note(settings), no_locks())),
        },
        None => Some((input_note(settings), no_locks())),
    }
}

fn choose_audition(settings: &AudioTrack, sequence: &AudioSequence, step: usize) -> (note: Option<
    (SynthTrigger, ParameterLocks),
>)
    requires
        settings.wf(),
        sequence@.wf(),
        step < sequence@.step_count,
    ensures
        note == audition_note(*settings, sequence@, step as int),
        note matches Some(n) ==> n.0.wf(),
{
    let ghost steps = sequence@.cycle();
    assert(steps[step as int] == sequence@.steps[step as int]);
    assert(step_wf(sequence@.steps[step as int]));
    if let Some(event) = &sequence.steps[step] {
        if event.is_tie() {
            return match tie_source(&sequence.steps, sequence.step_count as usize, step) {
                Some(source) => {
                    assert(steps[source as int] == sequence@.steps[source as int]);
                    assert(step_wf(sequence@.steps[source as int]));
                    match &sequence.steps[source] {
                        Some(held) => match held.note_trigger() {
                            Some(trigger) => Some((trigger, locks_at(sequence, step))),
                            None => None,
                        },
                        None => None,
                    }
                },
                None => None,
            };
        }
        if let Some(trigger) = event.note_trigger() {
            return Some((trigger, locks_at(sequence, step)));
        }
    }
    let voiced: bool = settings.instrument_kind().supports_voicing();
    Some(
        (
            SynthTrigger {
                degree: settings.input_degree,
                octave: settings.input_octave,
                accent: settings.input_accent,
                slide: false,
                chord_shape: if voiced {
                    Some(settings.input_chord_shape)
                } else {
                    None
                },
                arpeggio: if voiced {
                    settings.input_chord_arpeggio
                } else {
                    ArpeggioConfig::default()
                },
            },
            empty_locks(),
        ),
    )
}

/// The hit that an audition of a step gives a drum.
pub open spec fn audition_hit(settings: AudioTrack, event: Option<StepEvent>) -> (
    bool,
    DrumRecipeSlot,
) {
    match event {
        Some(StepEvent::Trigger { accent, recipe, .. }) => (accent, recipe),
        _ => (settings.input_accent, DrumRecipeSlot::One),
    }
}

impl SlotModel {
    /// The slot with its note limited to an audition's length.
    pub open spec fn note_timed(
        self,
        project: ProjectModel,
        track: int,
        sample_rate: int,
    ) -> SlotModel {
        let bpm = project.globals.tempo_bpm as int;
        let beat = beat_length(sample_rate, bpm) as u32;
        if project.tracks[track].kind().voiced() {
            SlotModel {
                voicing: self.voicing.timed(
                    beat,
                    phrase_length(
                        sample_rate,
                        bpm,
                        self.voicing.arpeggio.rate.eighths(),
                        self.voicing.arpeggio.order_len as int,
                    ) as u64,
                ),
                ..self
            }
        } else {
            SlotModel { synth: SynthVoice { remaining: beat, ..self.synth }, ..self }
        }
    }

    /// The slot after a step was auditioned on it.
    #[verifier::opaque]
    pub open spec fn auditioned(
        self,
        project: ProjectModel,
        pattern: int,
        track: int,
        step: int,
        sample_rate: int,
    ) -> SlotModel {
        let settings = project.tracks[track];
        let sequence = project.patterns[pattern][track];
        let locks = locks_at_step(sequence, step);
        if settings.kind().drum() {
            let (accent, recipe) = audition_hit(settings, sequence.steps[step]);
            SlotModel {
                drum: self.drum.struck(settings, accent, recipe, locks).mixed(settings, locks),
                ..self
            }
        } else {
            match audition_note(settings, sequence, step) {
                Some((trigger, locks)) => self.started(project, track, trigger, locks).note_timed(
                    project,
                    track,
                    sample_rate,
                ),
                None => self,
            }
        }
    }

    #[verifier::opaque]
    pub open spec fn audition_cues(
        self,
        project: ProjectModel,
        pattern: int,
        track: int,
        step: int,
        smoothing: u32,
    ) -> Seq<Cue> {
        let settings = project.tracks[track];
        let sequence = project.patterns[pattern][track];
        let locks = locks_at_step(sequence, step);
        let effects = effects_cue(settings, track, true, locks, smoothing);
        if settings.kind().drum() {
            let (accent, recipe) = audition_hit(settings, sequence.steps[step]);
            seq![effects] + hit_cues(settings, track, true, accent, recipe, locks).push(
                Cue::DrumMix {
                    track: track as u8,
                    preview: true,
                    mix: mix_under(settings, locks),
                    smoothing: 0,
                },
            )
        } else {
            match audition_note(settings, sequence, step) {
                Some((trigger, locks)) => seq![effects] + self.started(
                    project,
                    track,
                    trigger,
                    locks,
                ).start_cues(settings, track, true),
                None => seq![effects],
            }
        }
    }

    /// The locks that the effects of the track are under.
    pub open spec fn latched_locks(self, settings: AudioTrack) -> ParameterLocks {
        if settings.kind().drum() {
            self.drum.locks
        } else if settings.kind().voiced() {
            self.voicing.voices[self.voicing.start()].locks
        } else {
            self.synth.locks
        }
    }

    /// The slot under new settings of its track. Locks stay as they were
    /// latched; what has ended no longer follows.
    #[verifier::opaque]
    pub open spec fn refreshed(self, settings: AudioTrack) -> SlotModel {
        if settings.kind().drum() {
            SlotModel { drum: self.drum.mixed(settings, self.drum.locks), ..self }
        } else if settings.kind().voiced() {
            SlotModel { voicing: self.voicing.refreshed(settings), ..self }
        } else if self.synth.active {
            SlotModel { synth: self.synth.configured(settings, self.synth.locks), ..self }
        } else {
            self
        }
    }

    #[verifier::opaque]
    pub open spec fn refresh_cues(
        self,
        settings: AudioTrack,
        track: int,
        preview: bool,
        smoothing: u32,
    ) -> Seq<Cue> {
        let effects = seq![
            effects_cue(settings, track, preview, self.latched_locks(settings), smoothing),
        ];
        let next = self.refreshed(settings);
        if settings.kind().drum() {
            effects.push(
                Cue::DrumMix { track: track as u8, preview, mix: next.drum.mix, smoothing },
            )
        } else if settings.kind().voiced() {
            effects + pool_refresh_cues(
                self.voicing,
                settings,
                track,
                preview,
                smoothing,
                POOL_SIZE as int,
            )
        } else if self.synth.active {
            effects.push(
                settings_cue(track, preview, MONO_PLACE as int, next.synth, smoothing),
            )
        } else {
            effects
        }
    }

    /// The slot one sample on: what is rendered and timed counts down.
    pub open spec fn gates_advanced(self, settings: AudioTrack) -> SlotModel {
        if settings.kind().voiced() {
            SlotModel { voicing: self.voicing.gates_advanced(), ..self }
        } else if !settings.kind().drum() && !self.synth.idle() {
            SlotModel { synth: self.synth.gate_advanced(), ..self }
        } else {
            self
        }
    }

    /// The slot after playback paused or its pattern changed: what was held
    /// is released.
    pub open spec fn relaxed(self) -> SlotModel {
        SlotModel { synth: self.synth.note_ended(), voicing: self.voicing.released(), ..self }
    }

    /// The slot after a pause: no arpeggio is left over either.
    pub open spec fn paused(self) -> SlotModel {
        let relaxed = self.relaxed();
        SlotModel {
            voicing: PoolModel {
                arpeggio: super::arpeggio::resting_arpeggio(),
                ..relaxed.voicing
            },
            ..relaxed
        }
    }

    /// The slot after a stop: drums and operators are cut, a single voice and
    /// a chord fade out.
    pub open spec fn stopped(self, settings: AudioTrack) -> SlotModel {
        SlotModel {
            drum: self.drum.quiet(),
            synth: SynthVoice { remaining: 0, ..self.synth.note_ended() },
            voicing: if settings.kind().fades() {
                self.voicing.faded()
            } else {
                self.voicing.reset()
            },
        }
    }

    /// The slot at rest, as for a new instrument.
    pub open spec fn at_rest(self) -> SlotModel {
        SlotModel {
            drum: DrumVoice::fresh(self.drum.seed),
            synth: self.synth.gated_off().silenced(),
            voicing: self.voicing.reset(),
        }
    }

    /// Whether anything of the slot is still heard or to come.
    pub open spec fn busy(self, settings: AudioTrack) -> bool {
        if settings.kind().drum() {
            self.drum.sounding
        } else if settings.kind().voiced() {
            self.voicing.active || self.voicing.arpeggiated || self.voicing.preview_remaining != 0
                || self.voicing.heard()
        } else {
            !self.synth.idle()
        }
    }
}

/// What the sound engine is told of the first `n` voices of a refreshed pool.
pub open spec fn pool_refresh_cues(
    pool: PoolModel,
    settings: AudioTrack,
    track: int,
    preview: bool,
    smoothing: u32,
    n: int,
) -> Seq<Cue>
    decreases n,
{
    if n <= 0 {
        Seq::empty()
    } else {
        let before = pool_refresh_cues(pool, settings, track, preview, smoothing, n - 1);
        if pool.follows(settings, n - 1) {
            before.push(
                settings_cue(
                    track,
                    preview,
                    n - 1,
                    pool.voices[n - 1].configured(settings, pool.voices[n - 1].locks),
                    smoothing,
                ),
            )
        } else {
            before
        }
    }
}

impl TrackSlot {
    pub fn new(drum_seed: u32, synth_seed: u32) -> (slot: TrackSlot)
        ensures
            slot@.wf(),
            slot.drum == DrumVoice::fresh(drum_seed),
            slot.synth.is_fresh(synth_seed),
            slot@.voicing.is_fresh(),
    {
        TrackSlot {
            drum: DrumVoice::new(drum_seed),
            synth: SynthVoice::new_with_seed(synth_seed),
            voicing: ChordVoicePool::new(),
        }
    }

    /// Limits the note that has just started to an audition's length.
    fn time_note(&mut self, project: &AudioProject, track: usize, sample_rate: u32)
        requires
            old(self)@.wf(),
            project@.globals.wf(),
            track < project@.tracks.len(),
            sample_rate <= MAX_SAMPLE_RATE,
        ensures
            final(self)@ == old(self)@.note_timed(project@, track as int, sample_rate as int),
            final(self)@.wf(),
    {
        let bpm: u16 = project.globals.tempo_bpm;
        let beat: u32 = beat_samples(sample_rate, bpm);
        if project.tracks[track].instrument_kind().supports_voicing() {
            let phrase: u64 = phrase_samples(
                sample_rate,
                bpm,
                self.voicing.arpeggio.rate.beat_eighths(),
                self.voicing.arpeggio.order_len,
            );
            self.voicing.time_group(beat, phrase);
        } else {
            self.synth.remaining = beat;
        }
    }

    /// Auditions a step on these voices.
    pub fn audition_once(
        &mut self,
        cues: &mut Vec<Cue>,
        project: &AudioProject,
        pattern: usize,
        track: usize,
        step: usize,
        sample_rate: u32,
        smoothing: u32,
    )
        requires
            old(self)@.wf(),
            project@.wf(),
            pattern < project@.patterns.len(),
            track < TRACK_COUNT,
            step < project@.patterns[pattern as int][track as int].step_count,
            sample_rate <= MAX_SAMPLE_RATE,
        ensures
            final(self)@ == old(self)@.auditioned(
                project@,
                pattern as int,
                track as int,
                step as int,
                sample_rate as int,
            ),
            final(self)@.wf(),
            final(cues)@ == old(cues)@ + old(self)@.audition_cues(
                project@,
                pattern as int,
                track as int,
                step as int,
                smoothing,
            ),
    {
        reveal(SlotModel::auditioned);
        reveal(SlotModel::audition_cues);
        let ghost told = cues@;
        let ghost slot = self@;
        let settings = &project.tracks[track];
        assert(project@.tracks[track as int].wf());
        let sequence = sequence_of(project, pattern, track);
        let locks = locks_at(sequence, step);
        TrackSlot::cue_effects(cues, settings, track, true, &locks, smoothing);
        if settings.instrument_kind().is_drum() {
            let (accent, recipe) = match &sequence.steps[step] {
                Some(StepEvent::Trigger { accent, recipe, .. }) => (*accent, *recipe),
                _ => (settings.input_accent, DrumRecipeSlot::One),
            };
            self.strike(cues, settings, track, true, accent, recipe, &locks);
            self.drum.apply_drum_mix(settings, &locks);
            cues.push(
                Cue::DrumMix {
                    track: track as u8,
                    preview: true,
                    mix: self.drum.mix,
                    smoothing: 0,
                },
            );
        } else if let Some((trigger, note_locks)) = choose_audition(settings, sequence, step) {
            self.start(cues, project, track, true, &trigger, &note_locks);
            self.time_note(project, track, sample_rate);
        }
        assert(cues@ =~= told + slot.audition_cues(
            project@,
            pattern as int,
            track as int,
            step as int,
            smoothing,
        ));
    }

    fn refresh_pool(
        &mut self,
        cues: &mut Vec<Cue>,
        settings: &AudioTrack,
        track: usize,
        preview: bool,
        smoothing: u32,
    )
        requires
            old(self)@.wf(),
        ensures
            final(self)@ == (SlotModel {
                voicing: old(self)@.voicing.refreshed(*settings),
                ..old(self)@
            }),
            final(self)@.wf(),
            final(cues)@ == old(cues)@ + pool_refresh_cues(
                old(self)@.voicing,
                *settings,
                track as int,
                preview,
                smoothing,
                POOL_SIZE as int,
            ),
    {
        let ghost pool = self@.voicing;
        assert(cues@ =~= old(cues)@ + Seq::<Cue>::empty());
        let mut i: usize = 0;
        while i < POOL_SIZE
            invariant
                i <= POOL_SIZE,
                pool == old(self)@.voicing,
                pool.wf(),
                self@ == (SlotModel {
                    voicing: PoolModel { voices: self.voicing.voices@, ..pool },
                    ..old(self)@
                }),
                self.voicing.voices@.len() == POOL_SIZE,
                forall|k: int|
                    0 <= k < POOL_SIZE ==> #[trigger] self.voicing.voices@[k] == if k < i {
                        pool.refreshed(*settings).voices[k]
                    } else {
                        pool.voices[k]
                    },
                cues@ == old(cues)@ + pool_refresh_cues(
                    pool,
                    *settings,
                    track as int,
                    preview,
                    smoothing,
                    i as int,
                ),
            decreases POOL_SIZE - i,
        {
            let follows: bool = self.voicing.voice_follows(settings, i);
            assert(follows == pool.follows(*settings, i as int));
            if follows {
                let mut voice = self.voicing.voices[i];
                let locks = voice.locks;
                voice.apply_synth_params_core(settings, &locks);
                self.voicing.voices[i] = voice;
                cues.push(
                    Cue::Settings {
                        track: track as u8,
                        preview,
                        place: i as u8,
                        voice,
                        smoothing,
                    },
                );
            }
            i = i + 1;
        }
        assert(self.voicing.voices@ =~= pool.refreshed(*settings).voices);
    }

    /// Follows new settings of the track.
    pub fn refresh(
        &mut self,
        cues: &mut Vec<Cue>,
        settings: &AudioTrack,
        track: usize,
        preview: bool,
        smoothing: u32,
    )
        requires
            old(self)@.wf(),
        ensures
            final(self)@ == old(self)@.refreshed(*settings),
            final(self)@.wf(),
            final(cues)@ == old(cues)@ + old(self)@.refresh_cues(
                *settings,
                track as int,
                preview,
                smoothing,
            ),
    {
        reveal(SlotModel::refreshed);
        reveal(SlotModel::refresh_cues);
        let ghost told = cues@;
        let ghost slot = self@;
        let kind = settings.instrument_kind();
        let locks = if kind.is_drum() {
            self.drum.locks
        } else if kind.supports_voicing() {
            self.voicing.voices[self.voicing.group * CHORD_GROUP_SIZE].locks
        } else {
            self.synth.locks
        };
        TrackSlot::cue_effects(cues, settings, track, preview, &locks, smoothing);
        if kind.is_drum() {
            self.drum.apply_drum_mix(settings, &locks);
            cues.push(
                Cue::DrumMix { track: track as u8, preview, mix: self.drum.mix, smoothing },
            );
        } else if kind.supports_voicing() {
            self.refresh_pool(cues, settings, track, preview, smoothing);
        } else if self.synth.active {
            self.synth.apply_synth_params_core(settings, &locks);
            cues.push(
                Cue::Settings {
                    track: track as u8,
                    preview,
                    place: MONO_PLACE,
                    voice: self.synth,
                    smoothing,
                },
            );
        }
        assert(cues@ =~= told + slot.refresh_cues(*settings, track as int, preview, smoothing));
    }

    /// Counts one sample of the timed notes that are rendered.
    pub fn advance_gates(&mut self, settings: &AudioTrack)
        requires
            old(self)@.wf(),
        ensures
            final(self)@ == old(self)@.gates_advanced(*settings),
            final(self)@.wf(),
    {
        let kind = settings.instrument_kind();
        if kind.supports_voicing() {
            self.voicing.advance_gates();
        } else if !kind.is_drum() && !self.synth.is_idle() {
            self.synth.advance_voice_gate();
        }
    }

    /// Releases what is held.
    pub fn relax(&mut self)
        requires
            old(self)@.wf(),
        ensures
            final(self)@ == old(self)@.relaxed(),
            final(self)@.wf(),
    {
        self.synth.end_note();
        self.voicing.release_chord();
    }

    pub fn pause(&mut self)
        requires
            old(self)@.wf(),
        ensures
            final(self)@ == old(self)@.paused(),
            final(self)@.wf(),
    {
        self.relax();
        self.voicing.arpeggio = super::arpeggio::ArpeggioState::default();
    }

    pub fn stop(&mut self, settings: &AudioTrack)
        requires
            old(self)@.wf(),
        ensures
            final(self)@ == old(self)@.stopped(*settings),
            final(self)@.wf(),
    {
        self.drum.finish();
        self.synth.end_note();
        self.synth.remaining = 0;
        if settings.instrument_kind().fades_when_stopped() {
            self.voicing.fade_out();
        } else {
            self.voicing.reset_runtime();
        }
    }

    pub fn reset_runtime(&mut self)
        requires
            old(self)@.wf(),
        ensures
            final(self)@ == old(self)@.at_rest(),
            final(self)@.wf(),
    {
        self.drum.reset_runtime();
        self.synth.gate_off();
        self.synth.reset_to_idle();
        self.voicing.reset_runtime();
    }

    /// Whether anything of the slot is still heard or to come.
    pub fn is_busy(&self, settings: &AudioTrack) -> (r: bool)
        requires
            self@.wf(),
        ensures
            r == self@.busy(*settings),
    {
        let kind = settings.instrument_kind();
        if kind.is_drum() {
            self.drum.sounding
        } else if kind.supports_voicing() {
            self.voicing.active || self.voicing.arpeggiated || self.voicing.preview_remaining != 0
                || self.voicing.is_heard()
        } else {
            !self.synth.is_idle()
        }
    }
}

impl SlotModel {
    /// Whether the clock of an arpeggio runs here.
    pub open spec fn arpeggio_runs(self, settings: AudioTrack) -> bool {
        settings.kind().voiced() && self.voicing.arpeggiated && self.voicing.active
    }

    /// Whether the next tone of the arpeggio starts, given that its tone is
    /// over. An audition ends after its phrase instead.
    pub open spec fn tone_starts(self, settings: AudioTrack, preview: bool, due: bool) -> bool {
        self.arpeggio_runs(settings) && self.voicing.arpeggio.enabled && due && (preview
            ==> self.voicing.preview_remaining > 1)
    }

    /// The slot one sample on in its arpeggio.
    #[verifier::opaque]
    pub open spec fn arpeggio_advanced(
        self,
        project: ProjectModel,
        track: int,
        preview: bool,
        due: bool,
    ) -> SlotModel {
        let settings = project.tracks[track];
        if !self.arpeggio_runs(settings) {
            self
        } else if preview && self.voicing.preview_remaining <= 1 {
            SlotModel { voicing: self.voicing.released(), ..self }
        } else {
            let counted = PoolModel {
                preview_remaining: if preview {
                    self.voicing.preview_remaining - 1
                } else {
                    self.voicing.preview_remaining
                },
                ..self.voicing
            };
            SlotModel {
                voicing: if self.tone_starts(settings, preview, due) {
                    PoolModel { arpeggio: counted.arpeggio.stepped(), ..counted }.arpeggio_toned(
                        project,
                        track,
                    )
                } else {
                    counted
                },
                ..self
            }
        }
    }

    #[verifier::opaque]
    pub open spec fn arpeggio_cues(
        self,
        project: ProjectModel,
        track: int,
        preview: bool,
        due: bool,
    ) -> Seq<Cue> {
        if self.tone_starts(project.tracks[track], preview, due) {
            let next = self.arpeggio_advanced(project, track, preview, due).voicing;
            seq![note_cue(track, preview, next.start(), next.voices[next.start()])]
        } else {
            Seq::empty()
        }
    }
}

impl TrackSlot {
    /// One sample of the arpeggio; `due` says that its tone is over.
    pub fn advance_arpeggio(
        &mut self,
        cues: &mut Vec<Cue>,
        project: &AudioProject,
        track: usize,
        preview: bool,
        due: bool,
    )
        requires
            old(self)@.wf(),
            project@.globals.wf(),
            track < project@.tracks.len(),
        ensures
            final(self)@ == old(self)@.arpeggio_advanced(project@, track as int, preview, due),
            final(self)@.wf(),
            final(cues)@ == old(cues)@ + old(self)@.arpeggio_cues(
                project@,
                track as int,
                preview,
                due,
            ),
    {
        reveal(SlotModel::arpeggio_advanced);
        reveal(SlotModel::arpeggio_cues);
        let mut started: bool = false;
        if project.tracks[track].instrument_kind().supports_voicing() {
            started = if preview {
                self.voicing.advance_preview_arpeggio(project, track, due)
            } else {
                self.voicing.advance_arpeggio(project, track, due)
            };
        }
        if started {
            let start: usize = self.voicing.group * CHORD_GROUP_SIZE;
            cues.push(
                Cue::Note {
                    track: track as u8,
                    preview,
                    place: start as u8,
                    voice: self.voicing.voices[start],
                },
            );
        }
        assert(cues@ =~= old(cues)@ + old(self)@.arpeggio_cues(
            project@,
            track as int,
            preview,
            due,
        ));
    }
}

/// Only a new note restarts the oscillators of a track: the tones of an
/// arpeggio and a tie that goes on holding its note do not.
pub proof fn only_notes_restart_oscillators(
    slot: SlotModel,
    project: ProjectModel,
    track: int,
    preview: bool,
    due: bool,
    settings: AudioTrack,
    smoothing: u32,
)
    ensures
        forall|i: int|
            0 <= i < slot.arpeggio_cues(project, track, preview, due).len() ==> !((
            #[trigger] slot.arpeggio_cues(project, track, preview, due)[i]) is RestartLfos),
        forall|i: int|
            0 <= i < slot.hold_cues(settings, track, smoothing).len() ==> !((
            #[trigger] slot.hold_cues(settings, track, smoothing)[i]) is RestartLfos),
        slot.start_cues(settings, track, preview)[0] == (Cue::RestartLfos {
            track: track as u8,
            preview,
        }),
{
    reveal(SlotModel::arpeggio_cues);
}

/// A step whose chances rejected it, and which asked for a note, releases what
/// sounds on a pitched track and strikes nothing on a drum.
pub proof fn rejected_steps_do_not_sound(
    slot: SlotModel,
    project: ProjectModel,
    pattern: int,
    track: int,
    step: int,
)
    requires
        project.patterns[pattern][track].steps[step] matches Some(event) && event.condition_of()
            is Some,
    ensures
        project.tracks[track].kind().drum() ==> slot.acted(
            project,
            pattern,
            track,
            step,
            false,
            false,
        ).drum.hit == slot.drum.hit,
        !project.tracks[track].kind().drum() ==> slot.acted(
            project,
            pattern,
            track,
            step,
            false,
            false,
        ) == slot.let_go(project.tracks[track]),
{
    reveal(SlotModel::drummed);
    reveal(SlotModel::pitched);
}

/// Locks are latched: new settings of a track never change the locks that its
/// drum or any of its voices is under.
pub proof fn refreshing_keeps_latched_locks(slot: SlotModel, settings: AudioTrack)
    requires
        slot.wf(),
    ensures
        slot.refreshed(settings).latched_locks(settings) == slot.latched_locks(settings),
        slot.refreshed(settings).drum.locks == slot.drum.locks,
        slot.refreshed(settings).synth.locks == slot.synth.locks,
        forall|i: int|
            0 <= i < POOL_SIZE ==> (#[trigger] slot.refreshed(settings).voicing.voices[i]).locks
                == slot.voicing.voices[i].locks,
{
    reveal(SlotModel::refreshed);
    if settings.kind().voiced() {
        assert(slot.voicing.start() == 0 || slot.voicing.start() == CHORD_GROUP_SIZE);
    }
}

/// A stop leaves no note held and none timed. Only a single voice and a chord
/// may still be heard, and they do nothing but fade.
pub proof fn stopping_holds_nothing(slot: SlotModel, settings: AudioTrack)
    requires
        slot.wf(),
    ensures
        !slot.stopped(settings).holds(settings),
        !slot.stopped(settings).arpeggio_runs(settings),
        !slot.stopped(settings).drum.sounding,
        !slot.stopped(settings).synth.active,
        slot.stopped(settings).synth.remaining == 0,
        forall|i: int|
            0 <= i < POOL_SIZE ==> {
                let voice = #[trigger] slot.stopped(settings).voicing.voices[i];
                &&& !voice.active
                &&& voice.remaining == 0
                &&& voice.kind != SynthVoiceKind::Bass ==> voice.stage == EnvStage::Idle
                    || voice.stage == EnvStage::Release
            },
        !settings.kind().fades() ==> slot.stopped(settings).voicing.counts == seq![0usize, 0usize]
            && !slot.stopped(settings).voicing.heard(),
        settings.kind().fades() ==> slot.stopped(settings).voicing.counts == slot.voicing.counts,
{
}

} // verus!
