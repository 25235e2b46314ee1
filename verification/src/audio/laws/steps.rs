//! What a step does to the voices of its track.
use crate::audio::controls::{drum_controls_under, effects_under, mix_under};
use crate::audio::cue::{Cue, DrumHit};
use crate::audio::slot::{
    locks_at_step, no_locks, DrumVoice, SlotModel,
};
use crate::audio::snapshot::{AudioTrack, ProjectModel, SequenceModel};
use crate::audio::voice::degree_midi;
use crate::model::event::{
    gate_action, locks_in_force, source_distance, step_before, StepEvent,
    SynthTrigger,
};
use crate::model::instrument::{DrumRecipeSlot, Instrument, TrackKind};
use crate::model::parameter::{locks_are_their_values, unlocked, ParameterLocks};
use vstd::prelude::*;

verus! {

/// Six instruments are drums, two play shapes, and the bass and the lead play
/// one note at a time; each instrument is of its own kind.
pub proof fn instruments_are_of_their_kind(instrument: Instrument)
    ensures
        ({
            let kind = instrument.kind_of();
            &&& kind == TrackKind::Kick <==> instrument is Kick
            &&& kind == TrackKind::Snare <==> instrument is Snare
            &&& kind == TrackKind::Hat <==> instrument is Hat
            &&& kind == TrackKind::Tom <==> instrument is Tom
            &&& kind == TrackKind::Cymbal <==> instrument is Cymbal
            &&& kind == TrackKind::Rimshot <==> instrument is Rimshot
            &&& kind == TrackKind::Bass <==> instrument is Bass
            &&& kind == TrackKind::Chord <==> instrument is Chord
            &&& kind == TrackKind::Lead <==> instrument is Lead
            &&& kind == TrackKind::Fm <==> instrument is Fm
            &&& kind.drum() <==> instrument is Kick || instrument is Snare || instrument is Hat
                || instrument is Tom || instrument is Cymbal || instrument is Rimshot
            &&& kind.voiced() <==> instrument is Chord || instrument is Fm
            &&& kind.fades() <==> instrument is Chord
            &&& !kind.drum() && !kind.voiced() <==> instrument is Bass || instrument is Lead
        }),
{
}

/// The locks at a step are those in force on it, and none where nothing is.
pub proof fn steps_have_the_locks_in_force(
    sequence: SequenceModel,
    step: int,
    locks: ParameterLocks,
)
    requires
        locks_in_force(sequence.cycle(), step) matches Some(values) ==> values == locks@,
        locks_in_force(sequence.cycle(), step) is None ==> forall|i: int|
            0 <= i < locks@.len() ==> (#[trigger] locks@[i]) is None,
    ensures
        locks_at_step(sequence, step) == locks,
{
    locks.view_length();
    locks_are_their_values(locks);
    if locks_in_force(sequence.cycle(), step) is None {
        assert(locks@ =~= unlocked());
    }
}

proof fn empty_locks_are_none(empty: ParameterLocks)
    requires
        forall|i: int| 0 <= i < empty@.len() ==> (#[trigger] empty@[i]) is None,
    ensures
        no_locks() == empty,
{
    empty.view_length();
    assert(empty@ =~= unlocked());
    locks_are_their_values(empty);
}

/// A hit of a drum is struck under the locks of its own step where it sounds,
/// and changes nothing of what sounds where it does not. Only the first hit of
/// a step moves the mixer.
pub proof fn drums_are_struck_as_their_step_says(
    slot: SlotModel,
    project: ProjectModel,
    pattern: int,
    track: int,
    step: int,
    retrigger: bool,
    allowed: bool,
    hit_accent: bool,
    hit_recipe: DrumRecipeSlot,
    hit_locks: ParameterLocks,
)
    requires
        project.tracks[track].kind().drum(),
        0 <= step < project.patterns[pattern][track].step_count
            <= project.patterns[pattern][track].steps.len(),
        project.patterns[pattern][track].steps[step] matches Some(
            StepEvent::Trigger { accent, recipe, locks, .. },
        ) && accent == hit_accent && recipe == hit_recipe && locks == hit_locks,
    ensures
        ({
            let settings = project.tracks[track];
            let next = slot.acted(project, pattern, track, step, retrigger, allowed);
            &&& allowed ==> next.drum.sounding
            &&& allowed ==> next.drum.hit == Some(
                DrumHit {
                    controls: drum_controls_under(settings, hit_recipe, hit_locks)->0,
                    accent: hit_accent,
                },
            )
            &&& !allowed ==> next.drum.hit == slot.drum.hit && next.drum.sounding
                == slot.drum.sounding
            &&& !retrigger ==> next.drum.mix == mix_under(settings, hit_locks) && next.drum.locks
                == hit_locks
            &&& retrigger ==> next.drum.mix == slot.drum.mix && next.drum.locks == slot.drum.locks
            &&& next.drum.noise == slot.drum.noise
            &&& next.synth == slot.synth
            &&& next.voicing == slot.voicing
        }),
{
    reveal(SlotModel::drummed);
    let sequence = project.patterns[pattern][track];
    assert(sequence.cycle()[step] == sequence.steps[step]);
    locks_are_their_values(hit_locks);
}

/// An empty step of a drum track strikes nothing; it brings the mixer back to
/// the track's own settings.
pub proof fn empty_steps_strike_nothing(
    slot: SlotModel,
    project: ProjectModel,
    pattern: int,
    track: int,
    step: int,
    allowed: bool,
    empty: ParameterLocks,
)
    requires
        project.tracks[track].kind().drum(),
        0 <= step < project.patterns[pattern][track].step_count
            <= project.patterns[pattern][track].steps.len(),
        project.patterns[pattern][track].steps[step] is None,
        forall|i: int| 0 <= i < empty@.len() ==> (#[trigger] empty@[i]) is None,
    ensures
        ({
            let next = slot.acted(project, pattern, track, step, false, allowed);
            &&& next.drum.hit == slot.drum.hit
            &&& next.drum.sounding == slot.drum.sounding
            &&& next.drum.mix == mix_under(project.tracks[track], empty)
            &&& next.drum.locks == empty
            &&& next.synth == slot.synth
            &&& next.voicing == slot.voicing
        }),
{
    reveal(SlotModel::drummed);
    let sequence = project.patterns[pattern][track];
    assert(sequence.cycle()[step] == sequence.steps[step]);
    empty_locks_are_none(empty);
}

/// A note of a bass or a lead sounds its own pitch under its own locks, on
/// every hit that its gate lets through.
pub proof fn single_notes_sound_as_their_step_says(
    slot: SlotModel,
    project: ProjectModel,
    pattern: int,
    track: int,
    step: int,
    retrigger: bool,
    event: StepEvent,
    note: SynthTrigger,
)
    requires
        project.globals.wf(),
        project.tracks[track].instrument is Bass || project.tracks[track].instrument is Lead,
        0 <= step < project.patterns[pattern][track].step_count
            <= project.patterns[pattern][track].steps.len(),
        project.patterns[pattern][track].steps[step] == Some(event),
        event.note() == Some(note),
        note.wf(),
    ensures
        ({
            let next = slot.acted(project, pattern, track, step, retrigger, true);
            &&& next.synth.note.midi == degree_midi(
                project.globals,
                note.degree as int,
                note.octave as int,
            )
            &&& next.synth.active
            &&& next.synth.note.accent == note.accent
            &&& next.synth.slide_armed == note.slide
            &&& next.synth.locks == event.own_locks()
            &&& next.synth.controls == slot.synth.configured(
                project.tracks[track],
                event.own_locks(),
            ).controls
            &&& next.drum == slot.drum
            &&& next.voicing == slot.voicing
        }),
{
    reveal(SlotModel::pitched);
    let sequence = project.patterns[pattern][track];
    assert(sequence.cycle()[step] == sequence.steps[step]);
    locks_are_their_values(event.own_locks());
    crate::model::instrument::scales_ascend(project.globals.scale, 0, 7);
    if 1 < note.degree < 8 {
        crate::model::instrument::scales_ascend(project.globals.scale, 0, note.degree - 1);
        crate::model::instrument::scales_ascend(project.globals.scale, note.degree - 1, 7);
    }
}

/// A shape starts on the pool of its track, under the locks of its own step.
pub proof fn shapes_start_as_their_step_says(
    slot: SlotModel,
    project: ProjectModel,
    pattern: int,
    track: int,
    step: int,
    retrigger: bool,
    event: StepEvent,
    note: SynthTrigger,
)
    requires
        project.tracks[track].instrument is Chord || project.tracks[track].instrument is Fm,
        0 <= step < project.patterns[pattern][track].step_count
            <= project.patterns[pattern][track].steps.len(),
        project.patterns[pattern][track].steps[step] == Some(event),
        event.note() == Some(note),
    ensures
        ({
            let next = slot.acted(project, pattern, track, step, retrigger, true);
            &&& next.voicing == slot.voicing.triggered(project, track, note, event.own_locks())
            &&& next.drum == slot.drum
            &&& next.synth == slot.synth
        }),
{
    reveal(SlotModel::pitched);
    let sequence = project.patterns[pattern][track];
    assert(sequence.cycle()[step] == sequence.steps[step]);
    locks_are_their_values(event.own_locks());
}

/// A tie goes on with the note that sounds, under the locks in force on it: it
/// starts nothing, and its retriggers do nothing.
pub proof fn ties_hold_what_sounds(
    slot: SlotModel,
    project: ProjectModel,
    pattern: int,
    track: int,
    step: int,
    allowed: bool,
    locks: ParameterLocks,
)
    requires
        !project.tracks[track].kind().drum(),
        0 <= step < project.patterns[pattern][track].step_count
            <= project.patterns[pattern][track].steps.len(),
        project.patterns[pattern][track].steps[step] matches Some(StepEvent::Tie { .. }),
        slot.holds(project.tracks[track]),
        locks_at_step(project.patterns[pattern][track], step) == locks,
    ensures
        ({
            let settings = project.tracks[track];
            let next = slot.acted(project, pattern, track, step, false, allowed);
            let voiced = settings.instrument is Chord || settings.instrument is Fm;
            &&& !voiced ==> {
                &&& next.synth == slot.synth.configured(settings, locks)
                &&& next.synth.locks == locks
                &&& next.synth.note == slot.synth.note
                &&& next.synth.stage == slot.synth.stage
                &&& next.synth.active
                &&& next.voicing == slot.voicing
            }
            &&& voiced ==> next.voicing == slot.voicing.tied(settings, locks) && next.synth
                == slot.synth
            &&& next.drum == slot.drum
            &&& slot.acted(project, pattern, track, step, true, allowed) == slot
        }),
{
    reveal(SlotModel::pitched);
    let sequence = project.patterns[pattern][track];
    assert(sequence.cycle()[step] == sequence.steps[step]);
}

/// A tie that finds nothing sounding starts the note it goes back to, under the
/// locks in force on the tie.
pub proof fn ties_start_what_has_ended(
    slot: SlotModel,
    project: ProjectModel,
    pattern: int,
    track: int,
    step: int,
    allowed: bool,
    distance: int,
    note: SynthTrigger,
)
    requires
        !project.tracks[track].kind().drum(),
        0 <= step < project.patterns[pattern][track].step_count
            <= project.patterns[pattern][track].steps.len(),
        project.patterns[pattern][track].steps[step] matches Some(StepEvent::Tie { .. }),
        !slot.holds(project.tracks[track]),
        source_distance(project.patterns[pattern][track].cycle(), step) == Some(distance),
        project.patterns[pattern][track].cycle()[step_before(
            project.patterns[pattern][track].step_count as int,
            step,
            distance,
        )]->0.note() == Some(note),
    ensures
        slot.acted(project, pattern, track, step, false, allowed) == slot.started(
            project,
            track,
            note,
            locks_at_step(project.patterns[pattern][track], step),
        ),
{
    reveal(SlotModel::pitched);
    let sequence = project.patterns[pattern][track];
    assert(sequence.cycle()[step] == sequence.steps[step]);
    assert(sequence.cycle().len() == sequence.step_count);
}

/// An empty step, a tie without a note and a note that its gate rejects let go
/// of what sounds.
pub proof fn empty_steps_let_go(
    slot: SlotModel,
    project: ProjectModel,
    pattern: int,
    track: int,
    step: int,
    allowed: bool,
)
    requires
        !project.tracks[track].kind().drum(),
        0 <= step < project.patterns[pattern][track].step_count
            <= project.patterns[pattern][track].steps.len(),
        ({
            let event = project.patterns[pattern][track].steps[step];
            ||| event is None
            ||| event matches Some(e) && !(e is Tie) && !allowed
            ||| event matches Some(e) && e is Tie && !slot.holds(project.tracks[track])
                && source_distance(project.patterns[pattern][track].cycle(), step) is None
        }),
    ensures
        ({
            let next = slot.acted(project, pattern, track, step, false, allowed);
            let instrument = project.tracks[track].instrument;
            &&& next == slot.let_go(project.tracks[track])
            &&& instrument is Chord || instrument is Fm ==> next.voicing == slot.voicing.released()
                && next.synth == slot.synth
            &&& instrument is Bass || instrument is Lead ==> {
                &&& !next.synth.active
                &&& !next.synth.slide_armed
                &&& next.synth.locks == no_locks()
                &&& next.synth.note == slot.synth.note
                &&& next.voicing == slot.voicing
            }
            &&& next.drum == slot.drum
            &&& project.patterns[pattern][track].steps[step] is None ==> slot.acted(
                project,
                pattern,
                track,
                step,
                true,
                true,
            ) == slot
        }),
{
    reveal(SlotModel::pitched);
    let sequence = project.patterns[pattern][track];
    assert(sequence.cycle()[step] == sequence.steps[step]);
}

/// Whether a track holds a note: the pool says so of shapes, and the voice of
/// everything else.
pub proof fn tracks_hold_through_their_voices(slot: SlotModel, settings: AudioTrack)
    ensures
        settings.instrument is Chord || settings.instrument is Fm ==> slot.holds(settings)
            == slot.voicing.active,
        settings.instrument is Bass || settings.instrument is Lead ==> slot.holds(settings)
            == slot.synth.active,
{
}

/// The first hit of a step moves the effects of its track to the locks in
/// force on it; later hits leave them.
pub proof fn steps_move_their_effects(
    slot: SlotModel,
    project: ProjectModel,
    pattern: int,
    track: int,
    step: int,
    allowed: bool,
    smoothing: u32,
)
    requires
        0 <= track < 256,
    ensures
        ({
            let cues = slot.action_cues(project, pattern, track, step, false, allowed, smoothing);
            &&& cues.len() >= 1
            &&& cues[0] == (Cue::Effects {
                track: track as u8,
                preview: false,
                effects: effects_under(
                    project.tracks[track].effects,
                    locks_at_step(project.patterns[pattern][track], step),
                ),
                smoothing,
            })
        }),
{
}

/// The sound engine is told of a drum hit exactly where the drum is struck.
pub proof fn drum_hits_are_announced(
    slot: SlotModel,
    project: ProjectModel,
    pattern: int,
    track: int,
    step: int,
    retrigger: bool,
    allowed: bool,
    smoothing: u32,
    hit_accent: bool,
    hit_recipe: DrumRecipeSlot,
    hit_locks: ParameterLocks,
)
    requires
        project.tracks[track].kind().drum(),
        project.patterns[pattern][track].steps[step] matches Some(
            StepEvent::Trigger { accent, recipe, locks, .. },
        ) && accent == hit_accent && recipe == hit_recipe && locks == hit_locks,
    ensures
        ({
            let settings = project.tracks[track];
            let cues = slot.action_cues(
                project,
                pattern,
                track,
                step,
                retrigger,
                allowed,
                smoothing,
            );
            let announced = seq![
                Cue::RestartLfos { track: track as u8, preview: false },
                Cue::DrumHit {
                    track: track as u8,
                    preview: false,
                    hit: DrumHit {
                        controls: drum_controls_under(settings, hit_recipe, hit_locks)->0,
                        accent: hit_accent,
                    },
                },
            ];
            let under = locks_at_step(project.patterns[pattern][track], step);
            let mixed = seq![
                Cue::Effects {
                    track: track as u8,
                    preview: false,
                    effects: effects_under(settings.effects, under),
                    smoothing,
                },
                Cue::DrumMix {
                    track: track as u8,
                    preview: false,
                    mix: mix_under(settings, under),
                    smoothing,
                },
            ];
            &&& retrigger && allowed ==> cues == announced
            &&& retrigger && !allowed ==> cues.len() == 0
            &&& !retrigger && allowed ==> cues == mixed + announced
            &&& !retrigger && !allowed ==> cues == mixed
        }),
{
    reveal(SlotModel::drum_cues);
    let cues = slot.action_cues(project, pattern, track, step, retrigger, allowed, smoothing);
    assert(retrigger && !allowed ==> cues =~= Seq::<Cue>::empty());
}

/// The sound engine is told of every note with the voice that plays it: the
/// voice for single notes, or each voice of the shape on its own place.
pub proof fn notes_are_announced(
    slot: SlotModel,
    settings: AudioTrack,
    track: int,
    preview: bool,
    tone: int,
)
    requires
        slot.wf(),
        0 <= track < 256,
        0 <= tone < slot.voicing.voice_count,
    ensures
        ({
            let cues = slot.start_cues(settings, track, preview);
            let start = 4 * slot.voicing.group;
            let voiced = settings.instrument is Chord || settings.instrument is Fm;
            &&& cues[0] == (Cue::RestartLfos { track: track as u8, preview })
            &&& !voiced ==> cues.len() == 2 && cues[1] == (Cue::Note {
                track: track as u8,
                preview,
                place: 8,
                voice: slot.synth,
            })
            &&& voiced ==> cues[1] == (Cue::Silence {
                track: track as u8,
                preview,
                from: (start + slot.voicing.voice_count) as u8,
                to: (start + 4) as u8,
            })
            &&& voiced && slot.voicing.arpeggiated ==> {
                &&& cues.len() == 3 + slot.voicing.voice_count
                &&& cues[2] == (Cue::Arpeggio {
                    track: track as u8,
                    preview,
                    rate: slot.voicing.arpeggio.rate,
                })
                &&& cues[3 + tone] == (Cue::Note {
                    track: track as u8,
                    preview,
                    place: (start + tone) as u8,
                    voice: slot.voicing.voices[start + tone],
                })
            }
            &&& voiced && !slot.voicing.arpeggiated ==> {
                &&& cues.len() == 2 + slot.voicing.voice_count
                &&& cues[2 + tone] == (Cue::Note {
                    track: track as u8,
                    preview,
                    place: (start + tone) as u8,
                    voice: slot.voicing.voices[start + tone],
                })
            }
        }),
{
}

/// The sound engine is told of the settings that a held or released note heads
/// for.
pub proof fn settings_are_announced(
    slot: SlotModel,
    settings: AudioTrack,
    track: int,
    smoothing: u32,
    tone: int,
)
    requires
        slot.wf(),
        0 <= track < 256,
        0 <= tone < slot.voicing.voice_count,
    ensures
        ({
            let held = slot.hold_cues(settings, track, smoothing);
            let released = slot.release_cues(settings, track, smoothing);
            let start = 4 * slot.voicing.group;
            let voiced = settings.instrument is Chord || settings.instrument is Fm;
            &&& voiced ==> held.len() == slot.voicing.voice_count && held[tone] == (
            Cue::Settings {
                track: track as u8,
                preview: false,
                place: (start + tone) as u8,
                voice: slot.voicing.voices[start + tone],
                smoothing,
            })
            &&& !voiced ==> held.len() == 1 && held[0] == (Cue::Settings {
                track: track as u8,
                preview: false,
                place: 8,
                voice: slot.synth,
                smoothing,
            })
            &&& released[0] == (Cue::Effects {
                track: track as u8,
                preview: false,
                effects: effects_under(settings.effects, no_locks()),
                smoothing,
            })
            &&& voiced ==> released.len() == 1
            &&& !voiced ==> released.len() == 2 && released[1] == held[0]
        }),
{
}

/// Every action is announced by what it does: a start by its notes, a hold by
/// its settings, a release by its own.
pub proof fn actions_announce_what_they_do(
    slot: SlotModel,
    project: ProjectModel,
    pattern: int,
    track: int,
    step: int,
    smoothing: u32,
)
    requires
        !project.tracks[track].kind().drum(),
        0 <= step < project.patterns[pattern][track].step_count
            <= project.patterns[pattern][track].steps.len(),
    ensures
        ({
            let settings = project.tracks[track];
            let gate = gate_action(
                project.patterns[pattern][track].cycle(),
                step,
                slot.holds(settings),
            );
            let next = slot.acted(project, pattern, track, step, false, true);
            let cues = slot.action_cues(project, pattern, track, step, false, true, smoothing);
            &&& gate is Trigger ==> cues.skip(1) == next.start_cues(settings, track, false)
            &&& gate is Hold ==> cues.skip(1) == next.hold_cues(settings, track, smoothing)
            &&& gate is Release ==> cues.skip(1) == next.release_cues(settings, track, smoothing)
            &&& gate is Trigger ==> slot.action_cues(
                project,
                pattern,
                track,
                step,
                true,
                true,
                smoothing,
            ) == slot.acted(project, pattern, track, step, true, true).start_cues(
                settings,
                track,
                false,
            )
            &&& !(gate is Trigger) ==> slot.action_cues(
                project,
                pattern,
                track,
                step,
                true,
                true,
                smoothing,
            ).len() == 0
        }),
{
    reveal(SlotModel::pitched_cues);
    let cues = slot.action_cues(project, pattern, track, step, false, true, smoothing);
    let again = slot.action_cues(project, pattern, track, step, true, true, smoothing);
    let gate = gate_action(
        project.patterns[pattern][track].cycle(),
        step,
        slot.holds(project.tracks[track]),
    );
    let told = slot.pitched_cues(project, pattern, track, step, false, true, smoothing);
    let retold = slot.pitched_cues(project, pattern, track, step, true, true, smoothing);
    assert(cues.skip(1) =~= told);
    assert(again =~= retold);
}

/// A drum takes its hit and its mixer settings from what it is given, and keeps
/// its noise going; resetting it starts the noise over.
pub proof fn drums_keep_their_noise(
    drum: DrumVoice,
    track: AudioTrack,
    accent: bool,
    recipe: DrumRecipeSlot,
    locks: ParameterLocks,
)
    ensures
        ({
            let struck = drum.struck(track, accent, recipe, locks);
            &&& struck.noise == drum.noise
            &&& struck.mix == drum.mix
            &&& struck.locks == drum.locks
            &&& drum_controls_under(track, recipe, locks) matches Some(controls) ==> struck.sounding
                && struck.hit == Some(DrumHit { controls, accent })
            &&& drum_controls_under(track, recipe, locks) is None ==> struck == drum
        }),
        drum.mixed(track, locks).mix == mix_under(track, locks),
        drum.mixed(track, locks).locks == locks,
        drum.mixed(track, locks).hit == drum.hit,
        drum.mixed(track, locks).sounding == drum.sounding,
        !drum.quiet().sounding,
        drum.quiet().hit == drum.hit,
        DrumVoice::fresh(drum.seed).noise == drum.seed,
        DrumVoice::fresh(drum.seed).seed == drum.seed,
        !DrumVoice::fresh(drum.seed).sounding,
        DrumVoice::fresh(drum.seed).hit is None,
{
}

} // verus!
