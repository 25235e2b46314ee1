//! The voices of a track between its steps: auditions, edits, gates,
//! arpeggios, pauses and stops.
use crate::audio::controls::{
    drum_controls_under, ducking_of, effects_audible, effects_under, mix_under, DuckingRole, ParameterSmoothing,
};
use crate::audio::cue::{Cue, DrumHit};
use crate::audio::pool::PoolModel;
use crate::audio::slot::{
    audition_hit, audition_note, beat_length, input_note, locks_at_step, no_locks, phrase_length,
    pool_refresh_cues, SlotModel,
};
use crate::audio::snapshot::{AudioTrack, ProjectModel, SequenceModel};
use crate::audio::voice::{Spread, SynthVoiceKind};
use crate::dsp::envelope::EnvStage;
use crate::model::event::{source_distance, step_before, ArpeggioRate, StepEvent};
use crate::model::instrument::{ChorusMode, DrumRecipeSlot, TrackEffects, TrackKind};
use vstd::prelude::*;

verus! {

/// An auditioned step of a bass, a chord, a lead or an FM track plays its own
/// note under its own locks; a tie plays the note that it goes back to; and a
/// step without a note plays the one that the track would enter.
pub proof fn auditions_play_the_step_or_the_input(
    settings: AudioTrack,
    sequence: SequenceModel,
    step: int,
    distance: int,
)
    requires
        0 <= step < sequence.step_count <= sequence.steps.len(),
    ensures
        ({
            let chosen = audition_note(settings, sequence, step);
            &&& sequence.steps[step] is None ==> chosen == Some((input_note(settings), no_locks()))
            &&& sequence.steps[step] matches Some(event) ==> event is BassNote || event is Note
                || event is LeadNote ==> chosen == Some(
                (event.note()->0, locks_at_step(sequence, step)),
            )
            &&& sequence.steps[step] matches Some(event) ==> event is Trigger ==> chosen == Some(
                (input_note(settings), no_locks()),
            )
            &&& sequence.steps[step] matches Some(event) ==> event is Tie ==> {
                &&& source_distance(sequence.cycle(), step) is None ==> chosen is None
                &&& source_distance(sequence.cycle(), step) == Some(distance) ==> chosen == Some(
                    (
                        sequence.cycle()[step_before(
                            sequence.step_count as int,
                            step,
                            distance,
                        )]->0.note()->0,
                        locks_at_step(sequence, step),
                    ),
                )
            }
        }),
{
    assert(sequence.cycle().len() == sequence.step_count);
}

/// The note that a track would enter has the degree, octave and accent chosen
/// for input, no slide, and a shape and an arpeggio only where the track plays
/// shapes.
pub proof fn inputs_play_what_is_chosen(settings: AudioTrack)
    ensures
        ({
            let note = input_note(settings);
            let voiced = settings.instrument is Chord || settings.instrument is Fm;
            &&& note.degree == settings.input_degree
            &&& note.octave == settings.input_octave
            &&& note.accent == settings.input_accent
            &&& !note.slide
            &&& voiced ==> note.chord_shape == Some(settings.input_chord_shape) && note.arpeggio
                == settings.input_chord_arpeggio
            &&& !voiced ==> note.chord_shape is None && !note.arpeggio.enabled
        }),
{
}

/// An auditioned drum is struck with the accent and the recipe of its step, or
/// with the accent chosen for input and the first recipe where it has none.
pub proof fn drum_auditions_play_the_step_or_the_input(
    settings: AudioTrack,
    event: Option<StepEvent>,
)
    ensures
        event matches Some(StepEvent::Trigger { accent, recipe, .. }) ==> audition_hit(
            settings,
            event,
        ) == (accent, recipe),
        !(event matches Some(StepEvent::Trigger { .. })) ==> audition_hit(settings, event) == (
            settings.input_accent,
            DrumRecipeSlot::One,
        ),
{
}

/// A beat lasts sixty seconds through the tempo in samples, rounded down, and
/// the phrase of an arpeggio its tones at eighths of a beat each, rounded up.
pub proof fn auditions_last_a_beat_or_a_phrase(
    sample_rate: int,
    tempo_bpm: int,
    eighths: int,
    tones: int,
)
    requires
        0 <= sample_rate,
        1 <= tempo_bpm,
        0 <= eighths,
        0 <= tones,
    ensures
        tempo_bpm * beat_length(sample_rate, tempo_bpm) <= 60 * sample_rate,
        60 * sample_rate < tempo_bpm * (beat_length(sample_rate, tempo_bpm) + 1),
        8 * tempo_bpm * phrase_length(sample_rate, tempo_bpm, eighths, tones) >= 60 * sample_rate
            * eighths * tones,
        8 * tempo_bpm * (phrase_length(sample_rate, tempo_bpm, eighths, tones) - 1) < 60
            * sample_rate * eighths * tones,
{
    let beat = beat_length(sample_rate, tempo_bpm);
    vstd::arithmetic::div_mod::lemma_fundamental_div_mod(60 * sample_rate, tempo_bpm);
    assert(tempo_bpm * (beat + 1) == tempo_bpm * beat + tempo_bpm) by (nonlinear_arith);
    let unit = 8 * tempo_bpm;
    let whole = 60 * sample_rate * eighths * tones;
    let phrase = (whole + 8 * tempo_bpm - 1) / unit;
    vstd::arithmetic::div_mod::lemma_fundamental_div_mod(whole + unit - 1, unit);
    assert(unit * (phrase - 1) == unit * phrase - unit) by (nonlinear_arith);
}

/// A quarter lasts two eighths, an eighth one, and each shorter rate half of
/// the one before.
pub proof fn rates_halve()
    ensures
        ArpeggioRate::Quarter.eighths() == 8,
        ArpeggioRate::Quarter.eighths() == 2
            * ArpeggioRate::Eighth.eighths(),
        ArpeggioRate::Eighth.eighths() == 2
            * ArpeggioRate::Sixteenth.eighths(),
        ArpeggioRate::Sixteenth.eighths() == 2
            * ArpeggioRate::ThirtySecond.eighths(),
{
}

/// An auditioned drum is struck and mixed under the locks of its step.
pub proof fn drum_auditions_strike(
    slot: SlotModel,
    project: ProjectModel,
    pattern: int,
    track: int,
    step: int,
    sample_rate: int,
)
    requires
        project.tracks[track].kind().drum(),
    ensures
        ({
            let settings = project.tracks[track];
            let sequence = project.patterns[pattern][track];
            let under = locks_at_step(sequence, step);
            let (accent, recipe) = audition_hit(settings, sequence.steps[step]);
            let next = slot.auditioned(project, pattern, track, step, sample_rate);
            &&& next.drum.sounding
            &&& next.drum.hit == Some(
                DrumHit { controls: drum_controls_under(settings, recipe, under)->0, accent },
            )
            &&& next.drum.mix == mix_under(settings, under)
            &&& next.drum.locks == under
            &&& next.synth == slot.synth
            &&& next.voicing == slot.voicing
        }),
{
    reveal(SlotModel::auditioned);
}

/// An auditioned note starts as a step would start it, and is held for a beat.
pub proof fn note_auditions_start_and_end(
    slot: SlotModel,
    project: ProjectModel,
    pattern: int,
    track: int,
    step: int,
    sample_rate: int,
)
    requires
        !project.tracks[track].kind().drum(),
    ensures
        ({
            let settings = project.tracks[track];
            let next = slot.auditioned(project, pattern, track, step, sample_rate);
            let bpm = project.globals.tempo_bpm as int;
            match audition_note(settings, project.patterns[pattern][track], step) {
                Some((note, locks)) => {
                    let started = slot.started(project, track, note, locks);
                    &&& settings.instrument is Bass || settings.instrument is Lead ==> {
                        &&& next.synth.note == started.synth.note
                        &&& next.synth.locks == started.synth.locks
                        &&& next.synth.active
                        &&& 0 <= 60 * sample_rate / bpm <= u32::MAX ==> next.synth.remaining == 60
                            * sample_rate / bpm
                        &&& next.voicing == slot.voicing
                    }
                    &&& settings.instrument is Chord || settings.instrument is Fm ==> {
                        &&& next.voicing.group == started.voicing.group
                        &&& next.voicing.arpeggio == started.voicing.arpeggio
                        &&& next.voicing.active == started.voicing.active
                        &&& next.synth == slot.synth
                    }
                    &&& next.drum == slot.drum
                },
                None => next == slot,
            }
        }),
{
    reveal(SlotModel::auditioned);
}

/// An edit reaches what sounds on a track with the locks it was started under;
/// a voice that rests is left as it is.
pub proof fn edits_reach_held_notes(slot: SlotModel, settings: AudioTrack)
    ensures
        ({
            let next = slot.refreshed(settings);
            let instrument = settings.instrument;
            &&& settings.kind().drum() ==> {
                &&& next.drum.mix == mix_under(settings, slot.drum.locks)
                &&& next.drum.hit == slot.drum.hit
                &&& next.drum.sounding == slot.drum.sounding
                &&& next.synth == slot.synth
                &&& next.voicing == slot.voicing
            }
            &&& instrument is Bass || instrument is Lead ==> {
                &&& slot.synth.active ==> next.synth == slot.synth.configured(
                    settings,
                    slot.synth.locks,
                )
                &&& !slot.synth.active ==> next.synth == slot.synth
                &&& next.drum == slot.drum
                &&& next.voicing == slot.voicing
            }
            &&& instrument is Chord || instrument is Fm ==> {
                &&& next.voicing == slot.voicing.refreshed(settings)
                &&& next.drum == slot.drum
                &&& next.synth == slot.synth
            }
        }),
{
    reveal(SlotModel::refreshed);
}

/// The gates of a track count down where something is heard: of the pool where
/// it plays shapes, of the voice for single notes elsewhere.
pub proof fn gates_count_down_on_their_track(slot: SlotModel, settings: AudioTrack)
    ensures
        ({
            let next = slot.gates_advanced(settings);
            let instrument = settings.instrument;
            &&& instrument is Chord || instrument is Fm ==> next.voicing
                == slot.voicing.gates_advanced() && next.synth == slot.synth
            &&& instrument is Bass || instrument is Lead ==> {
                &&& !slot.synth.idle() ==> next.synth == slot.synth.gate_advanced()
                &&& slot.synth.idle() ==> next.synth == slot.synth
                &&& next.voicing == slot.voicing
            }
            &&& settings.kind().drum() ==> next == slot
            &&& next.drum == slot.drum
        }),
{
}

/// A track that is relaxed lets go of its notes and leaves its drum; a pause
/// forgets its arpeggio besides.
pub proof fn pauses_let_go(slot: SlotModel)
    ensures
        ({
            let next = slot.relaxed();
            &&& !next.synth.active
            &&& next.synth.note == slot.synth.note
            &&& !next.voicing.active
            &&& !next.voicing.arpeggiated
            &&& next.drum == slot.drum
            &&& slot.synth.kind == SynthVoiceKind::Bass ==> !next.synth.vca_gate
            &&& slot.synth.kind != SynthVoiceKind::Bass && slot.synth.stage != EnvStage::Idle
                ==> next.synth.stage == EnvStage::Release
            &&& slot.paused().synth == next.synth
            &&& slot.paused().drum == slot.drum
            &&& slot.paused().voicing.voices == next.voicing.voices
            &&& !slot.paused().voicing.active
            &&& !slot.paused().voicing.arpeggio.enabled
            &&& slot.paused().voicing.arpeggio.order_len == 0
        }),
{
}

/// A stop quiets the drum, ends the note, lets chords fade and cuts every other
/// shape.
pub proof fn stops_fade_chords_and_cut_the_rest(slot: SlotModel, settings: AudioTrack)
    ensures
        ({
            let next = slot.stopped(settings);
            &&& !next.drum.sounding
            &&& !next.synth.active
            &&& next.synth.remaining == 0
            &&& settings.instrument is Chord ==> next.voicing == slot.voicing.faded()
            &&& !(settings.instrument is Chord) ==> next.voicing == slot.voicing.reset()
        }),
{
}

/// A track at rest has forgotten everything but the seed of its noise.
pub proof fn rest_forgets_everything(slot: SlotModel)
    ensures
        ({
            let next = slot.at_rest();
            &&& !next.drum.sounding
            &&& next.drum.hit is None
            &&& next.drum.noise == slot.drum.seed
            &&& next.synth.stage == EnvStage::Idle
            &&& !next.synth.active
            &&& next.synth.remaining == 0
            &&& next.synth.spread == Spread::Center
            &&& slot.synth.kind == SynthVoiceKind::Bass ==> !next.synth.vca_gate
            &&& next.voicing == slot.voicing.reset()
        }),
{
}

/// A track is busy while its drum sounds, its voice is heard, or its pool
/// holds, arpeggiates, waits or is heard.
pub proof fn tracks_are_busy_while_heard(slot: SlotModel, settings: AudioTrack)
    ensures
        settings.kind().drum() ==> slot.busy(settings) == slot.drum.sounding,
        settings.instrument is Bass || settings.instrument is Lead ==> slot.busy(settings)
            == !slot.synth.idle(),
        settings.instrument is Chord || settings.instrument is Fm ==> (slot.busy(settings)
            <==> slot.voicing.active || slot.voicing.arpeggiated || slot.voicing.preview_remaining
            != 0 || slot.voicing.heard()),
{
}

/// A running arpeggio sounds its next tone when its clock is due, one place
/// further in its order, and otherwise waits.
pub proof fn arpeggios_step_when_due(
    slot: SlotModel,
    project: ProjectModel,
    track: int,
    due: bool,
)
    requires
        project.tracks[track].instrument is Chord || project.tracks[track].instrument is Fm,
        slot.voicing.active,
        slot.voicing.arpeggiated,
        slot.voicing.arpeggio.enabled,
    ensures
        ({
            let next = slot.arpeggio_advanced(project, track, false, due);
            let moved = PoolModel { arpeggio: slot.voicing.arpeggio.stepped(), ..slot.voicing };
            &&& due ==> next.voicing == moved.arpeggio_toned(project, track)
            &&& !due ==> next == slot
            &&& next.drum == slot.drum
            &&& next.synth == slot.synth
            &&& slot.arpeggio_cues(project, track, false, due).len() == if due {
                1int
            } else {
                0
            }
        }),
{
    reveal(SlotModel::arpeggio_advanced);
    reveal(SlotModel::arpeggio_cues);
    assert(PoolModel {
        preview_remaining: slot.voicing.preview_remaining,
        ..slot.voicing
    } == slot.voicing);
}

/// An auditioned arpeggio runs for its phrase: every sample brings its end
/// nearer, and the last one lets go.
pub proof fn auditioned_arpeggios_end_with_their_phrase(
    slot: SlotModel,
    project: ProjectModel,
    track: int,
    due: bool,
)
    requires
        project.tracks[track].instrument is Chord || project.tracks[track].instrument is Fm,
        slot.voicing.active,
        slot.voicing.arpeggiated,
    ensures
        ({
            let next = slot.arpeggio_advanced(project, track, true, due);
            &&& slot.voicing.preview_remaining <= 1 ==> next.voicing == slot.voicing.released()
                && slot.arpeggio_cues(project, track, true, due).len() == 0
            &&& slot.voicing.preview_remaining > 1 ==> {
                &&& next.voicing.preview_remaining == slot.voicing.preview_remaining - 1
                &&& next.voicing.active
                &&& due && slot.voicing.arpeggio.enabled ==> next.voicing.arpeggio
                    == slot.voicing.arpeggio.stepped()
                &&& !due ==> next.voicing.arpeggio == slot.voicing.arpeggio && next.voicing.voices
                    == slot.voicing.voices
            }
        }),
{
    reveal(SlotModel::arpeggio_advanced);
    reveal(SlotModel::arpeggio_cues);
}

/// A pool that plays no arpeggio is left alone.
pub proof fn resting_arpeggios_do_nothing(
    slot: SlotModel,
    project: ProjectModel,
    track: int,
    preview: bool,
    due: bool,
)
    requires
        !slot.voicing.active || !slot.voicing.arpeggiated || !(project.tracks[track].instrument
            is Chord || project.tracks[track].instrument is Fm),
    ensures
        slot.arpeggio_advanced(project, track, preview, due) == slot,
        slot.arpeggio_cues(project, track, preview, due).len() == 0,
{
    reveal(SlotModel::arpeggio_advanced);
    reveal(SlotModel::arpeggio_cues);
}

/// An edit of a track is announced by its effects under the locks that are
/// latched, and by the settings of what sounds: the mixer of its drum, the
/// voice that holds a note, or the voices of its pool.
pub proof fn edits_are_announced(
    slot: SlotModel,
    settings: AudioTrack,
    track: int,
    preview: bool,
    smoothing: u32,
)
    requires
        0 <= track < 256,
    ensures
        ({
            let cues = slot.refresh_cues(settings, track, preview, smoothing);
            let next = slot.refreshed(settings);
            let instrument = settings.instrument;
            let latched = if settings.kind().drum() {
                slot.drum.locks
            } else if instrument is Chord || instrument is Fm {
                slot.voicing.voices[4 * slot.voicing.group].locks
            } else {
                slot.synth.locks
            };
            &&& cues.len() >= 1
            &&& cues[0] == (Cue::Effects {
                track: track as u8,
                preview,
                effects: effects_under(settings.effects, latched),
                smoothing,
            })
            &&& settings.kind().drum() ==> cues.len() == 2 && cues[1] == (Cue::DrumMix {
                track: track as u8,
                preview,
                mix: mix_under(settings, slot.drum.locks),
                smoothing,
            })
            &&& instrument is Bass || instrument is Lead ==> {
                &&& slot.synth.active ==> cues.len() == 2 && cues[1] == (Cue::Settings {
                    track: track as u8,
                    preview,
                    place: 8,
                    voice: slot.synth.configured(settings, slot.synth.locks),
                    smoothing,
                })
                &&& !slot.synth.active ==> cues.len() == 1
            }
            &&& instrument is Chord || instrument is Fm ==> cues.skip(1) == pool_refresh_cues(
                slot.voicing,
                settings,
                track,
                preview,
                smoothing,
                8,
            )
        }),
{
    reveal(SlotModel::refresh_cues);
    reveal(SlotModel::refreshed);
    let cues = slot.refresh_cues(settings, track, preview, smoothing);
    if settings.kind().voiced() {
        assert(cues.skip(1) =~= pool_refresh_cues(
            slot.voicing,
            settings,
            track,
            preview,
            smoothing,
            8,
        ));
    }
}

/// Of a pool exactly those voices are announced that an edit reaches, each on
/// its place and under its own locks.
pub proof fn reached_voices_are_announced(
    pool: PoolModel,
    settings: AudioTrack,
    track: int,
    preview: bool,
    smoothing: u32,
    n: int,
)
    requires
        0 < n <= 8,
    ensures
        ({
            let before = pool_refresh_cues(pool, settings, track, preview, smoothing, n - 1);
            let after = pool_refresh_cues(pool, settings, track, preview, smoothing, n);
            let held = pool.active && 4 * pool.group <= n - 1 < 4 * pool.group + pool.voice_count;
            let reached = (settings.instrument is Chord && held) || (settings.instrument is Fm
                && !pool.voices[n - 1].idle());
            &&& reached ==> after == before.push(
                Cue::Settings {
                    track: track as u8,
                    preview,
                    place: (n - 1) as u8,
                    voice: pool.voices[n - 1].configured(settings, pool.voices[n - 1].locks),
                    smoothing,
                },
            )
            &&& !reached ==> after == before
            &&& pool_refresh_cues(pool, settings, track, preview, smoothing, 0).len() == 0
        }),
{
}

/// An audition is announced by its effects, and then as a step would be: a drum
/// by its hit and its mixer, which it reaches at once, and a note by its voices.
pub proof fn auditions_are_announced(
    slot: SlotModel,
    project: ProjectModel,
    pattern: int,
    track: int,
    step: int,
    smoothing: u32,
)
    requires
        0 <= track < 256,
    ensures
        ({
            let settings = project.tracks[track];
            let sequence = project.patterns[pattern][track];
            let under = locks_at_step(sequence, step);
            let cues = slot.audition_cues(project, pattern, track, step, smoothing);
            let (accent, recipe) = audition_hit(settings, sequence.steps[step]);
            &&& cues[0] == (Cue::Effects {
                track: track as u8,
                preview: true,
                effects: effects_under(settings.effects, under),
                smoothing,
            })
            &&& settings.kind().drum() ==> cues == seq![
                cues[0],
                Cue::RestartLfos { track: track as u8, preview: true },
                Cue::DrumHit {
                    track: track as u8,
                    preview: true,
                    hit: DrumHit {
                        controls: drum_controls_under(settings, recipe, under)->0,
                        accent,
                    },
                },
                Cue::DrumMix {
                    track: track as u8,
                    preview: true,
                    mix: mix_under(settings, under),
                    smoothing: 0,
                },
            ]
            &&& !settings.kind().drum() ==> match audition_note(settings, sequence, step) {
                Some((note, locks)) => cues.skip(1) == slot.started(
                    project,
                    track,
                    note,
                    locks,
                ).start_cues(settings, track, true),
                None => cues.len() == 1,
            }
        }),
{
    reveal(SlotModel::audition_cues);
    let settings = project.tracks[track];
    let cues = slot.audition_cues(project, pattern, track, step, smoothing);
    if !settings.kind().drum() {
        if let Some((note, locks)) = audition_note(
            settings,
            project.patterns[pattern][track],
            step,
        ) {
            assert(cues.skip(1) =~= slot.started(project, track, note, locks).start_cues(
                settings,
                track,
                true,
            ));
        }
    }
}

/// A tone that an arpeggio starts is announced on the first voice of its group.
pub proof fn arpeggio_tones_are_announced(
    slot: SlotModel,
    project: ProjectModel,
    track: int,
    preview: bool,
)
    requires
        slot.arpeggio_cues(project, track, preview, true).len() > 0,
    ensures
        ({
            let next = slot.arpeggio_advanced(project, track, preview, true).voicing;
            let start = 4 * next.group;
            slot.arpeggio_cues(project, track, preview, true) == seq![
                Cue::Note {
                    track: track as u8,
                    preview,
                    place: start as u8,
                    voice: next.voices[start],
                },
            ]
        }),
{
    reveal(SlotModel::arpeggio_cues);
}

/// The kick keys the sidechain, the bass, the chords, the lead and the FM voice
/// duck under it, and everything else and every audition stays free of it.
pub proof fn kicks_duck_the_voices(kind: TrackKind)
    ensures
        ducking_of(kind, true) == DuckingRole::Free,
        ducking_of(kind, false) == DuckingRole::Key <==> kind == TrackKind::Kick,
        ducking_of(kind, false) == DuckingRole::Ducked <==> kind == TrackKind::Bass || kind
            == TrackKind::Chord || kind == TrackKind::Lead || kind == TrackKind::Fm,
{
}

/// Settings are smoothed over five milliseconds and faders over thirty, to the
/// nearest sample and over one sample at least.
pub proof fn faders_move_slower(sample_rate: int)
    requires
        0 <= sample_rate,
    ensures
        ({
            let default = ParameterSmoothing::Default.length(sample_rate);
            let fader = ParameterSmoothing::Fader.length(sample_rate);
            &&& 1 <= default <= fader
            &&& default > 1 ==> 2 * (1000 * default - 5 * sample_rate) <= 1000 && 2 * (5
                * sample_rate - 1000 * default) < 1000
            &&& default == 1 ==> 5 * sample_rate < 1500
            &&& fader > 1 ==> 2 * (1000 * fader - 30 * sample_rate) <= 1000 && 2 * (30 * sample_rate
                - 1000 * fader) < 1000
            &&& fader == 1 ==> 30 * sample_rate < 1500
        }),
{
}

/// A chain of effects is audible when any of its effects is: a chorus that is
/// on, or an effect that is mixed in at all.
pub proof fn chains_are_audible_through_any_effect(effects: TrackEffects)
    ensures
        effects.chorus != ChorusMode::Off ==> effects_audible(effects),
        effects.distortion.mix@ > 0 ==> effects_audible(effects),
        effects.bit_crusher.mix@ > 0 ==> effects_audible(effects),
        effects.phaser.mix@ > 0 ==> effects_audible(effects),
        effects.flanger.mix@ > 0 ==> effects_audible(effects),
        effects.chorus == ChorusMode::Off && effects.distortion.mix@ <= 0
            && effects.bit_crusher.mix@ <= 0 && effects.phaser.mix@ <= 0 && effects.flanger.mix@
            <= 0 ==> !effects_audible(effects),
{
}

} // verus!
