//! How shapes are voiced: the two groups, their tones, and how notes end.
use crate::audio::pool::{chord_midi, shape_for, tone_started, PoolModel};
use crate::audio::snapshot::{AudioTrack, ProjectModel};
use crate::audio::voice::{spread_of, Spread, SynthVoice, SynthVoiceKind};
use crate::dsp::envelope::EnvStage;
use crate::model::event::{ArpeggioType, ChordShape, SynthTrigger};
use crate::model::instrument::Instrument;
use crate::model::parameter::ParameterLocks;
use vstd::prelude::*;

verus! {

/// A note plays the shape that it names; without one a chord track plays the
/// triad on its root and any other track the single note.
pub proof fn notes_choose_their_shape(instrument: Instrument, trigger: SynthTrigger)
    ensures
        trigger.chord_shape matches Some(shape) ==> shape_for(instrument, trigger) == shape,
        trigger.chord_shape is None && instrument is Chord ==> shape_for(instrument, trigger)
            == ChordShape::TriadRoot,
        trigger.chord_shape is None && !(instrument is Chord) ==> shape_for(instrument, trigger)
            == ChordShape::Single,
{
}

proof fn tones_have_their_pitch(
    voice: SynthVoice,
    project: ProjectModel,
    track: int,
    trigger: SynthTrigger,
    shape: ChordShape,
    tone: int,
    locks: ParameterLocks,
)
    requires
        project.globals.wf(),
        trigger.wf(),
        0 <= tone < shape.degrees().len(),
        project.tracks[track].instrument is Chord || project.tracks[track].instrument is Fm,
    ensures
        ({
            let sounding = tone_started(voice, project, track, trigger, shape, tone, locks);
            &&& sounding.note.midi == chord_midi(
                project.globals,
                trigger.degree as int,
                trigger.octave as int,
                shape,
                tone,
            )
            &&& sounding.active
            &&& sounding.note.accent == trigger.accent
            &&& sounding.note.hard
            &&& sounding.locks == locks
            &&& sounding.spread == spread_of(shape.degrees().len() as int, tone)
            &&& sounding.stage == EnvStage::Attack
            &&& sounding.remaining == voice.remaining
            &&& sounding.controls == voice.configured(project.tracks[track], locks).controls
            &&& sounding.kind == if project.tracks[track].instrument is Chord {
                SynthVoiceKind::Chord
            } else {
                SynthVoiceKind::Fm
            }
        }),
{
    reveal(tone_started);
    reveal_with_fuel(crate::audio::pool::climbed, 5);
    let place = trigger.degree - 1 + crate::audio::pool::stacked(shape, tone);
    assert(0 <= place <= 7 + 13);
    crate::model::instrument::scales_ascend(project.globals.scale, 0, 7);
    if place % 7 > 0 {
        crate::model::instrument::scales_ascend(project.globals.scale, 0, place % 7);
        crate::model::instrument::scales_ascend(project.globals.scale, place % 7, 7);
    }
}

/// A shape sounds all its tones at once on the group that rests, each voice
/// its own tone, under the locks of the note, spread over the stereo field.
#[verifier::rlimit(40)]
pub proof fn shapes_sound_all_their_tones(
    pool: PoolModel,
    project: ProjectModel,
    track: int,
    trigger: SynthTrigger,
    locks: ParameterLocks,
    shape: ChordShape,
    voice: int,
)
    requires
        pool.wf(),
        project.globals.wf(),
        trigger.wf(),
        project.tracks[track].instrument is Chord || project.tracks[track].instrument is Fm,
        !trigger.arpeggio.enabled,
        trigger.chord_shape == Some(shape),
        0 <= voice < shape.degrees().len(),
    ensures
        ({
            let next = pool.triggered(project, track, trigger, locks);
            let sounding = next.voices[4 * (1 - pool.group) + voice];
            let n = shape.degrees().len() as int;
            &&& next.group == 1 - pool.group
            &&& next.voice_count == n
            &&& next.counts[next.group] == n
            &&& next.counts[pool.group] == pool.counts[pool.group]
            &&& next.active
            &&& !next.arpeggiated
            &&& next.locks == locks
            &&& next.trigger == trigger
            &&& sounding.note.midi == chord_midi(
                project.globals,
                trigger.degree as int,
                trigger.octave as int,
                shape,
                voice,
            )
            &&& sounding.note.accent == trigger.accent
            &&& sounding.active
            &&& sounding.stage == EnvStage::Attack
            &&& sounding.locks == locks
            &&& sounding.spread == spread_of(n, voice)
        }),
{
    let at = 4 * (1 - pool.group) + voice;
    assert(0 <= at < 8);
    let ended = if pool.active && pool.start() <= at < pool.start() + pool.voice_count {
        pool.voices[at].note_ended()
    } else {
        pool.voices[at]
    };
    assert(SynthTrigger { chord_shape: Some(shape), ..trigger } == trigger);
    assert(pool.triggered(project, track, trigger, locks).voices[at] == tone_started(
        ended,
        project,
        track,
        trigger,
        shape,
        voice,
        locks,
    ));
    tones_have_their_pitch(ended, project, track, trigger, shape, voice, locks);
}

/// An arpeggio sounds one tone at a time, on the first voice of the group that
/// rests: it starts with the lowest tone where it goes up first, and with the
/// highest where it goes down first.
pub proof fn arpeggios_start_with_one_tone(
    pool: PoolModel,
    project: ProjectModel,
    track: int,
    trigger: SynthTrigger,
    locks: ParameterLocks,
    shape: ChordShape,
)
    requires
        pool.wf(),
        project.globals.wf(),
        trigger.wf(),
        project.tracks[track].instrument is Chord || project.tracks[track].instrument is Fm,
        trigger.arpeggio.enabled,
        trigger.arpeggio.kind != ArpeggioType::Random,
        trigger.chord_shape == Some(shape),
    ensures
        ({
            let next = pool.triggered(project, track, trigger, locks);
            let sounding = next.voices[4 * (1 - pool.group)];
            let n = shape.degrees().len() as int;
            let upward = trigger.arpeggio.kind == ArpeggioType::Up || trigger.arpeggio.kind
                == ArpeggioType::UpDown;
            &&& next.group == 1 - pool.group
            &&& next.voice_count == 1
            &&& next.counts[next.group] == 1
            &&& next.active
            &&& next.arpeggiated
            &&& next.arpeggio.enabled
            &&& next.arpeggio.kind == trigger.arpeggio.kind
            &&& next.arpeggio.rate == trigger.arpeggio.rate
            &&& next.arpeggio.shape == shape
            &&& next.arpeggio.position == 0
            &&& next.locks == locks
            &&& next.trigger == trigger
            &&& next.preview_remaining == 0
            &&& sounding.note.midi == chord_midi(
                project.globals,
                trigger.degree as int,
                trigger.octave as int,
                shape,
                if upward {
                    0
                } else {
                    n - 1
                },
            )
            &&& sounding.active
            &&& sounding.remaining == 0
            &&& sounding.stage == EnvStage::Attack
            &&& sounding.locks == locks
        }),
{
    let rest = pool.released();
    let group = 1 - pool.group;
    let start = group * 4;
    let n = shape.degrees().len() as int;
    let upward = trigger.arpeggio.kind == ArpeggioType::Up || trigger.arpeggio.kind
        == ArpeggioType::UpDown;
    let first = if upward {
        0
    } else {
        n - 1
    };
    assert(SynthTrigger { chord_shape: Some(shape), ..trigger } == trigger);
    let started = rest.arpeggio.restarted(shape, trigger.arpeggio.kind, trigger.arpeggio.rate);
    assert(started.order[0] == first);
    let voice = SynthVoice { remaining: 0, ..rest.voices[start] };
    tones_have_their_pitch(voice, project, track, trigger, shape, first, locks);
    assert(pool.triggered(project, track, trigger, locks).voices[start] == tone_started(
        voice,
        project,
        track,
        trigger,
        shape,
        first,
        locks,
    ));
}

/// An arpeggio that goes on sounds the tone under its place, on the first voice
/// of its group, and leaves every other voice alone.
pub proof fn arpeggios_sound_the_tone_under_their_place(
    pool: PoolModel,
    project: ProjectModel,
    track: int,
    other: int,
)
    requires
        pool.wf(),
        pool.arpeggio.order_len >= 1,
        project.globals.wf(),
        project.tracks[track].instrument is Chord || project.tracks[track].instrument is Fm,
        0 <= other < 8,
        other != 4 * pool.group,
    ensures
        ({
            let next = pool.arpeggio_toned(project, track);
            let sounding = next.voices[4 * pool.group];
            let tone = pool.arpeggio.order[pool.arpeggio.position as int] as int;
            &&& sounding.note.midi == chord_midi(
                project.globals,
                pool.trigger.degree as int,
                pool.trigger.octave as int,
                pool.arpeggio.shape,
                tone,
            )
            &&& sounding.active
            &&& sounding.remaining == 0
            &&& sounding.stage == EnvStage::Attack
            &&& sounding.locks == pool.locks
            &&& sounding.spread == spread_of(pool.arpeggio.shape.degrees().len() as int, tone)
            &&& next.voices[other] == pool.voices[other]
            &&& next.group == pool.group
            &&& next.arpeggio == pool.arpeggio
            &&& next.active == pool.active
        }),
{
    tones_have_their_pitch(
        SynthVoice { remaining: 0, ..pool.voices[4 * pool.group] },
        project,
        track,
        pool.trigger,
        pool.arpeggio.shape,
        pool.arpeggio.order[pool.arpeggio.position as int] as int,
        pool.locks,
    );
}

/// A new shape lets the tones of the one before ring out: they are released
/// where they sound, and nothing else of their group changes.
pub proof fn old_shapes_ring_out(
    pool: PoolModel,
    project: ProjectModel,
    track: int,
    trigger: SynthTrigger,
    locks: ParameterLocks,
    voice: int,
)
    requires
        pool.wf(),
        project.tracks[track].instrument is Chord || project.tracks[track].instrument is Fm,
        0 <= voice < 4,
    ensures
        ({
            let before = pool.voices[4 * pool.group + voice];
            let after = pool.triggered(project, track, trigger, locks).voices[4 * pool.group
                + voice];
            &&& pool.active && voice < pool.voice_count ==> {
                &&& !after.active
                &&& after.note == before.note
                &&& after.controls == before.controls
                &&& before.kind != SynthVoiceKind::Bass && before.stage == EnvStage::Idle
                    ==> after.stage == EnvStage::Idle
                &&& before.kind != SynthVoiceKind::Bass && before.stage != EnvStage::Idle
                    ==> after.stage == EnvStage::Release
            }
            &&& !pool.active || voice >= pool.voice_count ==> after == before
        }),
{
}

/// Releasing a pool releases the voices that hold its note and ends its
/// arpeggio; voices that already ring out go on doing so.
pub proof fn released_pools_ring_out(pool: PoolModel, voice: int)
    requires
        pool.wf(),
        0 <= voice < 8,
    ensures
        ({
            let next = pool.released();
            let holds = pool.active && 4 * pool.group <= voice < 4 * pool.group
                + pool.voice_count;
            &&& holds ==> !next.voices[voice].active && next.voices[voice].note
                == pool.voices[voice].note && (pool.voices[voice].kind != SynthVoiceKind::Bass
                && pool.voices[voice].stage != EnvStage::Idle ==> next.voices[voice].stage
                == EnvStage::Release)
            &&& !holds ==> next.voices[voice] == pool.voices[voice]
            &&& !next.active
            &&& !next.arpeggiated
            &&& !next.arpeggio.enabled
            &&& next.preview_remaining == 0
            &&& pool.active ==> next.voice_count == 0
            &&& next.group == pool.group
            &&& next.counts == pool.counts
        }),
{
}

/// A tie gives its locks to the voices that hold the note, and starts none
/// anew.
pub proof fn ties_relock_what_sounds(
    pool: PoolModel,
    track: AudioTrack,
    locks: ParameterLocks,
    voice: int,
)
    requires
        pool.wf(),
        track.instrument is Chord || track.instrument is Fm,
        0 <= voice < 8,
    ensures
        ({
            let next = pool.tied(track, locks);
            let holds = 4 * pool.group <= voice < 4 * pool.group + pool.voice_count;
            &&& holds ==> {
                &&& next.voices[voice].locks == locks
                &&& next.voices[voice].controls == pool.voices[voice].configured(
                    track,
                    locks,
                ).controls
                &&& next.voices[voice].stage == pool.voices[voice].stage
                &&& next.voices[voice].note == pool.voices[voice].note
                &&& next.voices[voice].active == pool.voices[voice].active
            }
            &&& !holds ==> next.voices[voice] == pool.voices[voice]
            &&& next.group == pool.group
            &&& next.active == pool.active
            &&& next.arpeggio == pool.arpeggio
        }),
{
}

/// An edit reaches the voices of a chord that is held, and every FM voice that
/// is heard; each keeps its own locks.
pub proof fn edits_reach_what_sounds(pool: PoolModel, track: AudioTrack, voice: int)
    requires
        pool.wf(),
        0 <= voice < 8,
    ensures
        ({
            let next = pool.refreshed(track);
            let reached = next.voices[voice] == pool.voices[voice].configured(
                track,
                pool.voices[voice].locks,
            );
            let kept = next.voices[voice] == pool.voices[voice];
            let holds = pool.active && 4 * pool.group <= voice < 4 * pool.group
                + pool.voice_count;
            &&& track.instrument is Chord && holds ==> reached
            &&& track.instrument is Chord && !holds ==> kept
            &&& track.instrument is Fm && !pool.voices[voice].idle() ==> reached
            &&& track.instrument is Fm && pool.voices[voice].idle() ==> kept
            &&& !(track.instrument is Chord) && !(track.instrument is Fm) ==> kept
        }),
{
}

/// An auditioned shape holds its voices for a beat; an auditioned arpeggio
/// lasts for its phrase besides.
pub proof fn auditions_time_what_they_hold(
    pool: PoolModel,
    remaining: u32,
    phrase: u64,
    voice: int,
)
    requires
        pool.wf(),
        0 <= voice < 8,
    ensures
        ({
            let next = pool.timed(remaining, phrase);
            let holds = 4 * pool.group <= voice < 4 * pool.group + pool.voice_count;
            &&& holds ==> next.voices[voice] == (SynthVoice { remaining, ..pool.voices[voice] })
            &&& !holds ==> next.voices[voice] == pool.voices[voice]
            &&& pool.arpeggiated ==> next.preview_remaining == phrase
            &&& !pool.arpeggiated ==> next.preview_remaining == pool.preview_remaining
        }),
{
}

/// The gates of a pool count down on the voices that are in use and heard, and
/// on no others.
pub proof fn gates_count_down_where_heard(pool: PoolModel, voice: int)
    requires
        pool.wf(),
        0 <= voice < 8,
    ensures
        ({
            let next = pool.gates_advanced().voices[voice];
            let used = if voice < 4 {
                voice < pool.counts[0]
            } else {
                voice - 4 < pool.counts[1]
            };
            &&& used && !pool.voices[voice].idle() ==> next == pool.voices[voice].gate_advanced()
            &&& !used || pool.voices[voice].idle() ==> next == pool.voices[voice]
        }),
{
}

/// A reset silences every voice at once and empties both groups.
pub proof fn resets_silence_everything(pool: PoolModel, voice: int)
    requires
        pool.wf(),
        0 <= voice < 8,
    ensures
        ({
            let next = pool.reset();
            &&& next.voices[voice].stage == EnvStage::Idle
            &&& !next.voices[voice].active
            &&& next.voices[voice].remaining == 0
            &&& next.voices[voice].spread == Spread::Center
            &&& !next.active
            &&& !next.arpeggiated
            &&& !next.arpeggio.enabled
            &&& next.arpeggio.order_len == 0
            &&& next.counts[0] == 0
            &&& next.counts[1] == 0
            &&& next.preview_remaining == 0
        }),
{
}

/// A pool that fades lets every voice ring out: none is cut, none is held, and
/// both groups stay in use.
pub proof fn fades_cut_nothing(pool: PoolModel, voice: int)
    requires
        pool.wf(),
        0 <= voice < 8,
    ensures
        ({
            let next = pool.faded();
            &&& !next.voices[voice].active
            &&& next.voices[voice].remaining == 0
            &&& pool.voices[voice].kind != SynthVoiceKind::Bass && pool.voices[voice].stage
                != EnvStage::Idle ==> next.voices[voice].stage == EnvStage::Release
            &&& pool.voices[voice].kind != SynthVoiceKind::Bass && pool.voices[voice].stage
                == EnvStage::Idle ==> next.voices[voice].stage == EnvStage::Idle
            &&& next.voices[voice].spread == pool.voices[voice].spread
            &&& next.counts == pool.counts
            &&& !next.active
            &&& !next.arpeggio.enabled
        }),
{
}

/// A gate that is set runs for its samples and then ends the note; one that is
/// not set holds it for good.
pub proof fn gates_end_their_note(voice: SynthVoice)
    ensures
        ({
            let next = voice.gate_advanced();
            &&& voice.remaining == 0 ==> next == voice
            &&& voice.remaining > 1 ==> next == (SynthVoice {
                remaining: (voice.remaining - 1) as u32,
                ..voice
            })
            &&& voice.remaining == 1 ==> {
                &&& next.remaining == 0
                &&& !next.active
                &&& voice.kind == SynthVoiceKind::Bass ==> !next.vca_gate && next.stage
                    == voice.stage
                &&& voice.kind != SynthVoiceKind::Bass && voice.stage != EnvStage::Idle
                    ==> next.stage == EnvStage::Release
                &&& voice.kind != SynthVoiceKind::Bass && voice.stage == EnvStage::Idle
                    ==> next.stage == EnvStage::Idle
            }
        }),
{
}

/// Letting go of a note shuts the amplifier of a bass and releases the envelope
/// of every other voice; the note and its settings stay while it rings out.
pub proof fn notes_ring_out_when_let_go(voice: SynthVoice)
    ensures
        ({
            let next = voice.note_ended();
            &&& !next.active
            &&& voice.kind == SynthVoiceKind::Bass ==> !next.vca_gate && next.stage == voice.stage
            &&& voice.kind != SynthVoiceKind::Bass ==> next.vca_gate == voice.vca_gate
            &&& voice.kind != SynthVoiceKind::Bass && voice.stage != EnvStage::Idle ==> next.stage
                == EnvStage::Release
            &&& next.note == voice.note
            &&& next.controls == voice.controls
            &&& next.locks == voice.locks
            &&& next.vca_audible == voice.vca_audible
            &&& next.remaining == voice.remaining
        }),
{
}

/// A bass is silent when its amplifier is neither open nor heard, and any other
/// voice when its envelope is idle.
pub proof fn idle_voices_are_silent(voice: SynthVoice)
    ensures
        voice.kind == SynthVoiceKind::Bass ==> (voice.idle() <==> !voice.vca_gate
            && !voice.vca_audible),
        voice.kind != SynthVoiceKind::Bass ==> (voice.idle() <==> voice.stage == EnvStage::Idle),
{
}

/// A voice stands where the pan of its track puts it, and those of a shape lean
/// from there to their sides, as far as the stereo field reaches.
pub proof fn voices_stand_by_their_pan(voice: SynthVoice)
    requires
        0 <= voice.controls.mix.pan@ <= 100,
    ensures
        ({
            let centre = voice.controls.mix.pan@ * 10_000;
            let leaned = centre + voice.spread.shift();
            let shaped = voice.kind == SynthVoiceKind::Chord || voice.kind == SynthVoiceKind::Fm;
            &&& 0 <= voice.stereo_position() <= 1_000_000
            &&& !shaped ==> voice.stereo_position() == centre
            &&& shaped && 0 <= leaned <= 1_000_000 ==> voice.stereo_position() == leaned
            &&& shaped && leaned < 0 ==> voice.stereo_position() == 0
            &&& shaped && leaned > 1_000_000 ==> voice.stereo_position() == 1_000_000
        }),
{
}

/// A pool is heard while any of its voices is, and a group rests when all the
/// voices it uses do.
pub proof fn pools_are_heard_through_their_voices(pool: PoolModel, group: int, voice: int)
    requires
        pool.wf(),
        0 <= group <= 1,
        0 <= voice < 4,
    ensures
        pool.voices[4 * group + voice].stage != EnvStage::Idle ==> pool.heard(),
        voice < pool.counts[group] && pool.group_idle(group) ==> pool.voices[4 * group
            + voice].idle(),
        (forall|i: int| 0 <= i < 8 ==> (#[trigger] pool.voices[i]).stage == EnvStage::Idle)
            ==> !pool.heard(),
        (forall|i: int|
            4 * group <= i < 4 * group + pool.counts[group] ==> (#[trigger] pool.voices[i]).idle())
            ==> pool.group_idle(group),
{
    assert(pool.voices[4 * group + voice].idle() || !pool.voices[4 * group + voice].idle());
}

} // verus!
