//! Two alternating groups of voices that play the shapes of a track.
use super::arpeggio::{
    resting_arpeggio, stepping_keeps_the_order, ArpeggioModel, ArpeggioState,
};
use super::snapshot::{AudioProject, AudioTrack, ProjectModel};
use super::voice::{spread_of, voicing_pan_offset, SynthVoice};
use crate::model::event::{ArpeggioConfig, ChordShape, SynthTrigger};
use crate::model::instrument::Instrument;
use crate::model::parameter::{unlocked, ParameterLocks};
use crate::model::project::Globals;
use vstd::prelude::*;

verus! {

pub const CHORD_GROUP_SIZE: usize = 4;

pub const POOL_SIZE: usize = 8;

/// Octaves, in scale degrees, that the voices below `voice` have climbed.
pub open spec fn climbed(shape: ChordShape, voice: int) -> int
    decreases voice,
{
    if voice <= 0 {
        0
    } else {
        climbed(shape, voice - 1) + if shape.degrees()[voice] <= shape.degrees()[voice - 1] {
            7int
        } else {
            0
        }
    }
}

/// Degrees of the scale between the root and a voice of the shape, in close
/// position: every voice lies above the one before.
pub open spec fn stacked(shape: ChordShape, voice: int) -> int {
    shape.degrees()[voice] - 1 + climbed(shape, voice)
}

/// Pitch of a place counted in scale degrees from the tonic of an octave.
pub open spec fn scale_midi(globals: Globals, octave: int, place: int) -> int {
    12 * (octave + 1 + place / 7) + globals.key + globals.scale.semitones()[place % 7]
}

/// Pitch of one voice of a chord.
pub open spec fn chord_midi(
    globals: Globals,
    degree: int,
    octave: int,
    shape: ChordShape,
    voice: int,
) -> int {
    scale_midi(globals, octave, degree - 1 + stacked(shape, voice))
}

/// The pitches of a shape over a degree of the scale, and how many there are.
pub fn chord_midis(globals: &Globals, degree: u8, octave: u8, shape: ChordShape) -> (r: (
    [i32; 4],
    usize,
))
    requires
        globals.wf(),
        1 <= degree <= 8,
    ensures
        r.1 == shape.degrees().len(),
        forall|v: int|
            0 <= v < r.1 ==> #[trigger] r.0@[v] == chord_midi(
                *globals,
                degree as int,
                octave as int,
                shape,
                v,
            ),
{
    let root: usize = degree as usize - 1;
    let count: usize = shape.voices();
    let mut midis: [i32; 4] = [0; 4];
    let mut previous: u8 = 0;
    let mut wraps: usize = 0;
    let mut voice: usize = 0;
    while voice < count
        invariant
            globals.wf(),
            1 <= degree <= 8,
            root == degree - 1,
            count == shape.degrees().len(),
            1 <= count <= 4,
            voice <= count,
            voice > 0 ==> previous == shape.degrees()[voice - 1],
            voice > 0 ==> wraps == climbed(shape, voice - 1),
            voice == 0 ==> wraps == 0,
            wraps <= 7 * voice,
            forall|v: int|
                0 <= v < voice ==> #[trigger] midis@[v] == chord_midi(
                    *globals,
                    degree as int,
                    octave as int,
                    shape,
                    v,
                ),
        decreases count - voice,
    {
        let chord_degree: u8 = shape.degree(voice);
        if voice > 0 && chord_degree <= previous {
            wraps = wraps + 7;
        }
        previous = chord_degree;
        let place: usize = root + (chord_degree as usize - 1) + wraps;
        assert(wraps == climbed(shape, voice as int));
        midis[voice] = 12 * (octave as i32 + 1 + (place / 7) as i32) + globals.key as i32
            + globals.scale.offset(place % 7);
        voice = voice + 1;
    }
    (midis, count)
}

proof fn scale_climbs(globals: Globals, octave: int, low: int, high: int)
    requires
        0 <= low < high,
    ensures
        scale_midi(globals, octave, low) < scale_midi(globals, octave, high),
{
    let semitones = globals.scale.semitones();
    if low / 7 == high / 7 {
        crate::model::instrument::scales_ascend(globals.scale, low % 7, high % 7);
    } else {
        assert(low / 7 < high / 7);
        crate::model::instrument::scales_ascend(globals.scale, low % 7, 7);
        if high % 7 > 0 {
            crate::model::instrument::scales_ascend(globals.scale, 0, high % 7);
        }
    }
}

/// A shape sounds in close position: its pitches ascend.
pub proof fn shapes_ascend(globals: Globals, degree: int, octave: int, shape: ChordShape, voice: int)
    requires
        1 <= degree <= 8,
        0 <= voice,
        voice + 1 < shape.degrees().len(),
    ensures
        chord_midi(globals, degree, octave, shape, voice) < chord_midi(
            globals,
            degree,
            octave,
            shape,
            voice + 1,
        ),
{
    reveal_with_fuel(climbed, 5);
    scale_climbs(
        globals,
        octave,
        degree - 1 + stacked(shape, voice),
        degree - 1 + stacked(shape, voice + 1),
    );
}

pub struct ChordVoicePool {
    pub voices: Vec<SynthVoice>,
    pub group: usize,
    pub voice_count: usize,
    pub group_voice_counts: [usize; 2],
    pub active: bool,
    pub arpeggiated: bool,
    pub arpeggio: ArpeggioState,
    pub arpeggio_trigger: SynthTrigger,
    pub arpeggio_locks: ParameterLocks,
    pub preview_remaining: u64,
}

#[verifier::ext_equal]
pub struct PoolModel {
    pub voices: Seq<SynthVoice>,
    pub group: int,
    pub voice_count: int,
    pub counts: Seq<usize>,
    pub active: bool,
    pub arpeggiated: bool,
    pub arpeggio: ArpeggioModel,
    pub trigger: SynthTrigger,
    pub locks: ParameterLocks,
    pub preview_remaining: int,
}

impl View for ChordVoicePool {
    type V = PoolModel;

    open spec fn view(&self) -> PoolModel {
        PoolModel {
            voices: self.voices@,
            group: self.group as int,
            voice_count: self.voice_count as int,
            counts: self.group_voice_counts@,
            active: self.active,
            arpeggiated: self.arpeggiated,
            arpeggio: self.arpeggio@,
            trigger: self.arpeggio_trigger,
            locks: self.arpeggio_locks,
            preview_remaining: self.preview_remaining as int,
        }
    }
}

/// The shape that a trigger plays on an instrument.
pub open spec fn shape_for(instrument: Instrument, trigger: SynthTrigger) -> ChordShape {
    match trigger.chord_shape {
        Some(shape) => shape,
        None => if instrument is Chord {
            ChordShape::TriadRoot
        } else {
            ChordShape::Single
        },
    }
}

/// Voices with a note ended on each place of a range.
pub open spec fn ended_between(voices: Seq<SynthVoice>, low: int, high: int) -> Seq<SynthVoice> {
    Seq::new(
        voices.len(),
        |i: int|
            if low <= i < high {
                voices[i].note_ended()
            } else {
                voices[i]
            },
    )
}

pub open spec fn silenced_between(voices: Seq<SynthVoice>, low: int, high: int) -> Seq<SynthVoice> {
    Seq::new(
        voices.len(),
        |i: int|
            if low <= i < high {
                voices[i].silenced()
            } else {
                voices[i]
            },
    )
}

pub open spec fn configured_between(
    voices: Seq<SynthVoice>,
    low: int,
    high: int,
    track: AudioTrack,
    locks: ParameterLocks,
) -> Seq<SynthVoice> {
    Seq::new(
        voices.len(),
        |i: int|
            if low <= i < high {
                voices[i].configured(track, locks)
            } else {
                voices[i]
            },
    )
}

/// A voice that takes its place in a shape and starts its tone.
#[verifier::opaque]
pub open spec fn tone_started(
    voice: SynthVoice,
    project: ProjectModel,
    track: int,
    trigger: SynthTrigger,
    shape: ChordShape,
    tone: int,
    locks: ParameterLocks,
) -> SynthVoice {
    SynthVoice {
        spread: spread_of(shape.degrees().len() as int, tone),
        ..voice
    }.note_started(
        project.tracks[track],
        chord_midi(
            project.globals,
            trigger.degree as int,
            trigger.octave as int,
            shape,
            tone,
        ) as i32,
        trigger,
        locks,
    )
}

proof fn tones_keep_the_amplifier_closed(
    voice: SynthVoice,
    project: ProjectModel,
    track: int,
    trigger: SynthTrigger,
    shape: ChordShape,
    tone: int,
    locks: ParameterLocks,
)
    requires
        voice.amplifier_closed(),
        project.tracks[track].kind().voiced(),
    ensures
        tone_started(voice, project, track, trigger, shape, tone, locks).amplifier_closed(),
        tone_started(voice, project, track, trigger, shape, tone, locks).active,
{
    reveal(tone_started);
}

/// The seed of the noise of a voice: no two voices of a pool sound alike.
pub open spec fn pool_seed(voice: int) -> u32 {
    0x91e1_0da5u32 ^ (voice as u32).wrapping_mul(0x9e37_79b9)
}

impl PoolModel {
    /// No count leaves the pool, and no voice plays as a bass: what is silenced
    /// here is idle.
    pub open spec fn wf(self) -> bool {
        &&& self.voices.len() == POOL_SIZE
        &&& 0 <= self.group <= 1
        &&& 0 <= self.voice_count <= CHORD_GROUP_SIZE
        &&& self.counts.len() == 2
        &&& self.counts[0] <= CHORD_GROUP_SIZE
        &&& self.counts[1] <= CHORD_GROUP_SIZE
        &&& self.arpeggio.wf()
        &&& self.arpeggio.enabled ==> self.arpeggio.order_len >= 1
        &&& self.arpeggiated && self.active ==> self.arpeggio.order_len >= 1
        &&& self.trigger.wf()
        &&& forall|i: int|
            0 <= i < self.voices.len() ==> (#[trigger] self.voices[i]).amplifier_closed()
    }

    /// A pool that has not sounded.
    pub open spec fn is_fresh(self) -> bool {
        &&& self.voices.len() == POOL_SIZE
        &&& forall|i: int|
            0 <= i < POOL_SIZE ==> (#[trigger] self.voices[i]).is_fresh(pool_seed(i))
        &&& self.group == 1
        &&& self.voice_count == 0
        &&& self.counts == seq![0usize, 0usize]
        &&& !self.active
        &&& !self.arpeggiated
        &&& self.arpeggio == resting_arpeggio()
        &&& self.trigger == (SynthTrigger {
            degree: 1,
            octave: 3,
            accent: false,
            slide: false,
            chord_shape: None,
            arpeggio: crate::model::event::no_arpeggio(),
        })
        &&& self.locks@ == unlocked()
        &&& self.preview_remaining == 0
    }

    /// First voice of the current group.
    pub open spec fn start(self) -> int {
        self.group * CHORD_GROUP_SIZE
    }

    /// Only voices of the current group hold a note, and only while the pool
    /// is active.
    pub open spec fn one_group_holds(self) -> bool {
        forall|i: int|
            0 <= i < self.voices.len() && (#[trigger] self.voices[i]).active ==> self.active
                && self.start() <= i < self.start() + self.voice_count
    }

    /// The pool after its notes ended.
    pub open spec fn released(self) -> PoolModel {
        PoolModel {
            voices: if self.active {
                ended_between(self.voices, self.start(), self.start() + self.voice_count)
            } else {
                self.voices
            },
            voice_count: if self.active {
                0
            } else {
                self.voice_count
            },
            active: false,
            arpeggiated: false,
            arpeggio: ArpeggioModel { enabled: false, ..self.arpeggio },
            preview_remaining: 0,
            ..self
        }
    }

    /// The first voice of the current group on the arpeggio's current tone.
    pub open spec fn arpeggio_toned(self, project: ProjectModel, track: int) -> PoolModel {
        let voice = SynthVoice { remaining: 0, ..self.voices[self.start()] };
        PoolModel {
            voices: self.voices.update(
                self.start(),
                tone_started(
                    voice,
                    project,
                    track,
                    self.trigger,
                    self.arpeggio.shape,
                    self.arpeggio.order[self.arpeggio.position as int] as int,
                    self.locks,
                ),
            ),
            ..self
        }
    }

    /// The pool after a chord started as an arpeggio: the other group plays
    /// it with its first voice, the rest of that group is silent.
    pub open spec fn arpeggio_started(
        self,
        project: ProjectModel,
        track: int,
        trigger: SynthTrigger,
        locks: ParameterLocks,
    ) -> PoolModel {
        let shape = shape_for(project.tracks[track].instrument, trigger);
        let rest = self.released();
        let group = 1 - self.group;
        let start = group * CHORD_GROUP_SIZE;
        let toned = PoolModel {
            voices: silenced_between(rest.voices, start + 1, start + CHORD_GROUP_SIZE),
            group,
            voice_count: 1,
            counts: self.counts.update(group, 1usize),
            arpeggiated: true,
            arpeggio: rest.arpeggio.restarted(
                shape,
                trigger.arpeggio.kind,
                trigger.arpeggio.rate,
            ),
            trigger: SynthTrigger { chord_shape: Some(shape), ..trigger },
            locks,
            ..rest
        }.arpeggio_toned(project, track);
        PoolModel { active: true, ..toned }
    }

    /// The pool after a chord started: the old group ends, the other group
    /// plays one voice per tone, and its remaining voices are silent.
    pub open spec fn chord_started(
        self,
        project: ProjectModel,
        track: int,
        trigger: SynthTrigger,
        locks: ParameterLocks,
    ) -> PoolModel {
        let shape = shape_for(project.tracks[track].instrument, trigger);
        let count = shape.degrees().len() as int;
        let group = 1 - self.group;
        let start = group * CHORD_GROUP_SIZE;
        let ended = if self.active {
            ended_between(self.voices, self.start(), self.start() + self.voice_count)
        } else {
            self.voices
        };
        PoolModel {
            voices: Seq::new(
                self.voices.len(),
                |i: int|
                    if start <= i < start + count {
                        tone_started(ended[i], project, track, trigger, shape, i - start, locks)
                    } else if start + count <= i < start + CHORD_GROUP_SIZE {
                        ended[i].silenced()
                    } else {
                        ended[i]
                    },
            ),
            group,
            voice_count: count,
            counts: self.counts.update(group, count as usize),
            active: true,
            arpeggiated: false,
            trigger: SynthTrigger { chord_shape: Some(shape), ..trigger },
            locks,
            ..self
        }
    }

    /// The pool after a trigger; an instrument without shapes leaves it alone.
    pub open spec fn triggered(
        self,
        project: ProjectModel,
        track: int,
        trigger: SynthTrigger,
        locks: ParameterLocks,
    ) -> PoolModel {
        if !project.tracks[track].kind().voiced() {
            self
        } else if trigger.arpeggio.enabled {
            self.arpeggio_started(project, track, trigger, locks)
        } else {
            self.chord_started(project, track, trigger, locks)
        }
    }

    /// The current group under a tie's locks.
    pub open spec fn tied(self, track: AudioTrack, locks: ParameterLocks) -> PoolModel {
        PoolModel {
            voices: configured_between(
                self.voices,
                self.start(),
                self.start() + self.voice_count,
                track,
                locks,
            ),
            ..self
        }
    }

    /// The pool with every voice of the current group timed, and an arpeggio
    /// limited to its phrase.
    pub open spec fn timed(self, remaining: u32, phrase: u64) -> PoolModel {
        PoolModel {
            voices: Seq::new(
                self.voices.len(),
                |i: int|
                    if self.start() <= i < self.start() + self.voice_count {
                        SynthVoice { remaining, ..self.voices[i] }
                    } else {
                        self.voices[i]
                    },
            ),
            preview_remaining: if self.arpeggiated {
                phrase as int
            } else {
                self.preview_remaining
            },
            ..self
        }
    }

    /// The pool under new settings of its track: each voice keeps its own
    /// locks. A chord follows while it is held, in its current group; operators
    /// follow as long as they are heard.
    pub open spec fn refreshed(self, track: AudioTrack) -> PoolModel {
        PoolModel {
            voices: Seq::new(
                self.voices.len(),
                |i: int|
                    if self.follows(track, i) {
                        self.voices[i].configured(track, self.voices[i].locks)
                    } else {
                        self.voices[i]
                    },
            ),
            ..self
        }
    }

    /// Whether a voice follows new settings of its track.
    pub open spec fn follows(self, track: AudioTrack, i: int) -> bool {
        match track.instrument {
            Instrument::Chord(_) => self.active && self.start() <= i < self.start()
                + self.voice_count,
            Instrument::Fm(_) => !self.voices[i].idle(),
            _ => false,
        }
    }

    /// Whether a voice of the pool is rendered.
    pub open spec fn rendered(self, i: int) -> bool {
        if i < CHORD_GROUP_SIZE {
            i < self.counts[0]
        } else {
            i < CHORD_GROUP_SIZE + self.counts[1]
        }
    }

    /// The pool one sample on: the timed notes of rendered voices count down.
    pub open spec fn gates_advanced(self) -> PoolModel {
        PoolModel {
            voices: Seq::new(
                self.voices.len(),
                |i: int|
                    if self.rendered(i) && !self.voices[i].idle() {
                        self.voices[i].gate_advanced()
                    } else {
                        self.voices[i]
                    },
            ),
            ..self
        }
    }

    /// Everything silent, nothing held, nothing counted.
    pub open spec fn reset(self) -> PoolModel {
        PoolModel {
            voices: Seq::new(self.voices.len(), |i: int| self.voices[i].gated_off().silenced()),
            active: false,
            arpeggiated: false,
            counts: seq![0usize, 0usize],
            arpeggio: resting_arpeggio(),
            preview_remaining: 0,
            ..self
        }
    }

    /// Every note ended and no longer timed, the arpeggio at rest. The voices
    /// fade out, and are rendered until they have.
    pub open spec fn faded(self) -> PoolModel {
        PoolModel {
            voices: Seq::new(
                self.voices.len(),
                |i: int| SynthVoice { remaining: 0, ..self.voices[i].note_ended() },
            ),
            active: false,
            arpeggio: resting_arpeggio(),
            ..self
        }
    }

    /// Whether the envelope of any voice runs.
    pub open spec fn heard(self) -> bool {
        exists|i: int|
            0 <= i < POOL_SIZE && (#[trigger] self.voices[i]).stage
                != crate::dsp::envelope::EnvStage::Idle
    }

    /// Whether a group has nothing left to render.
    pub open spec fn group_idle(self, group: int) -> bool {
        forall|i: int|
            group * CHORD_GROUP_SIZE <= i < group * CHORD_GROUP_SIZE + self.counts[group]
                ==> (#[trigger] self.voices[i]).idle()
    }
}

fn end_between(voices: &mut Vec<SynthVoice>, low: usize, high: usize)
    requires
        low <= high <= old(voices)@.len(),
    ensures
        final(voices)@ == ended_between(old(voices)@, low as int, high as int),
{
    let mut i: usize = low;
    while i < high
        invariant
            low <= i <= high <= voices@.len(),
            voices@.len() == old(voices)@.len(),
            forall|k: int|
                0 <= k < voices@.len() ==> #[trigger] voices@[k] == if low <= k < i {
                    old(voices)@[k].note_ended()
                } else {
                    old(voices)@[k]
                },
        decreases high - i,
    {
        let mut voice = voices[i];
        voice.end_note();
        voices[i] = voice;
        i = i + 1;
    }
    assert(voices@ =~= ended_between(old(voices)@, low as int, high as int));
}

fn silence_between(voices: &mut Vec<SynthVoice>, low: usize, high: usize)
    requires
        low <= high <= old(voices)@.len(),
    ensures
        final(voices)@ == silenced_between(old(voices)@, low as int, high as int),
{
    let mut i: usize = low;
    while i < high
        invariant
            low <= i <= high <= voices@.len(),
            voices@.len() == old(voices)@.len(),
            forall|k: int|
                0 <= k < voices@.len() ==> #[trigger] voices@[k] == if low <= k < i {
                    old(voices)@[k].silenced()
                } else {
                    old(voices)@[k]
                },
        decreases high - i,
    {
        let mut voice = voices[i];
        voice.reset_to_idle();
        voices[i] = voice;
        i = i + 1;
    }
    assert(voices@ =~= silenced_between(old(voices)@, low as int, high as int));
}

/// Starts the tones of a shape, one voice each, from `start` on.
fn start_tones(
    voices: &mut Vec<SynthVoice>,
    start: usize,
    project: &AudioProject,
    track: usize,
    shape: ChordShape,
    trigger: &SynthTrigger,
    locks: &ParameterLocks,
) -> (count: usize)
    requires
        old(voices)@.len() == POOL_SIZE,
        start + CHORD_GROUP_SIZE <= POOL_SIZE,
        project@.globals.wf(),
        track < project@.tracks.len(),
        project@.tracks[track as int].kind().voiced(),
        trigger.wf(),
    ensures
        count == shape.degrees().len(),
        count <= CHORD_GROUP_SIZE,
        final(voices)@.len() == POOL_SIZE,
        forall|i: int|
            0 <= i < POOL_SIZE ==> #[trigger] final(voices)@[i] == if start <= i < start + count {
                tone_started(
                    old(voices)@[i],
                    project@,
                    track as int,
                    *trigger,
                    shape,
                    i - start,
                    *locks,
                )
            } else {
                old(voices)@[i]
            },
        forall|i: int|
            0 <= i < POOL_SIZE && old(voices)@[i].amplifier_closed() ==> (
            #[trigger] final(voices)@[i]).amplifier_closed(),
{
    let (midis, count) = chord_midis(&project.globals, trigger.degree, trigger.octave, shape);
    let mut tone: usize = 0;
    while tone < count
        invariant
            tone <= count <= CHORD_GROUP_SIZE,
            count == shape.degrees().len(),
            start + CHORD_GROUP_SIZE <= POOL_SIZE,
            track < project@.tracks.len(),
            voices@.len() == POOL_SIZE,
            forall|v: int|
                0 <= v < count ==> #[trigger] midis@[v] == chord_midi(
                    project@.globals,
                    trigger.degree as int,
                    trigger.octave as int,
                    shape,
                    v,
                ),
            forall|i: int|
                0 <= i < POOL_SIZE ==> #[trigger] voices@[i] == if start <= i < start + tone {
                    tone_started(
                        old(voices)@[i],
                        project@,
                        track as int,
                        *trigger,
                        shape,
                        i - start,
                        *locks,
                    )
                } else {
                    old(voices)@[i]
                },
        decreases count - tone,
    {
        reveal(tone_started);
        let mut voice = voices[start + tone];
        voice.spread = voicing_pan_offset(count, tone);
        voice.start_note(&project.tracks[track], midis[tone], trigger, locks);
        voices[start + tone] = voice;
        tone = tone + 1;
    }
    assert forall|i: int| 0 <= i < POOL_SIZE && old(voices)@[i].amplifier_closed() implies (
    #[trigger] voices@[i]).amplifier_closed() by {
        if start <= i < start + count {
            tones_keep_the_amplifier_closed(
                old(voices)@[i],
                project@,
                track as int,
                *trigger,
                shape,
                i - start,
                *locks,
            );
        }
    }
    count
}

impl ChordVoicePool {
    pub fn new() -> (pool: ChordVoicePool)
        ensures
            pool@.wf(),
            pool@.is_fresh(),
            pool@.one_group_holds(),
    {
        let mut voices: Vec<SynthVoice> = Vec::with_capacity(POOL_SIZE);
        while voices.len() < POOL_SIZE
            invariant
                voices@.len() <= POOL_SIZE,
                forall|i: int|
                    0 <= i < voices@.len() ==> (#[trigger] voices@[i]).is_fresh(pool_seed(i)),
            decreases POOL_SIZE - voices@.len(),
        {
            let index: u32 = voices.len() as u32;
            voices.push(
                SynthVoice::new_with_seed(0x91e1_0da5u32 ^ index.wrapping_mul(0x9e37_79b9)),
            );
        }
        let pool = ChordVoicePool {
            voices,
            group: 1,
            voice_count: 0,
            group_voice_counts: [0, 0],
            active: false,
            arpeggiated: false,
            arpeggio: ArpeggioState::default(),
            arpeggio_trigger: SynthTrigger {
                degree: 1,
                octave: 3,
                accent: false,
                slide: false,
                chord_shape: None,
                arpeggio: ArpeggioConfig::default(),
            },
            arpeggio_locks: ParameterLocks::new(),
            preview_remaining: 0,
        };
        assert(pool@.counts =~= seq![0usize, 0usize]);
        pool
    }

    /// Ends the notes of the pool and stops its arpeggio.
    pub fn release_chord(&mut self)
        requires
            old(self)@.wf(),
        ensures
            final(self)@ == old(self)@.released(),
            final(self)@.wf(),
    {
        if self.active {
            let start: usize = self.group * CHORD_GROUP_SIZE;
            end_between(&mut self.voices, start, start + self.voice_count);
            self.active = false;
            self.voice_count = 0;
        }
        self.arpeggiated = false;
        self.arpeggio.enabled = false;
        self.preview_remaining = 0;
    }

    /// Starts a trigger on the other group of the pool.
    pub fn trigger_chord(
        &mut self,
        project: &AudioProject,
        track: usize,
        trigger: &SynthTrigger,
        locks: &ParameterLocks,
    )
        requires
            old(self)@.wf(),
            project@.globals.wf(),
            track < project@.tracks.len(),
            trigger.wf(),
        ensures
            final(self)@ == old(self)@.triggered(project@, track as int, *trigger, *locks),
            final(self)@.wf(),
    {
        let shape = match &project.tracks[track].instrument {
            Instrument::Chord(_) => match trigger.chord_shape {
                Some(shape) => shape,
                None => ChordShape::TriadRoot,
            },
            Instrument::Fm(_) => match trigger.chord_shape {
                Some(shape) => shape,
                None => ChordShape::Single,
            },
            _ => {
                return;
            },
        };
        self.arpeggio_trigger = SynthTrigger { chord_shape: Some(shape), ..*trigger };
        self.arpeggio_locks = *locks;
        if trigger.arpeggio.enabled {
            self.start_arpeggio(project, track, shape, trigger);
        } else {
            self.start_chord(project, track, shape, trigger, locks);
        }
    }

    fn start_arpeggio(
        &mut self,
        project: &AudioProject,
        track: usize,
        shape: ChordShape,
        trigger: &SynthTrigger,
    )
        requires
            old(self)@.wf(),
            project@.globals.wf(),
            track < project@.tracks.len(),
            project@.tracks[track as int].kind().voiced(),
            trigger.wf(),
            shape == shape_for(project@.tracks[track as int].instrument, *trigger),
            old(self)@.trigger == (SynthTrigger { chord_shape: Some(shape), ..*trigger }),
        ensures
            final(self)@ == old(self)@.arpeggio_started(
                project@,
                track as int,
                *trigger,
                old(self)@.locks,
            ),
            final(self)@.wf(),
    {
        self.release_chord();
        let ghost rest = self@;
        self.group = 1 - self.group;
        let group: usize = self.group;
        let start: usize = group * CHORD_GROUP_SIZE;
        silence_between(&mut self.voices, start + 1, start + CHORD_GROUP_SIZE);
        self.arpeggiated = true;
        self.arpeggio.reset(shape, trigger.arpeggio.kind, trigger.arpeggio.rate);
        self.voice_count = 1;
        self.group_voice_counts[group] = 1;
        self.trigger_arpeggio_tone(project, track);
        self.active = true;
    }

    /// Plays the arpeggio's current tone on the first voice of the group.
    pub fn trigger_arpeggio_tone(&mut self, project: &AudioProject, track: usize)
        requires
            old(self)@.wf(),
            old(self)@.arpeggio.order_len >= 1,
            project@.globals.wf(),
            track < project@.tracks.len(),
            project@.tracks[track as int].kind().voiced(),
        ensures
            final(self)@ == old(self)@.arpeggio_toned(project@, track as int),
            final(self)@.wf(),
    {
        reveal(tone_started);
        let tone: usize = self.arpeggio.current_voice();
        let (midis, count) = chord_midis(
            &project.globals,
            self.arpeggio_trigger.degree,
            self.arpeggio_trigger.octave,
            self.arpeggio.shape,
        );
        assert(tone < count) by {
            assert(self@.arpeggio.order[self@.arpeggio.position as int]
                < self@.arpeggio.shape.degrees().len());
        }
        let at: usize = self.group * CHORD_GROUP_SIZE;
        let mut voice = self.voices[at];
        voice.remaining = 0;
        voice.spread = voicing_pan_offset(count, tone);
        voice.start_note(
            &project.tracks[track],
            midis[tone],
            &self.arpeggio_trigger,
            &self.arpeggio_locks,
        );
        self.voices[at] = voice;
    }

    fn start_chord(
        &mut self,
        project: &AudioProject,
        track: usize,
        shape: ChordShape,
        trigger: &SynthTrigger,
        locks: &ParameterLocks,
    )
        requires
            old(self)@.wf(),
            project@.globals.wf(),
            track < project@.tracks.len(),
            project@.tracks[track as int].kind().voiced(),
            trigger.wf(),
            shape == shape_for(project@.tracks[track as int].instrument, *trigger),
            old(self)@.trigger == (SynthTrigger { chord_shape: Some(shape), ..*trigger }),
            old(self)@.locks == *locks,
        ensures
            final(self)@ == old(self)@.chord_started(project@, track as int, *trigger, *locks),
            final(self)@.wf(),
    {
        self.arpeggiated = false;
        if self.active {
            let first: usize = self.group * CHORD_GROUP_SIZE;
            end_between(&mut self.voices, first, first + self.voice_count);
        }
        let ghost ended = self.voices@;
        self.group = 1 - self.group;
        let group: usize = self.group;
        let start: usize = group * CHORD_GROUP_SIZE;
        let count: usize = start_tones(
            &mut self.voices,
            start,
            project,
            track,
            shape,
            trigger,
            locks,
        );
        let ghost toned = self.voices@;
        silence_between(&mut self.voices, start + count, start + CHORD_GROUP_SIZE);
        self.voice_count = count;
        self.group_voice_counts[group] = count;
        self.active = true;
        let ghost next = old(self)@.chord_started(project@, track as int, *trigger, *locks);
        assert(self.voices@ =~= next.voices);
        assert forall|i: int| 0 <= i < POOL_SIZE implies (
        #[trigger] self.voices@[i]).amplifier_closed() by {
            assert(old(self)@.voices[i].amplifier_closed());
            assert(ended[i].amplifier_closed());
            assert(toned[i].amplifier_closed());
        }
    }

    /// Puts the locks of a tie on the notes it holds.
    pub fn apply_voicing_tie(&mut self, track: &AudioTrack, locks: &ParameterLocks)
        requires
            old(self)@.wf(),
        ensures
            final(self)@ == old(self)@.tied(*track, *locks),
            final(self)@.wf(),
    {
        let start: usize = self.group * CHORD_GROUP_SIZE;
        let end: usize = start + self.voice_count;
        let mut i: usize = start;
        while i < end
            invariant
                start <= i <= end <= POOL_SIZE,
                self.voices@.len() == POOL_SIZE,
                old(self)@.voices.len() == POOL_SIZE,
                self@ == (PoolModel { voices: self.voices@, ..old(self)@ }),
                forall|k: int|
                    0 <= k < POOL_SIZE ==> #[trigger] self.voices@[k] == if start <= k < i {
                        old(self)@.voices[k].configured(*track, *locks)
                    } else {
                        old(self)@.voices[k]
                    },
            decreases end - i,
        {
            let mut voice = self.voices[i];
            voice.apply_synth_params_core(track, locks);
            self.voices[i] = voice;
            i = i + 1;
        }
        assert(self.voices@ =~= old(self)@.tied(*track, *locks).voices);
    }

    /// Times the notes of the current group.
    pub fn time_group(&mut self, remaining: u32, phrase: u64)
        requires
            old(self)@.wf(),
        ensures
            final(self)@ == old(self)@.timed(remaining, phrase),
            final(self)@.wf(),
    {
        let start: usize = self.group * CHORD_GROUP_SIZE;
        let end: usize = start + self.voice_count;
        let mut i: usize = start;
        while i < end
            invariant
                start <= i <= end <= POOL_SIZE,
                self.voices@.len() == POOL_SIZE,
                old(self)@.voices.len() == POOL_SIZE,
                self@ == (PoolModel { voices: self.voices@, ..old(self)@ }),
                forall|k: int|
                    0 <= k < POOL_SIZE ==> #[trigger] self.voices@[k] == if start <= k < i {
                        SynthVoice { remaining, ..old(self)@.voices[k] }
                    } else {
                        old(self)@.voices[k]
                    },
            decreases end - i,
        {
            let mut voice = self.voices[i];
            voice.remaining = remaining;
            self.voices[i] = voice;
            i = i + 1;
        }
        if self.arpeggiated {
            self.preview_remaining = phrase;
        }
        assert(self.voices@ =~= old(self)@.timed(remaining, phrase).voices);
    }

    /// Whether a voice follows new settings of its track.
    pub fn voice_follows(&self, track: &AudioTrack, i: usize) -> (r: bool)
        requires
            self@.wf(),
            i < POOL_SIZE,
        ensures
            r == self@.follows(*track, i as int),
    {
        match track.instrument {
            Instrument::Chord(_) => {
                let start: usize = self.group * CHORD_GROUP_SIZE;
                self.active && start <= i && i < start + self.voice_count
            },
            Instrument::Fm(_) => !self.voices[i].is_idle(),
            _ => false,
        }
    }

    /// Whether the envelope of any voice runs.
    pub fn is_heard(&self) -> (r: bool)
        requires
            self@.wf(),
        ensures
            r == self@.heard(),
    {
        let mut i: usize = 0;
        while i < POOL_SIZE
            invariant
                i <= POOL_SIZE,
                self@.wf(),
                forall|k: int|
                    0 <= k < i ==> (#[trigger] self@.voices[k]).stage
                        == crate::dsp::envelope::EnvStage::Idle,
            decreases POOL_SIZE - i,
        {
            if self.voices[i].stage != crate::dsp::envelope::EnvStage::Idle {
                assert(self@.voices[i as int].stage != crate::dsp::envelope::EnvStage::Idle);
                return true;
            }
            i = i + 1;
        }
        false
    }

    /// Counts one sample of the timed notes.
    pub fn advance_gates(&mut self)
        requires
            old(self)@.wf(),
        ensures
            final(self)@ == old(self)@.gates_advanced(),
            final(self)@.wf(),
    {
        let mut i: usize = 0;
        while i < POOL_SIZE
            invariant
                i <= POOL_SIZE,
                old(self)@.wf(),
                self.voices@.len() == POOL_SIZE,
                self@ == (PoolModel { voices: self.voices@, ..old(self)@ }),
                forall|k: int|
                    0 <= k < POOL_SIZE ==> #[trigger] self.voices@[k] == if k < i {
                        old(self)@.gates_advanced().voices[k]
                    } else {
                        old(self)@.voices[k]
                    },
            decreases POOL_SIZE - i,
        {
            let rendered: bool = if i < CHORD_GROUP_SIZE {
                i < self.group_voice_counts[0]
            } else {
                i < CHORD_GROUP_SIZE + self.group_voice_counts[1]
            };
            assert(rendered == old(self)@.rendered(i as int));
            if rendered && !self.voices[i].is_idle() {
                let mut voice = self.voices[i];
                voice.advance_voice_gate();
                self.voices[i] = voice;
            }
            i = i + 1;
        }
        assert(self.voices@ =~= old(self)@.gates_advanced().voices);
    }

    /// Brings the pool to rest at once.
    pub fn reset_runtime(&mut self)
        requires
            old(self)@.wf(),
        ensures
            final(self)@ == old(self)@.reset(),
            final(self)@.wf(),
    {
        let mut i: usize = 0;
        while i < POOL_SIZE
            invariant
                i <= POOL_SIZE,
                self.voices@.len() == POOL_SIZE,
                old(self)@.voices.len() == POOL_SIZE,
                self@ == (PoolModel { voices: self.voices@, ..old(self)@ }),
                forall|k: int|
                    0 <= k < POOL_SIZE ==> #[trigger] self.voices@[k] == if k < i {
                        old(self)@.voices[k].gated_off().silenced()
                    } else {
                        old(self)@.voices[k]
                    },
            decreases POOL_SIZE - i,
        {
            let mut voice = self.voices[i];
            voice.gate_off();
            voice.reset_to_idle();
            self.voices[i] = voice;
            i = i + 1;
        }
        self.active = false;
        self.arpeggiated = false;
        self.group_voice_counts = [0, 0];
        self.arpeggio = ArpeggioState::default();
        self.preview_remaining = 0;
        assert(self.voices@ =~= old(self)@.reset().voices);
        assert(self@.counts =~= seq![0usize, 0usize]);
    }

    /// Ends every note and lets the voices fade out.
    pub fn fade_out(&mut self)
        requires
            old(self)@.wf(),
        ensures
            final(self)@ == old(self)@.faded(),
            final(self)@.wf(),
    {
        let mut i: usize = 0;
        while i < POOL_SIZE
            invariant
                i <= POOL_SIZE,
                self.voices@.len() == POOL_SIZE,
                old(self)@.voices.len() == POOL_SIZE,
                self@ == (PoolModel { voices: self.voices@, ..old(self)@ }),
                forall|k: int|
                    0 <= k < POOL_SIZE ==> #[trigger] self.voices@[k] == if k < i {
                        old(self)@.faded().voices[k]
                    } else {
                        old(self)@.voices[k]
                    },
            decreases POOL_SIZE - i,
        {
            let mut voice = self.voices[i];
            voice.end_note();
            voice.remaining = 0;
            self.voices[i] = voice;
            i = i + 1;
        }
        self.active = false;
        self.arpeggio = ArpeggioState::default();
        assert(self.voices@ =~= old(self)@.faded().voices);
        assert forall|k: int| 0 <= k < POOL_SIZE implies (
        #[trigger] self.voices@[k]).amplifier_closed() by {
            assert(old(self)@.voices[k].amplifier_closed());
        }
    }

    /// Whether an arpeggio is running, so that its clock counts.
    pub fn arpeggio_runs(&self) -> (r: bool)
        ensures
            r == (self@.arpeggiated && self@.active),
    {
        self.arpeggiated && self.active
    }

    /// One sample of a live arpeggio; `due` says that its tone is over.
    pub fn advance_arpeggio(&mut self, project: &AudioProject, track: usize, due: bool) -> (started:
        bool)
        requires
            old(self)@.wf(),
            project@.globals.wf(),
            track < project@.tracks.len(),
            project@.tracks[track as int].kind().voiced(),
        ensures
            started == (old(self)@.arpeggiated && old(self)@.active && old(self)@.arpeggio.enabled
                && due),
            final(self)@ == if started {
                (PoolModel { arpeggio: old(self)@.arpeggio.stepped(), ..old(self)@ }).arpeggio_toned(
                    project@,
                    track as int,
                )
            } else {
                old(self)@
            },
            final(self)@.wf(),
    {
        if !(self.arpeggiated && self.active) {
            return false;
        }
        proof {
            stepping_keeps_the_order(self@.arpeggio);
        }
        if !self.arpeggio.tick(due) {
            return false;
        }
        self.trigger_arpeggio_tone(project, track);
        true
    }

    /// One sample of an auditioned arpeggio, which ends after its programmed
    /// length.
    pub fn advance_preview_arpeggio(
        &mut self,
        project: &AudioProject,
        track: usize,
        due: bool,
    ) -> (started: bool)
        requires
            old(self)@.wf(),
            project@.globals.wf(),
            track < project@.tracks.len(),
            project@.tracks[track as int].kind().voiced(),
        ensures
            final(self)@.wf(),
            !(old(self)@.arpeggiated && old(self)@.active) ==> !started && final(self)@
                == old(self)@,
            old(self)@.arpeggiated && old(self)@.active && old(self)@.preview_remaining <= 1
                ==> !started && final(self)@ == old(self)@.released(),
            old(self)@.arpeggiated && old(self)@.active && old(self)@.preview_remaining > 1 ==> {
                let counted = PoolModel {
                    preview_remaining: old(self)@.preview_remaining - 1,
                    ..old(self)@
                };
                &&& started == (old(self)@.arpeggio.enabled && due)
                &&& final(self)@ == if started {
                    (PoolModel { arpeggio: counted.arpeggio.stepped(), ..counted }).arpeggio_toned(
                        project@,
                        track as int,
                    )
                } else {
                    counted
                }
            },
    {
        if !(self.arpeggiated && self.active) {
            return false;
        }
        if self.preview_remaining > 0 {
            self.preview_remaining = self.preview_remaining - 1;
        }
        if self.preview_remaining == 0 {
            self.release_chord();
            return false;
        }
        self.advance_arpeggio(project, track, due)
    }

    fn group_is_idle(&self, group: usize) -> (r: bool)
        requires
            self@.wf(),
            group <= 1,
        ensures
            r == self@.group_idle(group as int),
    {
        let start: usize = group * CHORD_GROUP_SIZE;
        let end: usize = start + self.group_voice_counts[group];
        let mut i: usize = start;
        while i < end
            invariant
                group <= 1,
                start == group * CHORD_GROUP_SIZE,
                end == start + self@.counts[group as int],
                start <= i <= end <= POOL_SIZE,
                self.voices@.len() == POOL_SIZE,
                forall|k: int| start <= k < i ==> (#[trigger] self.voices@[k]).idle(),
            decreases end - i,
        {
            if !self.voices[i].is_idle() {
                assert(!self@.voices[i as int].idle());
                return false;
            }
            i = i + 1;
        }
        true
    }

    /// Stops rendering groups whose voices and effects have both fallen
    /// silent.
    pub fn retire_idle_groups(&mut self, first_busy: bool, second_busy: bool)
        requires
            old(self)@.wf(),
        ensures
            final(self)@.wf(),
            final(self)@ == (PoolModel {
                counts: seq![
                    if !first_busy && old(self)@.group_idle(0) {
                        0usize
                    } else {
                        old(self)@.counts[0]
                    },
                    if !second_busy && old(self)@.group_idle(1) {
                        0usize
                    } else {
                        old(self)@.counts[1]
                    },
                ],
                ..old(self)@
            }),
    {
        let first: bool = !first_busy && self.group_is_idle(0);
        let second: bool = !second_busy && self.group_is_idle(1);
        if first {
            self.group_voice_counts[0] = 0;
        }
        if second {
            self.group_voice_counts[1] = 0;
        }
        assert(self@.counts =~= seq![
            if first {
                0usize
            } else {
                old(self)@.counts[0]
            },
            if second {
                0usize
            } else {
                old(self)@.counts[1]
            },
        ]);
    }
}

/// A trigger moves to the other group, and the notes of the old one are over:
/// a chord never steals the voices of the one before it.
pub proof fn chords_alternate_groups(
    pool: PoolModel,
    project: ProjectModel,
    track: int,
    trigger: SynthTrigger,
    locks: ParameterLocks,
)
    requires
        pool.wf(),
        0 <= track < project.tracks.len(),
        project.tracks[track].kind().voiced(),
        pool.one_group_holds(),
    ensures
        pool.triggered(project, track, trigger, locks).group == 1 - pool.group,
        pool.triggered(project, track, trigger, locks).active,
        pool.triggered(project, track, trigger, locks).one_group_holds(),
        forall|i: int|
            pool.start() <= i < pool.start() + CHORD_GROUP_SIZE ==> (#[trigger] pool.triggered(
                project,
                track,
                trigger,
                locks,
            ).voices[i]).active == false,
{
    let next = pool.triggered(project, track, trigger, locks);
    assert(pool.start() == 0 || pool.start() == CHORD_GROUP_SIZE);
    assert forall|i: int| 0 <= i < next.voices.len() && (#[trigger] next.voices[i]).active implies
        next.active && next.start() <= i < next.start() + next.voice_count by {
        let _ = pool.voices[i];
    }
    assert forall|i: int| pool.start() <= i < pool.start() + CHORD_GROUP_SIZE implies (
    #[trigger] next.voices[i]).active == false by {
        let _ = pool.voices[i];
    }
}

/// A pool that was reset is silent: every voice is idle and holds nothing.
pub proof fn reset_pools_are_silent(pool: PoolModel)
    requires
        pool.wf(),
    ensures
        !pool.reset().heard(),
        forall|i: int|
            0 <= i < POOL_SIZE ==> (#[trigger] pool.reset().voices[i]).idle()
                && !pool.reset().voices[i].active,
{
    assert forall|i: int| 0 <= i < POOL_SIZE implies (#[trigger] pool.reset().voices[i]).idle()
        && !pool.reset().voices[i].active by {
        assert(pool.voices[i].amplifier_closed());
    }
}

/// A voice that a chord does not need is silent: it is idle and holds nothing.
pub proof fn spare_voices_are_silent(
    pool: PoolModel,
    project: ProjectModel,
    track: int,
    trigger: SynthTrigger,
    locks: ParameterLocks,
    i: int,
)
    requires
        pool.wf(),
        0 <= track < project.tracks.len(),
        project.tracks[track].kind().voiced(),
        ({
            let next = pool.triggered(project, track, trigger, locks);
            next.start() + next.voice_count <= i < next.start() + CHORD_GROUP_SIZE
        }),
    ensures
        pool.triggered(project, track, trigger, locks).voices[i].idle(),
        !pool.triggered(project, track, trigger, locks).voices[i].active,
{
    assert(pool.start() == 0 || pool.start() == CHORD_GROUP_SIZE);
    assert(pool.voices[i].amplifier_closed());
}

/// Releasing a pool leaves no note held.
pub proof fn release_ends_every_note(pool: PoolModel)
    requires
        pool.wf(),
        pool.one_group_holds(),
    ensures
        forall|i: int| 0 <= i < POOL_SIZE ==> !(#[trigger] pool.released().voices[i]).active,
        pool.released().one_group_holds(),
        !pool.released().active,
{
    assert forall|i: int| 0 <= i < POOL_SIZE implies !(#[trigger] pool.released().voices[i]).active by {
        let _ = pool.voices[i];
    }
}

} // verus!
