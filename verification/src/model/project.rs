//! The project as the user edits it.
use super::event::{ArpeggioConfig, ChordShape, StepEvent};
use super::instrument::{
    BassParameters, BitCrusherParameters, ChordParameters, ChorusMode, DelayDivision,
    DistortionParameters, FlangerParameters, FmAlgorithm, FmOperator, FmParameters, FmRatio,
    HatParameters, HatRecipe, Instrument, KickParameters, LeadParameters, LeadSubMode,
    LfoAssignments, LfoConfig, PhaserParameters, Scale, SidechainParameters, SnareParameters, TomParameters,
    TonedDrum, TrackEffects, TrackKind, Waveform,
};
use super::parameter::PARAMETER_COUNT;
use super::percent::Percent;
use vstd::prelude::*;

verus! {

pub const TRACK_COUNT: usize = 10;

pub const MAX_STEP_COUNT: usize = 64;

pub const DEFAULT_STEP_COUNT: usize = 16;

pub const MAX_PATTERN_COUNT: usize = 100;

pub const MAX_SONG_LENGTH: usize = 256;

pub const DRUM_TRACK_COUNT: usize = 6;

pub const RIMSHOT_TRACK_INDEX: usize = 5;

/// The bass, first of the pitched tracks.
pub const SYNTH_TRACK_START: usize = 6;

pub const CHORD_TRACK_INDEX: usize = 7;

pub const LEAD_TRACK_INDEX: usize = 8;

pub const FM_TRACK_INDEX: usize = 9;

/// Settings that all tracks share.
#[derive(Clone, Copy, Debug, PartialEq, Eq, Structural)]
pub struct Globals {
    pub tempo_bpm: u16,
    /// Semitones of the tonic above C.
    pub key: u8,
    pub scale: Scale,
    pub delay_division: DelayDivision,
    pub delay_feedback: Percent,
    pub reverb_time_ms: u32,
    pub reverb_tone: Percent,
    pub reverb_pre_delay_ms: u16,
    pub reverb_return: Percent,
    pub sidechain: SidechainParameters,
}

impl Globals {
    pub open spec fn wf(self) -> bool {
        self.tempo_bpm >= 1 && self.key < 12
    }
}

#[derive(Clone, Copy, Debug, PartialEq, Eq)]
pub struct Track {
    pub level: Percent,
    pub pan: Percent,
    pub muted: bool,
    pub delay_send: Percent,
    pub reverb_send: Percent,
    pub swing: Percent,
    pub probability: Percent,
    pub instrument: Instrument,
    pub effects: TrackEffects,
    pub lfos: LfoAssignments,
    pub input_degree: Option<u8>,
    pub input_octave: Option<u8>,
    pub input_accent: bool,
    pub input_chord_shape: Option<ChordShape>,
    pub input_chord_arpeggio: Option<ArpeggioConfig>,
}

impl Track {
    pub open spec fn wf(self) -> bool {
        self.input_degree matches Some(d) ==> 1 <= d <= 8
    }
}

/// One loop of steps.
#[derive(Clone, Debug, PartialEq, Eq)]
pub struct Sequence {
    pub steps: Vec<Option<StepEvent>>,
}

impl Sequence {
    pub open spec fn wf(self) -> bool {
        &&& 1 <= self.steps@.len() <= MAX_STEP_COUNT
        &&& forall|s: int| 0 <= s < self.steps@.len() ==> step_wf(#[trigger] self.steps@[s])
    }
}

pub open spec fn step_wf(step: Option<StepEvent>) -> bool {
    step matches Some(event) ==> event.wf()
}

/// A sequence for every track.
#[derive(Clone, Debug, PartialEq, Eq)]
pub struct Pattern {
    pub tracks: Vec<Sequence>,
}

impl Pattern {
    pub open spec fn wf(self) -> bool {
        &&& self.tracks@.len() == TRACK_COUNT
        &&& forall|t: int| 0 <= t < TRACK_COUNT ==> (#[trigger] self.tracks@[t]).wf()
    }
}

/// One entry of the song: a pattern, counted from one, and how many bars of it.
/// Without a bar it plays for one all the same.
#[derive(Clone, Copy, Debug, PartialEq, Eq, Structural)]
pub struct SongEntry {
    pub pattern: u8,
    pub bars: u8,
}

impl SongEntry {
    pub open spec fn wf(self, patterns: nat) -> bool {
        1 <= self.pattern <= patterns
    }
}

#[derive(Clone, Debug, PartialEq, Eq)]
pub struct Project {
    pub globals: Globals,
    pub tracks: Vec<Track>,
    pub patterns: Vec<Pattern>,
    pub song: Vec<SongEntry>,
}

impl Project {
    /// A project that the sequencer can play.
    pub open spec fn wf(self) -> bool {
        &&& self.globals.wf()
        &&& self.tracks@.len() == TRACK_COUNT
        &&& forall|t: int| 0 <= t < TRACK_COUNT ==> (#[trigger] self.tracks@[t]).wf()
        &&& 1 <= self.patterns@.len() <= MAX_PATTERN_COUNT
        &&& forall|p: int| 0 <= p < self.patterns@.len() ==> (#[trigger] self.patterns@[p]).wf()
        &&& 1 <= self.song@.len() <= MAX_SONG_LENGTH
        &&& forall|e: int|
            0 <= e < self.song@.len() ==> (#[trigger] self.song@[e]).wf(self.patterns@.len())
    }
}

/// The kind of instrument that a new project puts on each track.
pub open spec fn default_kind(track: int) -> TrackKind {
    if track == 0 {
        TrackKind::Kick
    } else if track == 1 {
        TrackKind::Snare
    } else if track == 2 {
        TrackKind::Hat
    } else if track == 3 {
        TrackKind::Tom
    } else if track == 4 {
        TrackKind::Cymbal
    } else if track == 5 {
        TrackKind::Rimshot
    } else if track == 6 {
        TrackKind::Bass
    } else if track == 7 {
        TrackKind::Chord
    } else if track == 8 {
        TrackKind::Lead
    } else {
        TrackKind::Fm
    }
}

pub open spec fn toned_to(drum: TonedDrum, tune: int, tone: int, decay: int) -> bool {
    drum.tune@ == tune && drum.tone@ == tone && drum.decay@ == decay
}

fn toned(tune: u8, tone: u8, decay: u8) -> (drum: TonedDrum)
    requires
        tune <= 100,
        tone <= 100,
        decay <= 100,
    ensures
        toned_to(drum, tune as int, tone as int, decay as int),
{
    TonedDrum {
        tune: Percent::exactly(tune),
        tone: Percent::exactly(tone),
        decay: Percent::exactly(decay),
    }
}

pub open spec fn operator_set(
    operator: FmOperator,
    ratio: FmRatio,
    level: int,
    feedback: int,
) -> bool {
    operator.ratio == ratio && operator.level@ == level && operator.feedback@ == feedback
}

fn fm_operator(ratio: FmRatio, level: u8, feedback: u8) -> (operator: FmOperator)
    requires
        level <= 100,
        feedback <= 100,
    ensures
        operator_set(operator, ratio, level as int, feedback as int),
{
    FmOperator { ratio, level: Percent::exactly(level), feedback: Percent::exactly(feedback) }
}

/// The settings that the instruments of a new project have.
pub open spec fn first_settings(instrument: Instrument) -> bool {
    match instrument {
        Instrument::Kick(p) => p.tune@ == 50 && p.decay@ == 50 && p.attack@ == 35,
        Instrument::Snare(p) => p.tune@ == 50 && p.tone@ == 50 && p.snappy@ == 55,
        Instrument::Hat(p) => p.tune@ == 50 && p.decay@ == 25 && p.open.tune@ == 50
            && p.open.decay@ == 85,
        Instrument::Tom(p) => p.tune@ == 25 && p.tone@ == 45 && p.decay@ == 55 && toned_to(
            p.medium,
            55,
            55,
            50,
        ) && toned_to(p.high, 85, 65, 45),
        Instrument::Cymbal(p) => toned_to(p, 50, 50, 70),
        Instrument::Rimshot(p) => toned_to(p, 50, 50, 50),
        Instrument::Bass(p) => p.waveform == Waveform::Saw && p.cutoff@ == 45 && p.resonance@ == 40
            && p.filter_envelope@ == 50 && p.decay@ == 40,
        Instrument::Chord(p) => p.oscillator_mix@ == 70 && p.pulse_width@ == 50
            && p.sub_oscillator@ == 0 && p.noise@ == 0 && p.cutoff@ == 65 && p.resonance@ == 10
            && p.filter_envelope@ == 25 && p.attack@ == 0 && p.decay@ == 25 && p.sustain@ == 70
            && p.release@ == 15,
        Instrument::Lead(p) => p.oscillator_mix@ == 70 && p.pulse_width@ == 50
            && p.sub_oscillator@ == 0 && p.sub_mode == LeadSubMode::OneOctaveSquare && p.noise@ == 0
            && p.cutoff@ == 65 && p.resonance@ == 10 && p.filter_envelope@ == 25
            && p.keyboard_tracking@ == 50 && p.portamento_time@ == 40 && p.attack@ == 0 && p.decay@
            == 25 && p.sustain@ == 70 && p.release@ == 15,
        Instrument::Fm(p) => p.algorithm == FmAlgorithm::Cascade && operator_set(
            p.operators@[0],
            FmRatio::One,
            100,
            0,
        ) && operator_set(p.operators@[1], FmRatio::Two, 35, 8) && operator_set(
            p.operators@[2],
            FmRatio::One,
            0,
            0,
        ) && operator_set(p.operators@[3], FmRatio::One, 0, 0) && p.brightness@ == 72 && p.attack@
            == 0 && p.decay@ == 25 && p.sustain@ == 70 && p.release@ == 15,
    }
}

/// The instrument that a new project puts on a track.
fn default_instrument(track: usize) -> (instrument: Instrument)
    requires
        track < TRACK_COUNT,
    ensures
        instrument.kind_of() == default_kind(track as int),
        first_settings(instrument),
{
    match track {
        0 => Instrument::Kick(
            KickParameters { tune: Percent::exactly(50), decay: Percent::exactly(50), attack: Percent::exactly(35) },
        ),
        1 => Instrument::Snare(
            SnareParameters { tune: Percent::exactly(50), tone: Percent::exactly(50), snappy: Percent::exactly(55) },
        ),
        2 => Instrument::Hat(
            HatParameters {
                tune: Percent::exactly(50),
                decay: Percent::exactly(25),
                open: HatRecipe { tune: Percent::exactly(50), decay: Percent::exactly(85) },
            },
        ),
        3 => Instrument::Tom(
            TomParameters {
                tune: Percent::exactly(25),
                tone: Percent::exactly(45),
                decay: Percent::exactly(55),
                medium: toned(55, 55, 50),
                high: toned(85, 65, 45),
            },
        ),
        4 => Instrument::Cymbal(toned(50, 50, 70)),
        5 => Instrument::Rimshot(toned(50, 50, 50)),
        6 => Instrument::Bass(
            BassParameters {
                waveform: Waveform::Saw,
                cutoff: Percent::exactly(45),
                resonance: Percent::exactly(40),
                filter_envelope: Percent::exactly(50),
                decay: Percent::exactly(40),
            },
        ),
        7 => Instrument::Chord(
            ChordParameters {
                oscillator_mix: Percent::exactly(70),
                pulse_width: Percent::exactly(50),
                sub_oscillator: Percent::exactly(0),
                noise: Percent::exactly(0),
                cutoff: Percent::exactly(65),
                resonance: Percent::exactly(10),
                filter_envelope: Percent::exactly(25),
                attack: Percent::exactly(0),
                decay: Percent::exactly(25),
                sustain: Percent::exactly(70),
                release: Percent::exactly(15),
            },
        ),
        8 => Instrument::Lead(
            LeadParameters {
                oscillator_mix: Percent::exactly(70),
                pulse_width: Percent::exactly(50),
                sub_oscillator: Percent::exactly(0),
                sub_mode: LeadSubMode::OneOctaveSquare,
                noise: Percent::exactly(0),
                cutoff: Percent::exactly(65),
                resonance: Percent::exactly(10),
                filter_envelope: Percent::exactly(25),
                keyboard_tracking: Percent::exactly(50),
                portamento_time: Percent::exactly(40),
                attack: Percent::exactly(0),
                decay: Percent::exactly(25),
                sustain: Percent::exactly(70),
                release: Percent::exactly(15),
            },
        ),
        _ => Instrument::Fm(
            FmParameters {
                algorithm: FmAlgorithm::Cascade,
                operators: [
                    fm_operator(FmRatio::One, 100, 0),
                    fm_operator(FmRatio::Two, 35, 8),
                    fm_operator(FmRatio::One, 0, 0),
                    fm_operator(FmRatio::One, 0, 0),
                ],
                brightness: Percent::exactly(72),
                attack: Percent::exactly(0),
                decay: Percent::exactly(25),
                sustain: Percent::exactly(70),
                release: Percent::exactly(15),
            },
        ),
    }
}

impl TrackEffects {
    /// The chain of a new track. It changes nothing: every mix is at zero.
    pub open spec fn neutral(self) -> bool {
        &&& self.chorus == ChorusMode::Off
        &&& self.distortion.drive@ == 0
        &&& self.distortion.tone@ == 50
        &&& self.distortion.mix@ == 0
        &&& self.bit_crusher.bits@ == 50
        &&& self.bit_crusher.rate@ == 50
        &&& self.bit_crusher.mix@ == 0
        &&& self.phaser.rate@ == 25
        &&& self.phaser.depth@ == 50
        &&& self.phaser.feedback@ == 20
        &&& self.phaser.mix@ == 0
        &&& self.flanger.rate@ == 25
        &&& self.flanger.delay@ == 18
        &&& self.flanger.depth@ == 50
        &&& self.flanger.feedback@ == 20
        &&& self.flanger.mix@ == 0
    }
}

impl Default for TrackEffects {
    fn default() -> (effects: TrackEffects)
        ensures
            effects.neutral(),
    {
        TrackEffects {
            chorus: ChorusMode::Off,
            distortion: DistortionParameters {
                drive: Percent::exactly(0),
                tone: Percent::exactly(50),
                mix: Percent::exactly(0),
            },
            bit_crusher: BitCrusherParameters {
                bits: Percent::exactly(50),
                rate: Percent::exactly(50),
                mix: Percent::exactly(0),
            },
            phaser: PhaserParameters {
                rate: Percent::exactly(25),
                depth: Percent::exactly(50),
                feedback: Percent::exactly(20),
                mix: Percent::exactly(0),
            },
            flanger: FlangerParameters {
                rate: Percent::exactly(25),
                delay: Percent::exactly(18),
                depth: Percent::exactly(50),
                feedback: Percent::exactly(20),
                mix: Percent::exactly(0),
            },
        }
    }
}

impl Track {
    /// What a new project has on a track.
    pub open spec fn is_first(self, track: int) -> bool {
        &&& self.instrument.kind_of() == default_kind(track)
        &&& first_settings(self.instrument)
        &&& self.level@ == 80
        &&& self.pan@ == 50
        &&& !self.muted
        &&& self.delay_send@ == 0
        &&& self.reverb_send@ == 0
        &&& self.swing@ == 0
        &&& self.probability@ == 100
        &&& self.effects.neutral()
        &&& self.lfos@ == Seq::new(PARAMETER_COUNT as nat, |i: int| None::<LfoConfig>)
        &&& self.input_degree is None
        &&& self.input_octave is None
        &&& !self.input_accent
        &&& self.input_chord_shape is None
        &&& self.input_chord_arpeggio is None
    }
}

impl Globals {
    /// The settings of a new project.
    pub open spec fn is_first(self) -> bool {
        &&& self.tempo_bpm == 120
        &&& self.key == 0
        &&& self.scale == Scale::Major
        &&& self.delay_division == DelayDivision::Eighth
        &&& self.delay_feedback@ == 30
        &&& self.reverb_time_ms == 2_500
        &&& self.reverb_tone@ == 50
        &&& self.reverb_pre_delay_ms == 20
        &&& self.reverb_return@ == 35
        &&& self.sidechain.depth@ == 0
        &&& self.sidechain.attack@ == 10
        &&& self.sidechain.release@ == 30
    }
}

fn default_track(track: usize) -> (t: Track)
    requires
        track < TRACK_COUNT,
    ensures
        t.wf(),
        t.is_first(track as int),
{
    Track {
        level: Percent::exactly(80),
        pan: Percent::exactly(50),
        muted: false,
        delay_send: Percent::exactly(0),
        reverb_send: Percent::exactly(0),
        swing: Percent::exactly(0),
        probability: Percent::exactly(100),
        instrument: default_instrument(track),
        effects: TrackEffects::default(),
        lfos: LfoAssignments::new(),
        input_degree: None,
        input_octave: None,
        input_accent: false,
        input_chord_shape: None,
        input_chord_arpeggio: None,
    }
}

impl Sequence {
    /// An empty loop of `length` steps.
    pub fn empty(length: usize) -> (sequence: Sequence)
        ensures
            sequence.steps@ == Seq::new(length as nat, |i: int| None::<StepEvent>),
            1 <= length <= MAX_STEP_COUNT ==> sequence.wf(),
    {
        let mut steps: Vec<Option<StepEvent>> = Vec::new();
        while steps.len() < length
            invariant
                steps@.len() <= length,
                forall|i: int| 0 <= i < steps@.len() ==> steps@[i] is None,
            decreases length - steps@.len(),
        {
            steps.push(None);
        }
        assert(steps@ =~= Seq::new(length as nat, |i: int| None::<StepEvent>));
        Sequence { steps }
    }
}

impl Pattern {
    /// An empty pattern of default length.
    pub fn new() -> (pattern: Pattern)
        ensures
            pattern.wf(),
            forall|t: int|
                0 <= t < TRACK_COUNT ==> (#[trigger] pattern.tracks@[t]).steps@ == Seq::new(
                    DEFAULT_STEP_COUNT as nat,
                    |i: int| None::<StepEvent>,
                ),
    {
        let mut tracks: Vec<Sequence> = Vec::new();
        while tracks.len() < TRACK_COUNT
            invariant
                tracks@.len() <= TRACK_COUNT,
                forall|t: int|
                    0 <= t < tracks@.len() ==> (#[trigger] tracks@[t]).wf() && tracks@[t].steps@
                        == Seq::new(DEFAULT_STEP_COUNT as nat, |i: int| None::<StepEvent>),
            decreases TRACK_COUNT - tracks@.len(),
        {
            tracks.push(Sequence::empty(DEFAULT_STEP_COUNT));
        }
        Pattern { tracks }
    }
}

impl Project {
    /// A new project: the default instruments, one empty pattern, and a song
    /// that plays it once.
    pub fn new() -> (project: Project)
        ensures
            project.wf(),
            project.globals.is_first(),
            forall|t: int| 0 <= t < TRACK_COUNT ==> (#[trigger] project.tracks@[t]).is_first(t),
            project.patterns@.len() == 1,
            forall|t: int|
                0 <= t < TRACK_COUNT ==> (#[trigger] project.patterns@[0].tracks@[t]).steps@
                    == Seq::new(DEFAULT_STEP_COUNT as nat, |i: int| None::<StepEvent>),
            project.song@ == seq![SongEntry { pattern: 1, bars: 1 }],
    {
        let mut tracks: Vec<Track> = Vec::new();
        let mut track: usize = 0;
        while track < TRACK_COUNT
            invariant
                track <= TRACK_COUNT,
                tracks@.len() == track,
                forall|t: int|
                    0 <= t < track ==> (#[trigger] tracks@[t]).wf() && tracks@[t].is_first(t),
            decreases TRACK_COUNT - track,
        {
            tracks.push(default_track(track));
            track = track + 1;
        }
        let mut patterns: Vec<Pattern> = Vec::new();
        patterns.push(Pattern::new());
        let mut song: Vec<SongEntry> = Vec::new();
        song.push(SongEntry { pattern: 1, bars: 1 });
        Project {
            globals: Globals {
                tempo_bpm: 120,
                key: 0,
                scale: Scale::Major,
                delay_division: DelayDivision::Eighth,
                delay_feedback: Percent::exactly(30),
                reverb_time_ms: 2_500,
                reverb_tone: Percent::exactly(50),
                reverb_pre_delay_ms: 20,
                reverb_return: Percent::exactly(35),
                sidechain: SidechainParameters {
                    depth: Percent::exactly(0),
                    attack: Percent::exactly(10),
                    release: Percent::exactly(30),
                },
            },
            tracks,
            patterns,
            song,
        }
    }
}

} // verus!
