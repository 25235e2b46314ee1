//! Instruments, effects, modulation and the tonal material.
use super::parameter::{position_of_place, ParameterId, PARAMETER_COUNT};
use super::percent::Percent;
use vstd::prelude::*;

verus! {

#[derive(Clone, Copy, Debug, PartialEq, Eq, Structural)]
pub enum Waveform {
    Saw,
    Square,
}

#[derive(Clone, Copy, Debug, PartialEq, Eq, Structural)]
pub enum LeadSubMode {
    OneOctaveSquare,
    TwoOctaveSquare,
    TwoOctaveNarrowPulse,
}

/// Divider and pulse of the sub oscillator that a voice runs.
#[derive(Clone, Copy, Debug, PartialEq, Eq, Structural)]
pub enum SubOscillatorMode {
    OneOctave,
    TwoOctaves,
    TwoOctavesNarrowPulse,
}

#[derive(Clone, Copy, Debug, PartialEq, Eq, Structural)]
pub enum ChorusMode {
    Off,
    I,
    Ii,
}

/// How the four operators feed each other and the output.
#[derive(Clone, Copy, Debug, PartialEq, Eq, Structural)]
pub enum FmAlgorithm {
    Cascade,
    Split,
    Converge,
    Pairs,
    Shared,
    Stack,
    Mixed,
    Additive,
}

impl FmAlgorithm {
    /// Whether an operator is heard.
    pub open spec fn carries(self, operator: int) -> bool {
        match self {
            FmAlgorithm::Cascade | FmAlgorithm::Split | FmAlgorithm::Converge => operator == 0,
            FmAlgorithm::Pairs => operator == 0 || operator == 2,
            FmAlgorithm::Stack => operator == 0 || operator == 1,
            FmAlgorithm::Shared | FmAlgorithm::Mixed => 0 <= operator <= 2,
            FmAlgorithm::Additive => 0 <= operator <= 3,
        }
    }

    /// Whether one operator modulates another.
    pub open spec fn feeds(self, source: int, target: int) -> bool {
        match self {
            FmAlgorithm::Cascade => 1 <= source <= 3 && target == source - 1,
            FmAlgorithm::Split => (source == 3 && (target == 2 || target == 1)) || ((source == 2
                || source == 1) && target == 0),
            FmAlgorithm::Converge => 1 <= source <= 3 && target == 0,
            FmAlgorithm::Pairs => (source == 1 && target == 0) || (source == 3 && target == 2),
            FmAlgorithm::Shared => source == 3 && 0 <= target <= 2,
            FmAlgorithm::Stack => (source == 3 && target == 2) || (source == 2 && target == 1),
            FmAlgorithm::Mixed => source == 3 && target == 2,
            FmAlgorithm::Additive => false,
        }
    }

    pub open spec fn carrier_total(self) -> int {
        (if self.carries(0) {
            1int
        } else {
            0
        }) + (if self.carries(1) {
            1int
        } else {
            0
        }) + (if self.carries(2) {
            1int
        } else {
            0
        }) + (if self.carries(3) {
            1int
        } else {
            0
        })
    }

    pub fn is_carrier(self, operator: usize) -> (r: bool)
        ensures
            r == self.carries(operator as int),
    {
        match self {
            FmAlgorithm::Cascade | FmAlgorithm::Split | FmAlgorithm::Converge => operator == 0,
            FmAlgorithm::Pairs => operator == 0 || operator == 2,
            FmAlgorithm::Stack => operator == 0 || operator == 1,
            FmAlgorithm::Shared | FmAlgorithm::Mixed => operator <= 2,
            FmAlgorithm::Additive => operator <= 3,
        }
    }

    pub fn routes(self, source: usize, target: usize) -> (r: bool)
        ensures
            r == self.feeds(source as int, target as int),
    {
        match self {
            FmAlgorithm::Cascade => 1 <= source && source <= 3 && target == source - 1,
            FmAlgorithm::Split => (source == 3 && (target == 2 || target == 1)) || ((source == 2
                || source == 1) && target == 0),
            FmAlgorithm::Converge => 1 <= source && source <= 3 && target == 0,
            FmAlgorithm::Pairs => (source == 1 && target == 0) || (source == 3 && target == 2),
            FmAlgorithm::Shared => source == 3 && target <= 2,
            FmAlgorithm::Stack => (source == 3 && target == 2) || (source == 2 && target == 1),
            FmAlgorithm::Mixed => source == 3 && target == 2,
            FmAlgorithm::Additive => false,
        }
    }

    /// How many operators are heard; the output is scaled by it.
    pub fn carrier_count(self) -> (n: u8)
        ensures
            n == self.carrier_total(),
            1 <= n <= 4,
    {
        match self {
            FmAlgorithm::Cascade | FmAlgorithm::Split | FmAlgorithm::Converge => 1,
            FmAlgorithm::Pairs | FmAlgorithm::Stack => 2,
            FmAlgorithm::Shared | FmAlgorithm::Mixed => 3,
            FmAlgorithm::Additive => 4,
        }
    }
}

/// Every algorithm is heard through at least one carrier, and modulation only
/// runs from a higher operator to a lower one, so it has no cycle.
pub proof fn algorithms_are_acyclic_and_audible(algorithm: FmAlgorithm, source: int, target: int)
    ensures
        1 <= algorithm.carrier_total() <= 4,
        algorithm.feeds(source, target) ==> 0 <= target < source <= 3,
{
}

#[derive(Clone, Copy, Debug, PartialEq, Eq, Structural)]
pub enum FmRatio {
    Half,
    One,
    Two,
    Three,
    Four,
    Five,
    Six,
    Seven,
    Eight,
}

impl FmRatio {
    pub open spec fn doubled(self) -> int {
        match self {
            FmRatio::Half => 1,
            FmRatio::One => 2,
            FmRatio::Two => 4,
            FmRatio::Three => 6,
            FmRatio::Four => 8,
            FmRatio::Five => 10,
            FmRatio::Six => 12,
            FmRatio::Seven => 14,
            FmRatio::Eight => 16,
        }
    }

    /// Twice the ratio, which is a whole number for every ratio.
    pub fn twice(self) -> (n: u8)
        ensures
            n == self.doubled(),
            n >= 1,
    {
        match self {
            FmRatio::Half => 1,
            FmRatio::One => 2,
            FmRatio::Two => 4,
            FmRatio::Three => 6,
            FmRatio::Four => 8,
            FmRatio::Five => 10,
            FmRatio::Six => 12,
            FmRatio::Seven => 14,
            FmRatio::Eight => 16,
        }
    }
}

/// Which of a drum's recipes a trigger plays.
#[derive(Clone, Copy, Debug, PartialEq, Eq, Structural)]
pub enum DrumRecipeSlot {
    One,
    Two,
    Three,
}

#[derive(Clone, Copy, Debug, PartialEq, Eq, Structural)]
pub struct KickParameters {
    pub tune: Percent,
    pub decay: Percent,
    pub attack: Percent,
}

#[derive(Clone, Copy, Debug, PartialEq, Eq, Structural)]
pub struct SnareParameters {
    pub tune: Percent,
    pub tone: Percent,
    pub snappy: Percent,
}

#[derive(Clone, Copy, Debug, PartialEq, Eq, Structural)]
pub struct HatRecipe {
    pub tune: Percent,
    pub decay: Percent,
}

#[derive(Clone, Copy, Debug, PartialEq, Eq, Structural)]
pub struct HatParameters {
    pub tune: Percent,
    pub decay: Percent,
    pub open: HatRecipe,
}

/// Controls shared by the toms, the cymbal and the rimshot.
#[derive(Clone, Copy, Debug, PartialEq, Eq, Structural)]
pub struct TonedDrum {
    pub tune: Percent,
    pub tone: Percent,
    pub decay: Percent,
}

#[derive(Clone, Copy, Debug, PartialEq, Eq, Structural)]
pub struct TomParameters {
    pub tune: Percent,
    pub tone: Percent,
    pub decay: Percent,
    pub medium: TonedDrum,
    pub high: TonedDrum,
}

#[derive(Clone, Copy, Debug, PartialEq, Eq, Structural)]
pub struct BassParameters {
    pub waveform: Waveform,
    pub cutoff: Percent,
    pub resonance: Percent,
    pub filter_envelope: Percent,
    pub decay: Percent,
}

#[derive(Clone, Copy, Debug, PartialEq, Eq, Structural)]
pub struct ChordParameters {
    pub oscillator_mix: Percent,
    pub pulse_width: Percent,
    pub sub_oscillator: Percent,
    pub noise: Percent,
    pub cutoff: Percent,
    pub resonance: Percent,
    pub filter_envelope: Percent,
    pub attack: Percent,
    pub decay: Percent,
    pub sustain: Percent,
    pub release: Percent,
}

#[derive(Clone, Copy, Debug, PartialEq, Eq, Structural)]
pub struct LeadParameters {
    pub oscillator_mix: Percent,
    pub pulse_width: Percent,
    pub sub_oscillator: Percent,
    pub sub_mode: LeadSubMode,
    pub noise: Percent,
    pub cutoff: Percent,
    pub resonance: Percent,
    pub filter_envelope: Percent,
    pub keyboard_tracking: Percent,
    pub portamento_time: Percent,
    pub attack: Percent,
    pub decay: Percent,
    pub sustain: Percent,
    pub release: Percent,
}

#[derive(Clone, Copy, Debug, PartialEq, Eq, Structural)]
pub struct FmOperator {
    pub ratio: FmRatio,
    pub level: Percent,
    pub feedback: Percent,
}

#[derive(Clone, Copy, Debug, PartialEq, Eq)]
pub struct FmParameters {
    pub algorithm: FmAlgorithm,
    pub operators: [FmOperator; 4],
    pub brightness: Percent,
    pub attack: Percent,
    pub decay: Percent,
    pub sustain: Percent,
    pub release: Percent,
}

#[derive(Clone, Copy, Debug, PartialEq, Eq)]
pub enum Instrument {
    Kick(KickParameters),
    Snare(SnareParameters),
    Hat(HatParameters),
    Tom(TomParameters),
    Cymbal(TonedDrum),
    Rimshot(TonedDrum),
    Bass(BassParameters),
    Chord(ChordParameters),
    Lead(LeadParameters),
    Fm(FmParameters),
}

#[derive(Clone, Copy, Debug, PartialEq, Eq, Structural)]
pub enum TrackKind {
    Kick,
    Snare,
    Hat,
    Tom,
    Cymbal,
    Rimshot,
    Bass,
    Chord,
    Lead,
    Fm,
}

impl TrackKind {
    pub open spec fn voiced(self) -> bool {
        self == TrackKind::Chord || self == TrackKind::Fm
    }

    pub open spec fn drum(self) -> bool {
        self == TrackKind::Kick || self == TrackKind::Snare || self == TrackKind::Hat || self
            == TrackKind::Tom || self == TrackKind::Cymbal || self == TrackKind::Rimshot
    }

    /// Whether the shapes of the instrument fade out when playback stops, where
    /// others are cut.
    pub open spec fn fades(self) -> bool {
        self == TrackKind::Chord
    }

    pub fn fades_when_stopped(self) -> (r: bool)
        ensures
            r == self.fades(),
    {
        self == TrackKind::Chord
    }

    /// Whether the instrument plays shapes of several notes.
    pub fn supports_voicing(self) -> (r: bool)
        ensures
            r == self.voiced(),
    {
        self == TrackKind::Chord || self == TrackKind::Fm
    }

    pub fn is_drum(self) -> (r: bool)
        ensures
            r == self.drum(),
    {
        self == TrackKind::Kick || self == TrackKind::Snare || self == TrackKind::Hat || self
            == TrackKind::Tom || self == TrackKind::Cymbal || self == TrackKind::Rimshot
    }
}

impl Instrument {
    pub open spec fn kind_of(self) -> TrackKind {
        match self {
            Instrument::Kick(_) => TrackKind::Kick,
            Instrument::Snare(_) => TrackKind::Snare,
            Instrument::Hat(_) => TrackKind::Hat,
            Instrument::Tom(_) => TrackKind::Tom,
            Instrument::Cymbal(_) => TrackKind::Cymbal,
            Instrument::Rimshot(_) => TrackKind::Rimshot,
            Instrument::Bass(_) => TrackKind::Bass,
            Instrument::Chord(_) => TrackKind::Chord,
            Instrument::Lead(_) => TrackKind::Lead,
            Instrument::Fm(_) => TrackKind::Fm,
        }
    }

    pub fn kind(&self) -> (kind: TrackKind)
        ensures
            kind == self.kind_of(),
    {
        match self {
            Instrument::Kick(_) => TrackKind::Kick,
            Instrument::Snare(_) => TrackKind::Snare,
            Instrument::Hat(_) => TrackKind::Hat,
            Instrument::Tom(_) => TrackKind::Tom,
            Instrument::Cymbal(_) => TrackKind::Cymbal,
            Instrument::Rimshot(_) => TrackKind::Rimshot,
            Instrument::Bass(_) => TrackKind::Bass,
            Instrument::Chord(_) => TrackKind::Chord,
            Instrument::Lead(_) => TrackKind::Lead,
            Instrument::Fm(_) => TrackKind::Fm,
        }
    }
}

#[derive(Clone, Copy, Debug, PartialEq, Eq, Structural)]
pub struct DistortionParameters {
    pub drive: Percent,
    pub tone: Percent,
    pub mix: Percent,
}

#[derive(Clone, Copy, Debug, PartialEq, Eq, Structural)]
pub struct BitCrusherParameters {
    pub bits: Percent,
    pub rate: Percent,
    pub mix: Percent,
}

#[derive(Clone, Copy, Debug, PartialEq, Eq, Structural)]
pub struct PhaserParameters {
    pub rate: Percent,
    pub depth: Percent,
    pub feedback: Percent,
    pub mix: Percent,
}

#[derive(Clone, Copy, Debug, PartialEq, Eq, Structural)]
pub struct FlangerParameters {
    pub rate: Percent,
    pub delay: Percent,
    pub depth: Percent,
    pub feedback: Percent,
    pub mix: Percent,
}

/// Settings of a track's effect chain.
#[derive(Clone, Copy, Debug, PartialEq, Eq, Structural)]
pub struct TrackEffects {
    pub chorus: ChorusMode,
    pub distortion: DistortionParameters,
    pub bit_crusher: BitCrusherParameters,
    pub phaser: PhaserParameters,
    pub flanger: FlangerParameters,
}

#[derive(Clone, Copy, Debug, PartialEq, Eq, Structural)]
pub enum LfoWaveform {
    Sine,
    Triangle,
    Square,
    Saw,
    SampleAndHold,
}

#[derive(Clone, Copy, Debug, PartialEq, Eq, Structural)]
pub enum LfoDivision {
    Whole,
    Half,
    Quarter,
    Eighth,
    Sixteenth,
}

#[derive(Clone, Copy, Debug, PartialEq, Eq, Structural)]
pub enum LfoRate {
    Free { rate_percent: Percent },
    Synced { division: LfoDivision },
}

#[derive(Clone, Copy, Debug, PartialEq, Eq, Structural)]
pub struct LfoConfig {
    pub enabled: bool,
    pub waveform: LfoWaveform,
    pub reset_on_trigger: bool,
    pub start_phase: Percent,
    pub rate: LfoRate,
    pub depth: Percent,
}

/// The oscillator of each parameter of a track, where it has one.
#[derive(Clone, Copy, Debug, PartialEq, Eq)]
pub struct LfoAssignments {
    configs: [Option<LfoConfig>; PARAMETER_COUNT],
}

impl View for LfoAssignments {
    type V = Seq<Option<LfoConfig>>;

    closed spec fn view(&self) -> Seq<Option<LfoConfig>> {
        self.configs@
    }
}

impl LfoAssignments {
    /// Whether the oscillator at a position runs.
    pub open spec fn enabled_at(self, position: int) -> bool {
        match self@[position] {
            Some(config) => config.enabled,
            None => false,
        }
    }

    pub proof fn view_length(self)
        ensures
            self@.len() == PARAMETER_COUNT,
    {
    }

    pub fn new() -> (lfos: LfoAssignments)
        ensures
            lfos@ == Seq::new(PARAMETER_COUNT as nat, |i: int| None::<LfoConfig>),
    {
        let lfos = LfoAssignments { configs: [None; PARAMETER_COUNT] };
        assert(lfos@ =~= Seq::new(PARAMETER_COUNT as nat, |i: int| None::<LfoConfig>));
        lfos
    }

    pub fn get(&self, id: ParameterId) -> (config: Option<LfoConfig>)
        ensures
            config == self@[id.position()],
    {
        self.configs[id.index()]
    }

    pub fn set(&mut self, id: ParameterId, config: Option<LfoConfig>)
        ensures
            final(self)@ == old(self)@.update(id.position(), config),
    {
        let index: usize = id.index();
        self.configs[index] = config;
    }

    pub fn is_enabled(&self, index: usize) -> (r: bool)
        requires
            index < PARAMETER_COUNT,
        ensures
            r == self.enabled_at(index as int),
    {
        match self.configs[index] {
            Some(config) => config.enabled,
            None => false,
        }
    }

    /// The parameters, among the first `n`, whose oscillators run.
    pub open spec fn running(self, n: int) -> Seq<ParameterId>
        decreases n,
    {
        if n <= 0 {
            Seq::empty()
        } else if self.enabled_at(n - 1) {
            self.running(n - 1).push(ParameterId::at(n - 1))
        } else {
            self.running(n - 1)
        }
    }

    /// Lists in `parameters` those whose oscillators run, in order, so that a
    /// frame does not look at the others.
    pub fn destinations(&self, parameters: &mut Vec<ParameterId>)
        ensures
            final(parameters)@ == self.running(PARAMETER_COUNT as int),
    {
        parameters.clear();
        let mut index: usize = 0;
        while index < PARAMETER_COUNT
            invariant
                index <= PARAMETER_COUNT,
                parameters@ == self.running(index as int),
            decreases PARAMETER_COUNT - index,
        {
            if self.is_enabled(index) {
                if let Some(parameter) = ParameterId::from_index(index) {
                    parameters.push(parameter);
                }
            }
            index = index + 1;
        }
    }

    /// Every oscillator that runs is listed, and none that does not.
    pub proof fn running_is_complete(self, n: int, position: int)
        requires
            0 <= position < n <= PARAMETER_COUNT,
        ensures
            self.running(n).contains(ParameterId::at(position)) <==> self.enabled_at(position),
        decreases n,
    {
        let last = ParameterId::at(n - 1);
        position_of_place(n - 1);
        position_of_place(position);
        if position < n - 1 {
            self.running_is_complete(n - 1, position);
            if self.enabled_at(n - 1) {
                let before = self.running(n - 1);
                let after = before.push(last);
                assert(last != ParameterId::at(position));
                if before.contains(ParameterId::at(position)) {
                    let k = before.index_of(ParameterId::at(position));
                    assert(after[k] == ParameterId::at(position));
                }
                if after.contains(ParameterId::at(position)) {
                    let k = after.index_of(ParameterId::at(position));
                    assert(k < before.len());
                    assert(before[k] == ParameterId::at(position));
                }
            }
        } else {
            if self.enabled_at(n - 1) {
                assert(self.running(n)[self.running(n - 1).len() as int] == last);
            } else {
                self.running_is_earlier(n - 1, n - 1);
            }
        }
    }

    proof fn running_is_earlier(self, n: int, position: int)
        requires
            0 <= n <= position < PARAMETER_COUNT,
        ensures
            !self.running(n).contains(ParameterId::at(position)),
        decreases n,
    {
        position_of_place(position);
        if n > 0 {
            self.running_is_earlier(n - 1, position);
            position_of_place(n - 1);
            if self.enabled_at(n - 1) {
                let after = self.running(n - 1).push(ParameterId::at(n - 1));
                if after.contains(ParameterId::at(position)) {
                    let k = after.index_of(ParameterId::at(position));
                    assert(k < self.running(n - 1).len());
                    assert(self.running(n - 1)[k] == ParameterId::at(position));
                }
            }
        }
    }

    pub fn resets_on_trigger(&self, index: usize) -> (r: bool)
        requires
            index < PARAMETER_COUNT,
        ensures
            r == match self@[index as int] {
                Some(config) => config.enabled && config.reset_on_trigger,
                None => false,
            },
    {
        match self.configs[index] {
            Some(config) => config.enabled && config.reset_on_trigger,
            None => false,
        }
    }
}

#[derive(Clone, Copy, Debug, PartialEq, Eq, Structural)]
pub enum Scale {
    Major,
    Minor,
    Dorian,
    Phrygian,
    Lydian,
    Mixolydian,
    Locrian,
}

impl Scale {
    /// Semitones of the seven degrees above the tonic, and of the octave.
    pub open spec fn semitones(self) -> Seq<int> {
        match self {
            Scale::Major => seq![0, 2, 4, 5, 7, 9, 11, 12],
            Scale::Minor => seq![0, 2, 3, 5, 7, 8, 10, 12],
            Scale::Dorian => seq![0, 2, 3, 5, 7, 9, 10, 12],
            Scale::Phrygian => seq![0, 1, 3, 5, 7, 8, 10, 12],
            Scale::Lydian => seq![0, 2, 4, 6, 7, 9, 11, 12],
            Scale::Mixolydian => seq![0, 2, 4, 5, 7, 9, 10, 12],
            Scale::Locrian => seq![0, 1, 3, 5, 6, 8, 10, 12],
        }
    }

    /// Semitones of one degree, counted from zero.
    pub fn offset(self, degree: usize) -> (semitones: i32)
        requires
            degree < 8,
        ensures
            semitones == self.semitones()[degree as int],
            0 <= semitones <= 12,
    {
        let offsets: [i32; 8] = match self {
            Scale::Major => [0, 2, 4, 5, 7, 9, 11, 12],
            Scale::Minor => [0, 2, 3, 5, 7, 8, 10, 12],
            Scale::Dorian => [0, 2, 3, 5, 7, 9, 10, 12],
            Scale::Phrygian => [0, 1, 3, 5, 7, 8, 10, 12],
            Scale::Lydian => [0, 2, 4, 6, 7, 9, 11, 12],
            Scale::Mixolydian => [0, 2, 4, 5, 7, 9, 10, 12],
            Scale::Locrian => [0, 1, 3, 5, 6, 8, 10, 12],
        };
        offsets[degree]
    }
}

/// A scale climbs from its tonic to the octave without repeating a tone.
pub proof fn scales_ascend(scale: Scale, low: int, high: int)
    requires
        0 <= low < high <= 7,
    ensures
        scale.semitones().len() == 8,
        scale.semitones()[0] == 0,
        scale.semitones()[7] == 12,
        scale.semitones()[low] < scale.semitones()[high],
{
}

#[derive(Clone, Copy, Debug, PartialEq, Eq, Structural)]
pub enum DelayDivision {
    Quarter,
    DottedEighth,
    Eighth,
    Sixteenth,
}

impl DelayDivision {
    /// Length in sixteenths of a beat's quarter.
    pub open spec fn sixteenths(self) -> int {
        match self {
            DelayDivision::Quarter => 4,
            DelayDivision::DottedEighth => 3,
            DelayDivision::Eighth => 2,
            DelayDivision::Sixteenth => 1,
        }
    }

    /// The nearest whole number of samples to the division's length.
    pub fn samples(self, tempo_bpm: u16, sample_rate: u32) -> (n: u64)
        requires
            tempo_bpm > 0,
        ensures
            n == (30 * sample_rate * self.sixteenths() + tempo_bpm) / (2 * tempo_bpm as int),
    {
        let sixteenths: u64 = match self {
            DelayDivision::Quarter => 4,
            DelayDivision::DottedEighth => 3,
            DelayDivision::Eighth => 2,
            DelayDivision::Sixteenth => 1,
        };
        let bpm: u64 = tempo_bpm as u64;
        assert(30 * sample_rate * sixteenths <= 30 * 0xffff_ffff * 4) by (nonlinear_arith)
            requires
                sixteenths <= 4,
                sample_rate <= 0xffff_ffff,
        ;
        let span: u64 = 30 * (sample_rate as u64) * sixteenths;
        (span + bpm) / (2 * bpm)
    }
}

#[derive(Clone, Copy, Debug, PartialEq, Eq, Structural)]
pub struct SidechainParameters {
    pub depth: Percent,
    pub attack: Percent,
    pub release: Percent,
}

} // verus!
