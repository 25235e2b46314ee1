//! What the locks of a step make of a track's settings.
use super::snapshot::AudioTrack;
use crate::model::instrument::{
    ChorusMode, DrumRecipeSlot, FmOperator, FmRatio, Instrument, LeadSubMode, SubOscillatorMode,
    TonedDrum, TrackEffects, TrackKind,
};
use crate::model::parameter::{FmOperatorField, ParameterId, ParameterLocks};
use crate::model::percent::Percent;
use crate::model::project::TRACK_COUNT;
use vstd::prelude::*;

verus! {

/// The effect chain of a track: every track has one of its own.
pub open spec fn slot_of(track: int) -> Option<int> {
    if 0 <= track < TRACK_COUNT {
        Some(track)
    } else {
        None
    }
}

pub fn effect_slot(track: usize) -> (slot: Option<usize>)
    ensures
        match slot_of(track as int) {
            Some(s) => slot matches Some(r) && r == s,
            None => slot is None,
        },
{
    if track < TRACK_COUNT {
        Some(track)
    } else {
        None
    }
}

/// Every track has a chain, no two share one, and every chain is used.
pub proof fn effect_slots_are_a_bijection(a: int, b: int)
    requires
        0 <= a < TRACK_COUNT,
        0 <= b < TRACK_COUNT,
    ensures
        slot_of(a) matches Some(s) && 0 <= s < TRACK_COUNT,
        slot_of(a) == slot_of(b) ==> a == b,
        exists|t: int| 0 <= t < TRACK_COUNT && #[trigger] slot_of(t) == Some(a),
        slot_of(TRACK_COUNT as int) is None,
{
    assert(slot_of(a) == Some(a));
}

/// How a change of settings reaches a sounding voice.
#[derive(Clone, Copy, Debug, PartialEq, Eq, Structural)]
pub enum ParameterSmoothing {
    Default,
    Fader,
}

impl ParameterSmoothing {
    pub open spec fn milliseconds(self) -> int {
        match self {
            ParameterSmoothing::Default => 5,
            ParameterSmoothing::Fader => 30,
        }
    }

    pub open spec fn length(self, sample_rate: int) -> int {
        let nearest = (sample_rate * self.milliseconds() + 500) / 1000;
        if nearest < 1 {
            1
        } else {
            nearest
        }
    }

    /// Samples of the ramp: the nearest whole number, and at least one.
    pub fn samples(self, sample_rate: u32) -> (n: u32)
        ensures
            n == self.length(sample_rate as int),
            n >= 1,
    {
        let nearest: u64 = match self {
            ParameterSmoothing::Default => (sample_rate as u64 * 5 + 500) / 1000,
            ParameterSmoothing::Fader => (sample_rate as u64 * 30 + 500) / 1000,
        };
        if nearest < 1 {
            1
        } else {
            nearest as u32
        }
    }
}

/// Mixer settings of a voice.
#[derive(Clone, Copy, Debug, PartialEq, Eq, Structural)]
pub struct MixControls {
    pub level: Percent,
    pub delay_send: Percent,
    pub reverb_send: Percent,
    pub pan: Percent,
}

/// What the sidechain compressor makes of a track.
#[derive(Clone, Copy, Debug, PartialEq, Eq, Structural)]
pub enum DuckingRole {
    /// The track is listened to.
    Key,
    /// The track makes way.
    Ducked,
    /// Neither.
    Free,
}

/// Kicks key the compressor, and bass, chord, lead and FM make way for them.
/// Auditions do neither.
pub open spec fn ducking_of(kind: TrackKind, preview: bool) -> DuckingRole {
    if preview {
        DuckingRole::Free
    } else if kind == TrackKind::Kick {
        DuckingRole::Key
    } else if kind == TrackKind::Bass || kind == TrackKind::Chord || kind == TrackKind::Lead || kind
        == TrackKind::Fm {
        DuckingRole::Ducked
    } else {
        DuckingRole::Free
    }
}

pub fn ducking_role(kind: TrackKind, preview: bool) -> (role: DuckingRole)
    ensures
        role == ducking_of(kind, preview),
{
    if preview {
        return DuckingRole::Free;
    }
    match kind {
        TrackKind::Kick => DuckingRole::Key,
        TrackKind::Bass | TrackKind::Chord | TrackKind::Lead | TrackKind::Fm => {
            DuckingRole::Ducked
        },
        _ => DuckingRole::Free,
    }
}

/// The mixer of a voice that has not sounded: closed, in the middle.
pub open spec fn closed_mix() -> MixControls {
    MixControls {
        level: Percent::at(0),
        delay_send: Percent::at(0),
        reverb_send: Percent::at(0),
        pan: Percent::at(50),
    }
}

impl MixControls {
    pub fn closed() -> (mix: MixControls)
        ensures
            mix == closed_mix(),
    {
        let zero = Percent::zero();
        MixControls {
            level: zero,
            delay_send: zero,
            reverb_send: zero,
            pan: Percent::exactly(50),
        }
    }
}

pub open spec fn mix_under(track: AudioTrack, locks: ParameterLocks) -> MixControls {
    MixControls {
        level: locks.percent_or(ParameterId::Level, track.level),
        delay_send: locks.percent_or(ParameterId::DelaySend, track.delay_send),
        reverb_send: locks.percent_or(ParameterId::ReverbSend, track.reverb_send),
        pan: locks.percent_or(ParameterId::Pan, track.pan),
    }
}

pub fn resolve_mix(track: &AudioTrack, locks: &ParameterLocks) -> (mix: MixControls)
    ensures
        mix == mix_under(*track, *locks),
{
    MixControls {
        level: locks.percent_under(ParameterId::Level, track.level),
        delay_send: locks.percent_under(ParameterId::DelaySend, track.delay_send),
        reverb_send: locks.percent_under(ParameterId::ReverbSend, track.reverb_send),
        pan: locks.percent_under(ParameterId::Pan, track.pan),
    }
}

/// Settings of an effect chain under the locks of a step.
pub open spec fn effects_under(effects: TrackEffects, locks: ParameterLocks) -> TrackEffects {
    TrackEffects {
        chorus: locks.chorus_or(effects.chorus),
        distortion: crate::model::instrument::DistortionParameters {
            drive: locks.percent_or(ParameterId::DistortionDrive, effects.distortion.drive),
            tone: locks.percent_or(ParameterId::DistortionTone, effects.distortion.tone),
            mix: locks.percent_or(ParameterId::DistortionMix, effects.distortion.mix),
        },
        bit_crusher: crate::model::instrument::BitCrusherParameters {
            bits: locks.percent_or(ParameterId::BitCrusherBits, effects.bit_crusher.bits),
            rate: locks.percent_or(ParameterId::BitCrusherRate, effects.bit_crusher.rate),
            mix: locks.percent_or(ParameterId::BitCrusherMix, effects.bit_crusher.mix),
        },
        phaser: crate::model::instrument::PhaserParameters {
            rate: locks.percent_or(ParameterId::PhaserRate, effects.phaser.rate),
            depth: locks.percent_or(ParameterId::PhaserDepth, effects.phaser.depth),
            feedback: locks.percent_or(ParameterId::PhaserFeedback, effects.phaser.feedback),
            mix: locks.percent_or(ParameterId::PhaserMix, effects.phaser.mix),
        },
        flanger: crate::model::instrument::FlangerParameters {
            rate: locks.percent_or(ParameterId::FlangerRate, effects.flanger.rate),
            delay: locks.percent_or(ParameterId::FlangerDelay, effects.flanger.delay),
            depth: locks.percent_or(ParameterId::FlangerDepth, effects.flanger.depth),
            feedback: locks.percent_or(ParameterId::FlangerFeedback, effects.flanger.feedback),
            mix: locks.percent_or(ParameterId::FlangerMix, effects.flanger.mix),
        },
    }
}

pub fn resolve_effects(effects: &TrackEffects, locks: &ParameterLocks) -> (r: TrackEffects)
    ensures
        r == effects_under(*effects, *locks),
{
    TrackEffects {
        chorus: locks.chorus(effects.chorus),
        distortion: crate::model::instrument::DistortionParameters {
            drive: locks.percent_under(ParameterId::DistortionDrive, effects.distortion.drive),
            tone: locks.percent_under(ParameterId::DistortionTone, effects.distortion.tone),
            mix: locks.percent_under(ParameterId::DistortionMix, effects.distortion.mix),
        },
        bit_crusher: crate::model::instrument::BitCrusherParameters {
            bits: locks.percent_under(ParameterId::BitCrusherBits, effects.bit_crusher.bits),
            rate: locks.percent_under(ParameterId::BitCrusherRate, effects.bit_crusher.rate),
            mix: locks.percent_under(ParameterId::BitCrusherMix, effects.bit_crusher.mix),
        },
        phaser: crate::model::instrument::PhaserParameters {
            rate: locks.percent_under(ParameterId::PhaserRate, effects.phaser.rate),
            depth: locks.percent_under(ParameterId::PhaserDepth, effects.phaser.depth),
            feedback: locks.percent_under(ParameterId::PhaserFeedback, effects.phaser.feedback),
            mix: locks.percent_under(ParameterId::PhaserMix, effects.phaser.mix),
        },
        flanger: crate::model::instrument::FlangerParameters {
            rate: locks.percent_under(ParameterId::FlangerRate, effects.flanger.rate),
            delay: locks.percent_under(ParameterId::FlangerDelay, effects.flanger.delay),
            depth: locks.percent_under(ParameterId::FlangerDepth, effects.flanger.depth),
            feedback: locks.percent_under(ParameterId::FlangerFeedback, effects.flanger.feedback),
            mix: locks.percent_under(ParameterId::FlangerMix, effects.flanger.mix),
        },
    }
}

/// Whether resolved settings are heard at all.
pub open spec fn effects_audible(effects: TrackEffects) -> bool {
    effects.chorus != ChorusMode::Off || effects.distortion.mix@ > 0 || effects.bit_crusher.mix@
        > 0 || effects.phaser.mix@ > 0 || effects.flanger.mix@ > 0
}

/// Whether a chain has work after it was given new settings: it had some
/// before, or the settings are audible.
pub fn chain_processes(was_processing: bool, effects: &TrackEffects) -> (r: bool)
    ensures
        r == (was_processing || effects_audible(*effects)),
{
    was_processing || effects.chorus != ChorusMode::Off || effects.distortion.mix.get() > 0
        || effects.bit_crusher.mix.get() > 0 || effects.phaser.mix.get() > 0
        || effects.flanger.mix.get() > 0
}

/// Without locks a chain keeps the track's own settings.
pub proof fn unlocked_effects_are_the_tracks(effects: TrackEffects, locks: ParameterLocks)
    requires
        forall|id: ParameterId| (#[trigger] locks.value_of(id)) is None,
    ensures
        effects_under(effects, locks) == effects,
{
}

#[derive(Clone, Copy, Debug, PartialEq, Eq, Structural)]
pub enum DrumVoiceKind {
    Kick,
    Snare,
    Hat,
    Tom,
    Cymbal,
    Rimshot,
}

/// One control of a drum: a setting of the track, which modulation may move,
/// or a value that the drum fixes.
#[derive(Clone, Copy, Debug, PartialEq, Eq, Structural)]
pub enum DrumControl {
    Setting { value: Percent, parameter: ParameterId },
    Off,
    Half,
}

#[derive(Clone, Copy, Debug, PartialEq, Eq, Structural)]
pub struct DrumControls {
    pub kind: DrumVoiceKind,
    pub tune: DrumControl,
    pub tone: DrumControl,
    pub snappy: DrumControl,
    pub decay: DrumControl,
    pub attack: DrumControl,
}

pub open spec fn set_under(locks: ParameterLocks, id: ParameterId, base: Percent) -> DrumControl {
    DrumControl::Setting { value: locks.percent_or(id, base), parameter: id }
}

/// The controls of a drum hit: the recipe picks the settings, then the locks
/// override them.
pub open spec fn drum_controls_under(
    track: AudioTrack,
    recipe: DrumRecipeSlot,
    locks: ParameterLocks,
) -> Option<DrumControls> {
    match track.instrument {
        Instrument::Kick(p) => Some(
            DrumControls {
                kind: DrumVoiceKind::Kick,
                tune: set_under(locks, ParameterId::Tune, p.tune),
                tone: DrumControl::Half,
                snappy: DrumControl::Off,
                decay: set_under(locks, ParameterId::Decay, p.decay),
                attack: set_under(locks, ParameterId::Attack, p.attack),
            },
        ),
        Instrument::Snare(p) => Some(
            DrumControls {
                kind: DrumVoiceKind::Snare,
                tune: set_under(locks, ParameterId::Tune, p.tune),
                tone: set_under(locks, ParameterId::Tone, p.tone),
                snappy: set_under(locks, ParameterId::Snappy, p.snappy),
                decay: DrumControl::Off,
                attack: DrumControl::Off,
            },
        ),
        Instrument::Hat(p) => Some(
            DrumControls {
                kind: DrumVoiceKind::Hat,
                tune: set_under(
                    locks,
                    ParameterId::Tune,
                    if recipe == DrumRecipeSlot::Two {
                        p.open.tune
                    } else {
                        p.tune
                    },
                ),
                tone: DrumControl::Half,
                snappy: DrumControl::Off,
                decay: set_under(
                    locks,
                    ParameterId::Decay,
                    if recipe == DrumRecipeSlot::Two {
                        p.open.decay
                    } else {
                        p.decay
                    },
                ),
                attack: DrumControl::Off,
            },
        ),
        Instrument::Tom(p) => {
            let chosen = match recipe {
                DrumRecipeSlot::Two => p.medium,
                DrumRecipeSlot::Three => p.high,
                DrumRecipeSlot::One => TonedDrum { tune: p.tune, tone: p.tone, decay: p.decay },
            };
            Some(toned_under(DrumVoiceKind::Tom, chosen, locks))
        },
        Instrument::Cymbal(p) => Some(toned_under(DrumVoiceKind::Cymbal, p, locks)),
        Instrument::Rimshot(p) => Some(toned_under(DrumVoiceKind::Rimshot, p, locks)),
        _ => None,
    }
}

pub open spec fn toned_under(
    kind: DrumVoiceKind,
    drum: TonedDrum,
    locks: ParameterLocks,
) -> DrumControls {
    DrumControls {
        kind,
        tune: set_under(locks, ParameterId::Tune, drum.tune),
        tone: set_under(locks, ParameterId::Tone, drum.tone),
        snappy: DrumControl::Off,
        decay: set_under(locks, ParameterId::Decay, drum.decay),
        attack: DrumControl::Off,
    }
}

fn set(locks: &ParameterLocks, id: ParameterId, base: Percent) -> (control: DrumControl)
    ensures
        control == set_under(*locks, id, base),
{
    DrumControl::Setting { value: locks.percent_under(id, base), parameter: id }
}

fn toned(kind: DrumVoiceKind, drum: TonedDrum, locks: &ParameterLocks) -> (controls: DrumControls)
    ensures
        controls == toned_under(kind, drum, *locks),
{
    DrumControls {
        kind,
        tune: set(locks, ParameterId::Tune, drum.tune),
        tone: set(locks, ParameterId::Tone, drum.tone),
        snappy: DrumControl::Off,
        decay: set(locks, ParameterId::Decay, drum.decay),
        attack: DrumControl::Off,
    }
}

/// The controls of a hit on a drum track; none on a pitched track.
pub fn drum_controls(
    track: &AudioTrack,
    recipe: DrumRecipeSlot,
    locks: &ParameterLocks,
) -> (controls: Option<DrumControls>)
    ensures
        controls == drum_controls_under(*track, recipe, *locks),
        controls is Some <==> track.kind().drum(),
{
    match track.instrument {
        Instrument::Kick(p) => Some(
            DrumControls {
                kind: DrumVoiceKind::Kick,
                tune: set(locks, ParameterId::Tune, p.tune),
                tone: DrumControl::Half,
                snappy: DrumControl::Off,
                decay: set(locks, ParameterId::Decay, p.decay),
                attack: set(locks, ParameterId::Attack, p.attack),
            },
        ),
        Instrument::Snare(p) => Some(
            DrumControls {
                kind: DrumVoiceKind::Snare,
                tune: set(locks, ParameterId::Tune, p.tune),
                tone: set(locks, ParameterId::Tone, p.tone),
                snappy: set(locks, ParameterId::Snappy, p.snappy),
                decay: DrumControl::Off,
                attack: DrumControl::Off,
            },
        ),
        Instrument::Hat(p) => {
            let chosen = if recipe == DrumRecipeSlot::Two {
                p.open
            } else {
                crate::model::instrument::HatRecipe { tune: p.tune, decay: p.decay }
            };
            Some(
                DrumControls {
                    kind: DrumVoiceKind::Hat,
                    tune: set(locks, ParameterId::Tune, chosen.tune),
                    tone: DrumControl::Half,
                    snappy: DrumControl::Off,
                    decay: set(locks, ParameterId::Decay, chosen.decay),
                    attack: DrumControl::Off,
                },
            )
        },
        Instrument::Tom(p) => {
            let chosen = match recipe {
                DrumRecipeSlot::Two => p.medium,
                DrumRecipeSlot::Three => p.high,
                DrumRecipeSlot::One => TonedDrum { tune: p.tune, tone: p.tone, decay: p.decay },
            };
            Some(toned(DrumVoiceKind::Tom, chosen, locks))
        },
        Instrument::Cymbal(p) => Some(toned(DrumVoiceKind::Cymbal, p, locks)),
        Instrument::Rimshot(p) => Some(toned(DrumVoiceKind::Rimshot, p, locks)),
        _ => None,
    }
}

/// The four operators as a voice plays them.
#[derive(Clone, Copy, Debug, PartialEq, Eq, Structural)]
pub struct OperatorBank {
    pub first: FmOperator,
    pub second: FmOperator,
    pub third: FmOperator,
    pub fourth: FmOperator,
}

pub open spec fn operator_under(
    operators: Seq<FmOperator>,
    locks: ParameterLocks,
    k: int,
) -> FmOperator {
    FmOperator {
        ratio: locks.fm_ratio_or(
            ParameterId::operator(k, FmOperatorField::Ratio),
            operators[k].ratio,
        ),
        level: locks.percent_or(
            ParameterId::operator(k, FmOperatorField::Level),
            operators[k].level,
        ),
        feedback: locks.percent_or(
            ParameterId::operator(k, FmOperatorField::Feedback),
            operators[k].feedback,
        ),
    }
}

fn resolve_operator(operators: &[FmOperator; 4], locks: &ParameterLocks, k: usize) -> (r: FmOperator)
    requires
        k < 4,
    ensures
        r == operator_under(operators@, *locks, k as int),
{
    let base = operators[k];
    let ratio = match ParameterId::fm_operator(k, FmOperatorField::Ratio) {
        Some(id) => locks.fm_ratio(id, base.ratio),
        None => base.ratio,
    };
    let level = match ParameterId::fm_operator(k, FmOperatorField::Level) {
        Some(id) => locks.percent_under(id, base.level),
        None => base.level,
    };
    let feedback = match ParameterId::fm_operator(k, FmOperatorField::Feedback) {
        Some(id) => locks.percent_under(id, base.feedback),
        None => base.feedback,
    };
    FmOperator { ratio, level, feedback }
}

pub open spec fn operators_under(
    operators: Seq<FmOperator>,
    locks: ParameterLocks,
) -> OperatorBank {
    OperatorBank {
        first: operator_under(operators, locks, 0),
        second: operator_under(operators, locks, 1),
        third: operator_under(operators, locks, 2),
        fourth: operator_under(operators, locks, 3),
    }
}

pub fn resolve_operators(operators: &[FmOperator; 4], locks: &ParameterLocks) -> (r: OperatorBank)
    ensures
        r == operators_under(operators@, *locks),
{
    OperatorBank {
        first: resolve_operator(operators, locks, 0),
        second: resolve_operator(operators, locks, 1),
        third: resolve_operator(operators, locks, 2),
        fourth: resolve_operator(operators, locks, 3),
    }
}

pub open spec fn sub_mode_of(mode: LeadSubMode) -> SubOscillatorMode {
    match mode {
        LeadSubMode::OneOctaveSquare => SubOscillatorMode::OneOctave,
        LeadSubMode::TwoOctaveSquare => SubOscillatorMode::TwoOctaves,
        LeadSubMode::TwoOctaveNarrowPulse => SubOscillatorMode::TwoOctavesNarrowPulse,
    }
}

pub fn sub_oscillator_mode(mode: LeadSubMode) -> (r: SubOscillatorMode)
    ensures
        r == sub_mode_of(mode),
{
    match mode {
        LeadSubMode::OneOctaveSquare => SubOscillatorMode::OneOctave,
        LeadSubMode::TwoOctaveSquare => SubOscillatorMode::TwoOctaves,
        LeadSubMode::TwoOctaveNarrowPulse => SubOscillatorMode::TwoOctavesNarrowPulse,
    }
}

pub open spec fn operator_at(ratio: FmRatio, level: u8, feedback: u8) -> FmOperator {
    FmOperator { ratio, level: Percent::at(level), feedback: Percent::at(feedback) }
}

/// The operators of a voice that has not sounded.
pub open spec fn first_operators() -> OperatorBank {
    OperatorBank {
        first: operator_at(FmRatio::One, 100, 0),
        second: operator_at(FmRatio::Two, 35, 8),
        third: operator_at(FmRatio::One, 0, 0),
        fourth: operator_at(FmRatio::One, 0, 0),
    }
}

fn operator(ratio: FmRatio, level: u8, feedback: u8) -> (r: FmOperator)
    requires
        level <= 100,
        feedback <= 100,
    ensures
        r == operator_at(ratio, level, feedback),
{
    FmOperator { ratio, level: Percent::exactly(level), feedback: Percent::exactly(feedback) }
}

pub fn initial_operators() -> (r: OperatorBank)
    ensures
        r == first_operators(),
{
    OperatorBank {
        first: operator(FmRatio::One, 100, 0),
        second: operator(FmRatio::Two, 35, 8),
        third: operator(FmRatio::One, 0, 0),
        fourth: operator(FmRatio::One, 0, 0),
    }
}

} // verus!
