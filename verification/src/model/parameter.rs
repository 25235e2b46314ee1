//! Identifiers of everything that a step can lock or an oscillator can move,
//! and the locks themselves.
use super::instrument::{ChorusMode, FmAlgorithm, FmRatio, LeadSubMode, Waveform};
use super::percent::Percent;
use vstd::prelude::*;

verus! {

/// How many parameters there are.
pub const PARAMETER_COUNT: usize = 53;

#[derive(Clone, Copy, Debug, PartialEq, Eq, Structural)]
pub enum ParameterId {
    Level,
    Pan,
    DelaySend,
    ReverbSend,
    Tune,
    Tone,
    Decay,
    Snappy,
    Attack,
    Sustain,
    Release,
    Cutoff,
    Resonance,
    FilterEnvelope,
    OscillatorMix,
    PulseWidth,
    SubOscillator,
    Noise,
    KeyboardTracking,
    PortamentoTime,
    Pitch,
    Brightness,
    Waveform,
    LeadSubMode,
    FmAlgorithm,
    FmOp1Ratio,
    FmOp1Level,
    FmOp1Feedback,
    FmOp2Ratio,
    FmOp2Level,
    FmOp2Feedback,
    FmOp3Ratio,
    FmOp3Level,
    FmOp3Feedback,
    FmOp4Ratio,
    FmOp4Level,
    FmOp4Feedback,
    Chorus,
    DistortionDrive,
    DistortionTone,
    DistortionMix,
    BitCrusherBits,
    BitCrusherRate,
    BitCrusherMix,
    PhaserRate,
    PhaserDepth,
    PhaserFeedback,
    PhaserMix,
    FlangerRate,
    FlangerDelay,
    FlangerDepth,
    FlangerFeedback,
    FlangerMix,
}

/// The three controls of an operator.
#[derive(Clone, Copy, Debug, PartialEq, Eq, Structural)]
pub enum FmOperatorField {
    Ratio,
    Level,
    Feedback,
}

impl ParameterId {
    /// Position in the table of parameters.
    pub open spec fn position(self) -> int {
        match self {
            ParameterId::Level => 0,
            ParameterId::Pan => 1,
            ParameterId::DelaySend => 2,
            ParameterId::ReverbSend => 3,
            ParameterId::Tune => 4,
            ParameterId::Tone => 5,
            ParameterId::Decay => 6,
            ParameterId::Snappy => 7,
            ParameterId::Attack => 8,
            ParameterId::Sustain => 9,
            ParameterId::Release => 10,
            ParameterId::Cutoff => 11,
            ParameterId::Resonance => 12,
            ParameterId::FilterEnvelope => 13,
            ParameterId::OscillatorMix => 14,
            ParameterId::PulseWidth => 15,
            ParameterId::SubOscillator => 16,
            ParameterId::Noise => 17,
            ParameterId::KeyboardTracking => 18,
            ParameterId::PortamentoTime => 19,
            ParameterId::Pitch => 20,
            ParameterId::Brightness => 21,
            ParameterId::Waveform => 22,
            ParameterId::LeadSubMode => 23,
            ParameterId::FmAlgorithm => 24,
            ParameterId::FmOp1Ratio => 25,
            ParameterId::FmOp1Level => 26,
            ParameterId::FmOp1Feedback => 27,
            ParameterId::FmOp2Ratio => 28,
            ParameterId::FmOp2Level => 29,
            ParameterId::FmOp2Feedback => 30,
            ParameterId::FmOp3Ratio => 31,
            ParameterId::FmOp3Level => 32,
            ParameterId::FmOp3Feedback => 33,
            ParameterId::FmOp4Ratio => 34,
            ParameterId::FmOp4Level => 35,
            ParameterId::FmOp4Feedback => 36,
            ParameterId::Chorus => 37,
            ParameterId::DistortionDrive => 38,
            ParameterId::DistortionTone => 39,
            ParameterId::DistortionMix => 40,
            ParameterId::BitCrusherBits => 41,
            ParameterId::BitCrusherRate => 42,
            ParameterId::BitCrusherMix => 43,
            ParameterId::PhaserRate => 44,
            ParameterId::PhaserDepth => 45,
            ParameterId::PhaserFeedback => 46,
            ParameterId::PhaserMix => 47,
            ParameterId::FlangerRate => 48,
            ParameterId::FlangerDelay => 49,
            ParameterId::FlangerDepth => 50,
            ParameterId::FlangerFeedback => 51,
            ParameterId::FlangerMix => 52,
        }
    }

    pub open spec fn at(position: int) -> ParameterId {
        if position == 0 {
            ParameterId::Level
        } else if position == 1 {
            ParameterId::Pan
        } else if position == 2 {
            ParameterId::DelaySend
        } else if position == 3 {
            ParameterId::ReverbSend
        } else if position == 4 {
            ParameterId::Tune
        } else if position == 5 {
            ParameterId::Tone
        } else if position == 6 {
            ParameterId::Decay
        } else if position == 7 {
            ParameterId::Snappy
        } else if position == 8 {
            ParameterId::Attack
        } else if position == 9 {
            ParameterId::Sustain
        } else if position == 10 {
            ParameterId::Release
        } else if position == 11 {
            ParameterId::Cutoff
        } else if position == 12 {
            ParameterId::Resonance
        } else if position == 13 {
            ParameterId::FilterEnvelope
        } else if position == 14 {
            ParameterId::OscillatorMix
        } else if position == 15 {
            ParameterId::PulseWidth
        } else if position == 16 {
            ParameterId::SubOscillator
        } else if position == 17 {
            ParameterId::Noise
        } else if position == 18 {
            ParameterId::KeyboardTracking
        } else if position == 19 {
            ParameterId::PortamentoTime
        } else if position == 20 {
            ParameterId::Pitch
        } else if position == 21 {
            ParameterId::Brightness
        } else if position == 22 {
            ParameterId::Waveform
        } else if position == 23 {
            ParameterId::LeadSubMode
        } else if position == 24 {
            ParameterId::FmAlgorithm
        } else if position == 25 {
            ParameterId::FmOp1Ratio
        } else if position == 26 {
            ParameterId::FmOp1Level
        } else if position == 27 {
            ParameterId::FmOp1Feedback
        } else if position == 28 {
            ParameterId::FmOp2Ratio
        } else if position == 29 {
            ParameterId::FmOp2Level
        } else if position == 30 {
            ParameterId::FmOp2Feedback
        } else if position == 31 {
            ParameterId::FmOp3Ratio
        } else if position == 32 {
            ParameterId::FmOp3Level
        } else if position == 33 {
            ParameterId::FmOp3Feedback
        } else if position == 34 {
            ParameterId::FmOp4Ratio
        } else if position == 35 {
            ParameterId::FmOp4Level
        } else if position == 36 {
            ParameterId::FmOp4Feedback
        } else if position == 37 {
            ParameterId::Chorus
        } else if position == 38 {
            ParameterId::DistortionDrive
        } else if position == 39 {
            ParameterId::DistortionTone
        } else if position == 40 {
            ParameterId::DistortionMix
        } else if position == 41 {
            ParameterId::BitCrusherBits
        } else if position == 42 {
            ParameterId::BitCrusherRate
        } else if position == 43 {
            ParameterId::BitCrusherMix
        } else if position == 44 {
            ParameterId::PhaserRate
        } else if position == 45 {
            ParameterId::PhaserDepth
        } else if position == 46 {
            ParameterId::PhaserFeedback
        } else if position == 47 {
            ParameterId::PhaserMix
        } else if position == 48 {
            ParameterId::FlangerRate
        } else if position == 49 {
            ParameterId::FlangerDelay
        } else if position == 50 {
            ParameterId::FlangerDepth
        } else if position == 51 {
            ParameterId::FlangerFeedback
        } else {
            ParameterId::FlangerMix
        }
    }

    pub fn index(self) -> (index: usize)
        ensures
            index == self.position(),
            index < PARAMETER_COUNT,
    {
        match self {
            ParameterId::Level => 0,
            ParameterId::Pan => 1,
            ParameterId::DelaySend => 2,
            ParameterId::ReverbSend => 3,
            ParameterId::Tune => 4,
            ParameterId::Tone => 5,
            ParameterId::Decay => 6,
            ParameterId::Snappy => 7,
            ParameterId::Attack => 8,
            ParameterId::Sustain => 9,
            ParameterId::Release => 10,
            ParameterId::Cutoff => 11,
            ParameterId::Resonance => 12,
            ParameterId::FilterEnvelope => 13,
            ParameterId::OscillatorMix => 14,
            ParameterId::PulseWidth => 15,
            ParameterId::SubOscillator => 16,
            ParameterId::Noise => 17,
            ParameterId::KeyboardTracking => 18,
            ParameterId::PortamentoTime => 19,
            ParameterId::Pitch => 20,
            ParameterId::Brightness => 21,
            ParameterId::Waveform => 22,
            ParameterId::LeadSubMode => 23,
            ParameterId::FmAlgorithm => 24,
            ParameterId::FmOp1Ratio => 25,
            ParameterId::FmOp1Level => 26,
            ParameterId::FmOp1Feedback => 27,
            ParameterId::FmOp2Ratio => 28,
            ParameterId::FmOp2Level => 29,
            ParameterId::FmOp2Feedback => 30,
            ParameterId::FmOp3Ratio => 31,
            ParameterId::FmOp3Level => 32,
            ParameterId::FmOp3Feedback => 33,
            ParameterId::FmOp4Ratio => 34,
            ParameterId::FmOp4Level => 35,
            ParameterId::FmOp4Feedback => 36,
            ParameterId::Chorus => 37,
            ParameterId::DistortionDrive => 38,
            ParameterId::DistortionTone => 39,
            ParameterId::DistortionMix => 40,
            ParameterId::BitCrusherBits => 41,
            ParameterId::BitCrusherRate => 42,
            ParameterId::BitCrusherMix => 43,
            ParameterId::PhaserRate => 44,
            ParameterId::PhaserDepth => 45,
            ParameterId::PhaserFeedback => 46,
            ParameterId::PhaserMix => 47,
            ParameterId::FlangerRate => 48,
            ParameterId::FlangerDelay => 49,
            ParameterId::FlangerDepth => 50,
            ParameterId::FlangerFeedback => 51,
            ParameterId::FlangerMix => 52,
        }
    }

    /// The parameter at a position of the table.
    pub fn from_index(index: usize) -> (id: Option<ParameterId>)
        ensures
            id is Some <==> index < PARAMETER_COUNT,
            id matches Some(p) ==> p.position() == index && p == ParameterId::at(index as int),
    {
        if index == 0 {
            return Some(ParameterId::Level);
        }
        if index == 1 {
            return Some(ParameterId::Pan);
        }
        if index == 2 {
            return Some(ParameterId::DelaySend);
        }
        if index == 3 {
            return Some(ParameterId::ReverbSend);
        }
        if index == 4 {
            return Some(ParameterId::Tune);
        }
        if index == 5 {
            return Some(ParameterId::Tone);
        }
        if index == 6 {
            return Some(ParameterId::Decay);
        }
        if index == 7 {
            return Some(ParameterId::Snappy);
        }
        if index == 8 {
            return Some(ParameterId::Attack);
        }
        if index == 9 {
            return Some(ParameterId::Sustain);
        }
        if index == 10 {
            return Some(ParameterId::Release);
        }
        if index == 11 {
            return Some(ParameterId::Cutoff);
        }
        if index == 12 {
            return Some(ParameterId::Resonance);
        }
        if index == 13 {
            return Some(ParameterId::FilterEnvelope);
        }
        if index == 14 {
            return Some(ParameterId::OscillatorMix);
        }
        if index == 15 {
            return Some(ParameterId::PulseWidth);
        }
        if index == 16 {
            return Some(ParameterId::SubOscillator);
        }
        if index == 17 {
            return Some(ParameterId::Noise);
        }
        if index == 18 {
            return Some(ParameterId::KeyboardTracking);
        }
        if index == 19 {
            return Some(ParameterId::PortamentoTime);
        }
        if index == 20 {
            return Some(ParameterId::Pitch);
        }
        if index == 21 {
            return Some(ParameterId::Brightness);
        }
        if index == 22 {
            return Some(ParameterId::Waveform);
        }
        if index == 23 {
            return Some(ParameterId::LeadSubMode);
        }
        if index == 24 {
            return Some(ParameterId::FmAlgorithm);
        }
        if index == 25 {
            return Some(ParameterId::FmOp1Ratio);
        }
        if index == 26 {
            return Some(ParameterId::FmOp1Level);
        }
        if index == 27 {
            return Some(ParameterId::FmOp1Feedback);
        }
        if index == 28 {
            return Some(ParameterId::FmOp2Ratio);
        }
        if index == 29 {
            return Some(ParameterId::FmOp2Level);
        }
        if index == 30 {
            return Some(ParameterId::FmOp2Feedback);
        }
        if index == 31 {
            return Some(ParameterId::FmOp3Ratio);
        }
        if index == 32 {
            return Some(ParameterId::FmOp3Level);
        }
        if index == 33 {
            return Some(ParameterId::FmOp3Feedback);
        }
        if index == 34 {
            return Some(ParameterId::FmOp4Ratio);
        }
        if index == 35 {
            return Some(ParameterId::FmOp4Level);
        }
        if index == 36 {
            return Some(ParameterId::FmOp4Feedback);
        }
        if index == 37 {
            return Some(ParameterId::Chorus);
        }
        if index == 38 {
            return Some(ParameterId::DistortionDrive);
        }
        if index == 39 {
            return Some(ParameterId::DistortionTone);
        }
        if index == 40 {
            return Some(ParameterId::DistortionMix);
        }
        if index == 41 {
            return Some(ParameterId::BitCrusherBits);
        }
        if index == 42 {
            return Some(ParameterId::BitCrusherRate);
        }
        if index == 43 {
            return Some(ParameterId::BitCrusherMix);
        }
        if index == 44 {
            return Some(ParameterId::PhaserRate);
        }
        if index == 45 {
            return Some(ParameterId::PhaserDepth);
        }
        if index == 46 {
            return Some(ParameterId::PhaserFeedback);
        }
        if index == 47 {
            return Some(ParameterId::PhaserMix);
        }
        if index == 48 {
            return Some(ParameterId::FlangerRate);
        }
        if index == 49 {
            return Some(ParameterId::FlangerDelay);
        }
        if index == 50 {
            return Some(ParameterId::FlangerDepth);
        }
        if index == 51 {
            return Some(ParameterId::FlangerFeedback);
        }
        if index == 52 {
            return Some(ParameterId::FlangerMix);
        }
        None
    }

    pub open spec fn operator(operator: int, field: FmOperatorField) -> ParameterId {
        match field {
            FmOperatorField::Ratio => if operator == 0 {
                ParameterId::FmOp1Ratio
            } else if operator == 1 {
                ParameterId::FmOp2Ratio
            } else if operator == 2 {
                ParameterId::FmOp3Ratio
            } else {
                ParameterId::FmOp4Ratio
            },
            FmOperatorField::Level => if operator == 0 {
                ParameterId::FmOp1Level
            } else if operator == 1 {
                ParameterId::FmOp2Level
            } else if operator == 2 {
                ParameterId::FmOp3Level
            } else {
                ParameterId::FmOp4Level
            },
            FmOperatorField::Feedback => if operator == 0 {
                ParameterId::FmOp1Feedback
            } else if operator == 1 {
                ParameterId::FmOp2Feedback
            } else if operator == 2 {
                ParameterId::FmOp3Feedback
            } else {
                ParameterId::FmOp4Feedback
            },
        }
    }

    /// The parameter of one control of one of the four operators.
    pub fn fm_operator(operator: usize, field: FmOperatorField) -> (id: Option<ParameterId>)
        ensures
            id is Some <==> operator < 4,
            id matches Some(p) ==> p == ParameterId::operator(operator as int, field),
    {
        if operator >= 4 {
            return None;
        }
        Some(
            match field {
                FmOperatorField::Ratio => match operator {
                    0 => ParameterId::FmOp1Ratio,
                    1 => ParameterId::FmOp2Ratio,
                    2 => ParameterId::FmOp3Ratio,
                    _ => ParameterId::FmOp4Ratio,
                },
                FmOperatorField::Level => match operator {
                    0 => ParameterId::FmOp1Level,
                    1 => ParameterId::FmOp2Level,
                    2 => ParameterId::FmOp3Level,
                    _ => ParameterId::FmOp4Level,
                },
                FmOperatorField::Feedback => match operator {
                    0 => ParameterId::FmOp1Feedback,
                    1 => ParameterId::FmOp2Feedback,
                    2 => ParameterId::FmOp3Feedback,
                    _ => ParameterId::FmOp4Feedback,
                },
            },
        )
    }
}

/// The parameter at a place has that place.
pub proof fn position_of_place(place: int)
    requires
        0 <= place < PARAMETER_COUNT,
    ensures
        ParameterId::at(place).position() == place,
{
}

/// No two parameters share a position, so their locks and oscillators are
/// independent.
pub proof fn positions_are_distinct(a: ParameterId, b: ParameterId)
    ensures
        0 <= a.position() < PARAMETER_COUNT,
        ParameterId::at(a.position()) == a,
        a.position() == b.position() ==> a == b,
{
    assert(ParameterId::at(a.position()) == a);
    assert(ParameterId::at(b.position()) == b);
}

/// A value that a lock can hold.
#[derive(Clone, Copy, Debug, PartialEq, Eq, Structural)]
pub enum ParameterValue {
    Percent(Percent),
    Waveform(Waveform),
    LeadSubMode(LeadSubMode),
    FmAlgorithm(FmAlgorithm),
    FmRatio(FmRatio),
    Chorus(ChorusMode),
}

impl ParameterValue {
    /// Whether a parameter takes values of this sort.
    pub open spec fn fits(self, id: ParameterId) -> bool {
        match self {
            ParameterValue::Waveform(_) => id == ParameterId::Waveform,
            ParameterValue::LeadSubMode(_) => id == ParameterId::LeadSubMode,
            ParameterValue::FmAlgorithm(_) => id == ParameterId::FmAlgorithm,
            ParameterValue::Chorus(_) => id == ParameterId::Chorus,
            ParameterValue::FmRatio(_) => ParameterId::is_ratio(id),
            ParameterValue::Percent(_) => !ParameterId::is_ratio(id) && id != ParameterId::Waveform
                && id != ParameterId::LeadSubMode && id != ParameterId::FmAlgorithm && id
                != ParameterId::Chorus,
        }
    }

    fn fits_parameter(self, id: ParameterId) -> (r: bool)
        ensures
            r == self.fits(id),
    {
        let ratio: bool = id == ParameterId::FmOp1Ratio || id == ParameterId::FmOp2Ratio || id
            == ParameterId::FmOp3Ratio || id == ParameterId::FmOp4Ratio;
        match self {
            ParameterValue::Waveform(_) => id == ParameterId::Waveform,
            ParameterValue::LeadSubMode(_) => id == ParameterId::LeadSubMode,
            ParameterValue::FmAlgorithm(_) => id == ParameterId::FmAlgorithm,
            ParameterValue::Chorus(_) => id == ParameterId::Chorus,
            ParameterValue::FmRatio(_) => ratio,
            ParameterValue::Percent(_) => !ratio && id != ParameterId::Waveform && id
                != ParameterId::LeadSubMode && id != ParameterId::FmAlgorithm && id
                != ParameterId::Chorus,
        }
    }
}

impl ParameterId {
    pub open spec fn is_ratio(id: ParameterId) -> bool {
        id == ParameterId::FmOp1Ratio || id == ParameterId::FmOp2Ratio || id
            == ParameterId::FmOp3Ratio || id == ParameterId::FmOp4Ratio
    }
}

/// The parameters that one step overrides, each with its value.
#[derive(Clone, Copy, Debug, PartialEq, Eq)]
pub struct ParameterLocks {
    values: [Option<ParameterValue>; PARAMETER_COUNT],
}

impl View for ParameterLocks {
    type V = Seq<Option<ParameterValue>>;

    /// The locked values by position.
    closed spec fn view(&self) -> Seq<Option<ParameterValue>> {
        self.values@
    }
}

/// The first value present, else the second.
pub open spec fn first_present<T>(over: Option<T>, base: Option<T>) -> Option<T> {
    if over is Some {
        over
    } else {
        base
    }
}

/// The locks of `over` on top of those of `base`.
pub open spec fn overlaid(
    base: Seq<Option<ParameterValue>>,
    over: Seq<Option<ParameterValue>>,
) -> Seq<Option<ParameterValue>> {
    Seq::new(base.len(), |i: int| first_present(over[i], base[i]))
}

/// No lock at all.
pub open spec fn unlocked() -> Seq<Option<ParameterValue>> {
    Seq::new(PARAMETER_COUNT as nat, |i: int| None)
}

impl ParameterLocks {
    pub open spec fn value_of(self, id: ParameterId) -> Option<ParameterValue> {
        self@[id.position()]
    }

    pub open spec fn percent_of(self, id: ParameterId) -> Option<Percent> {
        match self.value_of(id) {
            Some(ParameterValue::Percent(p)) => Some(p),
            _ => None,
        }
    }

    /// What the parameter is set to under these locks, given its own setting.
    pub open spec fn percent_or(self, id: ParameterId, base: Percent) -> Percent {
        match self.value_of(id) {
            Some(ParameterValue::Percent(p)) => p,
            _ => base,
        }
    }

    pub open spec fn waveform_or(self, base: Waveform) -> Waveform {
        match self.value_of(ParameterId::Waveform) {
            Some(ParameterValue::Waveform(v)) => v,
            _ => base,
        }
    }

    pub open spec fn lead_sub_mode_or(self, base: LeadSubMode) -> LeadSubMode {
        match self.value_of(ParameterId::LeadSubMode) {
            Some(ParameterValue::LeadSubMode(v)) => v,
            _ => base,
        }
    }

    pub open spec fn fm_algorithm_or(self, base: FmAlgorithm) -> FmAlgorithm {
        match self.value_of(ParameterId::FmAlgorithm) {
            Some(ParameterValue::FmAlgorithm(v)) => v,
            _ => base,
        }
    }

    pub open spec fn fm_ratio_or(self, id: ParameterId, base: FmRatio) -> FmRatio {
        match self.value_of(id) {
            Some(ParameterValue::FmRatio(v)) => v,
            _ => base,
        }
    }

    pub open spec fn chorus_or(self, base: ChorusMode) -> ChorusMode {
        match self.value_of(ParameterId::Chorus) {
            Some(ParameterValue::Chorus(v)) => v,
            _ => base,
        }
    }

    /// A set of locks is what it locks.
    pub proof fn determined_by_view(self, other: ParameterLocks)
        ensures
            self@ == other@ <==> self == other,
    {
        if self@ == other@ {
            assert forall|i: int| 0 <= i < PARAMETER_COUNT implies self.values[i]
                == other.values[i] by {
                assert(self@[i] == other@[i]);
            }
            assert(self.values =~= other.values);
        }
    }

    pub proof fn view_length(self)
        ensures
            self@.len() == PARAMETER_COUNT,
    {
    }

    pub fn new() -> (locks: ParameterLocks)
        ensures
            locks@ == unlocked(),
    {
        let locks = ParameterLocks { values: [None; PARAMETER_COUNT] };
        assert(locks@ =~= unlocked());
        locks
    }

    pub fn get(&self, id: ParameterId) -> (value: Option<ParameterValue>)
        ensures
            value == self.value_of(id),
    {
        self.values[id.index()]
    }

    /// Locks a parameter; refuses a value of the wrong sort.
    pub fn set(&mut self, id: ParameterId, value: ParameterValue) -> (accepted: bool)
        ensures
            accepted == value.fits(id),
            final(self)@ == if accepted {
                old(self)@.update(id.position(), Some(value))
            } else {
                old(self)@
            },
    {
        if !value.fits_parameter(id) {
            return false;
        }
        let index: usize = id.index();
        self.values[index] = Some(value);
        true
    }

    pub fn percent(&self, id: ParameterId) -> (value: Option<Percent>)
        ensures
            value == self.percent_of(id),
    {
        match self.get(id) {
            Some(ParameterValue::Percent(p)) => Some(p),
            _ => None,
        }
    }

    pub fn percent_under(&self, id: ParameterId, base: Percent) -> (value: Percent)
        ensures
            value == self.percent_or(id, base),
    {
        match self.get(id) {
            Some(ParameterValue::Percent(p)) => p,
            _ => base,
        }
    }

    pub fn waveform(&self, base: Waveform) -> (value: Waveform)
        ensures
            value == self.waveform_or(base),
    {
        match self.get(ParameterId::Waveform) {
            Some(ParameterValue::Waveform(v)) => v,
            _ => base,
        }
    }

    pub fn lead_sub_mode(&self, base: LeadSubMode) -> (value: LeadSubMode)
        ensures
            value == self.lead_sub_mode_or(base),
    {
        match self.get(ParameterId::LeadSubMode) {
            Some(ParameterValue::LeadSubMode(v)) => v,
            _ => base,
        }
    }

    pub fn fm_algorithm(&self, base: FmAlgorithm) -> (value: FmAlgorithm)
        ensures
            value == self.fm_algorithm_or(base),
    {
        match self.get(ParameterId::FmAlgorithm) {
            Some(ParameterValue::FmAlgorithm(v)) => v,
            _ => base,
        }
    }

    pub fn fm_ratio(&self, id: ParameterId, base: FmRatio) -> (value: FmRatio)
        ensures
            value == self.fm_ratio_or(id, base),
    {
        match self.get(id) {
            Some(ParameterValue::FmRatio(v)) => v,
            _ => base,
        }
    }

    pub fn chorus(&self, base: ChorusMode) -> (value: ChorusMode)
        ensures
            value == self.chorus_or(base),
    {
        match self.get(ParameterId::Chorus) {
            Some(ParameterValue::Chorus(v)) => v,
            _ => base,
        }
    }

    /// Lays `over` on top: what it locks wins, the rest stays.
    pub fn overlay(&self, over: &ParameterLocks) -> (merged: ParameterLocks)
        ensures
            merged@ == overlaid(self@, over@),
    {
        let mut merged = *self;
        let mut i: usize = 0;
        while i < PARAMETER_COUNT
            invariant
                i <= PARAMETER_COUNT,
                forall|j: int|
                    0 <= j < i ==> #[trigger] merged.values@[j] == first_present(over@[j], self@[j]),
                forall|j: int| i <= j < PARAMETER_COUNT ==> #[trigger] merged.values@[j] == self@[j],
            decreases PARAMETER_COUNT - i,
        {
            if over.values[i].is_some() {
                merged.values[i] = over.values[i];
            }
            i = i + 1;
        }
        assert(merged@ =~= overlaid(self@, over@));
        merged
    }

    /// Whether two sets lock the same parameters to the same values.
    pub fn same(&self, other: &ParameterLocks) -> (r: bool)
        ensures
            r == (*self == *other),
    {
        let mut i: usize = 0;
        while i < PARAMETER_COUNT
            invariant
                i <= PARAMETER_COUNT,
                forall|j: int| 0 <= j < i ==> #[trigger] self.values[j] == other.values[j],
            decreases PARAMETER_COUNT - i,
        {
            if self.values[i] != other.values[i] {
                return false;
            }
            i = i + 1;
        }
        assert(self.values =~= other.values);
        true
    }
}

/// The set of locks that locks these values.
pub open spec fn locks_valued(values: Seq<Option<ParameterValue>>) -> ParameterLocks {
    choose|locks: ParameterLocks| (#[trigger] locks@) == values
}

/// A set of locks is the one with its values.
pub proof fn locks_are_their_values(locks: ParameterLocks)
    ensures
        locks_valued(locks@) == locks,
{
    let chosen = locks_valued(locks@);
    assert(chosen@ == locks@);
    chosen.determined_by_view(locks);
}

/// Laying locks over others keeps every lock of the upper set, and shows the
/// lower set only through its gaps.
pub proof fn overlay_prefers_the_upper_locks(base: ParameterLocks, over: ParameterLocks, merged: ParameterLocks, id: ParameterId)
    requires
        merged@ == overlaid(base@, over@),
    ensures
        over.value_of(id) is Some ==> merged.value_of(id) == over.value_of(id),
        over.value_of(id) is None ==> merged.value_of(id) == base.value_of(id),
{
    positions_are_distinct(id, id);
    base.view_length();
}

} // verus!
