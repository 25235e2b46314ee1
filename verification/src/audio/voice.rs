//! One synthesiser voice: its gate, its note and the settings it plays.
use super::controls::{
    closed_mix, first_operators, initial_operators, mix_under, operators_under, resolve_mix, resolve_operators, sub_mode_of,
    sub_oscillator_mode, MixControls, OperatorBank,
};
use super::snapshot::{AudioProject, AudioTrack};
use crate::dsp::envelope::{BassAccentStage, EnvStage, EnvelopeProfile};
use crate::dsp::noise::NoiseSource;
use crate::model::event::SynthTrigger;
use crate::model::instrument::{
    BassParameters, ChordParameters, FmAlgorithm, FmParameters, Instrument, LeadParameters,
    SubOscillatorMode, Waveform,
};
use crate::model::parameter::{unlocked, ParameterId, ParameterLocks};
use crate::model::percent::Percent;
use crate::model::project::Globals;
use vstd::prelude::*;

verus! {

#[derive(Clone, Copy, Debug, PartialEq, Eq, Structural)]
pub enum SynthVoiceKind {
    Bass,
    Chord,
    Lead,
    Fm,
}

/// Place of a voice in the stereo spread of its shape.
#[derive(Clone, Copy, Debug, PartialEq, Eq, Structural)]
pub enum Spread {
    FarLeft,
    Left,
    Center,
    Right,
    FarRight,
}

impl Spread {
    /// Offset from the centre in ten-thousandths of a percent.
    pub open spec fn shift(self) -> int {
        match self {
            Spread::FarLeft => -500_000,
            Spread::Left => -166_667,
            Spread::Center => 0,
            Spread::Right => 166_667,
            Spread::FarRight => 500_000,
        }
    }

    pub fn offset(self) -> (r: i32)
        ensures
            r == self.shift(),
    {
        match self {
            Spread::FarLeft => -500_000,
            Spread::Left => -166_667,
            Spread::Center => 0,
            Spread::Right => 166_667,
            Spread::FarRight => 500_000,
        }
    }
}

pub open spec fn spread_of(voice_count: int, voice: int) -> Spread {
    if voice == 0 && 2 <= voice_count <= 4 {
        Spread::FarLeft
    } else if voice == voice_count - 1 && 2 <= voice_count <= 4 {
        Spread::FarRight
    } else if voice_count == 4 && voice == 1 {
        Spread::Left
    } else if voice_count == 4 && voice == 2 {
        Spread::Right
    } else {
        Spread::Center
    }
}

/// Spreads the voices of a shape over the stereo field.
pub fn voicing_pan_offset(voice_count: usize, voice: usize) -> (r: Spread)
    ensures
        r == spread_of(voice_count as int, voice as int),
{
    match (voice_count, voice) {
        (2, 0) | (3, 0) | (4, 0) => Spread::FarLeft,
        (2, 1) | (3, 2) | (4, 3) => Spread::FarRight,
        (4, 1) => Spread::Left,
        (4, 2) => Spread::Right,
        _ => Spread::Center,
    }
}

/// A shape is spread symmetrically: what one voice leans left, its mirror
/// leans right, and a single voice stays in the middle.
pub proof fn spread_is_symmetric(voice_count: int, voice: int)
    requires
        1 <= voice_count <= 4,
        0 <= voice < voice_count,
    ensures
        spread_of(voice_count, voice).shift() == -spread_of(
            voice_count,
            voice_count - 1 - voice,
        ).shift(),
        voice + 1 < voice_count ==> spread_of(voice_count, voice).shift() < spread_of(
            voice_count,
            voice + 1,
        ).shift(),
{
}

/// How a voice gets from its old pitch to a new one.
#[derive(Clone, Copy, Debug, PartialEq, Eq, Structural)]
pub enum Glide {
    Immediate,
    /// The fixed slide of the bass.
    BassSlide,
    /// A portamento whose time is a setting above zero.
    Portamento { time: u8 },
}

/// The note a voice was last given.
#[derive(Clone, Copy, Debug, PartialEq, Eq, Structural)]
pub struct NoteStart {
    pub midi: i32,
    pub glide: Glide,
    pub accent: bool,
    /// The note starts its envelopes anew and crosses over from the old one.
    pub hard: bool,
}

/// Settings that a voice heads for.
#[derive(Clone, Copy, Debug, PartialEq, Eq, Structural)]
pub struct SynthControls {
    pub mix: MixControls,
    pub noise: Percent,
    pub oscillator_mix: Percent,
    pub pulse_width: Percent,
    pub sub_oscillator: Percent,
    pub keyboard_tracking: Percent,
    pub cutoff: Percent,
    pub resonance: Percent,
    pub filter_envelope: Percent,
    pub bass_decay: Percent,
    pub attack: Percent,
    pub decay: Percent,
    pub sustain: Percent,
    pub release: Percent,
    pub wave: Waveform,
    pub sub_mode: SubOscillatorMode,
    pub fm_algorithm: FmAlgorithm,
    pub fm_operators: OperatorBank,
    pub fm_brightness: Percent,
}

#[derive(Clone, Copy, Debug)]
pub struct SynthVoice {
    pub kind: SynthVoiceKind,
    pub profile: EnvelopeProfile,
    pub controls: SynthControls,
    pub locks: ParameterLocks,
    /// Stage of the envelope of every kind but the bass.
    pub stage: EnvStage,
    /// Gate of the bass amplifier, and whether it is still heard.
    pub vca_gate: bool,
    pub vca_audible: bool,
    pub accent_stage: BassAccentStage,
    pub active: bool,
    pub idle_cleanup_done: bool,
    pub remaining: u32,
    pub slide_armed: bool,
    pub spread: Spread,
    pub note: NoteStart,
    pub noise: NoiseSource,
}

/// The settings of a voice that has not sounded.
pub open spec fn fresh_controls() -> SynthControls {
    SynthControls {
        mix: closed_mix(),
        noise: Percent::at(0),
        oscillator_mix: Percent::at(70),
        pulse_width: Percent::at(50),
        sub_oscillator: Percent::at(0),
        keyboard_tracking: Percent::at(50),
        cutoff: Percent::at(65),
        resonance: Percent::at(10),
        filter_envelope: Percent::at(25),
        bass_decay: Percent::at(40),
        attack: Percent::at(0),
        decay: Percent::at(25),
        sustain: Percent::at(70),
        release: Percent::at(15),
        wave: Waveform::Saw,
        sub_mode: SubOscillatorMode::OneOctave,
        fm_algorithm: FmAlgorithm::Cascade,
        fm_operators: first_operators(),
        fm_brightness: Percent::at(72),
    }
}

/// Portamento time of a lead under the locks of the note it leaves.
pub open spec fn portamento_under(instrument: Instrument, locks: ParameterLocks) -> int {
    match instrument {
        Instrument::Lead(p) => locks.percent_or(ParameterId::PortamentoTime, p.portamento_time)@,
        _ => 0,
    }
}

impl SynthVoice {
    pub open spec fn idle(self) -> bool {
        if self.kind == SynthVoiceKind::Bass {
            !self.vca_gate && !self.vca_audible
        } else {
            self.stage == EnvStage::Idle
        }
    }

    /// The voice after its gate closes.
    pub open spec fn gated_off(self) -> SynthVoice {
        if self.kind == SynthVoiceKind::Bass {
            SynthVoice { vca_gate: false, ..self }
        } else {
            SynthVoice { stage: self.stage.released(), ..self }
        }
    }

    /// The voice after its note ends.
    pub open spec fn note_ended(self) -> SynthVoice {
        SynthVoice { active: false, ..self.gated_off() }
    }

    /// The voice after it was silenced.
    pub open spec fn silenced(self) -> SynthVoice {
        SynthVoice {
            stage: EnvStage::Idle,
            active: false,
            idle_cleanup_done: true,
            remaining: 0,
            spread: Spread::Center,
            ..self
        }
    }

    /// The voice under a track's settings and the locks of a step. A drum
    /// track has no such voice and leaves it alone.
    pub open spec fn configured(self, track: AudioTrack, locks: ParameterLocks) -> SynthVoice {
        let mix = mix_under(track, locks);
        match track.instrument {
            Instrument::Fm(p) => SynthVoice {
                kind: SynthVoiceKind::Fm,
                profile: EnvelopeProfile::Generic,
                controls: SynthControls {
                    mix,
                    fm_algorithm: locks.fm_algorithm_or(p.algorithm),
                    fm_operators: operators_under(p.operators@, locks),
                    fm_brightness: locks.percent_or(ParameterId::Brightness, p.brightness),
                    attack: locks.percent_or(ParameterId::Attack, p.attack),
                    decay: locks.percent_or(ParameterId::Decay, p.decay),
                    sustain: locks.percent_or(ParameterId::Sustain, p.sustain),
                    release: locks.percent_or(ParameterId::Release, p.release),
                    ..self.controls
                },
                locks,
                ..self
            },
            Instrument::Bass(p) => SynthVoice {
                kind: SynthVoiceKind::Bass,
                controls: SynthControls {
                    mix,
                    sub_mode: SubOscillatorMode::OneOctave,
                    noise: Percent::at(0),
                    wave: locks.waveform_or(p.waveform),
                    bass_decay: locks.percent_or(ParameterId::Decay, p.decay),
                    cutoff: locks.percent_or(ParameterId::Cutoff, p.cutoff),
                    resonance: locks.percent_or(ParameterId::Resonance, p.resonance),
                    filter_envelope: locks.percent_or(
                        ParameterId::FilterEnvelope,
                        p.filter_envelope,
                    ),
                    ..self.controls
                },
                locks,
                ..self
            },
            Instrument::Chord(p) => SynthVoice {
                kind: SynthVoiceKind::Chord,
                profile: EnvelopeProfile::Chord,
                controls: SynthControls {
                    mix,
                    sub_mode: SubOscillatorMode::OneOctave,
                    noise: locks.percent_or(ParameterId::Noise, p.noise),
                    oscillator_mix: locks.percent_or(ParameterId::OscillatorMix, p.oscillator_mix),
                    pulse_width: locks.percent_or(ParameterId::PulseWidth, p.pulse_width),
                    sub_oscillator: locks.percent_or(ParameterId::SubOscillator, p.sub_oscillator),
                    cutoff: locks.percent_or(ParameterId::Cutoff, p.cutoff),
                    resonance: locks.percent_or(ParameterId::Resonance, p.resonance),
                    filter_envelope: locks.percent_or(
                        ParameterId::FilterEnvelope,
                        p.filter_envelope,
                    ),
                    attack: locks.percent_or(ParameterId::Attack, p.attack),
                    decay: locks.percent_or(ParameterId::Decay, p.decay),
                    sustain: locks.percent_or(ParameterId::Sustain, p.sustain),
                    release: locks.percent_or(ParameterId::Release, p.release),
                    ..self.controls
                },
                locks,
                ..self
            },
            Instrument::Lead(p) => SynthVoice {
                kind: SynthVoiceKind::Lead,
                profile: EnvelopeProfile::Lead,
                controls: SynthControls {
                    mix,
                    sub_mode: sub_mode_of(locks.lead_sub_mode_or(p.sub_mode)),
                    noise: locks.percent_or(ParameterId::Noise, p.noise),
                    keyboard_tracking: locks.percent_or(
                        ParameterId::KeyboardTracking,
                        p.keyboard_tracking,
                    ),
                    oscillator_mix: locks.percent_or(ParameterId::OscillatorMix, p.oscillator_mix),
                    pulse_width: locks.percent_or(ParameterId::PulseWidth, p.pulse_width),
                    sub_oscillator: locks.percent_or(ParameterId::SubOscillator, p.sub_oscillator),
                    cutoff: locks.percent_or(ParameterId::Cutoff, p.cutoff),
                    resonance: locks.percent_or(ParameterId::Resonance, p.resonance),
                    filter_envelope: locks.percent_or(
                        ParameterId::FilterEnvelope,
                        p.filter_envelope,
                    ),
                    attack: locks.percent_or(ParameterId::Attack, p.attack),
                    decay: locks.percent_or(ParameterId::Decay, p.decay),
                    sustain: locks.percent_or(ParameterId::Sustain, p.sustain),
                    release: locks.percent_or(ParameterId::Release, p.release),
                    ..self.controls
                },
                locks,
                ..self
            },
            _ => self,
        }
    }

    /// A note slides in where the voice still holds one that asked for it.
    pub open spec fn legato(self, instrument: Instrument) -> bool {
        (instrument is Bass || instrument is Lead) && self.active && self.slide_armed
    }

    pub open spec fn glide_for(self, instrument: Instrument) -> Glide {
        if !self.legato(instrument) {
            Glide::Immediate
        } else if instrument is Bass {
            Glide::BassSlide
        } else if portamento_under(instrument, self.locks) > 0 {
            Glide::Portamento { time: portamento_under(instrument, self.locks) as u8 }
        } else {
            Glide::Immediate
        }
    }

    /// The voice after a note started on it.
    pub open spec fn note_started(
        self,
        track: AudioTrack,
        midi: i32,
        trigger: SynthTrigger,
        locks: ParameterLocks,
    ) -> SynthVoice {
        let hard = !self.legato(track.instrument);
        let next = self.configured(track, locks);
        SynthVoice {
            idle_cleanup_done: false,
            accent_stage: if next.kind == SynthVoiceKind::Bass {
                BassAccentStage::triggered(trigger.accent)
            } else {
                next.accent_stage
            },
            vca_gate: if next.kind == SynthVoiceKind::Bass && !(track.instrument is Bass && !hard) {
                true
            } else {
                next.vca_gate
            },
            stage: if next.kind != SynthVoiceKind::Bass && hard {
                EnvStage::Attack
            } else {
                next.stage
            },
            slide_armed: (next.kind == SynthVoiceKind::Bass || next.kind == SynthVoiceKind::Lead)
                && trigger.slide,
            active: true,
            note: NoteStart {
                midi,
                glide: self.glide_for(track.instrument),
                accent: trigger.accent,
                hard,
            },
            ..next
        }
    }

    /// One sample of a timed note: its gate closes as the count runs out.
    pub open spec fn gate_advanced(self) -> SynthVoice {
        if self.remaining == 0 {
            self
        } else if self.remaining == 1 {
            SynthVoice { remaining: 0, ..self }.note_ended()
        } else {
            SynthVoice { remaining: (self.remaining - 1) as u32, ..self }
        }
    }

    /// Where the voice stands in the stereo field, in ten-thousandths of a
    /// percent from the left.
    pub open spec fn stereo_position(self) -> int {
        let shift = if self.kind == SynthVoiceKind::Chord || self.kind == SynthVoiceKind::Fm {
            self.spread.shift()
        } else {
            0
        };
        let position = self.controls.mix.pan@ * 10_000 + shift;
        if position < 0 {
            0
        } else if position > 1_000_000 {
            1_000_000
        } else {
            position
        }
    }

    /// That the amplifier of a bass would be closed and silent here.
    pub open spec fn amplifier_closed(self) -> bool {
        !self.vca_gate && !self.vca_audible
    }

    /// A voice that has not sounded, with its own noise.
    pub open spec fn is_fresh(self, seed: u32) -> bool {
        &&& self.kind == SynthVoiceKind::Bass
        &&& self.profile == EnvelopeProfile::Generic
        &&& self.controls == fresh_controls()
        &&& self.locks@ == unlocked()
        &&& self.stage == EnvStage::Idle
        &&& self.amplifier_closed()
        &&& self.accent_stage == BassAccentStage::Idle
        &&& !self.active
        &&& self.idle_cleanup_done
        &&& self.remaining == 0
        &&& !self.slide_armed
        &&& self.spread == Spread::Center
        &&& self.note == (NoteStart {
            midi: 45,
            glide: Glide::Immediate,
            accent: false,
            hard: true,
        })
        &&& self.noise.state() == if seed == 0 {
            crate::dsp::noise::FALLBACK_SEED
        } else {
            seed
        }
    }

    pub fn new_with_seed(seed: u32) -> (voice: SynthVoice)
        ensures
            voice.is_fresh(seed),
            voice.idle(),
    {
        SynthVoice {
            kind: SynthVoiceKind::Bass,
            profile: EnvelopeProfile::Generic,
            controls: SynthControls {
                mix: MixControls::closed(),
                noise: Percent::zero(),
                oscillator_mix: Percent::exactly(70),
                pulse_width: Percent::exactly(50),
                sub_oscillator: Percent::zero(),
                keyboard_tracking: Percent::exactly(50),
                cutoff: Percent::exactly(65),
                resonance: Percent::exactly(10),
                filter_envelope: Percent::exactly(25),
                bass_decay: Percent::exactly(40),
                attack: Percent::zero(),
                decay: Percent::exactly(25),
                sustain: Percent::exactly(70),
                release: Percent::exactly(15),
                wave: Waveform::Saw,
                sub_mode: SubOscillatorMode::OneOctave,
                fm_algorithm: FmAlgorithm::Cascade,
                fm_operators: initial_operators(),
                fm_brightness: Percent::exactly(72),
            },
            locks: ParameterLocks::new(),
            stage: EnvStage::Idle,
            vca_gate: false,
            vca_audible: false,
            accent_stage: BassAccentStage::Idle,
            active: false,
            idle_cleanup_done: true,
            remaining: 0,
            slide_armed: false,
            spread: Spread::Center,
            note: NoteStart { midi: 45, glide: Glide::Immediate, accent: false, hard: true },
            noise: NoiseSource::new(seed),
        }
    }

    pub fn is_idle(&self) -> (r: bool)
        ensures
            r == self.idle(),
    {
        if self.kind == SynthVoiceKind::Bass {
            !self.vca_gate && !self.vca_audible
        } else {
            self.stage == EnvStage::Idle
        }
    }

    pub fn gate_off(&mut self)
        ensures
            *final(self) == old(self).gated_off(),
    {
        if self.kind == SynthVoiceKind::Bass {
            self.vca_gate = false;
        } else {
            self.stage = self.stage.gate_off();
        }
    }

    /// Releases the voice and forgets its note.
    pub fn end_note(&mut self)
        ensures
            *final(self) == old(self).note_ended(),
    {
        self.gate_off();
        self.active = false;
    }

    pub fn reset_to_idle(&mut self)
        ensures
            *final(self) == old(self).silenced(),
            final(self).kind != SynthVoiceKind::Bass ==> final(self).idle(),
    {
        self.stage = EnvStage::Idle;
        self.active = false;
        self.idle_cleanup_done = true;
        self.remaining = 0;
        self.spread = Spread::Center;
    }

    /// Counts one sample of a timed note.
    pub fn advance_voice_gate(&mut self)
        ensures
            *final(self) == old(self).gate_advanced(),
    {
        if self.remaining > 0 {
            self.remaining = self.remaining - 1;
            if self.remaining == 0 {
                self.end_note();
            }
        }
    }

    /// Takes over what one sample of the envelope found.
    pub fn observe_envelope(&mut self, reached: bool)
        ensures
            *final(self) == (SynthVoice {
                stage: old(self).stage.advanced(reached),
                ..*old(self)
            }),
    {
        self.stage = self.stage.advance(reached);
    }

    /// Takes over whether the bass amplifier is still heard.
    pub fn observe_vca(&mut self, audible: bool)
        ensures
            *final(self) == (SynthVoice { vca_audible: audible, ..*old(self) }),
    {
        self.vca_audible = audible;
    }

    pub fn pan_position(&self) -> (r: u32)
        ensures
            r == self.stereo_position(),
            r <= 1_000_000,
    {
        let shift: i32 = if self.kind == SynthVoiceKind::Chord || self.kind == SynthVoiceKind::Fm {
            self.spread.offset()
        } else {
            0
        };
        let position: i32 = (self.controls.mix.pan.get() as i32) * 10_000 + shift;
        if position < 0 {
            0
        } else if position > 1_000_000 {
            1_000_000
        } else {
            position as u32
        }
    }

    /// Sets what the voice heads for under a track's settings and the locks
    /// of a step.
    pub fn apply_synth_params_core(&mut self, track: &AudioTrack, locks: &ParameterLocks)
        ensures
            *final(self) == old(self).configured(*track, *locks),
    {
        match &track.instrument {
            Instrument::Fm(p) => {
                *self = self.with_fm(track, p, locks);
            },
            Instrument::Bass(p) => {
                *self = self.with_bass(track, p, locks);
            },
            Instrument::Chord(p) => {
                *self = self.with_chord(track, p, locks);
            },
            Instrument::Lead(p) => {
                *self = self.with_lead(track, p, locks);
            },
            _ => {},
        }
    }

    fn with_fm(&self, track: &AudioTrack, p: &FmParameters, locks: &ParameterLocks) -> (r: SynthVoice)
        requires
            track.instrument == Instrument::Fm(*p),
        ensures
            r == self.configured(*track, *locks),
    {
        SynthVoice {
            kind: SynthVoiceKind::Fm,
            profile: EnvelopeProfile::Generic,
            controls: SynthControls {
                mix: resolve_mix(track, locks),
                fm_algorithm: locks.fm_algorithm(p.algorithm),
                fm_operators: resolve_operators(&p.operators, locks),
                fm_brightness: locks.percent_under(ParameterId::Brightness, p.brightness),
                attack: locks.percent_under(ParameterId::Attack, p.attack),
                decay: locks.percent_under(ParameterId::Decay, p.decay),
                sustain: locks.percent_under(ParameterId::Sustain, p.sustain),
                release: locks.percent_under(ParameterId::Release, p.release),
                ..self.controls
            },
            locks: *locks,
            ..*self
        }
    }

    fn with_bass(&self, track: &AudioTrack, p: &BassParameters, locks: &ParameterLocks) -> (r:
        SynthVoice)
        requires
            track.instrument == Instrument::Bass(*p),
        ensures
            r == self.configured(*track, *locks),
    {
        SynthVoice {
            kind: SynthVoiceKind::Bass,
            controls: SynthControls {
                mix: resolve_mix(track, locks),
                sub_mode: SubOscillatorMode::OneOctave,
                noise: Percent::zero(),
                wave: locks.waveform(p.waveform),
                bass_decay: locks.percent_under(ParameterId::Decay, p.decay),
                cutoff: locks.percent_under(ParameterId::Cutoff, p.cutoff),
                resonance: locks.percent_under(ParameterId::Resonance, p.resonance),
                filter_envelope: locks.percent_under(
                    ParameterId::FilterEnvelope,
                    p.filter_envelope,
                ),
                ..self.controls
            },
            locks: *locks,
            ..*self
        }
    }

    fn with_chord(&self, track: &AudioTrack, p: &ChordParameters, locks: &ParameterLocks) -> (r:
        SynthVoice)
        requires
            track.instrument == Instrument::Chord(*p),
        ensures
            r == self.configured(*track, *locks),
    {
        SynthVoice {
            kind: SynthVoiceKind::Chord,
            profile: EnvelopeProfile::Chord,
            controls: SynthControls {
                mix: resolve_mix(track, locks),
                sub_mode: SubOscillatorMode::OneOctave,
                noise: locks.percent_under(ParameterId::Noise, p.noise),
                oscillator_mix: locks.percent_under(ParameterId::OscillatorMix, p.oscillator_mix),
                pulse_width: locks.percent_under(ParameterId::PulseWidth, p.pulse_width),
                sub_oscillator: locks.percent_under(ParameterId::SubOscillator, p.sub_oscillator),
                cutoff: locks.percent_under(ParameterId::Cutoff, p.cutoff),
                resonance: locks.percent_under(ParameterId::Resonance, p.resonance),
                filter_envelope: locks.percent_under(
                    ParameterId::FilterEnvelope,
                    p.filter_envelope,
                ),
                attack: locks.percent_under(ParameterId::Attack, p.attack),
                decay: locks.percent_under(ParameterId::Decay, p.decay),
                sustain: locks.percent_under(ParameterId::Sustain, p.sustain),
                release: locks.percent_under(ParameterId::Release, p.release),
                ..self.controls
            },
            locks: *locks,
            ..*self
        }
    }

    fn with_lead(&self, track: &AudioTrack, p: &LeadParameters, locks: &ParameterLocks) -> (r:
        SynthVoice)
        requires
            track.instrument == Instrument::Lead(*p),
        ensures
            r == self.configured(*track, *locks),
    {
        SynthVoice {
            kind: SynthVoiceKind::Lead,
            profile: EnvelopeProfile::Lead,
            controls: SynthControls {
                mix: resolve_mix(track, locks),
                sub_mode: sub_oscillator_mode(locks.lead_sub_mode(p.sub_mode)),
                noise: locks.percent_under(ParameterId::Noise, p.noise),
                keyboard_tracking: locks.percent_under(
                    ParameterId::KeyboardTracking,
                    p.keyboard_tracking,
                ),
                oscillator_mix: locks.percent_under(ParameterId::OscillatorMix, p.oscillator_mix),
                pulse_width: locks.percent_under(ParameterId::PulseWidth, p.pulse_width),
                sub_oscillator: locks.percent_under(ParameterId::SubOscillator, p.sub_oscillator),
                cutoff: locks.percent_under(ParameterId::Cutoff, p.cutoff),
                resonance: locks.percent_under(ParameterId::Resonance, p.resonance),
                filter_envelope: locks.percent_under(
                    ParameterId::FilterEnvelope,
                    p.filter_envelope,
                ),
                attack: locks.percent_under(ParameterId::Attack, p.attack),
                decay: locks.percent_under(ParameterId::Decay, p.decay),
                sustain: locks.percent_under(ParameterId::Sustain, p.sustain),
                release: locks.percent_under(ParameterId::Release, p.release),
                ..self.controls
            },
            locks: *locks,
            ..*self
        }
    }

    /// Starts a note at a pitch. A bass or lead that still holds a sliding
    /// note moves on without a new attack.
    pub fn start_note(
        &mut self,
        track: &AudioTrack,
        midi: i32,
        trigger: &SynthTrigger,
        locks: &ParameterLocks,
    )
        ensures
            *final(self) == old(self).note_started(*track, midi, *trigger, *locks),
    {
        let bass_track: bool = match track.instrument {
            Instrument::Bass(_) => true,
            _ => false,
        };
        let lead_track: bool = match track.instrument {
            Instrument::Lead(_) => true,
            _ => false,
        };
        let legato_slide: bool = bass_track && self.active && self.slide_armed;
        let lead_legato: bool = lead_track && self.active && self.slide_armed;
        let hard: bool = !legato_slide && !lead_legato;
        let lead_time: u8 = match track.instrument {
            Instrument::Lead(p) => self.locks.percent_under(
                ParameterId::PortamentoTime,
                p.portamento_time,
            ).get(),
            _ => 0,
        };
        let glide = if legato_slide {
            Glide::BassSlide
        } else if lead_legato && lead_time > 0 {
            Glide::Portamento { time: lead_time }
        } else {
            Glide::Immediate
        };
        self.apply_synth_params_core(track, locks);
        self.idle_cleanup_done = false;
        if self.kind == SynthVoiceKind::Bass {
            self.accent_stage = BassAccentStage::trigger(trigger.accent);
            if !legato_slide {
                self.vca_gate = true;
            }
        } else if hard {
            self.stage = self.stage.gate_on();
        }
        self.slide_armed = (self.kind == SynthVoiceKind::Bass || self.kind == SynthVoiceKind::Lead)
            && trigger.slide;
        self.active = true;
        self.note = NoteStart { midi, glide, accent: trigger.accent, hard };
    }
}

/// The pitch of a degree of the project's scale.
pub open spec fn degree_midi(globals: Globals, degree: int, octave: int) -> int {
    12 * (octave + 1) + globals.key + globals.scale.semitones()[degree - 1]
}

pub fn note_midi(globals: &Globals, degree: u8, octave: u8) -> (midi: i32)
    requires
        globals.wf(),
        1 <= degree <= 8,
    ensures
        midi == degree_midi(*globals, degree as int, octave as int),
{
    12 * (octave as i32 + 1) + globals.key as i32 + globals.scale.offset(degree as usize - 1)
}

/// Starts the note of a trigger on a voice that plays one note at a time.
pub fn configure_synth_voice(
    project: &AudioProject,
    track: usize,
    trigger: &SynthTrigger,
    locks: &ParameterLocks,
    voice: &mut SynthVoice,
)
    requires
        project@.globals.wf(),
        track < project@.tracks.len(),
        trigger.wf(),
    ensures
        *final(voice) == old(voice).note_started(
            project@.tracks[track as int],
            degree_midi(project@.globals, trigger.degree as int, trigger.octave as int) as i32,
            *trigger,
            *locks,
        ),
{
    let midi: i32 = note_midi(&project.globals, trigger.degree, trigger.octave);
    voice.start_note(&project.tracks[track], midi, trigger, locks);
}

/// A slid note restarts neither the envelope of a sounding lead nor that of a
/// sounding bass: it is heard as one phrase.
pub proof fn slides_do_not_retrigger(
    voice: SynthVoice,
    track: AudioTrack,
    midi: i32,
    trigger: SynthTrigger,
    locks: ParameterLocks,
)
    requires
        voice.legato(track.instrument),
    ensures
        voice.note_started(track, midi, trigger, locks).stage == voice.stage,
        voice.note_started(track, midi, trigger, locks).vca_gate == voice.vca_gate,
        !voice.note_started(track, midi, trigger, locks).note.hard,
{
}

/// A note that nothing slides into is heard from its attack.
pub proof fn hard_notes_sound(
    voice: SynthVoice,
    track: AudioTrack,
    midi: i32,
    trigger: SynthTrigger,
    locks: ParameterLocks,
)
    requires
        !voice.legato(track.instrument),
        track.instrument is Bass || track.instrument is Chord || track.instrument is Lead
            || track.instrument is Fm,
    ensures
        !voice.note_started(track, midi, trigger, locks).idle(),
        voice.note_started(track, midi, trigger, locks).note.glide == Glide::Immediate,
{
}

} // verus!
