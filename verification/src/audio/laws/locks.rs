//! How the locks of a step reach what sounds: where a step locks a parameter
//! the lock is heard, and where it does not the track's own setting is.
use crate::audio::controls::{
    drum_controls_under, effects_under, mix_under, DrumControl, DrumVoiceKind,
};
use crate::audio::slot::DrumVoice;
use crate::audio::snapshot::AudioTrack;
use crate::audio::voice::{Glide, SynthVoice, SynthVoiceKind};
use crate::dsp::envelope::EnvelopeProfile;
use crate::model::event::SynthTrigger;
use crate::model::instrument::{
    BassParameters, ChordParameters, DrumRecipeSlot, FmParameters, HatParameters, Instrument,
    KickParameters, LeadParameters, LeadSubMode, SnareParameters, SubOscillatorMode, TomParameters,
    TonedDrum, TrackEffects,
};
use crate::model::parameter::{ParameterId, ParameterLocks, ParameterValue};
use crate::model::percent::Percent;
use vstd::prelude::*;

verus! {

/// A bass voice heads for what its locks hold of each bass parameter, and for
/// the track's own setting where they hold nothing.
pub proof fn bass_voices_hear_their_locks(
    voice: SynthVoice,
    track: AudioTrack,
    p: BassParameters,
    locks: ParameterLocks,
)
    requires
        track.instrument == Instrument::Bass(p),
    ensures
        ({
            let v = voice.configured(track, locks);
            &&& locks@[ParameterId::Waveform.position()] matches Some(ParameterValue::Waveform(value)) ==> v.controls.wave == value
            &&& locks@[ParameterId::Waveform.position()] is None ==> v.controls.wave == p.waveform
            &&& locks@[ParameterId::Decay.position()] matches Some(ParameterValue::Percent(value)) ==> v.controls.bass_decay == value
            &&& locks@[ParameterId::Decay.position()] is None ==> v.controls.bass_decay == p.decay
            &&& locks@[ParameterId::Cutoff.position()] matches Some(ParameterValue::Percent(value)) ==> v.controls.cutoff == value
            &&& locks@[ParameterId::Cutoff.position()] is None ==> v.controls.cutoff == p.cutoff
            &&& locks@[ParameterId::Resonance.position()] matches Some(ParameterValue::Percent(value)) ==> v.controls.resonance == value
            &&& locks@[ParameterId::Resonance.position()] is None ==> v.controls.resonance == p.resonance
            &&& locks@[ParameterId::FilterEnvelope.position()] matches Some(ParameterValue::Percent(value)) ==> v.controls.filter_envelope == value
            &&& locks@[ParameterId::FilterEnvelope.position()] is None ==> v.controls.filter_envelope == p.filter_envelope
            &&& v.kind == SynthVoiceKind::Bass
            &&& v.controls.sub_mode == SubOscillatorMode::OneOctave
            &&& v.controls.noise == Percent::at(0)
            &&& v.locks == locks
            &&& v.stage == voice.stage
            &&& v.active == voice.active
            &&& v.note == voice.note
            &&& v.remaining == voice.remaining
            &&& v.slide_armed == voice.slide_armed
            &&& v.spread == voice.spread
        }),
{
    locks.view_length();
}

/// A chord voice heads for what its locks hold of each chord parameter, and
/// for the track's own setting where they hold nothing.
pub proof fn chord_voices_hear_their_locks(
    voice: SynthVoice,
    track: AudioTrack,
    p: ChordParameters,
    locks: ParameterLocks,
)
    requires
        track.instrument == Instrument::Chord(p),
    ensures
        ({
            let v = voice.configured(track, locks);
            &&& locks@[ParameterId::Noise.position()] matches Some(ParameterValue::Percent(value)) ==> v.controls.noise == value
            &&& locks@[ParameterId::Noise.position()] is None ==> v.controls.noise == p.noise
            &&& locks@[ParameterId::OscillatorMix.position()] matches Some(ParameterValue::Percent(value)) ==> v.controls.oscillator_mix == value
            &&& locks@[ParameterId::OscillatorMix.position()] is None ==> v.controls.oscillator_mix == p.oscillator_mix
            &&& locks@[ParameterId::PulseWidth.position()] matches Some(ParameterValue::Percent(value)) ==> v.controls.pulse_width == value
            &&& locks@[ParameterId::PulseWidth.position()] is None ==> v.controls.pulse_width == p.pulse_width
            &&& locks@[ParameterId::SubOscillator.position()] matches Some(ParameterValue::Percent(value)) ==> v.controls.sub_oscillator == value
            &&& locks@[ParameterId::SubOscillator.position()] is None ==> v.controls.sub_oscillator == p.sub_oscillator
            &&& locks@[ParameterId::Cutoff.position()] matches Some(ParameterValue::Percent(value)) ==> v.controls.cutoff == value
            &&& locks@[ParameterId::Cutoff.position()] is None ==> v.controls.cutoff == p.cutoff
            &&& locks@[ParameterId::Resonance.position()] matches Some(ParameterValue::Percent(value)) ==> v.controls.resonance == value
            &&& locks@[ParameterId::Resonance.position()] is None ==> v.controls.resonance == p.resonance
            &&& locks@[ParameterId::FilterEnvelope.position()] matches Some(ParameterValue::Percent(value)) ==> v.controls.filter_envelope == value
            &&& locks@[ParameterId::FilterEnvelope.position()] is None ==> v.controls.filter_envelope == p.filter_envelope
            &&& locks@[ParameterId::Attack.position()] matches Some(ParameterValue::Percent(value)) ==> v.controls.attack == value
            &&& locks@[ParameterId::Attack.position()] is None ==> v.controls.attack == p.attack
            &&& locks@[ParameterId::Decay.position()] matches Some(ParameterValue::Percent(value)) ==> v.controls.decay == value
            &&& locks@[ParameterId::Decay.position()] is None ==> v.controls.decay == p.decay
            &&& locks@[ParameterId::Sustain.position()] matches Some(ParameterValue::Percent(value)) ==> v.controls.sustain == value
            &&& locks@[ParameterId::Sustain.position()] is None ==> v.controls.sustain == p.sustain
            &&& locks@[ParameterId::Release.position()] matches Some(ParameterValue::Percent(value)) ==> v.controls.release == value
            &&& locks@[ParameterId::Release.position()] is None ==> v.controls.release == p.release
            &&& v.kind == SynthVoiceKind::Chord
            &&& v.profile == EnvelopeProfile::Chord
            &&& v.controls.sub_mode == SubOscillatorMode::OneOctave
            &&& v.locks == locks
            &&& v.stage == voice.stage
            &&& v.active == voice.active
            &&& v.note == voice.note
            &&& v.remaining == voice.remaining
            &&& v.slide_armed == voice.slide_armed
            &&& v.spread == voice.spread
        }),
{
    locks.view_length();
}

/// A lead voice heads for what its locks hold of each lead parameter, and for
/// the track's own setting where they hold nothing.
pub proof fn lead_voices_hear_their_locks(
    voice: SynthVoice,
    track: AudioTrack,
    p: LeadParameters,
    locks: ParameterLocks,
)
    requires
        track.instrument == Instrument::Lead(p),
    ensures
        ({
            let v = voice.configured(track, locks);
            &&& locks@[ParameterId::Noise.position()] matches Some(ParameterValue::Percent(value)) ==> v.controls.noise == value
            &&& locks@[ParameterId::Noise.position()] is None ==> v.controls.noise == p.noise
            &&& locks@[ParameterId::OscillatorMix.position()] matches Some(ParameterValue::Percent(value)) ==> v.controls.oscillator_mix == value
            &&& locks@[ParameterId::OscillatorMix.position()] is None ==> v.controls.oscillator_mix == p.oscillator_mix
            &&& locks@[ParameterId::PulseWidth.position()] matches Some(ParameterValue::Percent(value)) ==> v.controls.pulse_width == value
            &&& locks@[ParameterId::PulseWidth.position()] is None ==> v.controls.pulse_width == p.pulse_width
            &&& locks@[ParameterId::SubOscillator.position()] matches Some(ParameterValue::Percent(value)) ==> v.controls.sub_oscillator == value
            &&& locks@[ParameterId::SubOscillator.position()] is None ==> v.controls.sub_oscillator == p.sub_oscillator
            &&& locks@[ParameterId::Cutoff.position()] matches Some(ParameterValue::Percent(value)) ==> v.controls.cutoff == value
            &&& locks@[ParameterId::Cutoff.position()] is None ==> v.controls.cutoff == p.cutoff
            &&& locks@[ParameterId::Resonance.position()] matches Some(ParameterValue::Percent(value)) ==> v.controls.resonance == value
            &&& locks@[ParameterId::Resonance.position()] is None ==> v.controls.resonance == p.resonance
            &&& locks@[ParameterId::FilterEnvelope.position()] matches Some(ParameterValue::Percent(value)) ==> v.controls.filter_envelope == value
            &&& locks@[ParameterId::FilterEnvelope.position()] is None ==> v.controls.filter_envelope == p.filter_envelope
            &&& locks@[ParameterId::Attack.position()] matches Some(ParameterValue::Percent(value)) ==> v.controls.attack == value
            &&& locks@[ParameterId::Attack.position()] is None ==> v.controls.attack == p.attack
            &&& locks@[ParameterId::Decay.position()] matches Some(ParameterValue::Percent(value)) ==> v.controls.decay == value
            &&& locks@[ParameterId::Decay.position()] is None ==> v.controls.decay == p.decay
            &&& locks@[ParameterId::Sustain.position()] matches Some(ParameterValue::Percent(value)) ==> v.controls.sustain == value
            &&& locks@[ParameterId::Sustain.position()] is None ==> v.controls.sustain == p.sustain
            &&& locks@[ParameterId::Release.position()] matches Some(ParameterValue::Percent(value)) ==> v.controls.release == value
            &&& locks@[ParameterId::Release.position()] is None ==> v.controls.release == p.release
            &&& locks@[ParameterId::KeyboardTracking.position()] matches Some(ParameterValue::Percent(value)) ==> v.controls.keyboard_tracking == value
            &&& locks@[ParameterId::KeyboardTracking.position()] is None ==> v.controls.keyboard_tracking == p.keyboard_tracking
            &&& v.kind == SynthVoiceKind::Lead
            &&& v.profile == EnvelopeProfile::Lead
            &&& v.locks == locks
            &&& v.stage == voice.stage
            &&& v.active == voice.active
            &&& v.note == voice.note
            &&& v.remaining == voice.remaining
            &&& v.slide_armed == voice.slide_armed
            &&& v.spread == voice.spread
        }),
{
    locks.view_length();
}

/// The sub oscillator of a lead runs an octave or two below as its lock says,
/// else as the track does; only the narrow pulse is narrow.
pub proof fn lead_voices_hear_their_sub_mode(
    voice: SynthVoice,
    track: AudioTrack,
    p: LeadParameters,
    locks: ParameterLocks,
    mode: LeadSubMode,
)
    requires
        track.instrument == Instrument::Lead(p),
        locks@[ParameterId::LeadSubMode.position()] == Some(ParameterValue::LeadSubMode(mode)) || (
        locks@[ParameterId::LeadSubMode.position()] is None && p.sub_mode == mode),
    ensures
        ({
            let heard = voice.configured(track, locks).controls.sub_mode;
            &&& heard == SubOscillatorMode::OneOctave <==> mode == LeadSubMode::OneOctaveSquare
            &&& heard == SubOscillatorMode::TwoOctaves <==> mode == LeadSubMode::TwoOctaveSquare
            &&& heard == SubOscillatorMode::TwoOctavesNarrowPulse <==> mode
                == LeadSubMode::TwoOctaveNarrowPulse
        }),
{
}

/// An FM voice heads for what its locks hold of its algorithm, brightness and
/// envelope, and for the track's own setting where they hold nothing.
pub proof fn fm_voices_hear_their_locks(
    voice: SynthVoice,
    track: AudioTrack,
    p: FmParameters,
    locks: ParameterLocks,
)
    requires
        track.instrument == Instrument::Fm(p),
    ensures
        ({
            let v = voice.configured(track, locks);
            &&& locks@[ParameterId::FmAlgorithm.position()] matches Some(ParameterValue::FmAlgorithm(value)) ==> v.controls.fm_algorithm == value
            &&& locks@[ParameterId::FmAlgorithm.position()] is None ==> v.controls.fm_algorithm == p.algorithm
            &&& locks@[ParameterId::Brightness.position()] matches Some(ParameterValue::Percent(value)) ==> v.controls.fm_brightness == value
            &&& locks@[ParameterId::Brightness.position()] is None ==> v.controls.fm_brightness == p.brightness
            &&& locks@[ParameterId::Attack.position()] matches Some(ParameterValue::Percent(value)) ==> v.controls.attack == value
            &&& locks@[ParameterId::Attack.position()] is None ==> v.controls.attack == p.attack
            &&& locks@[ParameterId::Decay.position()] matches Some(ParameterValue::Percent(value)) ==> v.controls.decay == value
            &&& locks@[ParameterId::Decay.position()] is None ==> v.controls.decay == p.decay
            &&& locks@[ParameterId::Sustain.position()] matches Some(ParameterValue::Percent(value)) ==> v.controls.sustain == value
            &&& locks@[ParameterId::Sustain.position()] is None ==> v.controls.sustain == p.sustain
            &&& locks@[ParameterId::Release.position()] matches Some(ParameterValue::Percent(value)) ==> v.controls.release == value
            &&& locks@[ParameterId::Release.position()] is None ==> v.controls.release == p.release
            &&& v.kind == SynthVoiceKind::Fm
            &&& v.profile == EnvelopeProfile::Generic
            &&& v.locks == locks
            &&& v.stage == voice.stage
            &&& v.active == voice.active
            &&& v.note == voice.note
            &&& v.remaining == voice.remaining
            &&& v.slide_armed == voice.slide_armed
            &&& v.spread == voice.spread
        }),
{
    locks.view_length();
}

/// Each operator of an FM voice heads for what the locks hold of that very
/// operator, and for the track's own setting where they hold nothing.
pub proof fn fm_operators_hear_their_locks(
    voice: SynthVoice,
    track: AudioTrack,
    p: FmParameters,
    locks: ParameterLocks,
)
    requires
        track.instrument == Instrument::Fm(p),
    ensures
        ({
            let bank = voice.configured(track, locks).controls.fm_operators;
            &&& locks@[ParameterId::FmOp1Ratio.position()] matches Some(ParameterValue::FmRatio(value)) ==> bank.first.ratio == value
            &&& locks@[ParameterId::FmOp1Ratio.position()] is None ==> bank.first.ratio == p.operators@[0].ratio
            &&& locks@[ParameterId::FmOp1Level.position()] matches Some(ParameterValue::Percent(value)) ==> bank.first.level == value
            &&& locks@[ParameterId::FmOp1Level.position()] is None ==> bank.first.level == p.operators@[0].level
            &&& locks@[ParameterId::FmOp1Feedback.position()] matches Some(ParameterValue::Percent(value)) ==> bank.first.feedback == value
            &&& locks@[ParameterId::FmOp1Feedback.position()] is None ==> bank.first.feedback == p.operators@[0].feedback
            &&& locks@[ParameterId::FmOp2Ratio.position()] matches Some(ParameterValue::FmRatio(value)) ==> bank.second.ratio == value
            &&& locks@[ParameterId::FmOp2Ratio.position()] is None ==> bank.second.ratio == p.operators@[1].ratio
            &&& locks@[ParameterId::FmOp2Level.position()] matches Some(ParameterValue::Percent(value)) ==> bank.second.level == value
            &&& locks@[ParameterId::FmOp2Level.position()] is None ==> bank.second.level == p.operators@[1].level
            &&& locks@[ParameterId::FmOp2Feedback.position()] matches Some(ParameterValue::Percent(value)) ==> bank.second.feedback == value
            &&& locks@[ParameterId::FmOp2Feedback.position()] is None ==> bank.second.feedback == p.operators@[1].feedback
            &&& locks@[ParameterId::FmOp3Ratio.position()] matches Some(ParameterValue::FmRatio(value)) ==> bank.third.ratio == value
            &&& locks@[ParameterId::FmOp3Ratio.position()] is None ==> bank.third.ratio == p.operators@[2].ratio
            &&& locks@[ParameterId::FmOp3Level.position()] matches Some(ParameterValue::Percent(value)) ==> bank.third.level == value
            &&& locks@[ParameterId::FmOp3Level.position()] is None ==> bank.third.level == p.operators@[2].level
            &&& locks@[ParameterId::FmOp3Feedback.position()] matches Some(ParameterValue::Percent(value)) ==> bank.third.feedback == value
            &&& locks@[ParameterId::FmOp3Feedback.position()] is None ==> bank.third.feedback == p.operators@[2].feedback
            &&& locks@[ParameterId::FmOp4Ratio.position()] matches Some(ParameterValue::FmRatio(value)) ==> bank.fourth.ratio == value
            &&& locks@[ParameterId::FmOp4Ratio.position()] is None ==> bank.fourth.ratio == p.operators@[3].ratio
            &&& locks@[ParameterId::FmOp4Level.position()] matches Some(ParameterValue::Percent(value)) ==> bank.fourth.level == value
            &&& locks@[ParameterId::FmOp4Level.position()] is None ==> bank.fourth.level == p.operators@[3].level
            &&& locks@[ParameterId::FmOp4Feedback.position()] matches Some(ParameterValue::Percent(value)) ==> bank.fourth.feedback == value
            &&& locks@[ParameterId::FmOp4Feedback.position()] is None ==> bank.fourth.feedback == p.operators@[3].feedback
        }),
{
    locks.view_length();
}

/// Level, sends and pan of whatever a track sounds, of its voices and of its
/// drum, are those of the locks, and the track's own where they hold nothing.
pub proof fn mixes_hear_their_locks(
    voice: SynthVoice,
    drum: DrumVoice,
    track: AudioTrack,
    locks: ParameterLocks,
)
    ensures
        track.instrument is Bass || track.instrument is Chord || track.instrument is Lead
            || track.instrument is Fm ==> voice.configured(track, locks).controls.mix == mix_under(
            track,
            locks,
        ),
        drum.mixed(track, locks).mix == mix_under(track, locks),
        ({
            let mix = mix_under(track, locks);
            &&& locks@[ParameterId::Level.position()] matches Some(ParameterValue::Percent(value)) ==> mix.level == value
            &&& locks@[ParameterId::Level.position()] is None ==> mix.level == track.level
            &&& locks@[ParameterId::DelaySend.position()] matches Some(ParameterValue::Percent(value)) ==> mix.delay_send == value
            &&& locks@[ParameterId::DelaySend.position()] is None ==> mix.delay_send == track.delay_send
            &&& locks@[ParameterId::ReverbSend.position()] matches Some(ParameterValue::Percent(value)) ==> mix.reverb_send == value
            &&& locks@[ParameterId::ReverbSend.position()] is None ==> mix.reverb_send == track.reverb_send
            &&& locks@[ParameterId::Pan.position()] matches Some(ParameterValue::Percent(value)) ==> mix.pan == value
            &&& locks@[ParameterId::Pan.position()] is None ==> mix.pan == track.pan
        }),
{
}

/// A voice of a drum track takes no settings from it.
pub proof fn drum_tracks_configure_no_voice(
    voice: SynthVoice,
    track: AudioTrack,
    locks: ParameterLocks,
)
    requires
        !(track.instrument is Bass),
        !(track.instrument is Chord),
        !(track.instrument is Lead),
        !(track.instrument is Fm),
    ensures
        voice.configured(track, locks) == voice,
{
}

/// Every control of every effect is what the locks hold of it, and the track's
/// own setting where they hold nothing.
pub proof fn effects_hear_their_locks(effects: TrackEffects, locks: ParameterLocks)
    ensures
        ({
            let heard = effects_under(effects, locks);
            &&& locks@[ParameterId::Chorus.position()] matches Some(ParameterValue::Chorus(value)) ==> heard.chorus == value
            &&& locks@[ParameterId::Chorus.position()] is None ==> heard.chorus == effects.chorus
            &&& locks@[ParameterId::DistortionDrive.position()] matches Some(ParameterValue::Percent(value)) ==> heard.distortion.drive == value
            &&& locks@[ParameterId::DistortionDrive.position()] is None ==> heard.distortion.drive == effects.distortion.drive
            &&& locks@[ParameterId::DistortionTone.position()] matches Some(ParameterValue::Percent(value)) ==> heard.distortion.tone == value
            &&& locks@[ParameterId::DistortionTone.position()] is None ==> heard.distortion.tone == effects.distortion.tone
            &&& locks@[ParameterId::DistortionMix.position()] matches Some(ParameterValue::Percent(value)) ==> heard.distortion.mix == value
            &&& locks@[ParameterId::DistortionMix.position()] is None ==> heard.distortion.mix == effects.distortion.mix
            &&& locks@[ParameterId::BitCrusherBits.position()] matches Some(ParameterValue::Percent(value)) ==> heard.bit_crusher.bits == value
            &&& locks@[ParameterId::BitCrusherBits.position()] is None ==> heard.bit_crusher.bits == effects.bit_crusher.bits
            &&& locks@[ParameterId::BitCrusherRate.position()] matches Some(ParameterValue::Percent(value)) ==> heard.bit_crusher.rate == value
            &&& locks@[ParameterId::BitCrusherRate.position()] is None ==> heard.bit_crusher.rate == effects.bit_crusher.rate
            &&& locks@[ParameterId::BitCrusherMix.position()] matches Some(ParameterValue::Percent(value)) ==> heard.bit_crusher.mix == value
            &&& locks@[ParameterId::BitCrusherMix.position()] is None ==> heard.bit_crusher.mix == effects.bit_crusher.mix
            &&& locks@[ParameterId::PhaserRate.position()] matches Some(ParameterValue::Percent(value)) ==> heard.phaser.rate == value
            &&& locks@[ParameterId::PhaserRate.position()] is None ==> heard.phaser.rate == effects.phaser.rate
            &&& locks@[ParameterId::PhaserDepth.position()] matches Some(ParameterValue::Percent(value)) ==> heard.phaser.depth == value
            &&& locks@[ParameterId::PhaserDepth.position()] is None ==> heard.phaser.depth == effects.phaser.depth
            &&& locks@[ParameterId::PhaserFeedback.position()] matches Some(ParameterValue::Percent(value)) ==> heard.phaser.feedback == value
            &&& locks@[ParameterId::PhaserFeedback.position()] is None ==> heard.phaser.feedback == effects.phaser.feedback
            &&& locks@[ParameterId::PhaserMix.position()] matches Some(ParameterValue::Percent(value)) ==> heard.phaser.mix == value
            &&& locks@[ParameterId::PhaserMix.position()] is None ==> heard.phaser.mix == effects.phaser.mix
            &&& locks@[ParameterId::FlangerRate.position()] matches Some(ParameterValue::Percent(value)) ==> heard.flanger.rate == value
            &&& locks@[ParameterId::FlangerRate.position()] is None ==> heard.flanger.rate == effects.flanger.rate
            &&& locks@[ParameterId::FlangerDelay.position()] matches Some(ParameterValue::Percent(value)) ==> heard.flanger.delay == value
            &&& locks@[ParameterId::FlangerDelay.position()] is None ==> heard.flanger.delay == effects.flanger.delay
            &&& locks@[ParameterId::FlangerDepth.position()] matches Some(ParameterValue::Percent(value)) ==> heard.flanger.depth == value
            &&& locks@[ParameterId::FlangerDepth.position()] is None ==> heard.flanger.depth == effects.flanger.depth
            &&& locks@[ParameterId::FlangerFeedback.position()] matches Some(ParameterValue::Percent(value)) ==> heard.flanger.feedback == value
            &&& locks@[ParameterId::FlangerFeedback.position()] is None ==> heard.flanger.feedback == effects.flanger.feedback
            &&& locks@[ParameterId::FlangerMix.position()] matches Some(ParameterValue::Percent(value)) ==> heard.flanger.mix == value
            &&& locks@[ParameterId::FlangerMix.position()] is None ==> heard.flanger.mix == effects.flanger.mix
        }),
{
}

/// A kick is struck with what the locks hold of its controls, and with the
/// track's own settings where they hold nothing; it has one recipe.
pub proof fn kicks_hear_their_locks(
    track: AudioTrack,
    p: KickParameters,
    recipe: DrumRecipeSlot,
    locks: ParameterLocks,
)
    requires
        track.instrument == Instrument::Kick(p),
    ensures
        drum_controls_under(track, recipe, locks) is Some,
        ({
            let c = drum_controls_under(track, recipe, locks)->0;
            &&& locks@[ParameterId::Tune.position()] matches Some(ParameterValue::Percent(value)) ==> c.tune == (DrumControl::Setting { value, parameter: ParameterId::Tune })
            &&& locks@[ParameterId::Tune.position()] is None ==> c.tune == (DrumControl::Setting { value: p.tune, parameter: ParameterId::Tune })
            &&& locks@[ParameterId::Decay.position()] matches Some(ParameterValue::Percent(value)) ==> c.decay == (DrumControl::Setting { value, parameter: ParameterId::Decay })
            &&& locks@[ParameterId::Decay.position()] is None ==> c.decay == (DrumControl::Setting { value: p.decay, parameter: ParameterId::Decay })
            &&& locks@[ParameterId::Attack.position()] matches Some(ParameterValue::Percent(value)) ==> c.attack == (DrumControl::Setting { value, parameter: ParameterId::Attack })
            &&& locks@[ParameterId::Attack.position()] is None ==> c.attack == (DrumControl::Setting { value: p.attack, parameter: ParameterId::Attack })
            &&& c.kind == DrumVoiceKind::Kick
            &&& c.tone == DrumControl::Half
            &&& c.snappy == DrumControl::Off
        }),
{
}

/// A snare is struck with what the locks hold of its controls, and with the
/// track's own settings where they hold nothing; it has one recipe.
pub proof fn snares_hear_their_locks(
    track: AudioTrack,
    p: SnareParameters,
    recipe: DrumRecipeSlot,
    locks: ParameterLocks,
)
    requires
        track.instrument == Instrument::Snare(p),
    ensures
        drum_controls_under(track, recipe, locks) is Some,
        ({
            let c = drum_controls_under(track, recipe, locks)->0;
            &&& locks@[ParameterId::Tune.position()] matches Some(ParameterValue::Percent(value)) ==> c.tune == (DrumControl::Setting { value, parameter: ParameterId::Tune })
            &&& locks@[ParameterId::Tune.position()] is None ==> c.tune == (DrumControl::Setting { value: p.tune, parameter: ParameterId::Tune })
            &&& locks@[ParameterId::Tone.position()] matches Some(ParameterValue::Percent(value)) ==> c.tone == (DrumControl::Setting { value, parameter: ParameterId::Tone })
            &&& locks@[ParameterId::Tone.position()] is None ==> c.tone == (DrumControl::Setting { value: p.tone, parameter: ParameterId::Tone })
            &&& locks@[ParameterId::Snappy.position()] matches Some(ParameterValue::Percent(value)) ==> c.snappy == (DrumControl::Setting { value, parameter: ParameterId::Snappy })
            &&& locks@[ParameterId::Snappy.position()] is None ==> c.snappy == (DrumControl::Setting { value: p.snappy, parameter: ParameterId::Snappy })
            &&& c.kind == DrumVoiceKind::Snare
            &&& c.decay == DrumControl::Off
            &&& c.attack == DrumControl::Off
        }),
{
}

/// A hat is struck with what the locks hold of its controls; where they hold
/// nothing the second recipe is the open hat and any other the closed one.
pub proof fn hats_hear_their_locks(
    track: AudioTrack,
    p: HatParameters,
    tune: Percent,
    decay: Percent,
    recipe: DrumRecipeSlot,
    locks: ParameterLocks,
)
    requires
        track.instrument == Instrument::Hat(p),
        recipe == DrumRecipeSlot::Two ==> tune == p.open.tune && decay == p.open.decay,
        recipe != DrumRecipeSlot::Two ==> tune == p.tune && decay == p.decay,
    ensures
        drum_controls_under(track, recipe, locks) is Some,
        ({
            let c = drum_controls_under(track, recipe, locks)->0;
            &&& locks@[ParameterId::Tune.position()] matches Some(ParameterValue::Percent(value)) ==> c.tune == (DrumControl::Setting { value, parameter: ParameterId::Tune })
            &&& locks@[ParameterId::Tune.position()] is None ==> c.tune == (DrumControl::Setting { value: tune, parameter: ParameterId::Tune })
            &&& locks@[ParameterId::Decay.position()] matches Some(ParameterValue::Percent(value)) ==> c.decay == (DrumControl::Setting { value, parameter: ParameterId::Decay })
            &&& locks@[ParameterId::Decay.position()] is None ==> c.decay == (DrumControl::Setting { value: decay, parameter: ParameterId::Decay })
            &&& c.kind == DrumVoiceKind::Hat
            &&& c.tone == DrumControl::Half
            &&& c.snappy == DrumControl::Off
            &&& c.attack == DrumControl::Off
        }),
{
}

/// A tom is struck with what the locks hold of its controls; where they hold
/// nothing the three recipes are the low, the medium and the high tom.
pub proof fn toms_hear_their_locks(
    track: AudioTrack,
    p: TomParameters,
    drum: TonedDrum,
    recipe: DrumRecipeSlot,
    locks: ParameterLocks,
)
    requires
        track.instrument == Instrument::Tom(p),
        recipe == DrumRecipeSlot::One ==> drum.tune == p.tune && drum.tone == p.tone && drum.decay
            == p.decay,
        recipe == DrumRecipeSlot::Two ==> drum == p.medium,
        recipe == DrumRecipeSlot::Three ==> drum == p.high,
    ensures
        drum_controls_under(track, recipe, locks) is Some,
        ({
            let c = drum_controls_under(track, recipe, locks)->0;
            &&& locks@[ParameterId::Tune.position()] matches Some(ParameterValue::Percent(value)) ==> c.tune == (DrumControl::Setting { value, parameter: ParameterId::Tune })
            &&& locks@[ParameterId::Tune.position()] is None ==> c.tune == (DrumControl::Setting { value: drum.tune, parameter: ParameterId::Tune })
            &&& locks@[ParameterId::Tone.position()] matches Some(ParameterValue::Percent(value)) ==> c.tone == (DrumControl::Setting { value, parameter: ParameterId::Tone })
            &&& locks@[ParameterId::Tone.position()] is None ==> c.tone == (DrumControl::Setting { value: drum.tone, parameter: ParameterId::Tone })
            &&& locks@[ParameterId::Decay.position()] matches Some(ParameterValue::Percent(value)) ==> c.decay == (DrumControl::Setting { value, parameter: ParameterId::Decay })
            &&& locks@[ParameterId::Decay.position()] is None ==> c.decay == (DrumControl::Setting { value: drum.decay, parameter: ParameterId::Decay })
            &&& c.kind == DrumVoiceKind::Tom
            &&& c.snappy == DrumControl::Off
            &&& c.attack == DrumControl::Off
        }),
{
}

/// A cymbal is struck with what the locks hold of its controls, and with the
/// track's own settings where they hold nothing; it has one recipe.
pub proof fn cymbals_hear_their_locks(
    track: AudioTrack,
    drum: TonedDrum,
    recipe: DrumRecipeSlot,
    locks: ParameterLocks,
)
    requires
        track.instrument == Instrument::Cymbal(drum),
    ensures
        drum_controls_under(track, recipe, locks) is Some,
        ({
            let c = drum_controls_under(track, recipe, locks)->0;
            &&& locks@[ParameterId::Tune.position()] matches Some(ParameterValue::Percent(value)) ==> c.tune == (DrumControl::Setting { value, parameter: ParameterId::Tune })
            &&& locks@[ParameterId::Tune.position()] is None ==> c.tune == (DrumControl::Setting { value: drum.tune, parameter: ParameterId::Tune })
            &&& locks@[ParameterId::Tone.position()] matches Some(ParameterValue::Percent(value)) ==> c.tone == (DrumControl::Setting { value, parameter: ParameterId::Tone })
            &&& locks@[ParameterId::Tone.position()] is None ==> c.tone == (DrumControl::Setting { value: drum.tone, parameter: ParameterId::Tone })
            &&& locks@[ParameterId::Decay.position()] matches Some(ParameterValue::Percent(value)) ==> c.decay == (DrumControl::Setting { value, parameter: ParameterId::Decay })
            &&& locks@[ParameterId::Decay.position()] is None ==> c.decay == (DrumControl::Setting { value: drum.decay, parameter: ParameterId::Decay })
            &&& c.kind == DrumVoiceKind::Cymbal
            &&& c.snappy == DrumControl::Off
            &&& c.attack == DrumControl::Off
        }),
{
}

/// A rimshot is struck with what the locks hold of its controls, and with the
/// track's own settings where they hold nothing; it has one recipe.
pub proof fn rimshots_hear_their_locks(
    track: AudioTrack,
    drum: TonedDrum,
    recipe: DrumRecipeSlot,
    locks: ParameterLocks,
)
    requires
        track.instrument == Instrument::Rimshot(drum),
    ensures
        drum_controls_under(track, recipe, locks) is Some,
        ({
            let c = drum_controls_under(track, recipe, locks)->0;
            &&& locks@[ParameterId::Tune.position()] matches Some(ParameterValue::Percent(value)) ==> c.tune == (DrumControl::Setting { value, parameter: ParameterId::Tune })
            &&& locks@[ParameterId::Tune.position()] is None ==> c.tune == (DrumControl::Setting { value: drum.tune, parameter: ParameterId::Tune })
            &&& locks@[ParameterId::Tone.position()] matches Some(ParameterValue::Percent(value)) ==> c.tone == (DrumControl::Setting { value, parameter: ParameterId::Tone })
            &&& locks@[ParameterId::Tone.position()] is None ==> c.tone == (DrumControl::Setting { value: drum.tone, parameter: ParameterId::Tone })
            &&& locks@[ParameterId::Decay.position()] matches Some(ParameterValue::Percent(value)) ==> c.decay == (DrumControl::Setting { value, parameter: ParameterId::Decay })
            &&& locks@[ParameterId::Decay.position()] is None ==> c.decay == (DrumControl::Setting { value: drum.decay, parameter: ParameterId::Decay })
            &&& c.kind == DrumVoiceKind::Rimshot
            &&& c.snappy == DrumControl::Off
            &&& c.attack == DrumControl::Off
        }),
{
}

/// What plays notes strikes no drum.
pub proof fn pitched_tracks_strike_nothing(
    track: AudioTrack,
    recipe: DrumRecipeSlot,
    locks: ParameterLocks,
)
    requires
        track.instrument is Bass || track.instrument is Chord || track.instrument is Lead
            || track.instrument is Fm,
    ensures
        drum_controls_under(track, recipe, locks) is None,
{
}

/// A note sounds under the settings of its own step: its voice heads for the
/// controls that the locks of the note make of the track, and remembers them.
pub proof fn notes_sound_under_their_locks(
    voice: SynthVoice,
    track: AudioTrack,
    midi: i32,
    trigger: SynthTrigger,
    locks: ParameterLocks,
)
    requires
        track.instrument is Bass || track.instrument is Chord || track.instrument is Lead
            || track.instrument is Fm,
    ensures
        ({
            let started = voice.note_started(track, midi, trigger, locks);
            &&& started.controls == voice.configured(track, locks).controls
            &&& started.locks == locks
            &&& started.kind == voice.configured(track, locks).kind
            &&& started.profile == voice.configured(track, locks).profile
            &&& started.active
            &&& started.note.midi == midi
            &&& started.note.accent == trigger.accent
            &&& started.remaining == voice.remaining
            &&& started.spread == voice.spread
        }),
{
}

/// A note slides where the note before it asked for a slide and still sounds:
/// the bass glides in its own time, a lead in the portamento time under the
/// locks of the note it leaves, and everything else starts at its pitch.
pub proof fn notes_slide_where_the_last_one_asked(
    voice: SynthVoice,
    track: AudioTrack,
    midi: i32,
    trigger: SynthTrigger,
    locks: ParameterLocks,
)
    ensures
        ({
            let started = voice.note_started(track, midi, trigger, locks);
            let slides = voice.active && voice.slide_armed;
            &&& track.instrument is Bass ==> {
                &&& slides ==> started.note.glide == Glide::BassSlide && !started.note.hard
                &&& !slides ==> started.note.glide == Glide::Immediate && started.note.hard
                    && started.vca_gate
                &&& started.slide_armed == trigger.slide
            }
            &&& track.instrument matches Instrument::Lead(p) ==> {
                let lock = voice.locks@[ParameterId::PortamentoTime.position()];
                &&& started.note.hard == !slides
                &&& !slides ==> started.note.glide == Glide::Immediate
                &&& slides && lock is None && 0 < p.portamento_time@ <= 100 ==> started.note.glide
                    == (Glide::Portamento { time: p.portamento_time@ as u8 })
                &&& slides && lock is None && p.portamento_time@ == 0 ==> started.note.glide
                    == Glide::Immediate
                &&& lock matches Some(ParameterValue::Percent(time)) ==> {
                    &&& slides && 0 < time@ <= 100 ==> started.note.glide == (Glide::Portamento {
                        time: time@ as u8,
                    })
                    &&& slides && time@ == 0 ==> started.note.glide == Glide::Immediate
                }
                &&& started.slide_armed == trigger.slide
            }
            &&& track.instrument is Chord || track.instrument is Fm ==> {
                &&& started.note.hard
                &&& started.note.glide == Glide::Immediate
                &&& !started.slide_armed
            }
        }),
{
}

} // verus!
