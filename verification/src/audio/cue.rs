//! What the sound engine is asked to do, in the order in which it was decided.
use super::controls::{DrumControls, MixControls};
use super::voice::SynthVoice;
use crate::model::event::ArpeggioRate;
use crate::model::instrument::TrackEffects;
use vstd::prelude::*;

verus! {

/// The place of a voice that plays one note at a time. The places below it are
/// those of the voices of a pool.
pub const MONO_PLACE: u8 = 8;

/// A hit of a drum.
#[derive(Clone, Copy, Debug, PartialEq, Eq, Structural)]
pub struct DrumHit {
    pub controls: DrumControls,
    pub accent: bool,
}

/// One change that the sound engine has to follow. `preview` tells auditions
/// from the sequence; `smoothing` is a number of samples.
#[derive(Clone, Copy, Debug)]
pub enum Cue {
    /// The effects of a track head for these settings.
    Effects { track: u8, preview: bool, effects: TrackEffects, smoothing: u32 },
    /// The mixer of a drum heads for these settings.
    DrumMix { track: u8, preview: bool, mix: MixControls, smoothing: u32 },
    DrumHit { track: u8, preview: bool, hit: DrumHit },
    /// A note started on a voice, which then looked like this.
    Note { track: u8, preview: bool, place: u8, voice: SynthVoice },
    /// A voice heads for new settings.
    Settings { track: u8, preview: bool, place: u8, voice: SynthVoice, smoothing: u32 },
    /// The voices of a pool from one place up to another fell silent at once.
    Silence { track: u8, preview: bool, from: u8, to: u8 },
    /// The clock of an arpeggio starts.
    Arpeggio { track: u8, preview: bool, rate: ArpeggioRate },
    /// The oscillators of a track that follow its triggers start over.
    RestartLfos { track: u8, preview: bool },
    /// The oscillators of an audition start over.
    ResetPreviewLfos { track: u8 },
    /// An oscillator was switched on, or off.
    ResetLfo { track: u8, parameter: u8 },
    DisableLfo { track: u8, parameter: u8 },
    /// Everything of a track comes to rest at once.
    ResetTrack { track: u8 },
    /// The effects of all tracks and the global effects head for the settings
    /// of the project.
    Globals { smoothing: u32 },
    Mutes { smoothing: u32 },
    /// Every tail is cut and every oscillator starts over.
    Clear,
}

} // verus!
