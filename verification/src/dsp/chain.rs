//! What the stages of a track's effect chain do on a frame: run, ring out, or
//! let the frame pass. The samples themselves are the caller's.
use super::tail::{saturating_dec, ChainActivity, MixState, TailCounter};
use crate::audio::controls::{effects_audible, chain_processes};
use crate::model::instrument::{ChorusMode, TrackEffects};
use vstd::prelude::*;

verus! {

/// Samples of quiet after which the distortion and the phaser fall asleep.
pub const QUIET_SAMPLES: u32 = 64;

/// What a stage does on one frame.
#[derive(Clone, Copy, Debug, PartialEq, Eq, Structural)]
pub enum StageRun {
    /// The frame passes unchanged.
    Bypass,
    /// The frame is processed, and the result is heard.
    Run,
    /// The stage is fed silence to ring out. The frame passes unchanged: what
    /// rings out is not heard.
    Drain,
}

/// A stage that rings on after its input: the distortion, the phaser or the
/// flanger.
#[derive(Clone, Copy, Debug, PartialEq, Eq, Structural)]
pub struct TailStage {
    pub tail: TailCounter,
    pub active: bool,
}

impl TailStage {
    pub open spec fn silent() -> TailStage {
        TailStage { tail: TailCounter { remaining: 0, quiet_samples: 0 }, active: false }
    }

    /// What the stage does with a frame, given whether its mix is above zero
    /// and whether the frame is audible.
    pub open spec fn choice(self, mixed: bool, loud: bool) -> StageRun {
        if !(mixed && loud) && self.tail.remaining == 0 {
            StageRun::Bypass
        } else if mixed {
            StageRun::Run
        } else {
            StageRun::Drain
        }
    }

    /// The stage after a frame on which it ran. Where it fell asleep it is
    /// empty.
    pub open spec fn after(
        self,
        mixed: bool,
        loud: bool,
        quiet: bool,
        quiet_length: u32,
        limit: u32,
    ) -> TailStage {
        if self.tail.active_after(mixed && loud, quiet, quiet_length, limit) {
            TailStage { tail: self.tail.updated(mixed && loud, quiet, limit), active: true }
        } else {
            TailStage::silent()
        }
    }

    pub fn new() -> (stage: TailStage)
        ensures
            stage == TailStage::silent(),
    {
        TailStage { tail: TailCounter::new(), active: false }
    }

    /// Decides what the stage does with a frame. One that it lets pass leaves
    /// it inactive.
    pub fn begin(&mut self, mixed: bool, loud: bool) -> (run: StageRun)
        ensures
            run == old(self).choice(mixed, loud),
            *final(self) == if run == StageRun::Bypass {
                TailStage { active: false, ..*old(self) }
            } else {
                *old(self)
            },
    {
        if !self.tail.runs(mixed, loud) {
            self.active = false;
            StageRun::Bypass
        } else if mixed {
            StageRun::Run
        } else {
            StageRun::Drain
        }
    }

    /// Counts a frame on which the stage ran; `quiet` says that its state
    /// was. The result says whether its memory is to be emptied.
    pub fn finish(
        &mut self,
        mixed: bool,
        loud: bool,
        quiet: bool,
        quiet_length: u32,
        limit: u32,
    ) -> (emptied: bool)
        ensures
            *final(self) == old(self).after(mixed, loud, quiet, quiet_length, limit),
            emptied == !final(self).active,
    {
        self.active = self.tail.update_tail_activity(mixed && loud, quiet, quiet_length, limit);
        if !self.active {
            self.tail.clear();
        }
        !self.active
    }

    pub fn clear(&mut self)
        ensures
            *final(self) == TailStage::silent(),
    {
        self.tail.clear();
        self.active = false;
    }
}

/// The bit crusher, which holds a sample until the next is captured.
#[derive(Clone, Copy, Debug, PartialEq, Eq, Structural)]
pub struct CrusherStage {
    pub active: bool,
    pub has_sample: bool,
}

/// What the bit crusher does on one frame.
#[derive(Clone, Copy, Debug, PartialEq, Eq, Structural)]
pub enum Crush {
    /// The frame passes unchanged; where `emptied` is set the held sample is
    /// forgotten.
    Bypass { emptied: bool },
    /// The held sample is heard. The first one is captured on this frame.
    Capture,
    /// The held sample is heard, and replaced where the rate asks for it.
    Hold,
}

impl CrusherStage {
    pub open spec fn silent() -> CrusherStage {
        CrusherStage { active: false, has_sample: false }
    }

    pub open spec fn choice(self, mixed: bool, loud: bool) -> Crush {
        if !(mixed && (loud || self.active)) {
            Crush::Bypass { emptied: !mixed }
        } else if self.has_sample {
            Crush::Hold
        } else {
            Crush::Capture
        }
    }

    pub fn new() -> (stage: CrusherStage)
        ensures
            stage == CrusherStage::silent(),
    {
        CrusherStage { active: false, has_sample: false }
    }

    /// Decides what the stage does with a frame.
    pub fn begin(&mut self, mixed: bool, loud: bool) -> (crush: Crush)
        ensures
            crush == old(self).choice(mixed, loud),
            *final(self) == match crush {
                Crush::Bypass { emptied } => if emptied {
                    CrusherStage::silent()
                } else {
                    CrusherStage { active: false, ..*old(self) }
                },
                _ => CrusherStage { has_sample: true, ..*old(self) },
            },
    {
        if mixed && (loud || self.active) {
            if self.has_sample {
                Crush::Hold
            } else {
                self.has_sample = true;
                Crush::Capture
            }
        } else {
            self.active = false;
            if !mixed {
                self.has_sample = false;
            }
            Crush::Bypass { emptied: !mixed }
        }
    }

    /// Ends a frame on which the stage ran; it stays active while the frame or
    /// what it holds is audible. The result says whether it is to be emptied.
    pub fn finish(&mut self, loud: bool, held_loud: bool) -> (emptied: bool)
        ensures
            emptied == !(loud || held_loud),
            *final(self) == if emptied {
                CrusherStage::silent()
            } else {
                CrusherStage { active: true, ..*old(self) }
            },
    {
        if loud || held_loud {
            self.active = true;
            false
        } else {
            self.active = false;
            self.has_sample = false;
            true
        }
    }

    pub fn clear(&mut self)
        ensures
            *final(self) == CrusherStage::silent(),
    {
        self.active = false;
        self.has_sample = false;
    }
}

/// The chorus, whose modes fade into each other.
#[derive(Clone, Copy, Debug, PartialEq, Eq, Structural)]
pub struct ChorusStage {
    pub mode: ChorusMode,
    pub old_mode: ChorusMode,
    pub fade_remaining: u32,
    pub fade_length: u32,
    pub active: bool,
    pub tail_remaining: u32,
    pub tail_length: u32,
}

/// What the chorus does on one frame.
#[derive(Clone, Copy, Debug, PartialEq, Eq, Structural)]
pub enum ChorusRun {
    /// The frame passes unchanged.
    Bypass,
    /// The frame is processed; while modes fade, with the frames left to fade.
    Run { fading: Option<u32> },
}

impl ChorusStage {
    pub open spec fn rings(self) -> bool {
        self.active || self.fade_remaining != 0
    }

    pub open spec fn switched(self, mode: ChorusMode) -> ChorusStage {
        if mode == self.mode {
            self
        } else {
            ChorusStage {
                mode,
                old_mode: self.mode,
                fade_remaining: self.fade_length,
                ..self
            }
        }
    }

    pub open spec fn choice(self, loud: bool) -> ChorusRun {
        if self.fade_remaining == 0 && (self.mode == ChorusMode::Off || (!self.active && !loud)) {
            ChorusRun::Bypass
        } else {
            ChorusRun::Run {
                fading: if self.fade_remaining > 0 {
                    Some(self.fade_remaining)
                } else {
                    None
                },
            }
        }
    }

    /// The chorus after a frame. An audible one refills its tail; a silent one
    /// shortens it, and the end of the tail puts it to sleep once no modes
    /// fade any more.
    pub open spec fn after(self, loud: bool) -> ChorusStage {
        let fade = saturating_dec(self.fade_remaining);
        if self.choice(loud) == ChorusRun::Bypass {
            if self.mode == ChorusMode::Off {
                ChorusStage { active: false, tail_remaining: 0, ..self }
            } else {
                self
            }
        } else if loud {
            ChorusStage {
                active: true,
                tail_remaining: self.tail_length,
                fade_remaining: fade,
                ..self
            }
        } else {
            let tail = saturating_dec(self.tail_remaining);
            ChorusStage {
                active: self.active && !(tail == 0 && fade == 0),
                tail_remaining: tail,
                fade_remaining: fade,
                ..self
            }
        }
    }

    pub fn new(fade_length: u32, tail_length: u32) -> (stage: ChorusStage)
        ensures
            stage == (ChorusStage {
                mode: ChorusMode::Off,
                old_mode: ChorusMode::Off,
                fade_remaining: 0,
                fade_length,
                active: false,
                tail_remaining: 0,
                tail_length,
            }),
    {
        ChorusStage {
            mode: ChorusMode::Off,
            old_mode: ChorusMode::Off,
            fade_remaining: 0,
            fade_length,
            active: false,
            tail_remaining: 0,
            tail_length,
        }
    }

    /// Switches the mode, which fades in. Says whether there was a change.
    pub fn configure(&mut self, mode: ChorusMode) -> (changed: bool)
        ensures
            changed == (mode != old(self).mode),
            *final(self) == old(self).switched(mode),
    {
        if mode == self.mode {
            return false;
        }
        self.old_mode = self.mode;
        self.mode = mode;
        self.fade_remaining = self.fade_length;
        true
    }

    /// Counts one frame and says what the chorus does with it.
    pub fn frame(&mut self, loud: bool) -> (run: ChorusRun)
        ensures
            run == old(self).choice(loud),
            *final(self) == old(self).after(loud),
    {
        if self.mode == ChorusMode::Off && self.fade_remaining == 0 {
            self.active = false;
            self.tail_remaining = 0;
            return ChorusRun::Bypass;
        }
        if !self.active && self.fade_remaining == 0 && !loud {
            return ChorusRun::Bypass;
        }
        let mut fading: Option<u32> = None;
        if self.fade_remaining > 0 {
            fading = Some(self.fade_remaining);
            self.fade_remaining = self.fade_remaining - 1;
        }
        if loud {
            self.active = true;
            self.tail_remaining = self.tail_length;
        } else {
            self.tail_remaining = self.tail_remaining.saturating_sub(1);
            if self.tail_remaining == 0 && self.fade_remaining == 0 {
                self.active = false;
            }
        }
        ChorusRun::Run { fading }
    }

    pub fn is_active(&self) -> (r: bool)
        ensures
            r == self.rings(),
    {
        self.active || self.fade_remaining != 0
    }

    /// Empties the chorus. Its mode stays.
    pub fn clear(&mut self)
        ensures
            *final(self) == (ChorusStage {
                fade_remaining: 0,
                active: false,
                tail_remaining: 0,
                ..*old(self)
            }),
    {
        self.fade_remaining = 0;
        self.active = false;
        self.tail_remaining = 0;
    }
}

/// The stages of a chain.
#[derive(Clone, Copy, Debug, PartialEq, Eq, Structural)]
pub struct EffectChain {
    pub distortion: TailStage,
    pub bit_crusher: CrusherStage,
    pub chorus: ChorusStage,
    pub phaser: TailStage,
    pub flanger: TailStage,
    pub processing: bool,
}

/// Where the four mixes of a chain stand.
#[derive(Clone, Copy, Debug, PartialEq, Eq, Structural)]
pub struct ChainMixes {
    pub distortion: MixState,
    pub bit_crusher: MixState,
    pub phaser: MixState,
    pub flanger: MixState,
}

impl EffectChain {
    pub open spec fn ringing(self) -> bool {
        self.chorus.rings() || self.distortion.active || self.bit_crusher.active
            || self.phaser.active || self.flanger.active
    }

    /// Whether the next frame concerns the chain.
    pub open spec fn has_work(self, mixes: ChainMixes) -> bool {
        self.ringing() || self.chorus.mode != ChorusMode::Off || mixes.distortion.smoothing
            || mixes.distortion.audible_target || mixes.bit_crusher.smoothing
            || mixes.bit_crusher.audible_target || mixes.phaser.smoothing
            || mixes.phaser.audible_target || mixes.flanger.smoothing
            || mixes.flanger.audible_target
    }

    pub fn new(chorus_fade: u32, chorus_tail: u32) -> (chain: EffectChain)
        ensures
            chain.distortion == TailStage::silent(),
            chain.bit_crusher == CrusherStage::silent(),
            chain.chorus.mode == ChorusMode::Off,
            chain.chorus.fade_length == chorus_fade,
            chain.chorus.tail_length == chorus_tail,
            !chain.chorus.rings(),
            chain.phaser == TailStage::silent(),
            chain.flanger == TailStage::silent(),
            !chain.processing,
    {
        EffectChain {
            distortion: TailStage::new(),
            bit_crusher: CrusherStage::new(),
            chorus: ChorusStage::new(chorus_fade, chorus_tail),
            phaser: TailStage::new(),
            flanger: TailStage::new(),
            processing: false,
        }
    }

    fn activity(&self) -> (activity: ChainActivity)
        ensures
            activity.any() == self.ringing(),
    {
        ChainActivity {
            chorus: self.chorus.is_active(),
            distortion: self.distortion.active,
            bit_crusher: self.bit_crusher.active,
            phaser: self.phaser.active,
            flanger: self.flanger.active,
        }
    }

    pub fn is_active(&self) -> (r: bool)
        ensures
            r == self.ringing(),
    {
        self.activity().is_active()
    }

    /// Takes new settings over: the mode of the chorus, and whether there is
    /// work now. `mixed` says that one of the mixes is above zero already.
    pub fn configure(&mut self, effects: &TrackEffects, mixed: bool) -> (switched: bool)
        ensures
            switched == (effects.chorus != old(self).chorus.mode),
            *final(self) == (EffectChain {
                chorus: old(self).chorus.switched(effects.chorus),
                processing: old(self).processing || old(self).chorus.switched(
                    effects.chorus,
                ).rings() || mixed || effects_audible(*effects),
                ..*old(self)
            }),
    {
        let switched: bool = self.chorus.configure(effects.chorus);
        let was_processing: bool = self.processing || self.chorus.is_active() || mixed;
        self.processing = chain_processes(was_processing, effects);
        switched
    }

    /// Ends a frame: the chain goes on processing while there is work for it.
    pub fn finish_frame(&mut self, mixes: &ChainMixes)
        ensures
            *final(self) == (EffectChain {
                processing: old(self).has_work(*mixes),
                ..*old(self)
            }),
    {
        let engaged: bool = self.chorus.mode != ChorusMode::Off;
        self.processing = self.activity().has_pending_parameters(
            engaged,
            mixes.distortion,
            mixes.bit_crusher,
            mixes.phaser,
            mixes.flanger,
        );
    }

    /// Empties every stage. Whether there is work left is not touched.
    pub fn clear(&mut self)
        ensures
            *final(self) == (EffectChain {
                distortion: TailStage::silent(),
                bit_crusher: CrusherStage::silent(),
                chorus: (ChorusStage {
                    fade_remaining: 0,
                    active: false,
                    tail_remaining: 0,
                    ..old(self).chorus
                }),
                phaser: TailStage::silent(),
                flanger: TailStage::silent(),
                ..*old(self)
            }),
    {
        self.distortion.clear();
        self.bit_crusher.clear();
        self.chorus.clear();
        self.phaser.clear();
        self.flanger.clear();
    }
}

/// A stage whose mix is at zero is never heard: it is skipped, or rings out
/// unheard.
pub proof fn unmixed_stages_are_not_heard(stage: TailStage, crusher: CrusherStage, loud: bool)
    ensures
        stage.choice(false, loud) != StageRun::Run,
        crusher.choice(false, loud) is Bypass,
{
}

/// A stage with a mix that gets an audible frame always processes it.
pub proof fn fed_stages_run(stage: TailStage, crusher: CrusherStage)
    ensures
        stage.choice(true, true) == StageRun::Run,
        crusher.choice(true, true) !is Bypass,
{
}

/// The stage after `n` frames of silence, on which its state never fell quiet.
pub open spec fn rung(stage: TailStage, mixed: bool, limit: u32, n: nat) -> TailStage
    decreases n,
{
    if n == 0 {
        stage
    } else {
        let before = rung(stage, mixed, limit, (n - 1) as nat);
        if before.choice(mixed, false) == StageRun::Bypass {
            TailStage { active: false, ..before }
        } else {
            before.after(mixed, false, false, QUIET_SAMPLES, limit)
        }
    }
}

/// A stage that is no longer fed rings for as long as its tail lasts, and is
/// then empty and skipped.
pub proof fn tails_end_in_silence(stage: TailStage, mixed: bool, limit: u32, n: nat)
    ensures
        rung(stage, mixed, limit, n).tail.remaining == if n >= stage.tail.remaining {
            0
        } else {
            stage.tail.remaining - n
        },
        n > 0 && n >= stage.tail.remaining ==> !rung(stage, mixed, limit, n).active && rung(
            stage,
            mixed,
            limit,
            n,
        ).choice(mixed, false) == StageRun::Bypass,
    decreases n,
{
    if n > 0 {
        tails_end_in_silence(stage, mixed, limit, (n - 1) as nat);
    }
}

/// A chain that is at rest, with its chorus off and every mix at zero, has
/// nothing to do.
pub proof fn resting_chains_have_no_work(chain: EffectChain, mixes: ChainMixes)
    requires
        !chain.ringing(),
        chain.chorus.mode == ChorusMode::Off,
        mixes.distortion == (MixState { smoothing: false, audible_target: false }),
        mixes.bit_crusher == mixes.distortion,
        mixes.phaser == mixes.distortion,
        mixes.flanger == mixes.distortion,
    ensures
        !chain.has_work(mixes),
{
}

/// The chorus after `n` frames of silence.
pub open spec fn chorus_after_silence(stage: ChorusStage, n: nat) -> ChorusStage
    decreases n,
{
    if n == 0 {
        stage
    } else {
        chorus_after_silence(stage, (n - 1) as nat).after(false)
    }
}

proof fn chorus_decays(stage: ChorusStage, n: nat)
    ensures
        chorus_after_silence(stage, n).tail_remaining <= if n >= stage.tail_remaining {
            0
        } else {
            stage.tail_remaining - n
        } || !chorus_after_silence(stage, n).rings(),
        chorus_after_silence(stage, n).fade_remaining == if n >= stage.fade_remaining {
            0
        } else {
            stage.fade_remaining - n
        },
        n > 0 && n >= stage.tail_remaining && n >= stage.fade_remaining
            ==> !chorus_after_silence(stage, n).rings(),
    decreases n,
{
    if n > 0 {
        chorus_decays(stage, (n - 1) as nat);
    }
}

/// A chorus that is left in silence is at rest once its tail and its fade have
/// passed.
pub proof fn choruses_come_to_rest(stage: ChorusStage, n: nat)
    requires
        n > 0,
        n >= stage.tail_remaining,
        n >= stage.fade_remaining,
    ensures
        !chorus_after_silence(stage, n).rings(),
        chorus_after_silence(stage, n).choice(false) == ChorusRun::Bypass,
{
    chorus_decays(stage, n);
}

} // verus!
