//! Activity tracking for effects whose state rings on after their input.
use vstd::prelude::*;

verus! {

/// Countdown that keeps a fed effect running until its tail is spent or quiet.
#[derive(Clone, Copy, Debug, PartialEq, Eq, Structural)]
pub struct TailCounter {
    pub remaining: u32,
    pub quiet_samples: u32,
}

pub open spec fn saturating_inc(x: u32) -> u32 {
    if x == u32::MAX {
        x
    } else {
        (x + 1) as u32
    }
}

pub open spec fn saturating_dec(x: u32) -> u32 {
    if x == 0 {
        x
    } else {
        (x - 1) as u32
    }
}

impl TailCounter {
    pub open spec fn updated(self, feeding: bool, quiet: bool, limit: u32) -> TailCounter {
        if feeding {
            TailCounter { remaining: limit, quiet_samples: 0 }
        } else {
            TailCounter {
                remaining: saturating_dec(self.remaining),
                quiet_samples: if quiet {
                    saturating_inc(self.quiet_samples)
                } else {
                    0
                },
            }
        }
    }

    pub open spec fn active_after(
        self,
        feeding: bool,
        quiet: bool,
        quiet_length: u32,
        limit: u32,
    ) -> bool {
        let next = self.updated(feeding, quiet, limit);
        feeding || (next.remaining > 0 && next.quiet_samples < quiet_length)
    }

    pub fn new() -> (tail: TailCounter)
        ensures
            tail == (TailCounter { remaining: 0, quiet_samples: 0 }),
    {
        TailCounter { remaining: 0, quiet_samples: 0 }
    }

    /// Counts one sample. Feeding refills the tail; otherwise it shrinks, and
    /// the effect falls asleep when it is spent or has been quiet for
    /// `quiet_length` samples.
    pub fn update_tail_activity(
        &mut self,
        feeding: bool,
        quiet: bool,
        quiet_length: u32,
        limit: u32,
    ) -> (active: bool)
        ensures
            *final(self) == old(self).updated(feeding, quiet, limit),
            active == old(self).active_after(feeding, quiet, quiet_length, limit),
    {
        if feeding {
            self.remaining = limit;
            self.quiet_samples = 0;
            return true;
        }
        self.remaining = self.remaining.saturating_sub(1);
        if quiet {
            self.quiet_samples = self.quiet_samples.saturating_add(1);
        } else {
            self.quiet_samples = 0;
        }
        self.remaining > 0 && self.quiet_samples < quiet_length
    }

    /// Whether the effect has anything to do on this sample.
    pub fn runs(&self, mixed: bool, input_active: bool) -> (run: bool)
        ensures
            run == ((mixed && input_active) || self.remaining > 0),
    {
        (mixed && input_active) || self.remaining > 0
    }

    pub fn clear(&mut self)
        ensures
            *final(self) == (TailCounter { remaining: 0, quiet_samples: 0 }),
    {
        self.remaining = 0;
        self.quiet_samples = 0;
    }
}

/// The counter after `n` samples without input, loud throughout.
pub open spec fn drained(tail: TailCounter, n: nat) -> TailCounter
    decreases n,
{
    if n == 0 {
        tail
    } else {
        drained(tail, (n - 1) as nat).updated(false, false, 0)
    }
}

/// A tail that never falls quiet is cut exactly when its limit has passed.
pub proof fn tail_is_bounded(tail: TailCounter, n: nat)
    ensures
        drained(tail, n).remaining == if n >= tail.remaining {
            0
        } else {
            tail.remaining - n
        },
    decreases n,
{
    if n > 0 {
        tail_is_bounded(tail, (n - 1) as nat);
    }
}

/// An effect that holds a fixed-length memory, such as a delay or a reverb:
/// asleep until fed, then awake until `tail_samples` silent frames have passed.
#[derive(Clone, Copy, Debug, PartialEq, Eq, Structural)]
pub struct SendActivity {
    pub active: bool,
    pub tail_remaining: usize,
    pub tail_samples: usize,
}

impl SendActivity {
    /// Awake for this frame: it was awake, or the frame is loud.
    pub open spec fn awake(self, silent: bool) -> bool {
        self.active || !silent
    }

    pub open spec fn after_frame(self, silent: bool) -> SendActivity {
        if !silent {
            SendActivity { active: true, tail_remaining: self.tail_samples, ..self }
        } else if !self.active {
            self
        } else {
            let left = if self.tail_remaining == 0 {
                0
            } else {
                (self.tail_remaining - 1) as usize
            };
            SendActivity { active: left != 0, tail_remaining: left, ..self }
        }
    }

    pub fn new() -> (r: SendActivity)
        ensures
            r == (SendActivity { active: false, tail_remaining: 0, tail_samples: 1 }),
    {
        SendActivity { active: false, tail_remaining: 0, tail_samples: 1 }
    }

    /// Counts one frame and says whether the effect runs on it.
    pub fn frame(&mut self, silent: bool) -> (run: bool)
        ensures
            run == old(self).awake(silent),
            *final(self) == old(self).after_frame(silent),
    {
        if !self.active {
            if silent {
                return false;
            }
            self.active = true;
        }
        if !silent {
            self.tail_remaining = self.tail_samples;
        } else {
            self.tail_remaining = if self.tail_remaining == 0 { 0 } else { self.tail_remaining - 1 };
            if self.tail_remaining == 0 {
                self.active = false;
            }
        }
        true
    }

    pub fn clear(&mut self)
        ensures
            *final(self) == (SendActivity { active: false, tail_remaining: 0, ..*old(self) }),
    {
        self.active = false;
        self.tail_remaining = 0;
    }
}

/// The activity after `n` silent frames.
pub open spec fn after_silence(state: SendActivity, n: nat) -> SendActivity
    decreases n,
{
    if n == 0 {
        state
    } else {
        after_silence(state, (n - 1) as nat).after_frame(true)
    }
}

/// After a loud frame the effect stays awake for exactly its tail.
pub proof fn send_sleeps_after_its_tail(state: SendActivity, n: nat)
    requires
        state.tail_samples >= 1,
    ensures
        after_silence(state.after_frame(false), n).active <==> n < state.tail_samples,
        after_silence(state.after_frame(false), n).tail_remaining == if n >= state.tail_samples {
            0
        } else {
            state.tail_samples - n
        },
    decreases n,
{
    if n > 0 {
        send_sleeps_after_its_tail(state, (n - 1) as nat);
    }
}

/// A sleeping effect that hears nothing does not move.
pub proof fn silence_does_not_wake(state: SendActivity, n: nat)
    requires
        !state.active,
    ensures
        after_silence(state, n) == state,
        !after_silence(state, n).awake(true),
    decreases n,
{
    if n > 0 {
        silence_does_not_wake(state, (n - 1) as nat);
    }
}

/// Which stages of a track's effect chain are ringing.
#[derive(Clone, Copy, Debug, PartialEq, Eq, Structural)]
pub struct ChainActivity {
    pub chorus: bool,
    pub distortion: bool,
    pub bit_crusher: bool,
    pub phaser: bool,
    pub flanger: bool,
}

/// What a chain knows of one mix control: whether it is still ramping, and
/// whether it heads for an audible setting.
#[derive(Clone, Copy, Debug, PartialEq, Eq, Structural)]
pub struct MixState {
    pub smoothing: bool,
    pub audible_target: bool,
}

impl ChainActivity {
    pub open spec fn any(self) -> bool {
        self.chorus || self.distortion || self.bit_crusher || self.phaser || self.flanger
    }

    pub fn is_active(&self) -> (r: bool)
        ensures
            r == self.any(),
    {
        self.chorus || self.distortion || self.bit_crusher || self.phaser || self.flanger
    }

    /// Whether the chain has to look at the next frame at all: a ringing
    /// stage, an engaged chorus, or a mix that ramps or is audible.
    pub fn has_pending_parameters(
        &self,
        chorus_engaged: bool,
        distortion: MixState,
        bit_crusher: MixState,
        phaser: MixState,
        flanger: MixState,
    ) -> (r: bool)
        ensures
            r == (self.any() || chorus_engaged || distortion.smoothing || distortion.audible_target
                || bit_crusher.smoothing || bit_crusher.audible_target || phaser.smoothing
                || phaser.audible_target || flanger.smoothing || flanger.audible_target),
    {
        self.is_active() || chorus_engaged || distortion.smoothing || bit_crusher.smoothing
            || phaser.smoothing || flanger.smoothing || distortion.audible_target
            || bit_crusher.audible_target || phaser.audible_target || flanger.audible_target
    }
}

} // verus!
