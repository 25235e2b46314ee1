//! Countdown of a linear parameter ramp.
use vstd::prelude::*;

verus! {

/// What a ramp asks of the value on one sample.
#[derive(Clone, Copy, Debug, PartialEq, Eq, Structural)]
pub enum RampStep {
    /// Keep the value.
    Hold,
    /// Add the ramp's step.
    Step,
    /// Take the target itself: the ramp ends here without rounding residue.
    Land,
}

#[derive(Clone, Copy, Debug, PartialEq, Eq, Structural)]
pub struct Ramp {
    pub remaining: u32,
}

impl Ramp {
    pub open spec fn step_of(self) -> RampStep {
        if self.remaining == 0 {
            RampStep::Hold
        } else if self.remaining == 1 {
            RampStep::Land
        } else {
            RampStep::Step
        }
    }

    pub fn new() -> (ramp: Ramp)
        ensures
            ramp.remaining == 0,
    {
        Ramp { remaining: 0 }
    }

    /// Starts a ramp of `samples`; says whether the value jumps at once.
    pub fn set(&mut self, samples: u32) -> (immediate: bool)
        ensures
            final(self).remaining == samples,
            immediate == (samples == 0),
    {
        self.remaining = samples;
        samples == 0
    }

    pub fn next_step(&mut self) -> (step: RampStep)
        ensures
            step == old(self).step_of(),
            final(self).remaining == if old(self).remaining == 0 {
                0
            } else {
                old(self).remaining - 1
            },
    {
        if self.remaining == 0 {
            RampStep::Hold
        } else {
            self.remaining = self.remaining - 1;
            if self.remaining == 0 {
                RampStep::Land
            } else {
                RampStep::Step
            }
        }
    }

    pub fn is_smoothing(&self) -> (r: bool)
        ensures
            r == (self.remaining != 0),
    {
        self.remaining != 0
    }
}

/// The step that a ramp of `samples` takes on its `n`th sample.
pub open spec fn ramp_at(samples: u32, n: nat) -> RampStep {
    Ramp { remaining: if n >= samples { 0 } else { (samples - n) as u32 } }.step_of()
}

/// A ramp lands on its target exactly once, on its last sample, and holds it
/// from then on.
pub proof fn ramp_lands_once(samples: u32, n: nat)
    requires
        samples > 0,
    ensures
        ramp_at(samples, n) == RampStep::Land <==> n == samples - 1,
        ramp_at(samples, n) == RampStep::Hold <==> n >= samples,
{
}

/// Spacing of control-rate refreshes: a refresh is due when the countdown has
/// run out, and then again after `CONTROL_FRAMES` frames.
pub const CONTROL_FRAMES: u8 = 8;

#[derive(Clone, Copy, Debug, PartialEq, Eq, Structural)]
pub struct ControlRate {
    pub remaining: u8,
}

impl ControlRate {
    pub fn new() -> (rate: ControlRate)
        ensures
            rate.remaining == 0,
    {
        ControlRate { remaining: 0 }
    }

    /// Counts one frame. A due refresh happens only where `changed` asks for
    /// it; the first result says so. The second says whether the frame takes
    /// a step towards the last refreshed target.
    pub fn tick(&mut self, changed: bool) -> (r: (bool, bool))
        ensures
            r.0 == (old(self).remaining == 0 && changed),
            r.1 == (old(self).remaining > 0 || changed),
            final(self).remaining == if old(self).remaining > 0 {
                old(self).remaining - 1
            } else if changed {
                CONTROL_FRAMES - 1
            } else {
                0
            },
    {
        let refresh: bool = self.remaining == 0 && changed;
        if refresh {
            self.remaining = CONTROL_FRAMES;
        }
        if self.remaining > 0 {
            self.remaining = self.remaining - 1;
            (refresh, true)
        } else {
            (refresh, false)
        }
    }
}

} // verus!
