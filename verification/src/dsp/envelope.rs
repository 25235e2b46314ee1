//! Envelope stages and segment timing.
use vstd::prelude::*;

verus! {

#[derive(Clone, Copy, Debug, PartialEq, Eq, Structural)]
pub enum EnvStage {
    Idle,
    Attack,
    Decay,
    Sustain,
    Release,
}

/// Time ranges that an instrument gives its envelope.
#[derive(Clone, Copy, Debug, PartialEq, Eq, Structural)]
pub enum EnvelopeProfile {
    Generic,
    Chord,
    Lead,
}

impl EnvStage {
    /// A note start enters the attack from any stage.
    pub fn gate_on(self) -> (next: EnvStage)
        ensures
            next == EnvStage::Attack,
    {
        EnvStage::Attack
    }

    pub open spec fn released(self) -> EnvStage {
        if self == EnvStage::Idle {
            EnvStage::Idle
        } else {
            EnvStage::Release
        }
    }

    /// A note end releases whatever sounds and leaves silence alone.
    pub fn gate_off(self) -> (next: EnvStage)
        ensures
            next == self.released(),
    {
        if self == EnvStage::Idle {
            EnvStage::Idle
        } else {
            EnvStage::Release
        }
    }

    pub open spec fn advanced(self, reached: bool) -> EnvStage {
        match self {
            EnvStage::Attack if reached => EnvStage::Decay,
            EnvStage::Decay if reached => EnvStage::Sustain,
            EnvStage::Release if reached => EnvStage::Idle,
            _ => self,
        }
    }

    /// The stage after one sample; `reached` says whether the level has
    /// arrived at the target of the current stage.
    pub fn advance(self, reached: bool) -> (next: EnvStage)
        ensures
            next == self.advanced(reached),
    {
        if !reached {
            return self;
        }
        match self {
            EnvStage::Attack => EnvStage::Decay,
            EnvStage::Decay => EnvStage::Sustain,
            EnvStage::Release => EnvStage::Idle,
            _ => self,
        }
    }
}

/// A released envelope only ever falls silent: without a new gate it never
/// leaves the release but for idle.
pub proof fn release_leads_to_idle(stage: EnvStage, reached: bool)
    ensures
        stage.released().advanced(reached) == EnvStage::Idle || stage.released().advanced(reached)
            == EnvStage::Release,
        stage.released().advanced(true) == EnvStage::Idle,
{
}

/// Stages of the short accent contour of the bass.
#[derive(Clone, Copy, Debug, PartialEq, Eq, Structural)]
pub enum BassAccentStage {
    Idle,
    Attack,
    Decay,
}

impl BassAccentStage {
    pub open spec fn triggered(accented: bool) -> BassAccentStage {
        if accented {
            BassAccentStage::Attack
        } else {
            BassAccentStage::Decay
        }
    }

    pub fn trigger(accented: bool) -> (stage: BassAccentStage)
        ensures
            stage == BassAccentStage::triggered(accented),
    {
        if accented {
            BassAccentStage::Attack
        } else {
            BassAccentStage::Decay
        }
    }

    pub open spec fn advanced(self, at_peak: bool, at_silence: bool) -> BassAccentStage {
        if at_silence {
            BassAccentStage::Idle
        } else if self == BassAccentStage::Attack && at_peak {
            BassAccentStage::Decay
        } else {
            self
        }
    }

    /// The stage after one sample, from the level that the sample arrived at.
    pub fn advance(self, at_peak: bool, at_silence: bool) -> (next: BassAccentStage)
        ensures
            next == self.advanced(at_peak, at_silence),
    {
        if at_silence {
            BassAccentStage::Idle
        } else if self == BassAccentStage::Attack && at_peak {
            BassAccentStage::Decay
        } else {
            self
        }
    }
}

/// Where a two-segment contour stands: how many of the segment's samples have
/// passed.
#[derive(Clone, Copy, Debug, PartialEq, Eq, Structural)]
pub enum Segment {
    Rise { elapsed: u32, length: u32 },
    Fall { elapsed: u32, length: u32 },
    Settled,
}

/// Sample counts of a contour that rises and then falls.
#[derive(Clone, Copy, Debug, PartialEq, Eq, Structural)]
pub struct ContourTimer {
    pub rise_samples: u32,
    pub fall_samples: u32,
    pub elapsed: u32,
}

impl ContourTimer {
    pub open spec fn wf(self) -> bool {
        1 <= self.rise_samples <= self.fall_samples
    }

    pub open spec fn idle(self) -> bool {
        self.elapsed >= self.fall_samples
    }

    pub open spec fn segment(self) -> Segment {
        if self.elapsed < self.rise_samples {
            Segment::Rise { elapsed: self.elapsed, length: self.rise_samples }
        } else if self.elapsed < self.fall_samples {
            Segment::Fall {
                elapsed: (self.elapsed - self.rise_samples) as u32,
                length: (self.fall_samples - self.rise_samples) as u32,
            }
        } else {
            Segment::Settled
        }
    }

    /// A contour that has already settled.
    pub fn new() -> (timer: ContourTimer)
        ensures
            timer.wf(),
            timer.idle(),
            timer == (ContourTimer { rise_samples: 1, fall_samples: 1, elapsed: 1 }),
    {
        ContourTimer { rise_samples: 1, fall_samples: 1, elapsed: 1 }
    }

    /// Restarts with a rise of at least one sample and an end that lies at
    /// least one sample behind it.
    pub fn trigger(&mut self, rise: u32, fall: u32)
        requires
            rise < u32::MAX,
        ensures
            final(self).wf(),
            !final(self).idle(),
            final(self).elapsed == 0,
            final(self).rise_samples == if rise == 0 {
                1
            } else {
                rise as int
            },
            final(self).fall_samples == if fall <= final(self).rise_samples {
                final(self).rise_samples + 1
            } else {
                fall as int
            },
    {
        self.rise_samples = if rise == 0 { 1 } else { rise };
        self.fall_samples =
        if fall <= self.rise_samples {
            self.rise_samples + 1
        } else {
            fall
        };
        self.elapsed = 0;
    }

    pub fn is_idle(&self) -> (r: bool)
        ensures
            r == self.idle(),
    {
        self.elapsed >= self.fall_samples
    }

    /// Cuts the contour: it counts as finished at once.
    pub fn silence(&mut self)
        ensures
            *final(self) == (ContourTimer { elapsed: old(self).fall_samples, ..*old(self) }),
            final(self).idle(),
    {
        self.elapsed = self.fall_samples;
    }

    /// The segment of the current sample; the timer moves to the next one.
    pub fn next_segment(&mut self) -> (segment: Segment)
        ensures
            segment == old(self).segment(),
            final(self).rise_samples == old(self).rise_samples,
            final(self).fall_samples == old(self).fall_samples,
            final(self).elapsed == if old(self).elapsed == u32::MAX {
                u32::MAX as int
            } else {
                old(self).elapsed + 1
            },
    {
        let segment = if self.elapsed < self.rise_samples {
            Segment::Rise { elapsed: self.elapsed, length: self.rise_samples }
        } else if self.elapsed < self.fall_samples {
            Segment::Fall {
                elapsed: self.elapsed - self.rise_samples,
                length: self.fall_samples - self.rise_samples,
            }
        } else {
            Segment::Settled
        };
        self.elapsed = self.elapsed.saturating_add(1);
        segment
    }
}

/// The timer `n` samples on, as `next_segment` moves it.
pub open spec fn timer_after(timer: ContourTimer, n: nat) -> ContourTimer {
    ContourTimer {
        elapsed: if timer.elapsed + n > u32::MAX {
            u32::MAX
        } else {
            (timer.elapsed + n) as u32
        },
        ..timer
    }
}

/// A contour triggered now reaches its peak after exactly its rise and is
/// silent exactly when its programmed length has passed, not a sample before.
pub proof fn contour_lasts_its_programmed_length(timer: ContourTimer, n: nat)
    requires
        timer.wf(),
        timer.elapsed == 0,
    ensures
        timer_after(timer, n).idle() <==> n >= timer.fall_samples,
        timer_after(timer, n).segment() is Rise <==> n < timer.rise_samples,
        timer.rise_samples < timer.fall_samples ==> timer_after(
            timer,
            timer.rise_samples as nat,
        ).segment() == (Segment::Fall {
            elapsed: 0,
            length: (timer.fall_samples - timer.rise_samples) as u32,
        }),
{
}

} // verus!
