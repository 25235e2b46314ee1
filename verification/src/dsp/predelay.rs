//! The delay before a reverb, which may be none at all.
use super::ring::{past, DelayTaps, Ring};
use vstd::prelude::*;

verus! {

/// Two rings read at one distance. A change of the distance is cross-faded.
pub struct PreDelay<T> {
    left: Ring<T>,
    right: Ring<T>,
    delay: usize,
    old_delay: usize,
    fade_remaining: usize,
    fade_length: usize,
}

#[verifier::ext_equal]
pub struct PreDelayModel<T> {
    pub left: Seq<T>,
    pub right: Seq<T>,
    pub delay: int,
    pub old_delay: int,
    pub fade_remaining: int,
}

impl<T: Copy> View for PreDelay<T> {
    type V = PreDelayModel<T>;

    closed spec fn view(&self) -> PreDelayModel<T> {
        PreDelayModel {
            left: self.left.written(),
            right: self.right.written(),
            delay: self.delay as int,
            old_delay: self.old_delay as int,
            fade_remaining: self.fade_remaining as int,
        }
    }
}

impl<T> PreDelayModel<T> {
    pub open spec fn reconfigured(self, samples: usize, capacity: nat, fade: nat) -> PreDelayModel<
        T,
    > {
        let next = if samples > capacity - 1 {
            capacity - 1
        } else {
            samples as int
        };
        if next == self.delay {
            self
        } else {
            PreDelayModel {
                delay: next,
                old_delay: self.delay,
                fade_remaining: fade as int,
                ..self
            }
        }
    }

    /// What is heard of a frame: zero samples back is the frame itself.
    pub open spec fn taps(self, left: T, right: T, silence: T) -> DelayTaps<T> {
        DelayTaps {
            left: past(self.left.push(left), silence, self.delay + 1),
            right: past(self.right.push(right), silence, self.delay + 1),
            fading: if self.fade_remaining > 0 {
                Some(
                    (
                        past(self.left.push(left), silence, self.old_delay + 1),
                        past(self.right.push(right), silence, self.old_delay + 1),
                        self.fade_remaining as usize,
                    ),
                )
            } else {
                None
            },
        }
    }

    pub open spec fn after_frame(self, left: T, right: T) -> PreDelayModel<T> {
        PreDelayModel {
            left: self.left.push(left),
            right: self.right.push(right),
            fade_remaining: if self.fade_remaining > 0 {
                self.fade_remaining - 1
            } else {
                0
            },
            ..self
        }
    }
}

impl<T: Copy> PreDelay<T> {
    pub closed spec fn wf(self) -> bool {
        &&& self.left.wf()
        &&& self.right.wf()
        &&& self.left.capacity() == self.right.capacity()
        &&& self.left.silence() == self.right.silence()
        &&& self.delay < self.left.capacity()
        &&& self.old_delay < self.left.capacity()
        &&& self.fade_remaining <= self.fade_length
    }

    pub closed spec fn capacity(self) -> nat {
        self.left.capacity()
    }

    pub closed spec fn fade_length(self) -> nat {
        self.fade_length as nat
    }

    pub closed spec fn silence(self) -> T {
        self.left.silence()
    }

    pub fn new(capacity: usize, fade_length: usize, silence: T) -> (line: PreDelay<T>)
        requires
            capacity > 0,
        ensures
            line.wf(),
            line.capacity() == capacity,
            line.fade_length() == fade_length,
            line.silence() == silence,
            line@ == (PreDelayModel {
                left: Seq::<T>::empty(),
                right: Seq::<T>::empty(),
                delay: 0,
                old_delay: 0,
                fade_remaining: 0,
            }),
    {
        PreDelay {
            left: Ring::new(capacity, silence),
            right: Ring::new(capacity, silence),
            delay: 0,
            old_delay: 0,
            fade_remaining: 0,
            fade_length,
        }
    }

    pub fn delay_samples(&self) -> (n: usize)
        ensures
            n == self@.delay,
    {
        self.delay
    }

    pub fn fade_samples(&self) -> (n: usize)
        ensures
            n == self.fade_length(),
    {
        self.fade_length
    }

    /// Sets the distance, as far as the rings reach. A new one fades in.
    pub fn configure(&mut self, samples: usize)
        requires
            old(self).wf(),
        ensures
            final(self).wf(),
            final(self).capacity() == old(self).capacity(),
            final(self).fade_length() == old(self).fade_length(),
            final(self).silence() == old(self).silence(),
            final(self)@ == old(self)@.reconfigured(
                samples,
                old(self).capacity(),
                old(self).fade_length(),
            ),
    {
        let reach: usize = self.left.len() - 1;
        let next: usize = if samples > reach {
            reach
        } else {
            samples
        };
        if next != self.delay {
            self.old_delay = self.delay;
            self.delay = next;
            self.fade_remaining = self.fade_length;
        }
    }

    /// Ends a fade at once.
    pub fn settle(&mut self)
        requires
            old(self).wf(),
        ensures
            final(self).wf(),
            final(self).capacity() == old(self).capacity(),
            final(self).fade_length() == old(self).fade_length(),
            final(self).silence() == old(self).silence(),
            final(self)@ == (PreDelayModel { fade_remaining: 0, ..old(self)@ }),
    {
        self.fade_remaining = 0;
    }

    /// Passes one frame through and says what is heard.
    pub fn frame(&mut self, left: T, right: T) -> (taps: DelayTaps<T>)
        requires
            old(self).wf(),
        ensures
            final(self).wf(),
            final(self).capacity() == old(self).capacity(),
            final(self).fade_length() == old(self).fade_length(),
            final(self).silence() == old(self).silence(),
            taps == old(self)@.taps(left, right, old(self).silence()),
            final(self)@ == old(self)@.after_frame(left, right),
    {
        let heard_left = self.left.tap_or_input(self.delay, left);
        let heard_right = self.right.tap_or_input(self.delay, right);
        let mut fading: Option<(T, T, usize)> = None;
        if self.fade_remaining > 0 {
            let old_left = self.left.tap_or_input(self.old_delay, left);
            let old_right = self.right.tap_or_input(self.old_delay, right);
            fading = Some((old_left, old_right, self.fade_remaining));
            self.fade_remaining = self.fade_remaining - 1;
        }
        self.left.write(left);
        self.right.write(right);
        DelayTaps { left: heard_left, right: heard_right, fading }
    }

    /// Empties both rings and ends a fade. The distance stays.
    pub fn clear(&mut self)
        requires
            old(self).wf(),
        ensures
            final(self).wf(),
            final(self).capacity() == old(self).capacity(),
            final(self).fade_length() == old(self).fade_length(),
            final(self).silence() == old(self).silence(),
            final(self)@ == (PreDelayModel {
                left: Seq::<T>::empty(),
                right: Seq::<T>::empty(),
                fade_remaining: 0,
                ..old(self)@
            }),
    {
        self.left.clear();
        self.right.clear();
        self.fade_remaining = 0;
    }
}

/// Without a distance a frame is heard at once, with one exactly so many frames
/// later.
pub proof fn onset_is_delayed_exactly<T>(
    line: PreDelayModel<T>,
    left: T,
    right: T,
    after: Seq<T>,
    silence: T,
)
    requires
        line.fade_remaining == 0,
        line.delay == after.len(),
        after.len() > 0,
    ensures
        (PreDelayModel {
            left: line.left.push(left) + after.drop_last(),
            ..line
        }).taps(after.last(), right, silence).left == left,
{
    assert((line.left.push(left) + after.drop_last()).push(after.last()) =~= line.left.push(left)
        + after);
    super::ring::delay_is_exact(line.left, left, after, silence);
}

} // verus!
