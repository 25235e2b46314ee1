//! Delay lines: fixed rings of samples, read at a distance behind the writer.
use super::tail::SendActivity;
use vstd::prelude::*;

verus! {

/// The sample written `distance` writes ago, or `silence` before the first.
pub open spec fn past<T>(written: Seq<T>, silence: T, distance: int) -> T {
    if distance <= written.len() {
        written[written.len() - distance]
    } else {
        silence
    }
}

/// A ring of samples over everything written to it since it was cleared.
pub struct Ring<T> {
    buffer: Vec<T>,
    pos: usize,
    silence: T,
    written: Ghost<Seq<T>>,
}

pub open spec fn behind(pos: int, len: int, distance: int) -> int {
    if pos >= distance {
        pos - distance
    } else {
        pos + len - distance
    }
}

impl<T: Copy> Ring<T> {
    pub closed spec fn wf(self) -> bool {
        &&& self.buffer@.len() > 0
        &&& self.pos < self.buffer@.len()
        &&& forall|d: int|
            1 <= d <= self.buffer@.len() ==> #[trigger] self.buffer@[behind(
                self.pos as int,
                self.buffer@.len() as int,
                d,
            )] == past(self.written@, self.silence, d)
    }

    /// Everything written since the ring was made or cleared, oldest first.
    pub closed spec fn written(self) -> Seq<T> {
        self.written@
    }

    pub closed spec fn silence(self) -> T {
        self.silence
    }

    pub closed spec fn capacity(self) -> nat {
        self.buffer@.len()
    }

    pub fn new(capacity: usize, silence: T) -> (ring: Ring<T>)
        requires
            capacity > 0,
        ensures
            ring.wf(),
            ring.capacity() == capacity,
            ring.silence() == silence,
            ring.written() == Seq::<T>::empty(),
    {
        let mut buffer: Vec<T> = Vec::with_capacity(capacity);
        while buffer.len() < capacity
            invariant
                buffer@.len() <= capacity,
                forall|i: int| 0 <= i < buffer@.len() ==> buffer@[i] == silence,
            decreases capacity - buffer@.len(),
        {
            buffer.push(silence);
        }
        Ring { buffer, pos: 0, silence, written: Ghost(Seq::empty()) }
    }

    pub fn len(&self) -> (n: usize)
        ensures
            n == self.capacity(),
    {
        self.buffer.len()
    }

    /// Reads `distance` writes back.
    pub fn tap(&self, distance: usize) -> (sample: T)
        requires
            self.wf(),
            1 <= distance <= self.capacity(),
        ensures
            sample == past(self.written(), self.silence(), distance as int),
    {
        let at: usize = if self.pos >= distance {
            self.pos - distance
        } else {
            self.buffer.len() - (distance - self.pos)
        };
        assert(at == behind(self.pos as int, self.buffer@.len() as int, distance as int));
        self.buffer[at]
    }

    /// Reads `distance` writes back, where zero means the sample about to be
    /// written.
    pub fn tap_or_input(&self, distance: usize, input: T) -> (sample: T)
        requires
            self.wf(),
            distance <= self.capacity(),
        ensures
            sample == past(self.written().push(input), self.silence(), distance + 1),
    {
        if distance == 0 {
            input
        } else {
            self.tap(distance)
        }
    }

    pub fn write(&mut self, sample: T)
        requires
            old(self).wf(),
        ensures
            final(self).wf(),
            final(self).capacity() == old(self).capacity(),
            final(self).silence() == old(self).silence(),
            final(self).written() == old(self).written().push(sample),
    {
        let ghost before = *self;
        let len: usize = self.buffer.len();
        let at: usize = self.pos;
        self.buffer[at] = sample;
        self.pos = if at + 1 == len { 0 } else { at + 1 };
        self.written = Ghost(self.written@.push(sample));
        assert forall|d: int| 1 <= d <= self.buffer@.len() implies #[trigger] self.buffer@[behind(
            self.pos as int,
            self.buffer@.len() as int,
            d,
        )] == past(self.written@, self.silence, d) by {
            if d > 1 {
                assert(behind(self.pos as int, len as int, d) == behind(at as int, len as int, d - 1));
                assert(before.buffer@[behind(at as int, len as int, d - 1)] == past(
                    before.written@,
                    before.silence,
                    d - 1,
                ));
            } else {
                assert(behind(self.pos as int, len as int, d) == at);
            }
        }
    }

    /// Back to silence, as if nothing had been written.
    pub fn clear(&mut self)
        requires
            old(self).wf(),
        ensures
            final(self).wf(),
            final(self).capacity() == old(self).capacity(),
            final(self).silence() == old(self).silence(),
            final(self).written() == Seq::<T>::empty(),
    {
        let silence = self.silence;
        let mut i: usize = 0;
        while i < self.buffer.len()
            invariant
                i <= self.buffer@.len(),
                self.buffer@.len() == old(self).buffer@.len(),
                self.silence == old(self).silence,
                self.pos == old(self).pos,
                silence == self.silence,
                forall|j: int| 0 <= j < i ==> self.buffer@[j] == silence,
            decreases self.buffer@.len() - i,
        {
            self.buffer[i] = silence;
            i = i + 1;
        }
        self.written = Ghost(Seq::empty());
        self.pos = 0;
    }
}

/// What was written is heard again exactly `distance` writes later, whatever
/// is written in between.
pub proof fn delay_is_exact<T>(before: Seq<T>, sample: T, after: Seq<T>, silence: T)
    ensures
        past(before.push(sample) + after, silence, after.len() as int + 1) == sample,
{
}

/// What a delay reads on one frame: the current tap of both sides and, while
/// a change of time fades, the previous tap with the frames left to fade.
pub struct DelayTaps<T> {
    pub left: T,
    pub right: T,
    pub fading: Option<(T, T, usize)>,
}

/// A stereo delay: two rings, a delay time that changes by a cross-fade, and
/// the tail that keeps it awake.
pub struct Delay<T> {
    left: Ring<T>,
    right: Ring<T>,
    delay: usize,
    old_delay: usize,
    fade_remaining: usize,
    fade_length: usize,
    configured: bool,
    activity: SendActivity,
}

/// The observable state of a delay.
#[verifier::ext_equal]
pub struct DelayModel<T> {
    pub left: Seq<T>,
    pub right: Seq<T>,
    pub delay: int,
    pub old_delay: int,
    pub fade_remaining: int,
    pub configured: bool,
    pub activity: SendActivity,
}

impl<T: Copy> View for Delay<T> {
    type V = DelayModel<T>;

    closed spec fn view(&self) -> DelayModel<T> {
        DelayModel {
            left: self.left.written(),
            right: self.right.written(),
            delay: self.delay as int,
            old_delay: self.old_delay as int,
            fade_remaining: self.fade_remaining as int,
            configured: self.configured,
            activity: self.activity,
        }
    }
}

pub open spec fn clamp_delay(samples: usize, capacity: nat) -> int {
    if samples < 1 {
        1
    } else if samples > capacity - 1 {
        capacity - 1
    } else {
        samples as int
    }
}

impl<T> DelayModel<T> {
    /// A new delay time fades in from the old one, except for the first.
    pub open spec fn reconfigured(
        self,
        samples: usize,
        capacity: nat,
        fade: nat,
        tail_samples: usize,
    ) -> DelayModel<T> {
        let next = clamp_delay(samples, capacity);
        let fades = next != self.delay && self.configured;
        DelayModel {
            delay: next,
            old_delay: if fades {
                self.delay
            } else {
                self.old_delay
            },
            fade_remaining: if fades {
                fade as int
            } else {
                self.fade_remaining
            },
            configured: true,
            activity: SendActivity { tail_samples, ..self.activity },
            ..self
        }
    }

    pub open spec fn taps(self, silence: T) -> DelayTaps<T> {
        DelayTaps {
            left: past(self.left, silence, self.delay),
            right: past(self.right, silence, self.delay),
            fading: if self.fade_remaining > 0 {
                Some(
                    (
                        past(self.left, silence, self.old_delay),
                        past(self.right, silence, self.old_delay),
                        self.fade_remaining as usize,
                    ),
                )
            } else {
                None
            },
        }
    }
}

impl<T: Copy> Delay<T> {
    pub closed spec fn wf(self) -> bool {
        &&& self.left.wf()
        &&& self.right.wf()
        &&& self.left.capacity() == self.right.capacity()
        &&& self.left.capacity() >= 2
        &&& 1 <= self.delay < self.left.capacity()
        &&& 1 <= self.old_delay < self.left.capacity()
        &&& self.fade_length >= 1
        &&& self.fade_remaining <= self.fade_length
        &&& self.left.silence() == self.right.silence()
    }

    pub closed spec fn capacity(self) -> nat {
        self.left.capacity()
    }

    pub closed spec fn fade_length(self) -> nat {
        self.fade_length as nat
    }

    pub closed spec fn silence(self) -> T {
        self.left.silence()
    }

    /// A delay with seven seconds of memory and a fade of ten milliseconds.
    pub fn new(sample_rate: u32, silence: T) -> (delay: Delay<T>)
        requires
            sample_rate * 7 <= usize::MAX,
        ensures
            delay.wf(),
            delay.capacity() == if sample_rate == 0 {
                2
            } else {
                sample_rate as int * 7
            },
            delay.fade_length() == if sample_rate < 100 {
                1
            } else {
                sample_rate as int / 100
            },
            delay.silence() == silence,
            delay@ == (DelayModel {
                left: Seq::<T>::empty(),
                right: Seq::<T>::empty(),
                delay: 1,
                old_delay: 1,
                fade_remaining: 0,
                configured: false,
                activity: (SendActivity { active: false, tail_remaining: 0, tail_samples: 1 }),
            }),
    {
        let rate: usize = sample_rate as usize;
        let n: usize = if rate == 0 { 2 } else { rate * 7 };
        let fade: usize = if rate < 100 { 1 } else { rate / 100 };
        Delay {
            left: Ring::new(n, silence),
            right: Ring::new(n, silence),
            delay: 1,
            old_delay: 1,
            fade_remaining: 0,
            fade_length: fade,
            configured: false,
            activity: SendActivity::new(),
        }
    }

    pub fn delay_samples(&self) -> (n: usize)
        ensures
            n == self@.delay,
    {
        self.delay
    }

    pub fn fade_samples(&self) -> (n: usize)
        ensures
            n == self.fade_length(),
    {
        self.fade_length
    }

    pub fn is_active(&self) -> (r: bool)
        ensures
            r == self@.activity.active,
    {
        self.activity.active
    }

    /// Sets the delay time and the tail that belongs to it.
    pub fn configure(&mut self, samples: usize, tail_samples: usize)
        requires
            old(self).wf(),
        ensures
            final(self).wf(),
            final(self).capacity() == old(self).capacity(),
            final(self).fade_length() == old(self).fade_length(),
            final(self).silence() == old(self).silence(),
            final(self)@ == old(self)@.reconfigured(
                samples,
                old(self).capacity(),
                old(self).fade_length(),
                tail_samples,
            ),
    {
        let capacity: usize = self.left.len();
        let next: usize = if samples < 1 {
            1
        } else if samples > capacity - 1 {
            capacity - 1
        } else {
            samples
        };
        if next != self.delay && self.configured {
            self.old_delay = self.delay;
            self.fade_remaining = self.fade_length;
        }
        self.delay = next;
        self.configured = true;
        self.activity.tail_samples = tail_samples;
    }

    /// Opens a frame: nothing while the delay sleeps through silence, else
    /// the samples to hear.
    pub fn read(&mut self, silent: bool) -> (taps: Option<DelayTaps<T>>)
        requires
            old(self).wf(),
        ensures
            final(self).wf(),
            final(self).capacity() == old(self).capacity(),
            final(self).fade_length() == old(self).fade_length(),
            final(self).silence() == old(self).silence(),
            taps is Some <==> old(self)@.activity.awake(silent),
            taps matches Some(t) ==> t == old(self)@.taps(old(self).silence()),
            final(self)@ == (DelayModel {
                activity: old(self)@.activity.after_frame(silent),
                fade_remaining: if taps is Some && old(self)@.fade_remaining > 0 {
                    old(self)@.fade_remaining - 1
                } else {
                    old(self)@.fade_remaining
                },
                ..old(self)@
            }),
    {
        if !self.activity.frame(silent) {
            return None;
        }
        let left = self.left.tap(self.delay);
        let right = self.right.tap(self.delay);
        let mut fading: Option<(T, T, usize)> = None;
        if self.fade_remaining > 0 {
            let old_left = self.left.tap(self.old_delay);
            let old_right = self.right.tap(self.old_delay);
            fading = Some((old_left, old_right, self.fade_remaining));
            self.fade_remaining = self.fade_remaining - 1;
        }
        Some(DelayTaps { left, right, fading })
    }

    /// Closes a frame that was heard by storing what feeds the delay.
    pub fn write(&mut self, left: T, right: T)
        requires
            old(self).wf(),
        ensures
            final(self).wf(),
            final(self).capacity() == old(self).capacity(),
            final(self).fade_length() == old(self).fade_length(),
            final(self).silence() == old(self).silence(),
            final(self)@ == (DelayModel {
                left: old(self)@.left.push(left),
                right: old(self)@.right.push(right),
                ..old(self)@
            }),
    {
        self.left.write(left);
        self.right.write(right);
    }

    /// Empties both rings and puts the delay to sleep; its time stays.
    pub fn clear(&mut self)
        requires
            old(self).wf(),
        ensures
            final(self).wf(),
            final(self).capacity() == old(self).capacity(),
            final(self).fade_length() == old(self).fade_length(),
            final(self).silence() == old(self).silence(),
            final(self)@ == (DelayModel {
                left: Seq::<T>::empty(),
                right: Seq::<T>::empty(),
                activity: (SendActivity {
                    active: false,
                    tail_remaining: 0,
                    ..old(self)@.activity
                }),
                ..old(self)@
            }),
    {
        self.left.clear();
        self.right.clear();
        self.activity.clear();
    }
}

} // verus!
