//! Sliding maximum over the lookahead window of the master limiter.
use vstd::prelude::*;

verus! {

/// The next slot of a ring of `capacity`.
pub open spec fn next_slot(slot: int, capacity: int) -> int {
    if slot + 1 == capacity {
        0
    } else {
        slot + 1
    }
}

/// The slot `offset` places after `slot`.
pub open spec fn slot_at(slot: int, offset: int, capacity: int) -> int {
    if slot + offset < capacity {
        slot + offset
    } else {
        slot + offset - capacity
    }
}

/// How many samples ago `position` was, on a counter that wraps.
pub open spec fn age(now: u64, position: u64) -> int {
    if now >= position {
        now - position
    } else {
        now - position + 0x1_0000_0000_0000_0000
    }
}

/// One candidate maximum: the key of a peak and the sample it came with.
#[derive(Clone, Copy, Debug, PartialEq, Eq, Structural)]
pub struct PeakEntry {
    pub value: u32,
    pub position: u64,
}

/// `key` is the greatest of the last `window` entries of `history`.
pub open spec fn is_window_maximum(history: Seq<u32>, window: nat, key: u32) -> bool {
    let first = if history.len() > window {
        history.len() - window
    } else {
        0
    };
    &&& exists|i: int| first <= i < history.len() && #[trigger] history[i] == key
    &&& forall|i: int| first <= i < history.len() ==> #[trigger] history[i] <= key
}

/// Peaks of the last `capacity` samples, kept as a queue of candidates that
/// decrease from the oldest to the newest. A peak is an order-preserving key:
/// the bit pattern of a float that is not negative.
pub struct PeakWindow {
    peaks: Vec<PeakEntry>,
    head: usize,
    len: usize,
    now: u64,
    history: Ghost<Seq<u32>>,
}

impl PeakWindow {
    spec fn entry(self, i: int) -> PeakEntry {
        self.peaks@[slot_at(self.head as int, i, self.peaks@.len() as int)]
    }

    /// Index in the history of the `i`th candidate.
    spec fn index(self, i: int) -> int {
        self.history@.len() - age(self.now, self.entry(i).position)
    }

    spec fn shaped(self) -> bool {
        &&& 1 <= self.peaks@.len() <= u32::MAX
        &&& self.head < self.peaks@.len()
        &&& self.len <= self.peaks@.len()
    }

    /// Some candidate at or after sample `p` is at least as great.
    spec fn covered(self, p: int) -> bool {
        exists|i: int|
            #![trigger self.entry(i)]
            0 <= i < self.len && self.index(i) >= p && self.entry(i).value >= self.history@[p]
    }

    /// The candidates: each is a peak of the window, they come in the order
    /// of the samples and fall strictly, and every sample of the window is
    /// covered by the first candidate at or after it.
    spec fn covers(self, window: int) -> bool {
        &&& forall|i: int|
            #![trigger self.entry(i)]
            0 <= i < self.len ==> {
                &&& 1 <= age(self.now, self.entry(i).position) <= window
                &&& 0 <= self.index(i)
                &&& self.entry(i).value == self.history@[self.index(i)]
            }
        &&& forall|i: int, j: int|
            #![trigger self.entry(i), self.entry(j)]
            0 <= i < j < self.len ==> {
                &&& self.index(i) < self.index(j)
                &&& self.entry(i).value > self.entry(j).value
            }
        &&& forall|p: int|
            0 <= p < self.history@.len() && p >= self.history@.len() - window
                ==> #[trigger] self.covered(p)
    }

    pub closed spec fn wf(self) -> bool {
        &&& self.shaped()
        &&& self.covers(self.peaks@.len() as int)
    }

    /// Every key pushed since the window was made or cleared.
    pub closed spec fn history(self) -> Seq<u32> {
        self.history@
    }

    pub closed spec fn capacity(self) -> nat {
        self.peaks@.len()
    }

    pub fn new(capacity: usize) -> (window: PeakWindow)
        requires
            1 <= capacity <= u32::MAX,
        ensures
            window.wf(),
            window.capacity() == capacity,
            window.history() == Seq::<u32>::empty(),
    {
        let mut peaks: Vec<PeakEntry> = Vec::with_capacity(capacity);
        while peaks.len() < capacity
            invariant
                peaks@.len() <= capacity,
            decreases capacity - peaks@.len(),
        {
            peaks.push(PeakEntry { value: 0, position: 0 });
        }
        PeakWindow { peaks, head: 0, len: 0, now: 0, history: Ghost(Seq::empty()) }
    }

    pub fn clear(&mut self)
        requires
            old(self).wf(),
        ensures
            final(self).wf(),
            final(self).capacity() == old(self).capacity(),
            final(self).history() == Seq::<u32>::empty(),
    {
        self.head = 0;
        self.len = 0;
        self.now = 0;
        self.history = Ghost(Seq::empty());
    }

    /// The greatest key among the last `capacity` pushed.
    pub fn maximum(&self) -> (key: u32)
        requires
            self.wf(),
            self.history().len() > 0,
        ensures
            is_window_maximum(self.history(), self.capacity(), key),
    {
        proof {
            let h = self.history@;
            let last = h.len() - 1;
            assert(self.covered(last));
            assert(self.len > 0);
            let first = if h.len() > self.peaks@.len() {
                h.len() - self.peaks@.len()
            } else {
                0
            };
            assert(self.entry(0) == self.peaks@[self.head as int]);
            assert(h[self.index(0)] == self.entry(0).value);
            assert forall|i: int| first <= i < h.len() implies #[trigger] h[i] <= self.entry(
                0,
            ).value by {
                assert(self.covered(i));
                let c = choose|c: int|
                    #![trigger self.entry(c)]
                    0 <= c < self.len && self.index(c) >= i && self.entry(c).value >= h[i];
                if c > 0 {
                    assert(self.entry(0).value > self.entry(c).value);
                }
            }
        }
        self.peaks[self.head].value
    }

    /// Moves the window on by one sample.
    pub fn push_peak(&mut self, value: u32)
        requires
            old(self).wf(),
        ensures
            final(self).wf(),
            final(self).capacity() == old(self).capacity(),
            final(self).history() == old(self).history().push(value),
            final(self).history().len() > 0,
    {
        let capacity: usize = self.peaks.len();
        let ghost h = self.history@;
        // Only the oldest candidate can leave the window, and only by one.
        if self.len > 0 {
            assert(self.entry(0) == self.peaks@[self.head as int]);
            let oldest: u64 = self.peaks[self.head].position;
            if self.now.wrapping_sub(oldest) >= capacity as u64 {
                let ghost before = *self;
                self.head = if self.head + 1 == capacity { 0 } else { self.head + 1 };
                self.len = self.len - 1;
                proof {
                    Self::oldest_leaves(before, *self);
                }
            } else {
                proof {
                    self.nothing_leaves();
                }
            }
        } else {
            proof {
                self.nothing_leaves();
            }
        }
        assert(self.covers(capacity - 1));
        let ghost kept = *self;
        // Candidates that the new peak reaches or passes are never maximal again.
        let mut searching: bool = true;
        while searching && self.len > 0
            invariant
                capacity == self.peaks@.len(),
                self.shaped(),
                kept.shaped(),
                kept.covers(capacity - 1),
                self.peaks == kept.peaks,
                self.head == kept.head,
                self.now == kept.now,
                self.history@ == h,
                kept.history@ == h,
                self.len <= kept.len,
                forall|i: int| self.len <= i < kept.len ==> (#[trigger] kept.entry(i)).value <= value,
                !searching ==> self.len > 0 && kept.entry(self.len - 1).value > value,
            decreases self.len + if searching { 1int } else { 0 },
        {
            let last: usize = self.len - 1;
            let back: usize = if capacity - self.head > last {
                self.head + last
            } else {
                last - (capacity - self.head)
            };
            assert(kept.entry(last as int) == self.peaks@[back as int]);
            if self.peaks[back].value > value {
                searching = false;
            } else {
                self.len = last;
            }
        }
        let offset: usize = self.len;
        assert(self.len < capacity) by {
            if self.len == capacity {
                // distinct indices all within a window one shorter than the ring
                kept.candidates_fit(capacity - 1, capacity as int);
            }
        }
        let tail: usize = if capacity - self.head > offset {
            self.head + offset
        } else {
            offset - (capacity - self.head)
        };
        self.peaks[tail] = PeakEntry { value, position: self.now };
        self.len = offset + 1;
        self.now = self.now.wrapping_add(1);
        self.history = Ghost(h.push(value));
        proof {
            Self::peak_joins(kept, *self, offset as int, value);
        }
    }

    proof fn nothing_leaves(self)
        requires
            self.wf(),
            self.len > 0 ==> age(self.now, self.entry(0).position) < self.peaks@.len(),
        ensures
            self.covers(self.peaks@.len() - 1),
    {
        let window = self.peaks@.len() - 1;
        if self.len == 0 && self.history@.len() > 0 {
            assert(self.covered(self.history@.len() - 1));
        }
        assert forall|i: int| 0 <= i < self.len implies 1 <= age(
            self.now,
            (#[trigger] self.entry(i)).position,
        ) <= window by {
            if i > 0 {
                assert(self.index(0) < self.index(i));
            }
        }
    }

    proof fn oldest_leaves(before: PeakWindow, after: PeakWindow)
        requires
            before.wf(),
            before.len > 0,
            age(before.now, before.entry(0).position) >= before.peaks@.len(),
            after.peaks == before.peaks,
            after.head == next_slot(before.head as int, before.peaks@.len() as int),
            after.len == before.len - 1,
            after.now == before.now,
            after.history == before.history,
        ensures
            after.shaped(),
            after.covers(before.peaks@.len() - 1),
    {
        let window = before.peaks@.len() - 1;
        let h = before.history@;
        assert forall|i: int| 0 <= i < after.len implies #[trigger] after.entry(i) == before.entry(
            i + 1,
        ) by {}
        assert forall|i: int| 0 <= i < after.len implies 1 <= age(
            after.now,
            (#[trigger] after.entry(i)).position,
        ) <= window && 0 <= after.index(i) && after.entry(i).value == after.history@[after.index(
            i,
        )] by {
            assert(after.entry(i) == before.entry(i + 1));
            assert(before.index(0) < before.index(i + 1));
        }
        assert forall|i: int, j: int|
            #![trigger after.entry(i), after.entry(j)]
            0 <= i < j < after.len implies after.index(i) < after.index(j) && after.entry(i).value
            > after.entry(j).value by {
            assert(after.entry(i) == before.entry(i + 1));
            assert(after.entry(j) == before.entry(j + 1));
        }
        assert forall|p: int|
            0 <= p < h.len() && p >= h.len() - window implies #[trigger] after.covered(p) by {
            assert(before.covered(p));
            let c = choose|c: int|
                #![trigger before.entry(c)]
                0 <= c < before.len && before.index(c) >= p && before.entry(c).value >= h[p];
            assert(after.entry(c - 1) == before.entry(c));
        }
    }

    /// The new peak takes its place behind the candidates that exceed it.
    proof fn peak_joins(kept: PeakWindow, after: PeakWindow, offset: int, value: u32)
        requires
            kept.shaped(),
            kept.covers(kept.peaks@.len() - 1),
            0 <= offset <= kept.len,
            offset < kept.peaks@.len(),
            offset > 0 ==> kept.entry(offset - 1).value > value,
            forall|i: int| offset <= i < kept.len ==> (#[trigger] kept.entry(i)).value <= value,
            after.peaks@ == kept.peaks@.update(
                slot_at(kept.head as int, offset, kept.peaks@.len() as int),
                PeakEntry { value, position: kept.now },
            ),
            after.head == kept.head,
            after.len == offset + 1,
            after.now == kept.now.wrapping_add(1),
            after.history@ == kept.history@.push(value),
        ensures
            after.wf(),
    {
        let h = kept.history@;
        let capacity = kept.peaks@.len() as int;
        assert(after.entry(offset) == (PeakEntry { value, position: kept.now }));
        assert(age(after.now, kept.now) == 1);
        assert forall|i: int| 0 <= i < offset implies #[trigger] after.entry(i) == kept.entry(i)
            && after.index(i) == kept.index(i) by {
            assert(age(kept.now, kept.entry(i).position) <= capacity - 1);
        }
        assert(after.index(offset) == h.len());
        assert forall|i: int| 0 <= i < after.len implies 1 <= age(
            after.now,
            (#[trigger] after.entry(i)).position,
        ) <= capacity && 0 <= after.index(i) && after.entry(i).value == after.history@[after.index(
            i,
        )] by {
            if i < offset {
                assert(after.entry(i) == kept.entry(i));
            }
        }
        assert forall|i: int, j: int|
            #![trigger after.entry(i), after.entry(j)]
            0 <= i < j < after.len implies after.index(i) < after.index(j) && after.entry(i).value
            > after.entry(j).value by {
            assert(after.entry(i) == kept.entry(i));
            if j < offset {
                assert(after.entry(j) == kept.entry(j));
            } else if i < offset - 1 {
                assert(kept.entry(i).value > kept.entry(offset - 1).value);
            }
        }
        assert forall|p: int|
            0 <= p < after.history@.len() && p >= after.history@.len()
                - capacity implies #[trigger] after.covered(p) by {
            if p < h.len() {
                assert(kept.covered(p));
                assert(h[p] == after.history@[p]);
                let c = choose|c: int|
                    #![trigger kept.entry(c)]
                    0 <= c < kept.len && kept.index(c) >= p && kept.entry(c).value >= h[p];
                if c < offset {
                    assert(after.entry(c) == kept.entry(c));
                } else {
                    assert(after.entry(offset).value >= h[p]);
                }
            } else {
                assert(after.entry(offset).value >= after.history@[p]);
            }
        }
    }

    /// Strictly ordered candidates inside a window are at most as many as the
    /// window is long.
    proof fn candidates_fit(self, window: int, n: int)
        requires
            self.covers(window),
            0 <= window,
            0 <= n <= self.len,
        ensures
            n <= window,
            n > 0 ==> age(self.now, self.entry(n - 1).position) <= window - (n - 1),
        decreases n,
    {
        if n > 0 {
            self.candidates_fit(window, n - 1);
            assert(1 <= age(self.now, self.entry(n - 1).position) <= window);
            if n > 1 {
                assert(self.index(n - 2) < self.index(n - 1));
            }
        }
    }
}

} // verus!
