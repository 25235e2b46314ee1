//! The order in which an arpeggio visits the tones of a shape.
use crate::dsp::noise::{next_xorshift, xorshift, FALLBACK_SEED};
use crate::model::event::{ArpeggioRate, ArpeggioType, ChordShape};
use vstd::prelude::*;

verus! {

/// Longest order: a four-note shape up and down without repeating the ends.
pub const ORDER_CAPACITY: usize = 8;

#[derive(Clone, Copy, Debug)]
pub struct ArpeggioState {
    pub enabled: bool,
    pub kind: ArpeggioType,
    pub rate: ArpeggioRate,
    pub shape: ChordShape,
    pub order: [u8; ORDER_CAPACITY],
    pub order_len: u8,
    pub position: u8,
    pub random: u32,
}

/// How many tones one pass of an arpeggio over `n` voices visits.
pub open spec fn order_length(kind: ArpeggioType, n: int) -> int {
    match kind {
        ArpeggioType::Up | ArpeggioType::Down | ArpeggioType::Random => n,
        ArpeggioType::UpDown | ArpeggioType::DownUp => if n > 1 {
            2 * n - 2
        } else {
            n
        },
    }
}

/// The voice that an arpeggio over `n` voices visits at a place of its pass,
/// before a random one is shuffled.
pub open spec fn plain_order(kind: ArpeggioType, n: int, i: int) -> int {
    match kind {
        ArpeggioType::Up | ArpeggioType::Random => i,
        ArpeggioType::Down => n - 1 - i,
        ArpeggioType::UpDown => if i < n {
            i
        } else {
            2 * n - 2 - i
        },
        ArpeggioType::DownUp => if i < n {
            n - 1 - i
        } else {
            i - n + 1
        },
    }
}

pub open spec fn swapped(order: Seq<u8>, i: int, j: int) -> Seq<u8> {
    order.update(i, order[j]).update(j, order[i])
}

/// The order and generator after the shuffle has settled the places above
/// `i`.
pub open spec fn shuffled_from(order: Seq<u8>, random: u32, i: int) -> (Seq<u8>, u32)
    decreases i,
{
    if i <= 0 {
        (order, random)
    } else {
        let next = xorshift(random);
        let j = next as int % (i + 1);
        shuffled_from(swapped(order, i, j), next, i - 1)
    }
}

/// The order with its first `length` places shuffled.
pub open spec fn shuffled(order: Seq<u8>, random: u32, length: int) -> (Seq<u8>, u32) {
    shuffled_from(order, random, length - 1)
}

#[verifier::ext_equal]
pub struct ArpeggioModel {
    pub enabled: bool,
    pub kind: ArpeggioType,
    pub rate: ArpeggioRate,
    pub shape: ChordShape,
    pub order: Seq<u8>,
    pub order_len: u8,
    pub position: u8,
    pub random: u32,
}

impl View for ArpeggioState {
    type V = ArpeggioModel;

    open spec fn view(&self) -> ArpeggioModel {
        ArpeggioModel {
            enabled: self.enabled,
            kind: self.kind,
            rate: self.rate,
            shape: self.shape,
            order: self.order@,
            order_len: self.order_len,
            position: self.position,
            random: self.random,
        }
    }
}

impl ArpeggioModel {
    /// The order stays inside the shape, and the position inside the order.
    pub open spec fn wf(self) -> bool {
        &&& self.order.len() == ORDER_CAPACITY
        &&& self.order_len <= ORDER_CAPACITY
        &&& self.order_len == 0 || self.position < self.order_len
        &&& self.position < ORDER_CAPACITY
        &&& self.order_len > 0 ==> self.order_len == order_length(
            self.kind,
            self.shape.degrees().len() as int,
        )
        &&& forall|i: int|
            0 <= i < self.order_len ==> (#[trigger] self.order[i]) < self.shape.degrees().len()
    }

    /// The order that a shape and a kind call for, over what stood there.
    pub open spec fn rebuilt(self) -> ArpeggioModel {
        let n = self.shape.degrees().len() as int;
        let length = order_length(self.kind, n);
        let plain = Seq::new(
            self.order.len(),
            |i: int|
                if i < length {
                    plain_order(self.kind, n, i) as u8
                } else {
                    self.order[i]
                },
        );
        if self.kind == ArpeggioType::Random {
            let mixed = shuffled(plain, self.random, length);
            ArpeggioModel { order: mixed.0, random: mixed.1, order_len: length as u8, ..self }
        } else {
            ArpeggioModel { order: plain, order_len: length as u8, ..self }
        }
    }

    pub open spec fn restarted(
        self,
        shape: ChordShape,
        kind: ArpeggioType,
        rate: ArpeggioRate,
    ) -> ArpeggioModel {
        ArpeggioModel { enabled: true, kind, rate, shape, position: 0, ..self }.rebuilt()
    }

    /// One tone on; a random order is dealt anew after each pass.
    pub open spec fn stepped(self) -> ArpeggioModel {
        if self.position + 1 >= self.order_len {
            if self.kind == ArpeggioType::Random {
                let mixed = shuffled(self.order, self.random, self.order_len as int);
                ArpeggioModel { position: 0, order: mixed.0, random: mixed.1, ..self }
            } else {
                ArpeggioModel { position: 0, ..self }
            }
        } else {
            ArpeggioModel { position: (self.position + 1) as u8, ..self }
        }
    }
}

/// The state of an arpeggio that has never run.
pub open spec fn resting_arpeggio() -> ArpeggioModel {
    ArpeggioModel {
        enabled: false,
        kind: ArpeggioType::Up,
        rate: ArpeggioRate::Sixteenth,
        shape: ChordShape::TriadRoot,
        order: Seq::new(ORDER_CAPACITY as nat, |i: int| 0u8),
        order_len: 0,
        position: 0,
        random: FALLBACK_SEED,
    }
}

impl Default for ArpeggioState {
    fn default() -> (state: ArpeggioState)
        ensures
            state@ == resting_arpeggio(),
            state@.wf(),
    {
        let state = ArpeggioState {
            enabled: false,
            kind: ArpeggioType::Up,
            rate: ArpeggioRate::Sixteenth,
            shape: ChordShape::TriadRoot,
            order: [0; ORDER_CAPACITY],
            order_len: 0,
            position: 0,
            random: FALLBACK_SEED,
        };
        assert(state@ =~= resting_arpeggio());
        state
    }
}

/// A shuffle only moves the tones of a pass among each other: the places
/// behind it keep what they hold, and no tone is lost or doubled.
pub proof fn shuffle_is_a_permutation(order: Seq<u8>, random: u32, i: int)
    requires
        i < order.len(),
    ensures
        shuffled_from(order, random, i).0.len() == order.len(),
        shuffled_from(order, random, i).0.to_multiset() == order.to_multiset(),
        forall|k: int|
            i < k < order.len() ==> shuffled_from(order, random, i).0[k] == order[k],
    decreases i,
{
    if i > 0 {
        let next = xorshift(random);
        let j = next as int % (i + 1);
        let once = swapped(order, i, j);
        shuffle_is_a_permutation(once, next, i - 1);
        swap_keeps_the_tones(order, i, j);
        assert forall|k: int| i < k < order.len() implies shuffled_from(order, random, i).0[k]
            == order[k] by {
            assert(once[k] == order[k]);
            assert(shuffled_from(once, next, i - 1).0[k] == once[k]);
        }
    }
}

proof fn swap_keeps_the_tones(order: Seq<u8>, i: int, j: int)
    requires
        0 <= i < order.len(),
        0 <= j < order.len(),
    ensures
        swapped(order, i, j).to_multiset() == order.to_multiset(),
{
    broadcast use vstd::seq_lib::group_to_multiset_ensures;

    let first = order.update(i, order[j]);
    vstd::seq_lib::to_multiset_update(order, i, order[j]);
    vstd::seq_lib::to_multiset_update(first, j, order[i]);
    let m = order.to_multiset();
    assert(order.to_multiset().count(order[i]) > 0) by {
        assert(order.contains(order[i]));
    }
    if i == j {
        assert(swapped(order, i, j) =~= order);
    } else {
        assert(m.insert(order[j]).remove(order[i]).insert(order[i]).remove(order[j]) =~= m);
    }
}

/// A shuffle keeps a bound that holds of every shuffled place.
proof fn shuffle_keeps_bounds(order: Seq<u8>, random: u32, i: int, length: int, bound: int)
    requires
        i < length <= order.len(),
        forall|k: int| 0 <= k < length ==> (#[trigger] order[k]) < bound,
    ensures
        shuffled_from(order, random, i).0.len() == order.len(),
        forall|k: int|
            0 <= k < length ==> (#[trigger] shuffled_from(order, random, i).0[k]) < bound,
    decreases i,
{
    if i > 0 {
        let next = xorshift(random);
        let j = next as int % (i + 1);
        shuffle_keeps_bounds(swapped(order, i, j), next, i - 1, length, bound);
    }
}

/// Whatever an arpeggio is given, the order it builds stays inside its shape.
pub proof fn rebuilt_orders_stay_in_shape(state: ArpeggioModel)
    requires
        state.order.len() == ORDER_CAPACITY,
        state.position == 0,
    ensures
        state.rebuilt().wf(),
        state.rebuilt().order_len >= 1,
{
    let n = state.shape.degrees().len() as int;
    let length = order_length(state.kind, n);
    let plain = Seq::new(
        state.order.len(),
        |i: int|
            if i < length {
                plain_order(state.kind, n, i) as u8
            } else {
                state.order[i]
            },
    );
    assert(1 <= n <= 4);
    assert forall|k: int| 0 <= k < length implies (#[trigger] plain[k]) < n by {}
    if state.kind == ArpeggioType::Random {
        shuffle_keeps_bounds(plain, state.random, length - 1, length, n);
    }
}

/// A running arpeggio keeps its order inside its shape.
pub proof fn stepping_keeps_the_order(state: ArpeggioModel)
    requires
        state.wf(),
        state.order_len >= 1,
    ensures
        state.stepped().wf(),
        state.stepped().order_len == state.order_len,
{
    if state.position + 1 >= state.order_len && state.kind == ArpeggioType::Random {
        shuffle_keeps_bounds(
            state.order,
            state.random,
            state.order_len - 1,
            state.order_len as int,
            state.shape.degrees().len() as int,
        );
    }
}

/// One pass of an unshuffled arpeggio visits every voice of the shape.
pub proof fn every_voice_is_visited(kind: ArpeggioType, n: int, voice: int)
    requires
        1 <= n <= 4,
        0 <= voice < n,
    ensures
        exists|i: int|
            0 <= i < order_length(kind, n) && #[trigger] plain_order(kind, n, i) == voice,
{
    let at = match kind {
        ArpeggioType::Up | ArpeggioType::Random | ArpeggioType::UpDown => voice,
        ArpeggioType::Down | ArpeggioType::DownUp => n - 1 - voice,
    };
    assert(plain_order(kind, n, at) == voice);
}

impl ArpeggioState {
    /// Starts an arpeggio over a shape from its first tone.
    pub fn reset(&mut self, shape: ChordShape, kind: ArpeggioType, rate: ArpeggioRate)
        ensures
            final(self)@ == old(self)@.restarted(shape, kind, rate),
            final(self)@.wf(),
            final(self)@.order_len >= 1,
    {
        self.enabled = true;
        self.kind = kind;
        self.rate = rate;
        self.shape = shape;
        self.position = 0;
        proof {
            rebuilt_orders_stay_in_shape(self@);
        }
        self.rebuild_order();
    }

    /// Writes the order that the shape and the kind call for.
    pub fn rebuild_order(&mut self)
        ensures
            final(self)@ == old(self)@.rebuilt(),
    {
        let n: usize = self.shape.voices();
        let length: usize = match self.kind {
            ArpeggioType::Up | ArpeggioType::Down | ArpeggioType::Random => n,
            ArpeggioType::UpDown | ArpeggioType::DownUp => if n > 1 {
                n * 2 - 2
            } else {
                n
            },
        };
        self.order_len = length as u8;
        let ghost before = old(self)@;
        let ghost kind = self.kind;
        let mut i: usize = 0;
        while i < length
            invariant
                i <= length <= ORDER_CAPACITY,
                1 <= n <= 4,
                kind == self.kind,
                length == order_length(kind, n as int),
                before == old(self)@,
                self@ == (ArpeggioModel { order: self@.order, order_len: length as u8, ..before }),
                self@.order.len() == ORDER_CAPACITY,
                forall|k: int|
                    0 <= k < i ==> (#[trigger] self@.order[k]) == plain_order(kind, n as int, k),
                forall|k: int| i <= k < ORDER_CAPACITY ==> self@.order[k] == before.order[k],
            decreases length - i,
        {
            let voice: usize = match self.kind {
                ArpeggioType::Up | ArpeggioType::Random => i,
                ArpeggioType::Down => n - i - 1,
                ArpeggioType::UpDown => if i < n {
                    i
                } else {
                    length - i
                },
                ArpeggioType::DownUp => if i < n {
                    n - i - 1
                } else {
                    i - n + 1
                },
            };
            self.order[i] = voice as u8;
            i = i + 1;
        }
        proof {
            let plain = Seq::new(
                before.order.len(),
                |k: int|
                    if k < length {
                        plain_order(kind, n as int, k) as u8
                    } else {
                        before.order[k]
                    },
            );
            assert(self@.order =~= plain);
        }
        if self.kind == ArpeggioType::Random {
            self.shuffle();
        }
    }

    /// Shuffles the places in use.
    pub fn shuffle(&mut self)
        requires
            old(self)@.order_len <= ORDER_CAPACITY,
        ensures
            final(self)@ == (ArpeggioModel {
                order: shuffled(old(self)@.order, old(self)@.random, old(self)@.order_len as int).0,
                random: shuffled(
                    old(self)@.order,
                    old(self)@.random,
                    old(self)@.order_len as int,
                ).1,
                ..old(self)@
            }),
    {
        if self.order_len == 0 {
            return;
        }
        let mut i: usize = self.order_len as usize - 1;
        let ghost whole = shuffled(self@.order, self@.random, self@.order_len as int);
        while i > 0
            invariant
                i < ORDER_CAPACITY,
                self@ == (ArpeggioModel {
                    order: self@.order,
                    random: self@.random,
                    ..old(self)@
                }),
                shuffled_from(self@.order, self@.random, i as int) == whole,
            decreases i,
        {
            let next: u32 = next_xorshift(self.random);
            self.random = next;
            let span: u32 = i as u32 + 1;
            let j: usize = (next % span) as usize;
            let a: u8 = self.order[i];
            let b: u8 = self.order[j];
            let ghost earlier = self@.order;
            self.order[i] = b;
            self.order[j] = a;
            assert(self@.order =~= swapped(earlier, i as int, j as int));
            i = i - 1;
        }
    }

    /// The voice whose tone sounds now.
    pub fn current_voice(&self) -> (voice: usize)
        requires
            self.position < ORDER_CAPACITY,
        ensures
            voice == self@.order[self@.position as int],
    {
        self.order[self.position as usize] as usize
    }

    /// Moves on where the tone is over; says whether a new tone starts.
    pub fn tick(&mut self, due: bool) -> (started: bool)
        requires
            old(self)@.wf(),
            old(self)@.enabled ==> old(self)@.order_len >= 1,
        ensures
            started == (old(self)@.enabled && due),
            final(self)@ == if started {
                old(self)@.stepped()
            } else {
                old(self)@
            },
            final(self)@.wf(),
    {
        if !self.enabled || !due {
            return false;
        }
        proof {
            stepping_keeps_the_order(self@);
        }
        if self.position + 1 >= self.order_len {
            self.position = 0;
            if self.kind == ArpeggioType::Random {
                self.shuffle();
            }
        } else {
            self.position = self.position + 1;
        }
        true
    }
}

} // verus!
