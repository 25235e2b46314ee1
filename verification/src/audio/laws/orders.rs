//! The order in which an arpeggio visits the voices of a shape.
use crate::audio::arpeggio::{shuffled_from, swapped, ArpeggioModel, ORDER_CAPACITY};
use crate::dsp::noise::xorshift;
use crate::model::event::{ArpeggioRate, ArpeggioType, ChordShape};
use vstd::prelude::*;

verus! {

/// An arpeggio that starts plays the shape, the kind and the rate it was
/// given, from the first place of its pass.
pub proof fn arpeggios_start_at_their_first_place(
    state: ArpeggioModel,
    shape: ChordShape,
    kind: ArpeggioType,
    rate: ArpeggioRate,
)
    requires
        state.order.len() == ORDER_CAPACITY,
    ensures
        ({
            let next = state.restarted(shape, kind, rate);
            &&& next.enabled
            &&& next.shape == shape
            &&& next.kind == kind
            &&& next.rate == rate
            &&& next.position == 0
            &&& kind != ArpeggioType::Random ==> next.random == state.random
        }),
{
}

/// An upward pass climbs from the lowest voice to the highest by ones, and a
/// downward pass is the same walk from the other end.
pub proof fn plain_passes_walk_by_ones(
    state: ArpeggioModel,
    shape: ChordShape,
    rate: ArpeggioRate,
    i: int,
)
    requires
        state.order.len() == ORDER_CAPACITY,
        0 <= i < shape.degrees().len(),
    ensures
        ({
            let n = shape.degrees().len() as int;
            let up = state.restarted(shape, ArpeggioType::Up, rate);
            let down = state.restarted(shape, ArpeggioType::Down, rate);
            &&& up.order_len == n
            &&& down.order_len == n
            &&& up.order[0] == 0
            &&& up.order[n - 1] == n - 1
            &&& i + 1 < n ==> up.order[i + 1] == up.order[i] + 1
            &&& down.order[0] == n - 1
            &&& down.order[n - 1] == 0
            &&& i + 1 < n ==> down.order[i + 1] == down.order[i] - 1
            &&& up.order[i] + down.order[i] == n - 1
        }),
{
}

/// A pass up and down over two voices or more starts at the lowest, climbs by
/// ones through the first places to the highest, and falls by ones from there;
/// so from any place to the next, and from the last to the first of the
/// following pass, it moves to a neighbouring voice. Neither end is repeated.
pub proof fn up_down_passes_turn_at_the_top(
    state: ArpeggioModel,
    shape: ChordShape,
    rate: ArpeggioRate,
    i: int,
)
    requires
        state.order.len() == ORDER_CAPACITY,
        shape.degrees().len() >= 2,
        0 <= i < 2 * shape.degrees().len() - 2,
    ensures
        ({
            let n = shape.degrees().len() as int;
            let length = 2 * n - 2;
            let order = state.restarted(shape, ArpeggioType::UpDown, rate).order;
            let following = if i + 1 == length {
                order[0]
            } else {
                order[i + 1]
            };
            &&& state.restarted(shape, ArpeggioType::UpDown, rate).order_len == length
            &&& order[0] == 0
            &&& order[n - 1] == n - 1
            &&& order[i] < n
            &&& following - order[i] == 1 || following - order[i] == -1
            &&& i < n - 1 ==> following == order[i] + 1
            &&& i >= n - 1 ==> following == order[i] - 1
        }),
{
}

/// A pass down and up is the mirror image: it starts at the highest voice,
/// falls by ones to the lowest, and climbs by ones from there.
pub proof fn down_up_passes_turn_at_the_bottom(
    state: ArpeggioModel,
    shape: ChordShape,
    rate: ArpeggioRate,
    i: int,
)
    requires
        state.order.len() == ORDER_CAPACITY,
        shape.degrees().len() >= 2,
        0 <= i < 2 * shape.degrees().len() - 2,
    ensures
        ({
            let n = shape.degrees().len() as int;
            let length = 2 * n - 2;
            let order = state.restarted(shape, ArpeggioType::DownUp, rate).order;
            let following = if i + 1 == length {
                order[0]
            } else {
                order[i + 1]
            };
            &&& state.restarted(shape, ArpeggioType::DownUp, rate).order_len == length
            &&& order[0] == n - 1
            &&& order[n - 1] == 0
            &&& order[i] < n
            &&& following - order[i] == 1 || following - order[i] == -1
            &&& i < n - 1 ==> following == order[i] - 1
            &&& i >= n - 1 ==> following == order[i] + 1
            &&& order[i] + state.restarted(shape, ArpeggioType::UpDown, rate).order[i] == n - 1
        }),
{
}

/// A shape of one voice is one place long, whatever the kind.
pub proof fn single_voices_repeat(
    state: ArpeggioModel,
    shape: ChordShape,
    kind: ArpeggioType,
    rate: ArpeggioRate,
)
    requires
        state.order.len() == ORDER_CAPACITY,
        shape.degrees().len() == 1,
    ensures
        state.restarted(shape, kind, rate).order_len == 1,
        state.restarted(shape, kind, rate).order[0] == 0,
{
}

proof fn shuffles_keep_voices(order: Seq<u8>, random: u32, i: int, length: int, voice: u8)
    requires
        i < length <= order.len(),
        exists|k: int| 0 <= k < length && (#[trigger] order[k]) == voice,
        forall|a: int, b: int|
            0 <= a < b < length ==> (#[trigger] order[a]) != (#[trigger] order[b]),
    ensures
        shuffled_from(order, random, i).0.len() == order.len(),
        exists|k: int|
            0 <= k < length && (#[trigger] shuffled_from(order, random, i).0[k]) == voice,
        forall|a: int, b: int|
            0 <= a < b < length ==> (#[trigger] shuffled_from(order, random, i).0[a]) != (
            #[trigger] shuffled_from(order, random, i).0[b]),
    decreases i,
{
    if i > 0 {
        let next = xorshift(random);
        let j = next as int % (i + 1);
        let once = swapped(order, i, j);
        let k = choose|k: int| 0 <= k < length && (#[trigger] order[k]) == voice;
        let at = if k == i {
            j
        } else if k == j {
            i
        } else {
            k
        };
        assert(once[at] == voice);
        shuffles_keep_voices(once, next, i - 1, length, voice);
    }
}

/// A random pass visits every voice of the shape, and none twice.
pub proof fn random_passes_visit_each_voice_once(
    state: ArpeggioModel,
    shape: ChordShape,
    rate: ArpeggioRate,
    voice: u8,
    a: int,
    b: int,
)
    requires
        state.order.len() == ORDER_CAPACITY,
        voice < shape.degrees().len(),
        0 <= a < b < shape.degrees().len(),
    ensures
        ({
            let next = state.restarted(shape, ArpeggioType::Random, rate);
            &&& next.order_len == shape.degrees().len()
            &&& next.order[a] != next.order[b]
            &&& exists|k: int| 0 <= k < next.order_len && (#[trigger] next.order[k]) == voice
        }),
{
    let n = shape.degrees().len() as int;
    let plain = state.restarted(shape, ArpeggioType::Up, rate).order;
    let mixed = ArpeggioModel {
        enabled: true,
        kind: ArpeggioType::Random,
        rate,
        shape,
        position: 0,
        ..state
    };
    assert(plain[voice as int] == voice);
    assert(Seq::new(
        mixed.order.len(),
        |i: int|
            if i < n {
                crate::audio::arpeggio::plain_order(ArpeggioType::Random, n, i) as u8
            } else {
                mixed.order[i]
            },
    ) =~= plain);
    shuffles_keep_voices(plain, state.random, n - 1, n, voice);
    assert(mixed.rebuilt().order == shuffled_from(plain, state.random, n - 1).0);
}

proof fn lower_shuffles_leave_a_place(order: Seq<u8>, random: u32, i: int, place: int)
    requires
        i < place < order.len(),
    ensures
        shuffled_from(order, random, i).0[place] == order[place],
    decreases i,
{
    if i > 0 {
        let next = xorshift(random);
        let j = next as int % (i + 1);
        lower_shuffles_leave_a_place(swapped(order, i, j), next, i - 1, place);
    }
}

/// A shuffle fills its places from the last one down: each receives the tone
/// that the generator draws among those not yet placed, itself included.
pub proof fn shuffles_draw_every_place(order: Seq<u8>, random: u32, i: int)
    requires
        0 < i < order.len(),
    ensures
        shuffled_from(order, random, i).0[i] == order[xorshift(random) as int % (i + 1)],
        shuffled_from(order, random, 0) == (order, random),
{
    let next = xorshift(random);
    let j = next as int % (i + 1);
    lower_shuffles_leave_a_place(swapped(order, i, j), next, i - 1, i);
}

/// An arpeggio moves one place on with every tone and starts its pass over
/// after the last place. Within a pass nothing else changes; only a random
/// one is dealt anew for the next.
pub proof fn passes_advance_place_by_place(state: ArpeggioModel)
    requires
        state.wf(),
        state.order_len >= 1,
    ensures
        ({
            let next = state.stepped();
            &&& state.position + 1 < state.order_len ==> next.position == state.position + 1
            &&& state.position + 1 == state.order_len ==> next.position == 0
            &&& state.position + 1 < state.order_len || state.kind != ArpeggioType::Random ==> {
                &&& next.order == state.order
                &&& next.random == state.random
            }
            &&& state.position + 1 == state.order_len && state.kind == ArpeggioType::Random
                && state.order_len > 1 ==> next.order[state.order_len - 1]
                == state.order[xorshift(state.random) as int % (state.order_len as int)]
            &&& next.enabled == state.enabled
            &&& next.kind == state.kind
            &&& next.rate == state.rate
            &&& next.shape == state.shape
            &&& next.order_len == state.order_len
        }),
{
    if state.order_len > 1 {
        shuffles_draw_every_place(state.order, state.random, state.order_len - 1);
    }
}

} // verus!
