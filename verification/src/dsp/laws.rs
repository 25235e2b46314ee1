//! What holds of the signal processors.
use super::chain::{
    ChainMixes, ChorusRun, ChorusStage, Crush, CrusherStage, EffectChain, StageRun, TailStage,
};
use super::envelope::{timer_after, BassAccentStage, ContourTimer, EnvStage, Segment};
use super::limiter::{is_window_maximum, next_slot, slot_at};
use super::noise::{xorshift, xorshift_n};
use super::predelay::PreDelayModel;
use super::ramp::{ramp_at, RampStep};
use super::ring::{behind, clamp_delay, past, DelayModel};
use super::tail::{ChainActivity, SendActivity, TailCounter};
use crate::model::instrument::ChorusMode;
use vstd::prelude::*;

verus! {

/// What was written comes back in its order: the last sample one step back, the
/// one before it two, and silence beyond the first.
pub proof fn lines_give_back_what_was_written<T>(
    written: Seq<T>,
    sample: T,
    silence: T,
    distance: int,
)
    requires
        1 <= distance,
    ensures
        past(written.push(sample), silence, 1) == sample,
        distance <= written.len() ==> past(written, silence, distance) == written[written.len()
            - distance],
        distance > written.len() ==> past(written, silence, distance) == silence,
        past(written.push(sample), silence, distance + 1) == past(written, silence, distance),
{
}

/// The places of a ring are counted back round its end.
pub proof fn rings_wrap(pos: int, len: int, distance: int)
    requires
        0 <= pos < len,
        1 <= distance <= len,
    ensures
        0 <= behind(pos, len, distance) < len,
        (behind(pos, len, distance) + distance) % len == pos,
{
    if pos >= distance {
        vstd::arithmetic::div_mod::lemma_small_mod(pos as nat, len as nat);
    } else {
        vstd::arithmetic::div_mod::lemma_mod_add_multiples_vanish(pos, len);
        vstd::arithmetic::div_mod::lemma_small_mod(pos as nat, len as nat);
        assert(behind(pos, len, distance) + distance == len + pos);
    }
}

/// A delay is as long as was asked for, at least one sample and at most what
/// its line can hold.
pub proof fn delays_fit_their_line(samples: usize, capacity: nat)
    requires
        capacity >= 2,
    ensures
        1 <= clamp_delay(samples, capacity) < capacity,
        1 <= samples < capacity ==> clamp_delay(samples, capacity) == samples,
        samples == 0 ==> clamp_delay(samples, capacity) == 1,
        samples >= capacity ==> clamp_delay(samples, capacity) == capacity - 1,
{
}

/// A delay that is set anew fades over from its old length; one that is set for
/// the first time, or to the length it has, does not.
pub proof fn delays_fade_between_lengths<T>(
    line: DelayModel<T>,
    samples: usize,
    capacity: nat,
    fade: nat,
    tail_samples: usize,
    silence: T,
)
    requires
        capacity >= 2,
        1 <= samples < capacity,
    ensures
        ({
            let next = line.reconfigured(samples, capacity, fade, tail_samples);
            let other = line.configured && samples != line.delay;
            &&& next.delay == samples
            &&& next.configured
            &&& other ==> next.old_delay == line.delay && next.fade_remaining == fade
            &&& !other ==> next.old_delay == line.old_delay && next.fade_remaining
                == line.fade_remaining
            &&& next.activity.tail_samples == tail_samples
            &&& next.activity.active == line.activity.active
            &&& next.left == line.left
            &&& next.right == line.right
        }),
        ({
            let taps = line.taps(silence);
            &&& taps.left == past(line.left, silence, line.delay)
            &&& taps.right == past(line.right, silence, line.delay)
            &&& taps.fading is Some <==> line.fade_remaining > 0
            &&& taps.fading matches Some((left, right, _)) ==> left == past(
                line.left,
                silence,
                line.old_delay,
            ) && right == past(line.right, silence, line.old_delay)
        }),
{
}

/// A pre-delay is as long as was asked for and at most what its line can hold;
/// it fades over from its old length, and a length of nothing lets a sample
/// straight through.
pub proof fn pre_delays_fade_between_lengths<T>(
    line: PreDelayModel<T>,
    samples: usize,
    capacity: nat,
    fade: nat,
    left: T,
    right: T,
    silence: T,
)
    requires
        capacity >= 1,
    ensures
        ({
            let next = line.reconfigured(samples, capacity, fade);
            let length = if samples < capacity {
                samples as int
            } else {
                capacity - 1
            };
            &&& next.delay == length
            &&& length == line.delay ==> next == line
            &&& length != line.delay ==> next.old_delay == line.delay && next.fade_remaining == fade
            &&& next.left == line.left
            &&& next.right == line.right
        }),
        line.delay == 0 ==> line.taps(left, right, silence).left == left && line.taps(
            left,
            right,
            silence,
        ).right == right,
        line.taps(left, right, silence).fading is Some <==> line.fade_remaining > 0,
        line.after_frame(left, right).left == line.left.push(left),
        line.after_frame(left, right).right == line.right.push(right),
        line.after_frame(left, right).delay == line.delay,
        line.fade_remaining > 0 ==> line.after_frame(left, right).fade_remaining
            == line.fade_remaining - 1,
        line.fade_remaining <= 0 ==> line.after_frame(left, right).fade_remaining == 0,
{
}

/// The generator mixes bits without losing any: it is linear, so two states
/// that differ lead to states that differ.
pub proof fn generators_lose_no_state(a: u32, b: u32)
    ensures
        xorshift(a) ^ xorshift(b) == xorshift(a ^ b),
        xorshift(0) == 0,
        xorshift(1) == 270_369,
        a != b ==> xorshift(a) != xorshift(b),
{
    assert(xorshift(a) ^ xorshift(b) == xorshift(a ^ b)) by (bit_vector);
    assert(xorshift(0) == 0 && xorshift(1) == 270_369) by (bit_vector);
    if a != b {
        assert(a ^ b != 0) by (bit_vector)
            requires
                a != b,
        ;
        super::noise::xorshift_stays_nonzero(a ^ b);
        let x = xorshift(a);
        let y = xorshift(b);
        assert(x == y ==> x ^ y == 0) by (bit_vector);
    }
}

/// Drawing again goes on where the last draw ended.
pub proof fn draws_follow_each_other(seed: u32, n: nat)
    ensures
        xorshift_n(seed, 0) == seed,
        xorshift_n(seed, n + 1) == xorshift(xorshift_n(seed, n)),
{
}

/// An envelope goes from attack through decay to sustain, and from release to
/// idle, one stage with every target it reaches; without reaching one it stays.
pub proof fn envelopes_go_through_their_stages(stage: EnvStage)
    ensures
        EnvStage::Attack.advanced(true) == EnvStage::Decay,
        EnvStage::Decay.advanced(true) == EnvStage::Sustain,
        EnvStage::Sustain.advanced(true) == EnvStage::Sustain,
        EnvStage::Release.advanced(true) == EnvStage::Idle,
        EnvStage::Idle.advanced(true) == EnvStage::Idle,
        stage.advanced(false) == stage,
        stage != EnvStage::Idle ==> stage.released() == EnvStage::Release,
        EnvStage::Idle.released() == EnvStage::Idle,
{
}

/// An accented bass note rises to its peak before it falls, any other falls at
/// once, and silence ends both.
pub proof fn accents_rise_before_they_fall(
    stage: BassAccentStage,
    at_peak: bool,
    at_silence: bool,
)
    ensures
        BassAccentStage::triggered(true) == BassAccentStage::Attack,
        BassAccentStage::triggered(false) == BassAccentStage::Decay,
        stage.advanced(at_peak, true) == BassAccentStage::Idle,
        BassAccentStage::Attack.advanced(true, false) == BassAccentStage::Decay,
        stage.advanced(false, false) == stage,
        stage != BassAccentStage::Attack ==> stage.advanced(at_peak, false) == stage,
{
}

/// A contour rises, falls and settles, each for as many samples as it was given,
/// and says at every sample how far it is.
pub proof fn contours_rise_fall_and_settle(timer: ContourTimer, n: nat)
    requires
        timer.wf(),
    ensures
        timer.elapsed < timer.rise_samples <==> timer.segment() is Rise,
        timer.segment() matches Segment::Rise { elapsed, length } ==> elapsed == timer.elapsed
            && length == timer.rise_samples,
        timer.segment() matches Segment::Fall { elapsed, length } ==> elapsed + timer.rise_samples
            == timer.elapsed && length + timer.rise_samples == timer.fall_samples,
        timer.elapsed >= timer.fall_samples <==> timer.segment() is Settled,
        timer.idle() <==> timer.segment() is Settled,
        timer.elapsed + n <= u32::MAX ==> timer_after(timer, n).elapsed == timer.elapsed + n,
        timer_after(timer, n).rise_samples == timer.rise_samples,
        timer_after(timer, n).fall_samples == timer.fall_samples,
{
}

/// A ramp takes steps, lands with its last sample and holds from then on; one
/// of no samples holds at once.
pub proof fn ramps_step_land_and_hold(samples: u32, n: nat)
    ensures
        n + 1 < samples ==> ramp_at(samples, n) == RampStep::Step,
        n + 1 == samples ==> ramp_at(samples, n) == RampStep::Land,
        n >= samples ==> ramp_at(samples, n) == RampStep::Hold,
{
}

/// A tail that is fed lasts for its limit again; one that is not comes one
/// sample nearer to its end, and counts how long it has been quiet.
pub proof fn tails_count_from_the_last_feed(tail: TailCounter, quiet: bool, limit: u32)
    ensures
        tail.updated(true, quiet, limit).remaining == limit,
        tail.updated(true, quiet, limit).quiet_samples == 0,
        tail.remaining > 0 ==> tail.updated(false, quiet, limit).remaining == tail.remaining - 1,
        tail.remaining == 0 ==> tail.updated(false, quiet, limit).remaining == 0,
        tail.updated(false, false, limit).quiet_samples == 0,
        tail.quiet_samples < u32::MAX ==> tail.updated(false, true, limit).quiet_samples
            == tail.quiet_samples + 1,
{
}

/// A tail is active while it is fed, and then until its limit is over or it has
/// been quiet for long enough.
pub proof fn tails_are_active_until_quiet(
    tail: TailCounter,
    quiet: bool,
    quiet_length: u32,
    limit: u32,
)
    requires
        tail.quiet_samples < u32::MAX,
    ensures
        tail.active_after(true, quiet, quiet_length, limit),
        tail.active_after(false, false, quiet_length, limit) <==> tail.remaining > 1 && quiet_length
            > 0,
        tail.active_after(false, true, quiet_length, limit) <==> tail.remaining > 1
            && tail.quiet_samples + 1 < quiet_length,
{
}

/// A send that hears something is awake for its tail; in silence it counts the
/// tail down and sleeps after it.
pub proof fn sends_wake_and_sleep(state: SendActivity)
    ensures
        state.after_frame(false).active,
        state.after_frame(false).tail_remaining == state.tail_samples,
        !state.active ==> state.after_frame(true) == state,
        state.active && state.tail_remaining > 1 ==> state.after_frame(true).active
            && state.after_frame(true).tail_remaining == state.tail_remaining - 1,
        state.active && state.tail_remaining <= 1 ==> !state.after_frame(true).active
            && state.after_frame(true).tail_remaining == 0,
        state.awake(false),
        state.awake(true) == state.active,
{
}

/// An effect runs while it is mixed in and fed or still rings, drains where it
/// rings unmixed, and is passed by otherwise.
pub proof fn stages_run_while_fed_or_ringing(stage: TailStage, mixed: bool, loud: bool)
    ensures
        ({
            let fed = mixed && loud;
            let rings = stage.tail.remaining > 0;
            &&& stage.choice(mixed, loud) == StageRun::Run <==> mixed && (loud || rings)
            &&& stage.choice(mixed, loud) == StageRun::Drain <==> !mixed && rings
            &&& stage.choice(mixed, loud) == StageRun::Bypass <==> !fed && !rings
        }),
{
}

/// An effect that is fed rings for its limit; one that has rung out forgets its
/// tail.
pub proof fn stages_forget_what_has_rung_out(
    stage: TailStage,
    mixed: bool,
    loud: bool,
    quiet: bool,
    quiet_length: u32,
    limit: u32,
)
    ensures
        ({
            let next = stage.after(mixed, loud, quiet, quiet_length, limit);
            &&& mixed && loud ==> next.active && next.tail.remaining == limit
            &&& !(mixed && loud) && stage.tail.remaining <= 1 ==> !next.active
                && next.tail.remaining == 0
            &&& !(mixed && loud) && !quiet && quiet_length > 0 && stage.tail.remaining > 1
                ==> next.active && next.tail.remaining == stage.tail.remaining - 1
            &&& !next.active ==> next.tail.remaining == 0 && next.tail.quiet_samples == 0
        }),
{
}

/// A crusher captures a sample and holds it, as long as it is mixed in and
/// hears something or is still active; passed by unmixed it lets go of it.
pub proof fn crushers_capture_and_hold(stage: CrusherStage, mixed: bool, loud: bool)
    ensures
        ({
            let runs = mixed && (loud || stage.active);
            &&& !runs ==> stage.choice(mixed, loud) == (Crush::Bypass { emptied: !mixed })
            &&& runs && stage.has_sample ==> stage.choice(mixed, loud) == Crush::Hold
            &&& runs && !stage.has_sample ==> stage.choice(mixed, loud) == Crush::Capture
        }),
{
}

/// A chorus that is switched fades over from its old mode; set to the mode it
/// has, it goes on undisturbed.
pub proof fn choruses_fade_between_modes(stage: ChorusStage, mode: ChorusMode)
    ensures
        mode == stage.mode ==> stage.switched(mode) == stage,
        mode != stage.mode ==> {
            &&& stage.switched(mode).mode == mode
            &&& stage.switched(mode).old_mode == stage.mode
            &&& stage.switched(mode).fade_remaining == stage.fade_length
            &&& stage.switched(mode).active == stage.active
            &&& stage.switched(mode).tail_remaining == stage.tail_remaining
        },
{
}

/// A chorus runs while it fades, or is on and hears something or rings; it is
/// passed by otherwise.
pub proof fn choruses_run_while_heard(stage: ChorusStage, loud: bool)
    ensures
        ({
            let heard = stage.mode != ChorusMode::Off && (stage.active || loud);
            &&& stage.fade_remaining > 0 ==> stage.choice(loud) == (ChorusRun::Run {
                fading: Some(stage.fade_remaining),
            })
            &&& stage.fade_remaining == 0 && heard ==> stage.choice(loud) == (ChorusRun::Run {
                fading: None,
            })
            &&& stage.fade_remaining == 0 && !heard ==> stage.choice(loud) == ChorusRun::Bypass
            &&& stage.rings() <==> stage.active || stage.fade_remaining != 0
        }),
{
}

/// A running chorus comes one sample nearer to the end of its fade; one that
/// hears something rings for its tail again, and one that does not comes nearer
/// to the end of that too, and rests when both are over.
pub proof fn choruses_ring_from_the_last_sound(stage: ChorusStage, loud: bool)
    requires
        stage.choice(loud) != ChorusRun::Bypass,
    ensures
        ({
            let next = stage.after(loud);
            &&& stage.fade_remaining > 0 ==> next.fade_remaining == stage.fade_remaining - 1
            &&& stage.fade_remaining == 0 ==> next.fade_remaining == 0
            &&& loud ==> next.active && next.tail_remaining == stage.tail_length
            &&& !loud && stage.tail_remaining > 0 ==> next.tail_remaining == stage.tail_remaining
                - 1
            &&& !loud ==> (next.active <==> stage.active && (next.tail_remaining > 0
                || next.fade_remaining > 0))
            &&& next.mode == stage.mode
        }),
{
}

/// A chain has work while any of its effects rings, is mixed in or still moves.
pub proof fn chains_have_work_while_any_effect_does(chain: EffectChain, mixes: ChainMixes)
    ensures
        chain.chorus.active || chain.chorus.fade_remaining != 0 || chain.distortion.active
            || chain.bit_crusher.active || chain.phaser.active || chain.flanger.active
            <==> chain.ringing(),
        chain.ringing() ==> chain.has_work(mixes),
        chain.chorus.mode != ChorusMode::Off ==> chain.has_work(mixes),
        mixes.distortion.smoothing || mixes.distortion.audible_target ==> chain.has_work(mixes),
        mixes.bit_crusher.smoothing || mixes.bit_crusher.audible_target ==> chain.has_work(mixes),
        mixes.phaser.smoothing || mixes.phaser.audible_target ==> chain.has_work(mixes),
        mixes.flanger.smoothing || mixes.flanger.audible_target ==> chain.has_work(mixes),
{
}

/// A chain is active while any one of its effects is, and stages that have been
/// cleared are not.
pub proof fn chains_are_active_through_any_effect(activity: ChainActivity)
    ensures
        activity.any() <==> activity.chorus || activity.distortion || activity.bit_crusher
            || activity.phaser || activity.flanger,
        activity.bit_crusher ==> activity.any(),
        activity.phaser ==> activity.any(),
        !CrusherStage::silent().active,
        !CrusherStage::silent().has_sample,
        !TailStage::silent().active,
        TailStage::silent().tail.remaining == 0,
        TailStage::silent().tail.quiet_samples == 0,
{
}

/// The slots of a window go round its end.
pub proof fn slots_go_round(slot: int, offset: int, capacity: int)
    requires
        0 <= slot < capacity,
        0 <= offset < capacity,
    ensures
        slot_at(slot, offset, capacity) == (slot + offset) % capacity,
        next_slot(slot, capacity) == (slot + 1) % capacity,
{
    if slot + offset < capacity {
        vstd::arithmetic::div_mod::lemma_small_mod((slot + offset) as nat, capacity as nat);
    } else {
        vstd::arithmetic::div_mod::lemma_mod_sub_multiples_vanish(slot + offset, capacity);
        vstd::arithmetic::div_mod::lemma_small_mod(
            (slot + offset - capacity) as nat,
            capacity as nat,
        );
    }
    if slot + 1 == capacity {
        vstd::arithmetic::div_mod::lemma_mod_self_0(capacity);
    } else {
        vstd::arithmetic::div_mod::lemma_small_mod((slot + 1) as nat, capacity as nat);
    }
}

/// The maximum of a window is a peak of the window that no other exceeds; peaks
/// before the window do not count.
pub proof fn window_maxima_are_unique(history: Seq<u32>, window: nat, a: u32, b: u32, i: int)
    requires
        is_window_maximum(history, window, a),
        is_window_maximum(history, window, b),
        0 <= i < history.len(),
        i + window >= history.len(),
    ensures
        a == b,
        history[i] <= a,
        history.contains(a),
{
}

} // verus!
