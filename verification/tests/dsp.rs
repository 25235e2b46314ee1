//! The integer parts of the signal path.
use terminal_groove::dsp::chain::{
    ChainMixes, ChorusRun, ChorusStage, Crush, CrusherStage, EffectChain, StageRun, TailStage,
    QUIET_SAMPLES,
};
use terminal_groove::dsp::envelope::{
    BassAccentStage, ContourTimer, EnvStage, Segment,
};
use terminal_groove::dsp::limiter::PeakWindow;
use terminal_groove::dsp::noise::{LfoRandom, NoiseSource};
use terminal_groove::dsp::predelay::PreDelay;
use terminal_groove::dsp::ramp::{ControlRate, Ramp, RampStep};
use terminal_groove::dsp::ring::{Delay, Ring};
use terminal_groove::dsp::tail::{ChainActivity, MixState, SendActivity, TailCounter};
use terminal_groove::model::instrument::{ChorusMode, TrackEffects};
use terminal_groove::model::percent::Percent;

fn process(delay: &mut Delay<f32>, left: f32, right: f32) -> f32 {
    let wet = delay.read(left == 0.0 && right == 0.0);
    if wet.is_some() {
        delay.write(left, right);
    }
    wet.map_or(0.0, |taps| match taps.fading {
        Some((old, _, _)) => old,
        None => taps.left,
    })
}

#[test]
fn dsp_delay_exact() {
    let mut d = Delay::new(100, 0.0_f32);
    d.configure(10, 700);
    process(&mut d, 1.0, 0.0);
    for _ in 0..9 {
        assert_eq!(process(&mut d, 0.0, 0.0), 0.0)
    }
    assert_eq!(process(&mut d, 0.0, 0.0), 1.0);
}

#[test]
fn tests_delay_exact() {
    let mut d = Delay::new(100, 0.0_f32);
    d.configure(10, 700);
    for (frame, expected) in
        [1.0, 0.0, 0.0, 0.0, 0.0, 0.0, 0.0, 0.0, 0.0, 0.0, 0.0].into_iter().enumerate()
    {
        let out = process(&mut d, expected, 0.0);
        assert_eq!(out, if frame == 10 { 1.0 } else { 0.0 });
    }
}

#[test]
fn voice_local_noise_is_deterministic_finite_and_seeded() {
    fn sample(source: &mut NoiseSource) -> f32 {
        source.next_sample() as f32 / i32::MAX as f32
    }
    let mut first = NoiseSource::new(0x1234_5678);
    let mut second = NoiseSource::new(0x1234_5678);
    let mut different = NoiseSource::new(0x8765_4321);
    let a: Vec<_> = (0..32).map(|_| sample(&mut first)).collect();
    let b: Vec<_> = (0..32).map(|_| sample(&mut second)).collect();
    let c: Vec<_> = (0..32).map(|_| sample(&mut different)).collect();
    assert_eq!(a, b);
    assert_ne!(a, c);
    assert!(a.iter().all(|sample| sample.is_finite() && sample.abs() <= 1.01));
}

#[test]
fn noise_is_never_stuck_at_zero() {
    let mut source = NoiseSource::new(0);
    assert!((0..1_000).all(|_| source.next_sample() != 0));
    let mut one = NoiseSource::new(1);
    assert_eq!(one.next_sample(), 270_369);
    assert_eq!(one.next_sample(), 67_634_689);
}

#[test]
fn a_reset_lfo_draws_the_same_values_again() {
    let mut lfo = LfoRandom::new(99);
    assert!(!lfo.is_active());
    let first = lfo.activate();
    let more: Vec<i32> = (0..20).map(|_| lfo.random_bipolar()).collect();
    assert!(lfo.is_active());
    lfo.reset();
    assert_eq!(lfo.activate(), first);
    let again: Vec<i32> = (0..20).map(|_| lfo.random_bipolar()).collect();
    assert_eq!(again, more);
    lfo.disable();
    assert!(!lfo.is_active());
}

#[test]
fn a_silent_delay_does_not_advance() {
    let mut delay = Delay::new(1_000, 0.0_f32);
    delay.configure(10, 100);
    assert!(delay.read(true).is_none());
    assert!(!delay.is_active());
    assert!(delay.read(false).is_some());
    delay.write(1.0, 1.0);
    assert!(delay.is_active());
    for _ in 0..100 {
        if delay.read(true).is_some() {
            delay.write(0.0, 0.0);
        }
    }
    assert!(!delay.is_active());
}

#[test]
fn a_ring_returns_what_was_written_so_far_back() {
    let mut ring = Ring::new(4, 0_i32);
    assert_eq!(ring.len(), 4);
    for sample in 1..=6 {
        ring.write(sample);
    }
    assert_eq!([ring.tap(1), ring.tap(2), ring.tap(4)], [6, 5, 3]);
    assert_eq!(ring.tap_or_input(0, 9), 9);
    assert_eq!(ring.tap_or_input(3, 9), 4);
    ring.clear();
    assert_eq!(ring.tap(1), 0);
}

#[test]
fn peak_window_matches_a_naive_maximum() {
    for window in [1_usize, 5, 40, 221] {
        let mut peaks = PeakWindow::new(window);
        let mut history: Vec<u32> = Vec::new();
        let mut state = 12_345_u32;
        for i in 0..(window * 4 + 19) {
            state = state.wrapping_mul(1_664_525).wrapping_add(1_013_904_223);
            let value = if i % 3 == 0 { state >> 8 } else { 7 };
            peaks.push_peak(value);
            history.push(value);
            let start = history.len().saturating_sub(window);
            assert_eq!(peaks.maximum(), *history[start..].iter().max().unwrap());
        }
        peaks.clear();
        peaks.push_peak(3);
        assert_eq!(peaks.maximum(), 3);
    }
}

#[test]
fn a_ramp_lands_on_its_last_sample() {
    let mut ramp = Ramp::new();
    assert!(ramp.set(0));
    assert!(!ramp.is_smoothing());
    assert!(!ramp.set(3));
    let steps: Vec<RampStep> = (0..5).map(|_| ramp.next_step()).collect();
    assert_eq!(
        steps,
        vec![RampStep::Step, RampStep::Step, RampStep::Land, RampStep::Hold, RampStep::Hold]
    );
}

#[test]
fn controls_are_computed_every_eight_frames_while_they_move() {
    let mut rate = ControlRate::new();
    let computed: Vec<bool> = (0..17).map(|_| rate.tick(true).0).collect();
    let expected: Vec<bool> = (0..17).map(|frame| frame % 8 == 0).collect();
    assert_eq!(computed, expected);
    let mut still = ControlRate::new();
    assert_eq!(still.tick(false), (false, false));
}

#[test]
fn envelopes_walk_through_their_stages() {
    let mut stage = EnvStage::Idle.gate_on();
    let mut walk = vec![stage];
    for _ in 0..2 {
        stage = stage.advance(true);
        walk.push(stage);
    }
    assert_eq!(walk, vec![EnvStage::Attack, EnvStage::Decay, EnvStage::Sustain]);
    assert_eq!(stage.advance(true), EnvStage::Sustain);
    assert_eq!(stage.gate_off().advance(false), EnvStage::Release);
    assert_eq!(stage.gate_off().advance(true), EnvStage::Idle);
    assert_eq!(EnvStage::Idle.gate_off(), EnvStage::Idle);
    assert_eq!(
        BassAccentStage::trigger(false).advance(false, true),
        BassAccentStage::Idle
    );
    assert_eq!(
        BassAccentStage::trigger(true).advance(true, false),
        BassAccentStage::Decay
    );
}

#[test]
fn a_contour_rises_then_falls_then_rests() {
    let mut timer = ContourTimer::new();
    timer.trigger(4, 80);
    let segments: Vec<Segment> = (0..=81).map(|_| timer.next_segment()).collect();
    assert!(matches!(segments[3], Segment::Rise { elapsed: 3, length: 4 }));
    assert!(matches!(segments[4], Segment::Fall { elapsed: 0, .. }));
    assert!(matches!(segments[81], Segment::Settled));
    assert!(timer.is_idle());
}

#[test]
fn tails_run_until_they_are_quiet() {
    let mut tail = TailCounter::new();
    assert!(!tail.runs(false, false));
    assert!(tail.update_tail_activity(true, false, 2, 10));
    assert!(tail.update_tail_activity(false, false, 2, 10));
    tail.update_tail_activity(false, true, 2, 10);
    assert!(!tail.update_tail_activity(false, true, 2, 10));
    let mut send = SendActivity::new();
    assert!(!send.frame(true));
    assert!(send.frame(false));
}

#[test]
fn a_chain_with_nothing_to_do_is_skipped() {
    let idle = MixState { smoothing: false, audible_target: false };
    let mut chain = ChainActivity {
        chorus: false,
        distortion: false,
        bit_crusher: false,
        phaser: false,
        flanger: false,
    };
    assert!(!chain.is_active());
    assert!(!chain.has_pending_parameters(false, idle, idle, idle, idle));
    let fading = MixState { smoothing: true, audible_target: false };
    assert!(chain.has_pending_parameters(false, fading, idle, idle, idle));
    chain.phaser = true;
    assert!(chain.is_active());
}

#[test]
fn a_stage_runs_while_it_is_fed_and_rings_out_afterwards() {
    let mut stage = TailStage::new();
    assert_eq!(stage.begin(true, false), StageRun::Bypass);
    assert_eq!(stage.begin(true, true), StageRun::Run);
    assert!(!stage.finish(true, true, false, QUIET_SAMPLES, 3));
    assert!(stage.active);
    for _ in 0..2 {
        assert_eq!(stage.begin(true, false), StageRun::Run);
        assert!(!stage.finish(true, false, false, QUIET_SAMPLES, 3));
    }
    assert_eq!(stage.begin(true, false), StageRun::Run);
    assert!(stage.finish(true, false, false, QUIET_SAMPLES, 3));
    assert_eq!(stage, TailStage::new());
    assert_eq!(stage.begin(true, false), StageRun::Bypass);
}

#[test]
fn a_stage_without_a_mix_drains_unheard() {
    let mut stage = TailStage::new();
    stage.begin(true, true);
    stage.finish(true, true, false, QUIET_SAMPLES, 100);
    assert_eq!(stage.begin(false, true), StageRun::Drain);
    for frame in 1..=QUIET_SAMPLES {
        assert_eq!(
            stage.finish(false, true, true, QUIET_SAMPLES, 100),
            frame == QUIET_SAMPLES
        );
    }
    assert_eq!(stage.begin(false, true), StageRun::Bypass);
}

#[test]
fn the_crusher_captures_holds_and_lets_go() {
    let mut stage = CrusherStage::new();
    assert_eq!(stage.begin(true, false), Crush::Bypass { emptied: false });
    assert_eq!(stage.begin(true, true), Crush::Capture);
    assert!(!stage.finish(true, true));
    assert_eq!(stage.begin(true, false), Crush::Hold);
    assert!(!stage.finish(false, true));
    assert_eq!(stage.begin(true, false), Crush::Hold);
    assert!(stage.finish(false, false));
    assert_eq!(stage, CrusherStage::new());
    stage.begin(true, true);
    assert_eq!(stage.begin(false, true), Crush::Bypass { emptied: true });
    assert!(!stage.has_sample);
}

#[test]
fn chorus_modes_fade_and_come_to_rest() {
    let mut chorus = ChorusStage::new(2, 3);
    assert_eq!(chorus.frame(true), ChorusRun::Bypass);
    assert!(!chorus.configure(ChorusMode::Off));
    assert!(chorus.configure(ChorusMode::I));
    assert!(chorus.is_active());
    assert_eq!(chorus.frame(true), ChorusRun::Run { fading: Some(2) });
    assert_eq!(chorus.frame(false), ChorusRun::Run { fading: Some(1) });
    assert_eq!(chorus.frame(false), ChorusRun::Run { fading: None });
    assert!(chorus.is_active());
    assert_eq!(chorus.frame(false), ChorusRun::Run { fading: None });
    assert!(!chorus.is_active());
    assert_eq!(chorus.frame(false), ChorusRun::Bypass);
    assert_eq!(chorus.mode, ChorusMode::I);
    chorus.configure(ChorusMode::Ii);
    assert_eq!(chorus.old_mode, ChorusMode::I);
    chorus.clear();
    assert!(!chorus.is_active());
    assert_eq!(chorus.mode, ChorusMode::Ii);
}

#[test]
fn a_chain_processes_while_there_is_work() {
    let still = MixState { smoothing: false, audible_target: false };
    let resting =
        ChainMixes { distortion: still, bit_crusher: still, phaser: still, flanger: still };
    let mut effects = TrackEffects::default();
    effects.chorus = ChorusMode::Off;
    effects.distortion.mix = Percent::new(0).unwrap();
    effects.bit_crusher.mix = Percent::new(0).unwrap();
    effects.phaser.mix = Percent::new(0).unwrap();
    effects.flanger.mix = Percent::new(0).unwrap();
    let mut chain = EffectChain::new(2, 3);
    assert!(!chain.configure(&effects, false));
    assert!(!chain.processing);
    assert!(!chain.configure(&effects, true));
    assert!(chain.processing);
    chain.finish_frame(&resting);
    assert!(!chain.processing);
    effects.chorus = ChorusMode::I;
    assert!(chain.configure(&effects, false));
    assert!(chain.processing && chain.is_active());
    chain.clear();
    assert!(chain.processing && !chain.is_active());
    chain.finish_frame(&resting);
    assert!(chain.processing);
    effects.chorus = ChorusMode::Off;
    chain.configure(&effects, false);
    chain.clear();
    chain.finish_frame(&resting);
    assert!(!chain.processing);
    let smoothing = MixState { smoothing: true, audible_target: false };
    chain.finish_frame(&ChainMixes { phaser: smoothing, ..resting });
    assert!(chain.processing);
}

#[test]
fn a_predelay_of_zero_passes_frames_at_once() {
    let mut line = PreDelay::new(8, 4, 0.0_f32);
    let taps = line.frame(1.0, 2.0);
    assert_eq!((taps.left, taps.right, taps.fading), (1.0, 2.0, None));
}

#[test]
fn a_predelay_delays_the_onset_exactly() {
    let mut line = PreDelay::new(8, 4, 0.0_f32);
    line.configure(3);
    line.settle();
    assert_eq!(line.delay_samples(), 3);
    for frame in 0..6 {
        let input = if frame == 0 { 1.0 } else { 0.0 };
        let taps = line.frame(input, -input);
        let expected = if frame == 3 { 1.0 } else { 0.0 };
        assert_eq!((taps.left, taps.right), (expected, -expected));
    }
}

#[test]
fn a_new_predelay_fades_in_and_stays_within_its_rings() {
    let mut line = PreDelay::new(8, 2, 0_i32);
    assert_eq!(line.fade_samples(), 2);
    line.frame(5, 6);
    line.configure(100);
    assert_eq!(line.delay_samples(), 7);
    line.configure(1);
    assert_eq!(line.frame(7, 8).fading, Some((0, 0, 2)));
    let taps = line.frame(9, 10);
    assert_eq!((taps.left, taps.right, taps.fading), (7, 8, Some((0, 0, 1))));
    assert_eq!(line.frame(11, 12).fading, None);
    line.clear();
    assert_eq!(line.delay_samples(), 1);
    assert_eq!(line.frame(13, 14).left, 0);
}
