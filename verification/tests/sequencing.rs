//! When steps sound: swing, microtiming, retriggers, conditions, songs.
use rtrb::RingBuffer;
use std::sync::Arc;
use terminal_groove::audio::command::AudioCommand;
use terminal_groove::audio::controls::ParameterSmoothing;
use terminal_groove::audio::queue::Audio;
use terminal_groove::audio::recording::RecordingProducer;
use terminal_groove::audio::renderer::{PendingProject, Renderer};
use terminal_groove::audio::schedule::ScheduledTrackAction;
use terminal_groove::audio::snapshot::AudioProject;
use terminal_groove::model::event::{StepEvent, TriggerCondition};
use terminal_groove::model::index_map::{PatternIndexMap, SongIndexMap};
use terminal_groove::model::instrument::DrumRecipeSlot;
use terminal_groove::model::parameter::ParameterLocks;
use terminal_groove::model::percent::{Microtiming, Percent};
use terminal_groove::model::project::{
    Project, SongEntry, CHORD_TRACK_INDEX, SYNTH_TRACK_START, TRACK_COUNT,
};

fn engine(project: &Project, sample_rate: u32) -> Renderer {
    let (retire, _) = RingBuffer::new(32);
    let (items, _) = RingBuffer::new(1);
    Renderer::new_with_retirement(
        Box::new(AudioProject::from_project(project)),
        sample_rate,
        retire,
        RecordingProducer::new(items),
    )
}

fn frame(renderer: &mut Renderer) {
    renderer.begin_frame(&[false; TRACK_COUNT]);
    renderer.finish_frame(&[false; TRACK_COUNT], &[false; TRACK_COUNT]);
}

fn hit(accent: bool, retrigger_count: u8, microtiming: i8) -> StepEvent {
    StepEvent::Trigger {
        accent,
        recipe: DrumRecipeSlot::One,
        condition: TriggerCondition::Always,
        retrigger_count,
        microtiming: Microtiming::new(microtiming).unwrap(),
        locks: ParameterLocks::new(),
    }
}

fn bass(degree: u8, retrigger_count: u8) -> StepEvent {
    StepEvent::BassNote {
        degree,
        octave: 3,
        accent: false,
        slide: false,
        condition: TriggerCondition::Always,
        retrigger_count,
        microtiming: Microtiming::zero(),
        locks: ParameterLocks::new(),
    }
}

fn percent(value: u8) -> Percent {
    Percent::new(value).unwrap()
}

fn scheduled(renderer: &Renderer) -> Vec<ScheduledTrackAction> {
    renderer.sequencer.scheduled.iter().flatten().copied().collect()
}

#[test]
fn renderer_reports_independent_track_playheads() {
    let mut project = Project::new();
    project.patterns[0].tracks[0].steps.resize(3, None);
    project.patterns[0].tracks[1].steps.resize(5, None);
    let mut renderer = engine(&project, 8_000);
    for expected in [[0, 0], [1, 1], [2, 2], [0, 3], [1, 4], [2, 0]] {
        renderer.boundary(0);
        assert_eq!(
            [
                renderer.sequencer.status.playheads[0],
                renderer.sequencer.status.playheads[1],
            ],
            expected
        );
    }
}

#[test]
fn scheduled_actions_for_removed_steps_are_discarded_after_resize() {
    let mut project = Project::new();
    project.patterns[0].tracks[0].steps.resize(4, None);
    project.patterns[0].tracks[0].steps[3] = Some(hit(false, 4, 0));
    project.tracks[0].swing = percent(75);

    let mut renderer = engine(&project, 8_000);
    renderer.handle(AudioCommand::PlayPause);
    renderer.sequencer.tracks[0].next_step = 3;
    renderer.boundary(1);
    assert!(scheduled(&renderer).iter().any(|action| action.track == 0 && action.step == 3));

    project.patterns[0].tracks[0].steps.resize(3, None);
    renderer.handle(Audio::snapshot(&project));
    assert!(!scheduled(&renderer).iter().any(|action| action.track == 0 && action.step == 3));

    for _ in 0..1_000 {
        frame(&mut renderer);
    }
}

#[test]
fn scheduled_actions_for_replaced_events_are_discarded() {
    let mut project = Project::new();
    project.patterns[0].tracks[0].steps[0] = Some(hit(false, 4, 0));
    project.tracks[0].swing = percent(75);

    let mut renderer = engine(&project, 8_000);
    renderer.handle(AudioCommand::PlayPause);
    renderer.boundary(1);
    assert!(scheduled(&renderer)
        .iter()
        .any(|action| action.track == 0 && action.step == 0 && action.retrigger));

    project.patterns[0].tracks[0].steps[0] = Some(hit(true, 1, 0));
    renderer.handle(Audio::snapshot(&project));

    assert!(!scheduled(&renderer).iter().any(|action| action.track == 0 && action.step == 0));
}

#[test]
fn swung_retriggers_are_offset_from_the_swung_start() {
    let mut project = Project::new();
    project.patterns[0].tracks[0].steps[0] = Some(hit(false, 2, 0));
    project.tracks[0].swing = percent(75);

    let mut renderer = engine(&project, 8_000);
    renderer.handle(AudioCommand::PlayPause);
    renderer.boundary(1);

    let actions = scheduled(&renderer);
    let track_actions: Vec<_> = actions.iter().filter(|action| action.track == 0).collect();
    assert_eq!(track_actions.len(), 2);
    let initial = track_actions.iter().find(|action| !action.retrigger).unwrap();
    let retrigger = track_actions.iter().find(|action| action.retrigger).unwrap();
    assert_eq!(initial.remaining, 749);
    assert_eq!(retrigger.remaining, 874);
    assert!(retrigger.remaining > initial.remaining);
}

#[test]
fn microtiming_delays_an_event_inside_its_slot() {
    let mut project = Project::new();
    project.patterns[0].tracks[0].steps.resize(2, None);
    project.patterns[0].tracks[0].steps[1] = Some(hit(false, 1, 25));
    let mut renderer = engine(&project, 8_000);
    renderer.handle(AudioCommand::PlayPause);
    renderer.boundary(0);
    renderer.boundary(1);
    let actions = scheduled(&renderer);
    let action = actions.iter().find(|action| action.track == 0 && action.step == 1).unwrap();
    assert_eq!(action.remaining, 249);
}

#[test]
fn negative_microtiming_is_armed_before_the_nominal_boundary() {
    let mut project = Project::new();
    project.patterns[0].tracks[0].steps.resize(2, None);
    project.patterns[0].tracks[0].steps[1] = Some(hit(false, 1, -25));
    let mut renderer = engine(&project, 8_000);
    renderer.handle(AudioCommand::PlayPause);
    renderer.boundary(0);
    let actions = scheduled(&renderer);
    let action = actions.iter().find(|action| action.track == 0 && action.step == 1).unwrap();
    assert_eq!(action.remaining, 749);
    assert_eq!(renderer.sequencer.tracks[0].early_armed, Some(1));
    renderer.boundary(1);
    assert_eq!(renderer.sequencer.tracks[0].early_armed, None);
    assert_eq!(
        scheduled(&renderer)
            .iter()
            .filter(|action| action.track == 0 && action.step == 1 && !action.retrigger)
            .count(),
        1
    );
}

#[test]
fn retriggers_finish_before_a_following_early_event() {
    let mut project = Project::new();
    project.patterns[0].tracks[0].steps.resize(2, None);
    project.patterns[0].tracks[0].steps[0] = Some(hit(false, 4, 50));
    project.patterns[0].tracks[0].steps[1] = Some(hit(false, 1, -50));
    let mut renderer = engine(&project, 8_000);
    renderer.handle(AudioCommand::PlayPause);
    renderer.boundary(0);

    let actions = scheduled(&renderer);
    let next_start = actions
        .iter()
        .find(|action| action.track == 0 && action.step == 1 && !action.retrigger)
        .unwrap()
        .remaining;
    let previous_retriggers: Vec<_> = actions
        .iter()
        .filter(|action| action.track == 0 && action.step == 0 && action.retrigger)
        .map(|action| action.remaining)
        .collect();
    assert_eq!(previous_retriggers, vec![124, 249, 374]);
    assert!(previous_retriggers.iter().all(|remaining| *remaining < next_start));
}

#[test]
fn negative_microtiming_looks_ahead_across_an_ordinary_bar_boundary() {
    let mut project = Project::new();
    project.patterns[0].tracks[0].steps[0] = Some(hit(false, 1, -50));
    let mut renderer = engine(&project, 8_000);
    renderer.handle(AudioCommand::PlayPause);
    renderer.sequencer.tracks[0].next_step = 15;
    renderer.boundary(15);

    assert_eq!(renderer.sequencer.tracks[0].early_armed, Some(0));
    let starts = |renderer: &Renderer| {
        scheduled(renderer)
            .iter()
            .filter(|action| action.track == 0 && action.step == 0 && !action.retrigger)
            .count()
    };
    assert_eq!(starts(&renderer), 1);
    renderer.boundary(16);
    assert_eq!(renderer.sequencer.tracks[0].early_armed, None);
    assert_eq!(starts(&renderer), 1);
}

#[test]
fn negative_microtiming_does_not_look_ahead_across_a_queued_transition() {
    let mut project = Project::new();
    project.patterns.push(project.patterns[0].clone());
    project.patterns[0].tracks[0].steps[0] = Some(hit(false, 1, -50));
    let mut renderer = engine(&project, 8_000);
    renderer.handle(AudioCommand::PlayPause);
    renderer.sequencer.tracks[0].next_step = 15;
    renderer.handle(AudioCommand::SelectPattern { pattern: 1 });
    renderer.boundary(15);

    assert_eq!(renderer.sequencer.tracks[0].early_armed, None);
    assert!(scheduled(&renderer).iter().all(|action| action.track != 0 || action.step != 0));
}

#[test]
fn late_microtiming_and_retriggers_are_clamped_before_the_next_slot() {
    let mut project = Project::new();
    project.patterns[0].tracks[0].steps[0] = Some(hit(false, 4, 50));
    project.tracks[0].swing = percent(75);
    let mut renderer = engine(&project, 8_000);
    renderer.handle(AudioCommand::PlayPause);
    renderer.boundary(1);
    let all = scheduled(&renderer);
    let actions: Vec<_> =
        all.iter().filter(|action| action.track == 0 && action.step == 0).collect();
    assert_eq!(actions.len(), 4);
    assert!(actions.iter().all(|action| action.remaining < 1_000));
    assert_eq!(actions.iter().find(|action| !action.retrigger).unwrap().remaining, 811);
}

#[test]
fn track_probability_gates_the_base_action_and_entire_retrigger_burst() {
    let mut project = Project::new();
    project.patterns[0].tracks[0].steps[0] = Some(hit(false, 4, 0));
    project.tracks[0].probability = Percent::zero();
    let mut renderer = engine(&project, 8_000);
    renderer.boundary(0);
    assert!(!renderer.live[0].drum.sounding);
    assert!(!scheduled(&renderer).iter().any(|action| action.track == 0));

    renderer.project.tracks[0].probability = percent(100);
    renderer.sequencer.tracks[0].next_step = 0;
    renderer.boundary(1);
    assert!(renderer.live[0].drum.sounding);
    assert_eq!(
        scheduled(&renderer)
            .iter()
            .filter(|action| action.track == 0 && action.retrigger)
            .count(),
        3
    );
}

#[test]
fn probability_is_evaluated_after_conditions_without_sharing_rng() {
    let mut project = Project::new();
    project.patterns[0].tracks[0].steps[0] = Some(StepEvent::Trigger {
        accent: false,
        recipe: DrumRecipeSlot::One,
        condition: TriggerCondition::Chance { probability: Percent::zero() },
        retrigger_count: 1,
        microtiming: Microtiming::zero(),
        locks: ParameterLocks::new(),
    });
    project.tracks[0].probability = percent(50);
    let mut renderer = engine(&project, 8_000);
    let conditions = |renderer: &Renderer| -> Vec<u32> {
        renderer.sequencer.tracks.iter().map(|clock| clock.condition_rng).collect()
    };
    let chances = |renderer: &Renderer| -> Vec<u32> {
        renderer.sequencer.tracks.iter().map(|clock| clock.probability_rng).collect()
    };
    let condition_before = conditions(&renderer);
    let probability_before = chances(&renderer);
    renderer.boundary(0);
    assert_ne!(conditions(&renderer), condition_before);
    assert_eq!(chances(&renderer), probability_before);
    assert!(!renderer.live[0].drum.sounding);
}

#[test]
fn rejected_pitched_note_releases_but_tie_is_not_probability_gated() {
    let mut project = Project::new();
    project.patterns[0].tracks[SYNTH_TRACK_START].steps[0] = Some(bass(1, 1));
    project.patterns[0].tracks[SYNTH_TRACK_START].steps[1] = Some(bass(2, 1));
    let mut renderer = engine(&project, 8_000);
    renderer.boundary(0);
    assert!(renderer.live[SYNTH_TRACK_START].synth.active);
    renderer.project.tracks[SYNTH_TRACK_START].probability = Percent::zero();
    renderer.boundary(1);
    assert!(!renderer.live[SYNTH_TRACK_START].synth.active);

    Arc::make_mut(&mut renderer.project.patterns.0[0]).tracks[SYNTH_TRACK_START].steps[1] =
        Some(StepEvent::Tie { locks: ParameterLocks::new() });
    renderer.project.tracks[SYNTH_TRACK_START].probability = percent(100);
    renderer.sequencer.tracks[SYNTH_TRACK_START].next_step = 0;
    renderer.boundary(2);
    assert!(renderer.live[SYNTH_TRACK_START].synth.active);
    renderer.project.tracks[SYNTH_TRACK_START].probability = Percent::zero();
    renderer.sequencer.tracks[SYNTH_TRACK_START].next_step = 1;
    renderer.boundary(3);
    assert!(renderer.live[SYNTH_TRACK_START].synth.active);
}

#[test]
fn probability_rng_resets_on_stop() {
    let mut project = Project::new();
    project.patterns[0].tracks[0].steps[0] = Some(hit(false, 1, 0));
    project.tracks[0].probability = percent(50);
    let mut renderer = engine(&project, 8_000);
    let chances = |renderer: &Renderer| -> Vec<u32> {
        renderer.sequencer.tracks.iter().map(|clock| clock.probability_rng).collect()
    };
    let initial = chances(&renderer);
    renderer.boundary(0);
    assert_ne!(chances(&renderer), initial);
    renderer.handle(AudioCommand::Stop);
    assert_eq!(chances(&renderer), initial);
}

#[test]
fn scheduled_actions_freeze_while_paused() {
    let mut project = Project::new();
    project.patterns[0].tracks[SYNTH_TRACK_START].steps[0] = Some(bass(1, 2));
    project.tracks[SYNTH_TRACK_START].swing = percent(75);

    let mut renderer = engine(&project, 8_000);
    renderer.handle(AudioCommand::PlayPause);
    renderer.boundary(1);
    let remaining = |renderer: &Renderer| {
        scheduled(renderer)
            .iter()
            .find(|action| action.track == SYNTH_TRACK_START as u8 && !action.retrigger)
            .unwrap()
            .remaining
    };
    let remaining_before = remaining(&renderer);

    renderer.handle(AudioCommand::PlayPause);
    for _ in 0..1_000 {
        frame(&mut renderer);
    }

    assert_eq!(remaining(&renderer), remaining_before);
    assert!(!renderer.live[SYNTH_TRACK_START].synth.active);
}

#[test]
fn resume_triggers_the_next_step_immediately() {
    let mut renderer = engine(&Project::new(), 48_000);
    renderer.handle(AudioCommand::PlayPause);
    assert_eq!(renderer.sequencer.clock.next_step, 0);
    frame(&mut renderer);
    assert_eq!(renderer.sequencer.clock.next_step, 1);
    renderer.handle(AudioCommand::PlayPause);
    for _ in 0..100 {
        frame(&mut renderer);
    }
    renderer.handle(AudioCommand::PlayPause);
    frame(&mut renderer);
    assert_eq!(renderer.sequencer.clock.next_step, 2);
}

#[test]
fn song_transport_repeats_entries_then_stops_at_the_end() {
    let mut project = Project::new();
    project.patterns.push(project.patterns[0].clone());
    project.song =
        vec![SongEntry { pattern: 1, bars: 2 }, SongEntry { pattern: 2, bars: 1 }];
    let mut renderer = engine(&project, 8_000);
    renderer.handle(AudioCommand::SelectSong { entry: 0 });
    renderer.handle(AudioCommand::PlayPause);
    renderer.boundary(0);
    assert_eq!(renderer.sequencer.transport.active_pattern, 0);
    renderer.boundary(16);
    assert_eq!(renderer.sequencer.transport.active_pattern, 0);
    assert_eq!(renderer.sequencer.transport.song_bar, 1);
    renderer.boundary(32);
    assert_eq!(renderer.sequencer.transport.active_pattern, 1);
    assert_eq!(renderer.sequencer.transport.active_song, 1);
    renderer.boundary(48);
    assert!(!renderer.sequencer.transport.playing);
    assert_eq!(renderer.sequencer.transport.active_song, 0);
    assert_eq!(renderer.sequencer.transport.active_pattern, 0);
    assert!(!renderer.sequencer.status.running);
}

#[test]
fn queued_direct_switch_keeps_song_status_until_the_boundary() {
    let mut project = Project::new();
    project.patterns.push(project.patterns[0].clone());
    project.song = vec![SongEntry { pattern: 1, bars: 2 }];
    let mut renderer = engine(&project, 8_000);
    renderer.handle(AudioCommand::SelectSong { entry: 0 });
    renderer.handle(AudioCommand::PlayPause);
    renderer.boundary(0);
    renderer.handle(AudioCommand::SelectPattern { pattern: 1 });

    assert!(renderer.sequencer.transport.song_mode);
    assert!(renderer.sequencer.status.song_mode);
    renderer.boundary(16);
    assert!(!renderer.sequencer.transport.song_mode);
    assert!(!renderer.sequencer.status.song_mode);
    assert_eq!(renderer.sequencer.transport.active_pattern, 1);
}

#[test]
fn deleting_the_active_song_entry_restarts_its_replacement_at_bar_one() {
    let mut project = Project::new();
    project.song =
        vec![SongEntry { pattern: 1, bars: 4 }, SongEntry { pattern: 1, bars: 4 }];
    let mut renderer = engine(&project, 8_000);
    renderer.sequencer.transport.active_song = 0;
    renderer.sequencer.transport.song_bar = 2;
    project.song.remove(0);

    assert!(renderer.replace_project(PendingProject {
        project: Box::new(AudioProject::from_project(&project)),
        smoothing: ParameterSmoothing::Default,
        pattern_map: PatternIndexMap::identity(),
        song_map: SongIndexMap::delete(0),
    }));

    assert_eq!(renderer.sequencer.transport.active_song, 0);
    assert_eq!(renderer.sequencer.transport.song_bar, 0);
}

#[test]
fn a_cycle_sounds_once_per_length() {
    let mut project = Project::new();
    project.patterns[0].tracks[0].steps.resize(1, None);
    project.patterns[0].tracks[0].steps[0] = Some(StepEvent::Trigger {
        accent: false,
        recipe: DrumRecipeSlot::One,
        condition: TriggerCondition::Cycle { position: 2, length: 3 },
        retrigger_count: 1,
        microtiming: Microtiming::zero(),
        locks: ParameterLocks::new(),
    });
    let mut renderer = engine(&project, 8_000);
    let mut sounded = Vec::new();
    for _ in 0..9 {
        renderer.live[0].drum.sounding = false;
        renderer.boundary(1);
        sounded.push(renderer.live[0].drum.sounding);
    }
    assert_eq!(
        sounded,
        vec![false, true, false, false, true, false, false, true, false]
    );
}

#[test]
fn probability_extremes_leave_the_dice_alone() {
    for (value, sounds) in [(0, false), (100, true)] {
        let mut project = Project::new();
        project.patterns[0].tracks[0].steps[0] = Some(hit(false, 1, 0));
        project.tracks[0].probability = percent(value);
        let mut renderer = engine(&project, 8_000);
        let before = renderer.sequencer.tracks[0].probability_rng;
        renderer.boundary(0);
        assert_eq!(renderer.sequencer.tracks[0].probability_rng, before);
        assert_eq!(renderer.live[0].drum.sounding, sounds);
    }
}

#[test]
fn stopping_rewinds_and_empties_the_schedule() {
    let mut project = Project::new();
    project.patterns.push(project.patterns[0].clone());
    project.patterns[1].tracks[0].steps[0] = Some(hit(false, 4, 0));
    project.tracks[0].swing = percent(75);
    let mut renderer = engine(&project, 8_000);
    renderer.handle(AudioCommand::SelectPattern { pattern: 1 });
    renderer.handle(AudioCommand::PlayPause);
    renderer.boundary(1);
    assert!(!scheduled(&renderer).is_empty());
    renderer.handle(AudioCommand::Stop);
    assert!(scheduled(&renderer).is_empty());
    assert_eq!(renderer.sequencer.transport.active_pattern, 0);
    assert_eq!(renderer.sequencer.status.playheads, [255; TRACK_COUNT]);
    assert!(renderer.sequencer.tracks.iter().all(|clock| clock.next_step == 0));
    let clock = renderer.sequencer.clock;
    renderer.handle(AudioCommand::Stop);
    assert_eq!(renderer.sequencer.clock, clock);
}

#[test]
fn a_pattern_that_does_not_exist_is_not_selected() {
    let mut renderer = engine(&Project::new(), 8_000);
    renderer.handle(AudioCommand::SelectPattern { pattern: 3 });
    assert_eq!(renderer.sequencer.transport.active_pattern, 0);
}

#[test]
fn a_song_entry_past_the_end_selects_the_last() {
    let mut project = Project::new();
    project.patterns.push(project.patterns[0].clone());
    project.song =
        vec![SongEntry { pattern: 1, bars: 2 }, SongEntry { pattern: 2, bars: 1 }];
    let mut renderer = engine(&project, 8_000);
    renderer.handle(AudioCommand::SelectSong { entry: 9 });
    assert!(renderer.sequencer.transport.song_mode);
    assert_eq!(renderer.sequencer.transport.active_song, 1);
    assert_eq!(renderer.sequencer.transport.active_pattern, 1);
}

#[test]
fn steps_come_at_the_tempo() {
    let mut renderer = engine(&Project::new(), 8_000);
    renderer.handle(AudioCommand::PlayPause);
    let mut changes = Vec::new();
    let mut last = 0;
    for sample in 0..3_001 {
        frame(&mut renderer);
        if renderer.sequencer.clock.next_step != last {
            last = renderer.sequencer.clock.next_step;
            changes.push(sample);
        }
    }
    assert_eq!(changes, vec![0, 1_000, 2_000, 3_000]);
}

#[test]
fn an_edit_in_place_keeps_playing() {
    let mut project = Project::new();
    project.patterns[0].tracks[CHORD_TRACK_INDEX].steps.resize(7, None);
    let mut renderer = engine(&project, 8_000);
    renderer.handle(AudioCommand::PlayPause);
    for _ in 0..2_500 {
        frame(&mut renderer);
    }
    let place = renderer.sequencer.tracks[CHORD_TRACK_INDEX].next_step;
    let clock = renderer.sequencer.clock;
    project.tracks[CHORD_TRACK_INDEX].level = percent(12);
    renderer.handle(Audio::snapshot(&project));
    assert!(renderer.sequencer.transport.playing);
    assert_eq!(renderer.sequencer.tracks[CHORD_TRACK_INDEX].next_step, place);
    assert_eq!(renderer.sequencer.clock, clock);
    assert_eq!(renderer.project.tracks[CHORD_TRACK_INDEX].level, percent(12));
}
