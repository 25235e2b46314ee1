//! The user interface's end: snapshots, commands, recordings, devices.
use rtrb::{Consumer, RingBuffer};
use std::sync::Arc;
use terminal_groove::audio::command::AudioCommand;
use terminal_groove::audio::controls::{
    ducking_role, effect_slot, DuckingRole, ParameterSmoothing,
};
use terminal_groove::audio::device::{
    audio_log_entry, channel_source, choose_device, listed_names, output_frames, select_buffer_size,
    BufferError, BufferSize, ChannelSource, DeviceError, SupportedBufferSize,
};
use terminal_groove::audio::naming::{project_name, unique_path, NamingError};
use terminal_groove::audio::queue::{
    queue_full_error, reap_retired_queue, Audio, QueueFull, RecordingError, ShutdownAction,
    ShutdownPhase, StartError, StopRequest,
};
use terminal_groove::audio::recording::{RecordingProducer, RecordingState};
use terminal_groove::audio::renderer::Renderer;
use terminal_groove::audio::snapshot::{AudioProject, EditImpact};
use terminal_groove::audio::status::{
    mark_failed, record_callback_timing, AudioDiagnostics, AudioStatus,
};
use terminal_groove::model::event::{StepEvent, TriggerCondition};
use terminal_groove::model::index_map::{PatternIndexMap, SongIndexMap};
use terminal_groove::model::instrument::{DrumRecipeSlot, TrackKind};
use terminal_groove::model::parameter::ParameterLocks;
use terminal_groove::model::percent::Microtiming;
use terminal_groove::model::project::{Project, MAX_STEP_COUNT, TRACK_COUNT};

fn engine_with(
    project: &Project,
    retire_capacity: usize,
) -> (Renderer, Consumer<Box<AudioProject>>) {
    let (retire, retired) = RingBuffer::new(retire_capacity);
    let (items, _) = RingBuffer::new(1);
    let renderer = Renderer::new_with_retirement(
        Box::new(AudioProject::from_project(project)),
        48_000,
        retire,
        RecordingProducer::new(items),
    );
    (renderer, retired)
}

fn queue_only_audio(project: &Project, capacity: usize) -> (Audio, Consumer<AudioCommand>) {
    let (producer, commands) = RingBuffer::new(capacity);
    let (_, retired) = RingBuffer::new(1);
    (Audio::new(producer, retired, AudioProject::from_project(project)), commands)
}

fn plain_hit() -> StepEvent {
    StepEvent::Trigger {
        accent: false,
        recipe: DrumRecipeSlot::One,
        condition: TriggerCondition::Always,
        retrigger_count: 1,
        microtiming: Microtiming::zero(),
        locks: ParameterLocks::new(),
    }
}

#[test]
fn callback_telemetry_defaults_to_zero() {
    let status = AudioStatus::default();
    assert_eq!(status.callback_overruns, 0);
    assert_eq!(status.max_callback_duration_ns, 0);
    assert_eq!(status.max_callback_load_per_mille, 0);
}

#[test]
fn callback_telemetry_tracks_overruns_and_monotonic_maxima() {
    const MILLISECOND: u128 = 1_000_000;
    let mut status = AudioStatus::default();
    record_callback_timing(&mut status, 5 * MILLISECOND, 10 * MILLISECOND);
    assert_eq!(status.callback_overruns, 0);
    assert_eq!(status.max_callback_duration_ns, 5_000_000);
    assert_eq!(status.max_callback_load_per_mille, 500);

    record_callback_timing(&mut status, 127 * MILLISECOND, 100 * MILLISECOND);
    assert_eq!(status.callback_overruns, 1);
    assert_eq!(status.max_callback_duration_ns, 127_000_000);
    assert_eq!(status.max_callback_load_per_mille, 1_270);

    record_callback_timing(&mut status, 20 * MILLISECOND, 100 * MILLISECOND);
    assert_eq!(status.callback_overruns, 1);
    assert_eq!(status.max_callback_duration_ns, 127_000_000);
    assert_eq!(status.max_callback_load_per_mille, 1_270);
}

#[test]
fn a_callback_without_a_budget_tells_nothing() {
    let mut status = AudioStatus::default();
    record_callback_timing(&mut status, 5, 0);
    assert_eq!(status, AudioStatus::default());
    record_callback_timing(&mut status, u128::MAX, 1);
    assert_eq!(status.max_callback_duration_ns, u64::MAX);
    assert_eq!(status.max_callback_load_per_mille, u64::MAX);
}

#[test]
fn effect_slots_cover_every_track() {
    let mut slots = [false; TRACK_COUNT];
    for track in 0..TRACK_COUNT {
        let slot = effect_slot(track).unwrap();
        assert!(!slots[slot], "slot {slot} is shared by logical tracks");
        slots[slot] = true;
    }
    assert!(slots.into_iter().all(|used| used));
    assert_eq!(effect_slot(TRACK_COUNT), None);
}

#[test]
fn stream_failure_marks_audio_stopped_and_queues_error() {
    let mut status = AudioStatus::default();
    status.running = true;
    status.paused = true;
    status.playheads[3] = 4;
    let (mut producer, mut consumer) = RingBuffer::new(2);
    mark_failed(&mut status, &mut producer, String::from("device not available"));
    assert!(status.failed);
    assert!(!status.running);
    assert!(!status.paused);
    assert_eq!(status.playheads, [255; TRACK_COUNT]);
    assert_eq!(consumer.pop().unwrap(), "device not available");
}

#[test]
fn diagnostics_report_a_non_finite_value_once() {
    let mut status = AudioStatus::default();
    status.non_finite = true;
    let mut diagnostics = AudioDiagnostics::default();
    diagnostics.note_failure();
    assert!(diagnostics.take_non_finite(&mut status));
    assert!(!diagnostics.take_non_finite(&mut status));
    assert_eq!(diagnostics, AudioDiagnostics { stream_failures: 1, non_finite: true });
}

#[test]
fn audio_log_contains_failure_context() {
    let contents =
        audio_log_entry(1_700, "Null Output", "runtime stream failure", "device disappeared");
    assert!(contents.contains("timestamp_unix_ms="));
    assert!(contents.contains("device=Null Output"));
    assert!(contents.contains("kind=runtime stream failure"));
    assert!(contents.contains("message=device disappeared"));
    assert_eq!(
        contents,
        "timestamp_unix_ms=1700\ndevice=Null Output\nkind=runtime stream failure\n\
         message=device disappeared\n\n"
    );
}

#[test]
fn automatic_audio_buffer_is_clamped_to_device_limits() {
    assert_eq!(
        select_buffer_size(&SupportedBufferSize::Range { min: 128, max: 256 }, None).unwrap(),
        BufferSize::Fixed(256)
    );
    assert_eq!(
        select_buffer_size(&SupportedBufferSize::Range { min: 1024, max: 2048 }, None).unwrap(),
        BufferSize::Fixed(1024)
    );
}

#[test]
fn explicit_audio_buffer_must_be_supported() {
    assert_eq!(
        select_buffer_size(&SupportedBufferSize::Range { min: 128, max: 1024 }, Some(512)).unwrap(),
        BufferSize::Fixed(512)
    );
    assert!(
        select_buffer_size(&SupportedBufferSize::Range { min: 128, max: 256 }, Some(512)).is_err()
    );
    assert_eq!(
        select_buffer_size(&SupportedBufferSize::Unknown, None).unwrap(),
        BufferSize::Default
    );
}

#[test]
fn zero_audio_buffer_is_rejected() {
    assert!(select_buffer_size(&SupportedBufferSize::Unknown, Some(0)).is_err());
}

#[test]
fn buffer_errors_say_what_the_device_accepts() {
    let refused = select_buffer_size(&SupportedBufferSize::Range { min: 128, max: 256 }, Some(512))
        .unwrap_err();
    assert_eq!(refused, BufferError::Unsupported { requested: 512, min: 128, max: 256 });
    assert_eq!(
        refused.message(),
        "audio buffer 512 frames is unsupported; device accepts 128–256 frames"
    );
    assert_eq!(
        BufferError::Empty.message(),
        "audio buffer must contain at least one frame"
    );
    assert_eq!(
        select_buffer_size(&SupportedBufferSize::Unknown, Some(64)),
        Ok(BufferSize::Fixed(64))
    );
    assert_eq!(
        select_buffer_size(&SupportedBufferSize::Range { min: 64, max: 4_096 }, None),
        Ok(BufferSize::Fixed(512))
    );
}

#[test]
fn devices_are_chosen_by_a_name_that_only_one_bears() {
    let devices = vec![
        Some(String::from("Speakers")),
        None,
        Some(String::from("Headset")),
        Some(String::from("Speakers")),
    ];
    assert_eq!(choose_device(&devices, "Headset"), Ok(2));
    let missing = choose_device(&devices, "Nothing").unwrap_err();
    assert_eq!(missing, DeviceError::NotFound);
    assert_eq!(
        missing.message("Nothing", &devices),
        "audio output `Nothing` was not found; available outputs: Speakers, Headset, Speakers; \
         run `terminal-groove --list-audio-devices`"
    );
    let ambiguous = choose_device(&devices, "Speakers").unwrap_err();
    assert_eq!(ambiguous, DeviceError::Ambiguous { matches: 2 });
    assert_eq!(
        ambiguous.message("Speakers", &devices),
        "audio output name `Speakers` is ambiguous (2 matches); available outputs: Speakers, \
         Headset, Speakers; use an exact unique name from `terminal-groove --list-audio-devices`"
    );
}

#[test]
fn frames_are_laid_out_for_any_number_of_channels() {
    assert_eq!(channel_source(1, 0), ChannelSource::Both);
    assert_eq!(channel_source(2, 0), ChannelSource::Left);
    assert_eq!(channel_source(2, 1), ChannelSource::Right);
    assert_eq!(channel_source(6, 5), ChannelSource::Silence);
    assert_eq!(output_frames(0, 2), 0);
    assert_eq!(output_frames(5, 2), 3);
    assert_eq!(output_frames(6, 2), 3);
    assert_eq!(output_frames(usize::MAX, 1), usize::MAX);
}

#[test]
fn project_names_are_stripped_and_sanitized() {
    assert_eq!(project_name(None), "untitled");
    assert_eq!(project_name(Some("beat.groove.json")), "beat");
    assert_eq!(project_name(Some("<>.groove.json")), "untitled");
    assert_eq!(project_name(Some("my beat🔥.groove.json")), "my_beat");
}

#[test]
fn project_names_keep_plain_characters_and_merge_the_rest() {
    assert_eq!(project_name(Some("__a--b  c__d__")), "a--b_c__d");
    assert_eq!(project_name(Some("take.wav")), "take_wav");
    assert_eq!(project_name(Some("")), "untitled");
    assert_eq!(project_name(Some(".groove.json")), "untitled");
}

#[test]
fn unique_paths_do_not_overwrite() {
    let taken = ["beat-7.wav"];
    let chosen: Result<String, NamingError<()>> =
        unique_path("beat", 7, |file: &str| Ok(taken.contains(&file)));
    assert_eq!(chosen.unwrap(), "beat-7-1.wav");
}

#[test]
fn unique_paths_pass_an_error_on() {
    let first: Result<String, NamingError<&str>> = unique_path("beat", 7, |_: &str| Ok(false));
    assert_eq!(first.unwrap(), "beat-7.wav");
    let failed: Result<String, NamingError<&str>> = unique_path("beat", 7, |file: &str| {
        if file == "beat-7-2.wav" { Err("unreadable") } else { Ok(true) }
    });
    assert!(matches!(failed, Err(NamingError::Inspect("unreadable"))));
}

#[test]
fn pending_snapshot_applies_after_ui_reaps_without_another_command() {
    let project = Project::new();
    let (mut renderer, mut retired) = engine_with(&project, 1);
    renderer.retire.push(Box::new(AudioProject::from_project(&project))).unwrap();
    let mut edited = project.clone();
    edited.globals.tempo_bpm = 137;
    renderer.handle(Audio::snapshot(&edited));
    assert!(renderer.pending.is_some());
    let (producer, mut commands) = RingBuffer::new(1);
    drop(producer);
    assert!(!renderer.drain_commands(&mut commands));

    retired.pop().unwrap();
    assert!(renderer.drain_commands(&mut commands));

    assert!(renderer.pending.is_none());
    assert_eq!(renderer.project.globals.tempo_bpm, 137);
}

#[test]
fn callback_processes_only_the_fixed_command_budget() {
    let (mut renderer, _retired) = engine_with(&Project::new(), 16);
    let (mut producer, mut commands) = RingBuffer::new(16);
    for _ in 0..10 {
        producer.push(AudioCommand::PlayPause).unwrap();
    }

    renderer.drain_commands(&mut commands);

    assert_eq!(producer.slots(), 14);
    assert!(!renderer.sequencer.transport.playing);
}

#[test]
fn callback_coalesces_identity_snapshots_and_retires_every_box() {
    let project = Project::new();
    let (mut renderer, mut retired) = engine_with(&project, 8);
    let (mut producer, mut commands) = RingBuffer::new(8);
    for tempo in [121, 122, 123] {
        let mut edited = project.clone();
        edited.globals.tempo_bpm = tempo;
        producer.push(Audio::snapshot(&edited)).unwrap();
    }

    renderer.drain_commands(&mut commands);
    assert_eq!(renderer.project.globals.tempo_bpm, 123);
    assert_eq!(producer.slots(), 8);
    let mut retired_count = 0;
    while retired.pop().is_ok() {
        retired_count += 1;
    }
    assert_eq!(retired_count, 3);
}

#[test]
fn a_project_that_cannot_be_played_is_retired() {
    let project = Project::new();
    let (mut renderer, mut retired) = engine_with(&project, 8);
    let (mut producer, mut commands) = RingBuffer::new(8);
    let mut broken = AudioProject::from_project(&project);
    broken.globals.tempo_bpm = 0;
    producer
        .push(AudioCommand::ReplaceProject {
            project: Box::new(broken),
            smoothing: ParameterSmoothing::Default,
            pattern_map: PatternIndexMap::identity(),
            song_map: SongIndexMap::identity(),
        })
        .unwrap();
    producer.push(AudioCommand::PlayPause).unwrap();
    renderer.drain_commands(&mut commands);
    assert_eq!(renderer.project.globals.tempo_bpm, 120);
    assert!(renderer.sequencer.transport.playing);
    assert_eq!(retired.pop().unwrap().globals.tempo_bpm, 0);
    assert!(retired.pop().is_err());
}

#[test]
fn a_project_that_cannot_be_played_waits_for_room_to_be_retired() {
    let project = Project::new();
    let (mut renderer, mut retired) = engine_with(&project, 1);
    let (mut producer, mut commands) = RingBuffer::new(8);
    producer.push(Audio::snapshot(&project)).unwrap();
    renderer.drain_commands(&mut commands);
    let mut broken = project.clone();
    broken.globals.tempo_bpm = 0;
    producer.push(Audio::snapshot(&broken)).unwrap();
    assert!(renderer.drain_commands(&mut commands));
    assert!(renderer.pending.is_some());
    assert!(!renderer.drain_commands(&mut commands));
    assert_eq!(reap_retired_queue(&mut retired), 1);
    assert!(renderer.drain_commands(&mut commands));
    assert!(renderer.pending.is_none());
    assert_eq!(retired.pop().unwrap().globals.tempo_bpm, 0);
    assert_eq!(renderer.project.globals.tempo_bpm, 120);
}

#[test]
fn a_song_entry_without_bars_is_taken_over() {
    let mut project = Project::new();
    let (mut renderer, _retired) = engine_with(&project, 8);
    project.song[0].bars = 0;
    renderer.handle(Audio::snapshot(&project));
    assert_eq!(renderer.project.song[0].bars, 0);
    assert_eq!(renderer.sequencer.transport.song_bar, 0);
}

#[test]
fn sending_destroys_what_was_retired() {
    let project = Project::new();
    let (producer, _commands) = RingBuffer::new(1);
    let (mut retire, retired) = RingBuffer::new(4);
    let mut audio = Audio::new(producer, retired, AudioProject::from_project(&project));
    retire.push(Box::new(AudioProject::from_project(&project))).unwrap();
    retire.push(Box::new(AudioProject::from_project(&project))).unwrap();
    assert_eq!(audio.send(AudioCommand::PlayPause), Ok(()));
    assert_eq!(retire.slots(), 4);
    retire.push(Box::new(AudioProject::from_project(&project))).unwrap();
    assert_eq!(audio.send(AudioCommand::PlayPause), Err(QueueFull));
    assert_eq!(retire.slots(), 4);
}

#[test]
fn devices_are_listed_by_name() {
    let name = |text: &str| Some(String::from(text));
    assert_eq!(
        listed_names(vec![name("USB"), None, name("Built-in"), name("USB"), name("Built")]),
        ["Built", "Built-in", "USB", "USB"]
    );
    assert!(listed_names(vec![None]).is_empty());
}

#[test]
fn kicks_key_the_compressor_and_pitched_tracks_make_way() {
    assert_eq!(ducking_role(TrackKind::Kick, false), DuckingRole::Key);
    for kind in [TrackKind::Bass, TrackKind::Chord, TrackKind::Lead, TrackKind::Fm] {
        assert_eq!(ducking_role(kind, false), DuckingRole::Ducked);
        assert_eq!(ducking_role(kind, true), DuckingRole::Free);
    }
    assert_eq!(ducking_role(TrackKind::Snare, false), DuckingRole::Free);
    assert_eq!(ducking_role(TrackKind::Kick, true), DuckingRole::Free);
}

#[test]
fn incremental_snapshots_reuse_unchanged_patterns_and_match_full_rebuilds() {
    let mut project = Project::new();
    project.patterns.push(project.patterns[0].clone());
    let base = AudioProject::from_project(&project);

    project.tracks[0].muted = true;
    let track_update = base.updated(
        &project,
        &EditImpact { tracks: 1, ..Default::default() },
        PatternIndexMap::identity(),
    );
    assert!(Arc::ptr_eq(&base.patterns.0[0], &track_update.patterns.0[0]));
    assert!(Arc::ptr_eq(&base.patterns.0[1], &track_update.patterns.0[1]));
    assert!(track_update.tracks[0].muted);

    project.patterns[0].tracks[0].steps[0] = Some(plain_hit());
    let sequence_update = track_update.updated(
        &project,
        &EditImpact { sequences: vec![(0, 0)], ..Default::default() },
        PatternIndexMap::identity(),
    );
    let full = AudioProject::from_project(&project);
    assert!(!Arc::ptr_eq(&track_update.patterns.0[0], &sequence_update.patterns.0[0]));
    assert!(Arc::ptr_eq(&track_update.patterns.0[1], &sequence_update.patterns.0[1]));
    assert_eq!(sequence_update.patterns.0[0], full.patterns.0[0]);
    assert_eq!(sequence_update.patterns.0[1], full.patterns.0[1]);
}

#[test]
fn structural_snapshots_reuse_only_patterns_that_survive_rebasing() {
    let mut project = Project::new();
    project.patterns.push(project.patterns[0].clone());
    project.patterns.push(project.patterns[0].clone());
    let base = AudioProject::from_project(&project);

    let mut inserted = project.clone();
    inserted.patterns.insert(1, inserted.patterns[0].clone());
    let inserted_update = base.updated(
        &inserted,
        &EditImpact { patterns_structural: true, ..Default::default() },
        PatternIndexMap::insert(0),
    );
    let inserted_full = AudioProject::from_project(&inserted);
    assert!(Arc::ptr_eq(&base.patterns.0[0], &inserted_update.patterns.0[0]));
    assert!(!Arc::ptr_eq(&base.patterns.0[0], &inserted_update.patterns.0[1]));
    assert!(Arc::ptr_eq(&base.patterns.0[1], &inserted_update.patterns.0[2]));
    assert!(Arc::ptr_eq(&base.patterns.0[2], &inserted_update.patterns.0[3]));
    assert_eq!(inserted_update.patterns.0[1], inserted_full.patterns.0[1]);

    let mut deleted = project.clone();
    deleted.patterns.remove(1);
    let deleted_update = base.updated(
        &deleted,
        &EditImpact { patterns_structural: true, ..Default::default() },
        PatternIndexMap::delete(1),
    );
    assert!(Arc::ptr_eq(&base.patterns.0[0], &deleted_update.patterns.0[0]));
    assert!(Arc::ptr_eq(&base.patterns.0[2], &deleted_update.patterns.0[1]));
    assert_eq!(
        deleted_update.patterns.0[0],
        AudioProject::from_project(&deleted).patterns.0[0]
    );
    assert_eq!(
        deleted_update.patterns.0[1],
        AudioProject::from_project(&deleted).patterns.0[1]
    );
}

#[test]
fn snapshot_contains_all_steps_without_heap_backed_commands() {
    let mut p = Project::new();
    p.patterns[0].tracks[0].steps.resize(MAX_STEP_COUNT, None);
    let AudioCommand::ReplaceProject { project: s, smoothing, .. } = Audio::snapshot(&p) else {
        panic!()
    };
    assert_eq!(smoothing, ParameterSmoothing::Default);
    assert_eq!(s.globals.tempo_bpm, 120);
    assert_eq!(s.patterns.0[0].tracks[0].step_count as usize, MAX_STEP_COUNT);
    assert_eq!(s.patterns.0[0].tracks[1].step_count, 16);
    assert!(s.patterns.0[0].tracks[0].steps.iter().all(Option::is_none));
}

#[test]
fn snapshot_preserves_dynamic_pattern_count_and_indexes() {
    let mut project = Project::new();
    let extra = project.patterns[0].clone();
    project.patterns.push(extra.clone());
    project.patterns.push(extra);
    project.patterns[2].tracks[1].steps.resize(24, None);
    let AudioCommand::ReplaceProject { project: snapshot, .. } = Audio::snapshot(&project) else {
        panic!()
    };
    assert_eq!(snapshot.patterns.len(), 3);
    assert_eq!(snapshot.patterns.0[2].tracks[1].step_count, 24);
}

#[test]
fn snapshots_carry_their_smoothing_and_their_maps() {
    let project = Project::new();
    let AudioCommand::ReplaceProject { smoothing, pattern_map, song_map, .. } =
        Audio::snapshot_with_smoothing_and_map(
            &project,
            ParameterSmoothing::Fader,
            PatternIndexMap::insert(0),
        )
    else {
        panic!()
    };
    assert_eq!(smoothing, ParameterSmoothing::Fader);
    assert_eq!(pattern_map, PatternIndexMap::insert(0));
    assert_eq!(song_map, SongIndexMap::identity());
    let AudioCommand::ReplaceProject { smoothing, pattern_map, .. } = Audio::snapshot(&project)
    else {
        panic!()
    };
    assert_eq!(smoothing, ParameterSmoothing::Default);
    assert_eq!(pattern_map, PatternIndexMap::identity());
}

#[test]
fn finalization_wait_can_release_every_retirement_slot() {
    let project = Project::new();
    let (mut producer, mut retired) = RingBuffer::new(32);
    for _ in 0..32 {
        producer.push(Box::new(AudioProject::from_project(&project))).unwrap();
    }
    assert_eq!(producer.slots(), 0);
    assert_eq!(reap_retired_queue(&mut retired), 32);
    assert_eq!(producer.slots(), 32);
}

#[test]
fn full_snapshot_updates_the_incremental_cache_only_after_enqueue_succeeds() {
    let initial = Project::new();
    let mut loaded = initial.clone();
    loaded.globals.tempo_bpm = 137;
    loaded.patterns[0].tracks[1].steps[0] = Some(plain_hit());
    let mut edited = loaded.clone();
    edited.tracks[0].muted = true;

    let (mut audio, mut commands) = queue_only_audio(&initial, 4);
    audio.send(Audio::snapshot(&loaded)).unwrap();
    audio
        .send_project_update(
            &edited,
            &EditImpact { tracks: 1, ..Default::default() },
            ParameterSmoothing::Default,
            PatternIndexMap::identity(),
            SongIndexMap::identity(),
        )
        .unwrap();
    let _ = commands.pop().unwrap();
    let AudioCommand::ReplaceProject { project, .. } = commands.pop().unwrap() else {
        panic!("expected project replacement")
    };
    let expected = AudioProject::from_project(&edited);
    assert_eq!(project.globals.tempo_bpm, expected.globals.tempo_bpm);
    assert_eq!(project.patterns.0[0], expected.patterns.0[0]);
    assert_eq!(project.tracks[0].muted, expected.tracks[0].muted);

    let (mut full_audio, _commands) = queue_only_audio(&initial, 1);
    full_audio.send(Audio::snapshot(&loaded)).unwrap();
    assert!(full_audio.send(Audio::snapshot(&initial)).is_err());
    assert_eq!(
        full_audio.snapshot_project.globals.tempo_bpm,
        loaded.globals.tempo_bpm
    );
}

#[test]
fn available_commands_counts_the_free_slots() {
    let (mut audio, mut commands) = queue_only_audio(&Project::new(), 3);
    assert_eq!(audio.available_commands(), 3);
    audio.send(AudioCommand::PlayPause).unwrap();
    assert_eq!(audio.available_commands(), 2);
    assert!(matches!(commands.pop(), Ok(AudioCommand::PlayPause)));
    assert_eq!(audio.available_commands(), 3);
}

#[test]
fn a_recording_starts_only_when_it_can() {
    let (mut audio, mut commands) = queue_only_audio(&Project::new(), 2);
    let ready = |_: &str| -> Result<(), &'static str> { Ok(()) };
    assert_eq!(
        audio.start_recording(true, String::from("a.wav"), ready),
        Err(StartError::Refused(RecordingError::StreamFailed))
    );
    assert_eq!(
        audio.start_recording(false, String::from("a.wav"), |_: &str| Err("no space")),
        Err(StartError::Prepare("no space"))
    );
    assert_eq!(audio.recording_state(false), RecordingState::Idle);
    assert!(commands.pop().is_err());

    assert_eq!(audio.start_recording(false, String::from("a.wav"), ready), Ok(()));
    assert_eq!(audio.recording_path.as_deref(), Some("a.wav"));
    assert_eq!(audio.recording_state(false), RecordingState::Recording);
    assert_eq!(audio.recording_state(true), RecordingState::Finalizing);
    assert!(matches!(commands.pop(), Ok(AudioCommand::StartRecording)));
    assert_eq!(
        audio.start_recording(false, String::from("b.wav"), ready),
        Err(StartError::Refused(RecordingError::Busy))
    );

    let (mut full, _commands) = queue_only_audio(&Project::new(), 1);
    full.send(AudioCommand::Stop).unwrap();
    assert_eq!(
        full.start_recording(false, String::from("a.wav"), |_: &str| -> Result<(), ()> {
            panic!("nothing is prepared in vain")
        }),
        Err(StartError::Refused(RecordingError::Queue(QueueFull)))
    );
}

#[test]
fn a_recording_stops_through_the_callback_or_without_it() {
    let ready = |_: &str| -> Result<(), ()> { Ok(()) };
    let (mut audio, mut commands) = queue_only_audio(&Project::new(), 2);
    assert_eq!(audio.stop_recording(false, true), Err(RecordingError::NotRecording));
    audio.start_recording(false, String::from("a.wav"), ready).unwrap();
    assert_eq!(audio.stop_recording(false, true), Ok(StopRequest::Sent));
    assert!(matches!(commands.pop(), Ok(AudioCommand::StartRecording)));
    assert!(matches!(commands.pop(), Ok(AudioCommand::StopRecording)));
    assert_eq!(audio.recording_state(false), RecordingState::Finalizing);
    audio.recording_finished();
    assert_eq!(audio.recording_state(false), RecordingState::Idle);
    assert_eq!(audio.recording_path, None);

    audio.start_recording(false, String::from("b.wav"), ready).unwrap();
    assert_eq!(
        audio.stop_recording(true, true),
        Ok(StopRequest::StreamLost { close: true })
    );
    assert_eq!(audio.recording_state(false), RecordingState::Finalizing);
    assert!(!audio.before_poll(true, false));
}

#[test]
fn a_shutdown_waits_for_room_and_then_for_the_writer() {
    let ready = |_: &str| -> Result<(), ()> { Ok(()) };
    let (mut audio, mut commands) = queue_only_audio(&Project::new(), 1);
    audio.start_recording(false, String::from("a.wav"), ready).unwrap();
    let mut phase = ShutdownPhase::Stopping;
    assert_eq!(audio.shutdown_recording(&mut phase, false, true), ShutdownAction::Wait);
    assert!(matches!(commands.pop(), Ok(AudioCommand::StartRecording)));
    assert_eq!(
        audio.shutdown_recording(&mut phase, false, true),
        ShutdownAction::Poll { close: false }
    );
    assert!(matches!(commands.pop(), Ok(AudioCommand::StopRecording)));
    assert_eq!(
        audio.shutdown_recording(&mut phase, true, true),
        ShutdownAction::Poll { close: true }
    );
    audio.recording_finished();
    assert_eq!(audio.shutdown_recording(&mut phase, true, false), ShutdownAction::Close);
}

#[test]
fn recording_errors_have_their_words() {
    assert_eq!(QueueFull.message(), "audio command queue full");
    assert_eq!(queue_full_error(), RecordingError::Queue(QueueFull));
    assert_eq!(queue_full_error().message(), "could not start or stop recording");
    assert_eq!(
        RecordingError::StreamFailed.message(),
        "audio stream has failed; cannot start recording"
    );
    assert_eq!(
        RecordingError::Busy.message(),
        "a recording is already active or finalizing"
    );
    assert_eq!(RecordingError::NotRecording.message(), "no recording is active");
}

#[test]
fn smoothing_lasts_five_or_thirty_milliseconds() {
    assert_eq!(ParameterSmoothing::Default.samples(8_000), 40);
    assert_eq!(ParameterSmoothing::Fader.samples(8_000), 240);
    assert_eq!(ParameterSmoothing::Default.samples(44_100), 221);
    assert_eq!(ParameterSmoothing::Fader.samples(44_100), 1_323);
    assert_eq!(ParameterSmoothing::Default.samples(10), 1);
}
