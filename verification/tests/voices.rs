//! What a step sets sounding: drums, single voices, chords, previews.
use rtrb::RingBuffer;
use terminal_groove::audio::arpeggio::ArpeggioState;
use terminal_groove::audio::command::AudioCommand;
use terminal_groove::audio::controls::{drum_controls, DrumControl, ParameterSmoothing};
use terminal_groove::audio::cue::Cue;
use terminal_groove::audio::pool::{ChordVoicePool, CHORD_GROUP_SIZE};
use terminal_groove::audio::queue::Audio;
use terminal_groove::audio::recording::{RecordingItem, RecordingProducer};
use terminal_groove::audio::renderer::{PendingProject, Renderer, CUE_ROOM};
use terminal_groove::audio::schedule::ScheduledTrackAction;
use terminal_groove::audio::slot::{locks_at, sequence_of, DrumVoice};
use terminal_groove::audio::snapshot::AudioProject;
use terminal_groove::audio::voice::{configure_synth_voice, Glide, SynthVoice, SynthVoiceKind};
use terminal_groove::dsp::envelope::EnvStage;
use terminal_groove::model::event::{
    ArpeggioConfig, ArpeggioRate, ArpeggioType, ChordShape, StepEvent, SynthTrigger,
    TriggerCondition,
};
use terminal_groove::model::index_map::{PatternIndexMap, SongIndexMap};
use terminal_groove::model::instrument::{
    DrumRecipeSlot, FmAlgorithm, FmRatio, Instrument, LfoConfig, LfoRate, LfoWaveform, TrackKind,
};
use terminal_groove::model::parameter::{ParameterId, ParameterLocks, ParameterValue};
use terminal_groove::model::percent::{Microtiming, Percent};
use terminal_groove::model::project::{
    Project, CHORD_TRACK_INDEX, FM_TRACK_INDEX, LEAD_TRACK_INDEX, SYNTH_TRACK_START, TRACK_COUNT,
};

fn engine(project: &Project, sample_rate: u32) -> Renderer {
    let (retire, _) = RingBuffer::new(32);
    let (items, _) = RingBuffer::new(1);
    Renderer::new_with_retirement(
        Box::new(AudioProject::from_project(project)),
        sample_rate,
        retire,
        RecordingProducer::new(items),
    )
}

fn cues_of(renderer: &mut Renderer) -> Vec<Cue> {
    let mut cues = Vec::new();
    renderer.take_cues(&mut cues);
    cues
}

fn frame(renderer: &mut Renderer) {
    renderer.begin_frame(&[false; TRACK_COUNT]);
    renderer.finish_frame(&[false; TRACK_COUNT], &[false; TRACK_COUNT]);
}

fn act(renderer: &mut Renderer, track: usize, step: u8, retrigger: bool, allowed: bool) {
    renderer.process_track_action(ScheduledTrackAction {
        remaining: 0,
        track: track as u8,
        step,
        retrigger,
        trigger_allowed: allowed,
    });
}

fn percent(value: u8) -> Percent {
    Percent::new(value).unwrap()
}

fn parameter_locks(pairs: &[(ParameterId, u8)]) -> ParameterLocks {
    let mut locks = ParameterLocks::new();
    for (parameter, value) in pairs {
        assert!(locks.set(*parameter, ParameterValue::Percent(percent(*value))));
    }
    locks
}

fn hit(accent: bool, locks: ParameterLocks) -> StepEvent {
    StepEvent::Trigger {
        accent,
        recipe: DrumRecipeSlot::One,
        condition: TriggerCondition::Always,
        retrigger_count: 1,
        microtiming: Microtiming::zero(),
        locks,
    }
}

fn bass(degree: u8, accent: bool, slide: bool, locks: ParameterLocks) -> StepEvent {
    StepEvent::BassNote {
        degree,
        octave: 3,
        accent,
        slide,
        condition: TriggerCondition::Always,
        retrigger_count: 1,
        microtiming: Microtiming::zero(),
        locks,
    }
}

fn note(
    degree: u8,
    accent: bool,
    chord_shape: Option<ChordShape>,
    arpeggio: ArpeggioConfig,
    locks: ParameterLocks,
) -> StepEvent {
    StepEvent::Note {
        degree,
        octave: 3,
        accent,
        chord_shape,
        arpeggio,
        condition: TriggerCondition::Always,
        retrigger_count: 1,
        microtiming: Microtiming::zero(),
        locks,
    }
}

fn tie(locks: ParameterLocks) -> StepEvent {
    StepEvent::Tie { locks }
}

fn chord_trigger(shape: ChordShape, arpeggio: ArpeggioConfig) -> SynthTrigger {
    SynthTrigger {
        degree: 1,
        octave: 3,
        accent: false,
        slide: false,
        chord_shape: Some(shape),
        arpeggio,
    }
}

fn restarts(cues: &[Cue], of_track: usize) -> usize {
    cues.iter()
        .filter(|cue| match cue {
            Cue::RestartLfos { track, preview } => *track as usize == of_track && !preview,
            _ => false,
        })
        .count()
}

fn value_of(control: DrumControl) -> u8 {
    match control {
        DrumControl::Setting { value, .. } => value.get(),
        DrumControl::Off => 0,
        DrumControl::Half => 50,
    }
}

#[test]
fn lead_audition_uses_direct_and_tied_note_data_and_locks() {
    let mut project = Project::new();
    project.patterns[0].tracks[LEAD_TRACK_INDEX].steps[0] = Some(StepEvent::LeadNote {
        degree: 7,
        octave: 5,
        accent: true,
        slide: true,
        condition: TriggerCondition::Always,
        retrigger_count: 1,
        microtiming: Microtiming::zero(),
        locks: parameter_locks(&[(ParameterId::Level, 20)]),
    });
    let mut renderer = engine(&project, 8_000);
    let lead = LEAD_TRACK_INDEX;
    renderer.audition_once(LEAD_TRACK_INDEX, 0);
    assert_eq!(renderer.preview[lead].synth.locks.percent(ParameterId::Level), Percent::new(20));
    assert!(renderer.preview[lead].synth.active);
    assert!(renderer.preview[lead].synth.slide_armed);
    let direct_note = renderer.preview[lead].synth.note.midi;

    project.patterns[0].tracks[LEAD_TRACK_INDEX].steps[1] =
        Some(tie(parameter_locks(&[(ParameterId::Level, 30)])));
    let mut renderer = engine(&project, 8_000);
    renderer.audition_once(LEAD_TRACK_INDEX, 1);
    assert_eq!(renderer.preview[lead].synth.note.midi, direct_note);
    assert_eq!(renderer.preview[lead].synth.locks.percent(ParameterId::Level), Percent::new(30));
}

#[test]
fn stop_releases_bass_vcas_and_resets_fm_state() {
    let mut project = Project::new();
    project.patterns[0].tracks[SYNTH_TRACK_START].steps[0] =
        Some(bass(1, false, false, ParameterLocks::new()));
    project.patterns[0].tracks[FM_TRACK_INDEX].steps[0] =
        Some(note(1, false, None, ArpeggioConfig::default(), ParameterLocks::new()));
    let mut renderer = engine(&project, 8_000);
    renderer.boundary(0);
    renderer.audition_once(SYNTH_TRACK_START, 0);
    renderer.audition_once(FM_TRACK_INDEX, 0);
    renderer.live[SYNTH_TRACK_START].synth.observe_vca(true);
    renderer.preview[SYNTH_TRACK_START].synth.observe_vca(true);
    assert_ne!(renderer.live[FM_TRACK_INDEX].voicing.group_voice_counts, [0; 2]);
    assert_ne!(renderer.preview[FM_TRACK_INDEX].voicing.group_voice_counts, [0; 2]);
    cues_of(&mut renderer);

    renderer.handle(AudioCommand::Stop);

    assert!(!renderer.live[SYNTH_TRACK_START].synth.is_idle());
    assert!(!renderer.preview[SYNTH_TRACK_START].synth.is_idle());
    assert_eq!(renderer.live[FM_TRACK_INDEX].voicing.group_voice_counts, [0; 2]);
    assert_eq!(renderer.preview[FM_TRACK_INDEX].voicing.group_voice_counts, [0; 2]);
    for slot in renderer.live.iter().chain(renderer.preview.iter()) {
        assert!(slot.voicing.voices.iter().all(|voice| voice.is_idle() && !voice.active));
    }
    assert!(cues_of(&mut renderer).iter().any(|cue| matches!(cue, Cue::Clear)));
    renderer.live[SYNTH_TRACK_START].synth.observe_vca(false);
    renderer.preview[SYNTH_TRACK_START].synth.observe_vca(false);
    assert!(renderer.live[SYNTH_TRACK_START].synth.is_idle());
    assert!(renderer.preview[SYNTH_TRACK_START].synth.is_idle());
}

#[test]
fn fully_idle_voicing_groups_are_retired_after_their_tail() {
    let project = AudioProject::from_project(&Project::new());
    let mut pool = ChordVoicePool::new();
    let trigger = chord_trigger(ChordShape::SeventhRoot, ArpeggioConfig::default());
    pool.trigger_chord(&project, FM_TRACK_INDEX, &trigger, &ParameterLocks::new());
    pool.trigger_chord(&project, FM_TRACK_INDEX, &trigger, &ParameterLocks::new());
    assert_eq!(pool.group_voice_counts, [4; 2]);
    for voice in &mut pool.voices {
        voice.reset_to_idle();
    }

    pool.retire_idle_groups(false, false);

    assert_eq!(pool.group_voice_counts, [0; 2]);
}

#[test]
fn automatic_audition_is_allowed_when_stopped_or_paused() {
    let mut project = Project::new();
    project.patterns[0].tracks[0].steps[0] = Some(hit(false, ParameterLocks::new()));

    let mut stopped = engine(&project, 8_000);
    stopped.handle(AudioCommand::AutoAudition { track: 0, step: 0 });
    assert!(stopped.preview[0].drum.sounding);

    let mut paused = engine(&project, 8_000);
    paused.handle(AudioCommand::PlayPause);
    paused.handle(AudioCommand::PlayPause);
    paused.handle(AudioCommand::AutoAudition { track: 0, step: 0 });
    assert!(paused.preview[0].drum.sounding);
}

#[test]
fn queued_automatic_audition_is_ignored_after_playback_starts() {
    let mut project = Project::new();
    project.patterns[0].tracks[0].steps[0] = Some(hit(false, ParameterLocks::new()));
    let mut renderer = engine(&Project::new(), 8_000);

    renderer.handle(AudioCommand::PlayPause);
    renderer.handle(Audio::snapshot(&project));
    renderer.handle(AudioCommand::AutoAudition { track: 0, step: 0 });

    assert!(renderer.sequencer.transport.playing);
    assert!(!renderer.preview[0].drum.sounding);
}

#[test]
fn explicit_audition_remains_available_while_playing() {
    let mut project = Project::new();
    project.patterns[0].tracks[0].steps[0] = Some(hit(false, ParameterLocks::new()));
    let mut renderer = engine(&project, 8_000);

    renderer.handle(AudioCommand::PlayPause);
    renderer.handle(AudioCommand::Audition { track: 0, step: 0 });

    assert!(renderer.preview[0].drum.sounding);
}

#[test]
fn empty_step_audition_uses_the_track_input_accent_default() {
    let mut project = Project::new();
    project.tracks[0].input_accent = true;
    let mut renderer = engine(&project, 8_000);

    renderer.audition_once(0, 0);

    assert!(renderer.preview[0].drum.hit.unwrap().accent);
}

#[test]
fn preview_drum_audition_uses_effective_pan() {
    let mut project = Project::new();
    project.tracks[0].pan = percent(100);
    let mut renderer = engine(&project, 8_000);

    renderer.audition_once(0, 0);
    assert_eq!(renderer.preview[0].drum.mix.pan.get(), 100);

    project.patterns[0].tracks[0].steps[0] =
        Some(hit(false, parameter_locks(&[(ParameterId::Pan, 25)])));
    renderer.handle(Audio::snapshot(&project));
    renderer.audition_once(0, 0);
    assert_eq!(renderer.preview[0].drum.mix.pan.get(), 25);
}

#[test]
fn lead_slide_uses_source_portamento_lock_and_tie_override() {
    fn lead_note(degree: u8, slide: bool, portamento: u8) -> StepEvent {
        StepEvent::LeadNote {
            degree,
            octave: 3,
            accent: false,
            slide,
            condition: TriggerCondition::Always,
            retrigger_count: 1,
            microtiming: Microtiming::zero(),
            locks: parameter_locks(&[(ParameterId::PortamentoTime, portamento)]),
        }
    }

    let mut project = Project::new();
    project.patterns[0].tracks[LEAD_TRACK_INDEX].steps[0] = Some(lead_note(1, true, 100));
    project.patterns[0].tracks[LEAD_TRACK_INDEX].steps[1] = Some(lead_note(8, false, 0));
    let mut renderer = engine(&project, 8_000);
    let lead = LEAD_TRACK_INDEX;

    renderer.boundary(0);
    let source = renderer.live[lead].synth.note.midi;
    renderer.boundary(0);
    assert_eq!(renderer.live[lead].synth.note.midi, source + 12);
    assert_eq!(renderer.live[lead].synth.note.glide, Glide::Portamento { time: 100 });

    project.patterns[0].tracks[LEAD_TRACK_INDEX].steps[1] =
        Some(tie(parameter_locks(&[(ParameterId::PortamentoTime, 0)])));
    project.patterns[0].tracks[LEAD_TRACK_INDEX].steps[2] = Some(lead_note(8, false, 100));
    let mut renderer = engine(&project, 8_000);
    renderer.boundary(0);
    renderer.boundary(0);
    renderer.boundary(0);
    assert_eq!(renderer.live[lead].synth.note.midi, source + 12);
    assert_eq!(renderer.live[lead].synth.note.glide, Glide::Immediate);
}

#[test]
fn current_step_locks_are_latched_until_the_next_boundary() {
    let mut project = Project::new();
    project.patterns[0].tracks[SYNTH_TRACK_START].steps.resize(1, None);
    project.patterns[0].tracks[SYNTH_TRACK_START].steps[0] =
        Some(bass(1, false, false, parameter_locks(&[(ParameterId::Cutoff, 20)])));
    let mut renderer = engine(&project, 8_000);
    renderer.handle(AudioCommand::PlayPause);
    renderer.boundary(0);
    let cutoff = |renderer: &Renderer| {
        renderer.live[SYNTH_TRACK_START].synth.locks.percent(ParameterId::Cutoff)
    };
    assert_eq!(cutoff(&renderer), Percent::new(20));

    let mut edited = project.clone();
    let Some(StepEvent::BassNote { locks, .. }) =
        edited.patterns[0].tracks[SYNTH_TRACK_START].steps[0].as_mut()
    else {
        panic!("expected Bass note")
    };
    locks.set(ParameterId::Cutoff, ParameterValue::Percent(percent(80)));
    renderer.handle(Audio::snapshot(&edited));
    assert_eq!(cutoff(&renderer), Percent::new(20));

    renderer.boundary(0);
    assert_eq!(cutoff(&renderer), Percent::new(80));
}

#[test]
fn bass_tie_locks_inherit_source_note_and_allow_tie_overrides() {
    let mut project = Project::new();
    let steps = &mut project.patterns[0].tracks[SYNTH_TRACK_START].steps;
    steps[0] = Some(bass(
        1,
        false,
        false,
        parameter_locks(&[(ParameterId::Level, 30), (ParameterId::Cutoff, 20)]),
    ));
    steps[1] = Some(tie(parameter_locks(&[(ParameterId::Resonance, 70)])));
    steps[2] = Some(tie(ParameterLocks::new()));
    let mut renderer = engine(&project, 8_000);
    let seen = |renderer: &Renderer| {
        let locks = renderer.live[SYNTH_TRACK_START].synth.locks;
        (
            locks.percent(ParameterId::Level),
            locks.percent(ParameterId::Cutoff),
            locks.percent(ParameterId::Resonance),
        )
    };

    renderer.boundary(0);
    assert_eq!(seen(&renderer), (Percent::new(30), Percent::new(20), None));
    renderer.boundary(0);
    assert_eq!(seen(&renderer), (Percent::new(30), Percent::new(20), Percent::new(70)));
    renderer.boundary(0);
    assert_eq!(seen(&renderer), (Percent::new(30), Percent::new(20), Percent::new(70)));
}

#[test]
fn wrapped_bass_tie_locks_inherit_from_wrapped_source_note() {
    let mut project = Project::new();
    let steps = &mut project.patterns[0].tracks[SYNTH_TRACK_START].steps;
    steps.resize(3, None);
    steps[0] = Some(tie(ParameterLocks::new()));
    steps[2] = Some(bass(1, false, false, parameter_locks(&[(ParameterId::Cutoff, 25)])));
    let audio = AudioProject::from_project(&project);

    assert_eq!(
        locks_at(sequence_of(&audio, 0, SYNTH_TRACK_START), 0).percent(ParameterId::Cutoff),
        Percent::new(25)
    );
}

#[test]
fn chord_track_triggers_close_position_triads_and_alternates_voice_groups() {
    let mut project = Project::new();
    let steps = &mut project.patterns[0].tracks[CHORD_TRACK_INDEX].steps;
    steps[0] = Some(note(
        1,
        false,
        None,
        ArpeggioConfig::default(),
        parameter_locks(&[(ParameterId::Cutoff, 20)]),
    ));
    steps[1] = Some(tie(parameter_locks(&[(ParameterId::Resonance, 70)])));
    steps[2] = Some(note(4, true, None, ArpeggioConfig::default(), ParameterLocks::new()));
    let mut renderer = engine(&project, 48_000);

    renderer.boundary(0);
    let first_group = renderer.live[CHORD_TRACK_INDEX].voicing.group;
    let start = first_group * CHORD_GROUP_SIZE;
    let first = |renderer: &Renderer| -> Vec<SynthVoice> {
        renderer.live[CHORD_TRACK_INDEX].voicing.voices[start..start + 3].to_vec()
    };
    let midis: Vec<i32> = first(&renderer).iter().map(|voice| voice.note.midi).collect();
    assert_eq!(midis, vec![48, 52, 55]);
    for voice in first(&renderer) {
        assert_eq!(voice.locks.percent(ParameterId::Cutoff), Percent::new(20));
    }

    renderer.boundary(0);
    assert_eq!(renderer.live[CHORD_TRACK_INDEX].voicing.group, first_group);
    for voice in first(&renderer) {
        assert_eq!(voice.locks.percent(ParameterId::Cutoff), Percent::new(20));
        assert_eq!(voice.locks.percent(ParameterId::Resonance), Percent::new(70));
    }
    renderer.boundary(0);
    let second_group = renderer.live[CHORD_TRACK_INDEX].voicing.group;
    assert_ne!(second_group, first_group);
    for voice in first(&renderer) {
        assert_eq!(voice.stage, EnvStage::Release);
    }
    let second = second_group * CHORD_GROUP_SIZE;
    for voice in &renderer.live[CHORD_TRACK_INDEX].voicing.voices[second..second + 3] {
        assert_eq!(voice.stage, EnvStage::Attack);
    }

    renderer.boundary(0);
    assert!(!renderer.live[CHORD_TRACK_INDEX].voicing.active);
}

#[test]
fn chord_track_renders_four_note_shapes_with_overlap_capacity() {
    let mut project = Project::new();
    project.patterns[0].tracks[CHORD_TRACK_INDEX].steps[0] = Some(note(
        1,
        false,
        Some(ChordShape::SeventhRoot),
        ArpeggioConfig::default(),
        ParameterLocks::new(),
    ));
    let mut renderer = engine(&project, 48_000);
    renderer.boundary(0);
    let pool = &renderer.live[CHORD_TRACK_INDEX].voicing;
    assert_eq!(pool.voice_count, 4);
    for (voice, midi) in [48, 52, 55, 59].into_iter().enumerate() {
        assert_eq!(pool.voices[pool.group * CHORD_GROUP_SIZE + voice].note.midi, midi);
    }
}

#[test]
fn chord_track_renders_single_and_dyad_shapes_with_expected_spread() {
    let project = AudioProject::from_project(&Project::new());
    let mut pool = ChordVoicePool::new();
    let locks = ParameterLocks::new();
    let plain = ArpeggioConfig::default();

    pool.trigger_chord(
        &project,
        CHORD_TRACK_INDEX,
        &chord_trigger(ChordShape::Single, plain),
        &locks,
    );
    let start = pool.group * CHORD_GROUP_SIZE;
    assert_eq!(pool.group_voice_counts[pool.group], 1);
    assert_eq!(pool.voices[start].pan_position(), 500_000);
    assert_eq!(pool.voices[start].note.midi, 48);

    pool.trigger_chord(
        &project,
        CHORD_TRACK_INDEX,
        &chord_trigger(ChordShape::DyadThird, plain),
        &locks,
    );
    let start = pool.group * CHORD_GROUP_SIZE;
    assert_eq!(pool.group_voice_counts[pool.group], 2);
    assert_eq!(pool.voices[start].pan_position(), 0);
    assert_eq!(pool.voices[start + 1].pan_position(), 1_000_000);
    assert_eq!([pool.voices[start].note.midi, pool.voices[start + 1].note.midi], [48, 52]);

    pool.trigger_chord(
        &project,
        CHORD_TRACK_INDEX,
        &chord_trigger(ChordShape::DyadFifth, plain),
        &locks,
    );
    let start = pool.group * CHORD_GROUP_SIZE;
    assert_eq!([pool.voices[start].note.midi, pool.voices[start + 1].note.midi], [48, 55]);
    assert!(pool.voices[start + 2..start + CHORD_GROUP_SIZE]
        .iter()
        .all(|voice| voice.stage == EnvStage::Idle && !voice.active));
}

#[test]
fn fm_track_renders_four_voice_shapes_with_fixed_wide_distribution() {
    let project = AudioProject::from_project(&Project::new());
    let mut pool = ChordVoicePool::new();
    pool.trigger_chord(
        &project,
        FM_TRACK_INDEX,
        &chord_trigger(ChordShape::SeventhRoot, ArpeggioConfig::default()),
        &ParameterLocks::new(),
    );

    let start = pool.group * CHORD_GROUP_SIZE;
    assert_eq!(pool.group_voice_counts[pool.group], 4);
    let expected_pans = [0, 333_333, 666_667, 1_000_000];
    let expected_midis = [48, 52, 55, 59];
    for (index, (pan, midi)) in expected_pans.into_iter().zip(expected_midis).enumerate() {
        let voice = &pool.voices[start + index];
        assert_eq!(voice.pan_position(), pan);
        assert_eq!(voice.kind, SynthVoiceKind::Fm);
        assert_eq!(voice.note.midi, midi);
    }
}

#[test]
fn fixed_voicing_spread_survives_ties_refreshes_previews_and_release_tails() {
    fn pans(pool: &ChordVoicePool) -> [u32; 4] {
        let start = pool.group * CHORD_GROUP_SIZE;
        std::array::from_fn(|index| pool.voices[start + index].pan_position())
    }

    for track in [CHORD_TRACK_INDEX, FM_TRACK_INDEX] {
        let mut project = Project::new();
        project.patterns[0].tracks[track].steps[0] = Some(note(
            1,
            false,
            Some(ChordShape::SeventhRoot),
            ArpeggioConfig::default(),
            ParameterLocks::new(),
        ));
        project.patterns[0].tracks[track].steps[1] = Some(tie(ParameterLocks::new()));
        let mut renderer = engine(&project, 8_000);
        act(&mut renderer, track, 0, false, true);
        renderer.audition_once(track, 0);

        let initial = [0, 333_333, 666_667, 1_000_000];
        assert_eq!(pans(&renderer.live[track].voicing), initial);
        assert_eq!(pans(&renderer.preview[track].voicing), initial);

        act(&mut renderer, track, 1, false, true);
        assert_eq!(pans(&renderer.live[track].voicing), initial);

        renderer.project.tracks[track].pan = percent(70);
        renderer.refresh_active_parameters(0);
        let shifted = [200_000, 533_333, 866_667, 1_000_000];
        assert_eq!(pans(&renderer.live[track].voicing), shifted);
        assert_eq!(pans(&renderer.preview[track].voicing), shifted);
        for slots in [&mut renderer.live, &mut renderer.preview] {
            let pool = &mut slots[track].voicing;
            let start = pool.group * CHORD_GROUP_SIZE;
            for voice in &mut pool.voices[start..start + 4] {
                voice.gate_off();
                voice.active = false;
            }
        }
        renderer.project.tracks[track].pan = percent(40);
        renderer.refresh_active_parameters(0);
        let released = [0, 233_333, 566_667, 900_000];
        assert_eq!(pans(&renderer.live[track].voicing), released);
        assert_eq!(pans(&renderer.preview[track].voicing), released);
    }
}

#[test]
fn reused_chord_group_clears_slots_not_used_by_the_new_shape() {
    let project = AudioProject::from_project(&Project::new());
    let mut pool = ChordVoicePool::new();
    let locks = ParameterLocks::new();
    let plain = ArpeggioConfig::default();
    let play = |pool: &mut ChordVoicePool, shape, arpeggio| {
        pool.trigger_chord(&project, CHORD_TRACK_INDEX, &chord_trigger(shape, arpeggio), &locks)
    };
    play(&mut pool, ChordShape::SeventhRoot, plain);
    let first_group = pool.group;
    play(&mut pool, ChordShape::TriadRoot, plain);
    play(&mut pool, ChordShape::Single, plain);

    assert_eq!(pool.group, first_group);
    assert_eq!(pool.group_voice_counts[first_group], 1);
    assert!(pool.voices[first_group * CHORD_GROUP_SIZE + 1..(first_group + 1) * CHORD_GROUP_SIZE]
        .iter()
        .all(|voice| voice.stage == EnvStage::Idle && !voice.active));

    play(&mut pool, ChordShape::SeventhRoot, ArpeggioConfig { enabled: true, ..plain });
    assert_eq!(pool.group_voice_counts[pool.group], 1);
    assert!(pool.voices[pool.group * CHORD_GROUP_SIZE + 1..(pool.group + 1) * CHORD_GROUP_SIZE]
        .iter()
        .all(|voice| voice.stage == EnvStage::Idle));
}

#[test]
fn releasing_chord_group_keeps_its_latched_level_after_a_new_lock() {
    let mut project = Project::new();
    project.patterns[0].tracks[CHORD_TRACK_INDEX].steps[0] = Some(note(
        1,
        false,
        None,
        ArpeggioConfig::default(),
        parameter_locks(&[(ParameterId::Level, 100)]),
    ));
    project.patterns[0].tracks[CHORD_TRACK_INDEX].steps[1] = Some(note(
        1,
        false,
        None,
        ArpeggioConfig::default(),
        parameter_locks(&[(ParameterId::Level, 0)]),
    ));

    let mut renderer = engine(&project, 8_000);
    act(&mut renderer, CHORD_TRACK_INDEX, 0, false, true);
    for _ in 0..500 {
        frame(&mut renderer);
    }
    act(&mut renderer, CHORD_TRACK_INDEX, 1, false, true);
    let pool = &renderer.live[CHORD_TRACK_INDEX].voicing;
    let releasing = &pool.voices[(1 - pool.group) * CHORD_GROUP_SIZE];
    assert_eq!(releasing.controls.mix.level.get(), 100);
    assert_eq!(releasing.stage, EnvStage::Release);
    assert_eq!(pool.voices[pool.group * CHORD_GROUP_SIZE].controls.mix.level.get(), 0);
}

fn restarting_lfo() -> LfoConfig {
    LfoConfig {
        enabled: true,
        waveform: LfoWaveform::Sine,
        reset_on_trigger: true,
        start_phase: percent(25),
        rate: LfoRate::Free { rate_percent: percent(100) },
        depth: percent(40),
    }
}

#[test]
fn held_ties_do_not_reset_lfos_but_cold_ties_do() {
    let track = SYNTH_TRACK_START;
    let mut project = Project::new();
    project.tracks[track].lfos.set(ParameterId::Level, Some(restarting_lfo()));
    project.patterns[0].tracks[track].steps[0] =
        Some(bass(1, false, false, ParameterLocks::new()));
    project.patterns[0].tracks[track].steps[1] = Some(tie(ParameterLocks::new()));
    let mut renderer = engine(&project, 1_000);
    cues_of(&mut renderer);

    act(&mut renderer, track, 0, false, true);
    assert_eq!(restarts(&cues_of(&mut renderer), track), 1);
    act(&mut renderer, track, 1, false, true);
    assert_eq!(restarts(&cues_of(&mut renderer), track), 0);

    renderer.live[track].synth.active = false;
    act(&mut renderer, track, 1, false, true);
    assert_eq!(restarts(&cues_of(&mut renderer), track), 1);
}

#[test]
fn chord_arpeggio_substeps_do_not_reset_lfos() {
    let track = CHORD_TRACK_INDEX;
    let mut project = Project::new();
    project.tracks[track].lfos.set(ParameterId::Level, Some(restarting_lfo()));
    project.patterns[0].tracks[track].steps[0] = Some(note(
        1,
        false,
        None,
        ArpeggioConfig {
            enabled: true,
            kind: ArpeggioType::Up,
            rate: ArpeggioRate::Sixteenth,
        },
        ParameterLocks::new(),
    ));
    let mut renderer = engine(&project, 1_000);
    cues_of(&mut renderer);

    act(&mut renderer, track, 0, false, true);
    assert_eq!(restarts(&cues_of(&mut renderer), track), 1);
    let position = renderer.live[track].voicing.arpeggio.position;
    let mut due = [false; TRACK_COUNT];
    due[track] = true;
    renderer.finish_frame(&due, &[false; TRACK_COUNT]);
    assert_ne!(renderer.live[track].voicing.arpeggio.position, position);
    assert_eq!(restarts(&cues_of(&mut renderer), track), 0);
}

#[test]
fn arpeggio_orders_and_fractional_timing_are_fixed_width() {
    let expected = [
        (ArpeggioType::Up, [0, 1, 2, 0, 0, 0, 0, 0], 3),
        (ArpeggioType::Down, [2, 1, 0, 0, 0, 0, 0, 0], 3),
        (ArpeggioType::UpDown, [0, 1, 2, 1, 0, 0, 0, 0], 4),
        (ArpeggioType::DownUp, [2, 1, 0, 1, 0, 0, 0, 0], 4),
    ];
    for (kind, order, length) in expected {
        let mut state = ArpeggioState::default();
        state.reset(ChordShape::TriadRoot, kind, ArpeggioRate::Sixteenth);
        assert_eq!(state.order, order);
        assert_eq!(state.order_len as usize, length);
    }
    for (shape, expected_up_down, expected_length) in [
        (ChordShape::Single, [0, 0, 0, 0, 0, 0, 0, 0], 1),
        (ChordShape::DyadThird, [0, 1, 0, 0, 0, 0, 0, 0], 2),
    ] {
        let mut state = ArpeggioState::default();
        state.reset(shape, ArpeggioType::UpDown, ArpeggioRate::Sixteenth);
        assert_eq!(state.order, expected_up_down);
        assert_eq!(state.order_len as usize, expected_length);
    }
    let mut state = ArpeggioState::default();
    state.reset(ChordShape::TriadRoot, ArpeggioType::Up, ArpeggioRate::Sixteenth);
    let interval = 44_100.0_f64 * 60.0 / 123.0 * 0.25;
    let mut phase = interval;
    let mut elapsed = 0.0;
    let mut ticks = 0;
    for _ in 0..(interval.ceil() as usize * 3) {
        elapsed += 1.0;
        phase -= 1.0;
        let due = phase <= 0.0;
        if due {
            phase += interval;
        }
        if state.tick(due) {
            assert!((elapsed - interval * (ticks + 1) as f64).abs() <= 1.0);
            ticks += 1;
        }
    }
    assert_eq!(ticks, 3);
}

#[test]
fn drum_recipe_resolution_precedes_locks() {
    let project = AudioProject::from_project(&Project::new());
    let hat =
        drum_controls(&project.tracks[2], DrumRecipeSlot::Two, &ParameterLocks::new()).unwrap();
    assert_eq!(value_of(hat.tune), 50);
    assert_eq!(value_of(hat.decay), 85);

    let tom = drum_controls(
        &project.tracks[3],
        DrumRecipeSlot::Three,
        &parameter_locks(&[(ParameterId::Decay, 12)]),
    )
    .unwrap();
    assert_eq!(value_of(tom.tune), 85);
    assert_eq!(value_of(tom.tone), 65);
    assert_eq!(value_of(tom.decay), 12);
}

#[test]
fn duplicate_drum_and_voicing_instruments_use_independent_slot_runtime() {
    let mut project = Project::new();
    project.tracks[1] = project.tracks[0];
    project.tracks[2] = project.tracks[CHORD_TRACK_INDEX];
    for track in [0, 1] {
        project.patterns[0].tracks[track].steps[0] =
            Some(hit(track == 1, ParameterLocks::new()));
    }
    for track in [2, CHORD_TRACK_INDEX] {
        project.patterns[0].tracks[track].steps[0] = Some(note(
            1,
            false,
            Some(ChordShape::TriadRoot),
            ArpeggioConfig::default(),
            ParameterLocks::new(),
        ));
    }
    let mut renderer = engine(&project, 48_000);

    act(&mut renderer, 0, 0, false, true);
    act(&mut renderer, 1, 0, false, true);
    act(&mut renderer, 2, 0, false, true);
    act(&mut renderer, CHORD_TRACK_INDEX, 0, false, true);

    assert!(renderer.live[0].drum.sounding);
    assert!(renderer.live[1].drum.sounding);
    assert!(!renderer.live[0].drum.hit.unwrap().accent);
    assert!(renderer.live[1].drum.hit.unwrap().accent);
    assert!(renderer.live[2].voicing.active);
    assert!(renderer.live[CHORD_TRACK_INDEX].voicing.active);
    assert_ne!(
        renderer.live[2].voicing.voices.as_ptr(),
        renderer.live[CHORD_TRACK_INDEX].voicing.voices.as_ptr()
    );
}

#[test]
fn replacing_an_instrument_resets_only_that_slots_runtime() {
    let project = Project::new();
    let mut renderer = engine(&project, 48_000);
    renderer.live[SYNTH_TRACK_START].synth.active = true;
    renderer.live[LEAD_TRACK_INDEX].synth.active = true;
    renderer.preview_activity[SYNTH_TRACK_START] = true;
    renderer.sequencer.tracks[SYNTH_TRACK_START].next_step = 7;

    let hat = renderer.project.tracks[2];
    let locks = ParameterLocks::new();
    renderer.live[0].drum.start_drum_voice(&hat, true, DrumRecipeSlot::One, &locks);
    renderer.preview[0].drum.start_drum_voice(&hat, true, DrumRecipeSlot::One, &locks);
    for _ in 0..32 {
        renderer.live[0].drum.next_noise();
        renderer.preview[0].drum.next_noise();
    }

    let mut changed = project;
    changed.tracks[0] = changed.tracks[1];
    changed.patterns[0].tracks[0].steps.fill(None);
    changed.tracks[SYNTH_TRACK_START] = Project::new().tracks[0];
    changed.patterns[0].tracks[SYNTH_TRACK_START].steps.fill(None);
    assert!(renderer.replace_project(PendingProject {
        project: Box::new(AudioProject::from_project(&changed)),
        smoothing: ParameterSmoothing::Default,
        pattern_map: PatternIndexMap::identity(),
        song_map: SongIndexMap::identity(),
    }));

    assert_eq!(
        renderer.project.tracks[SYNTH_TRACK_START].instrument_kind(),
        TrackKind::Kick
    );
    assert!(!renderer.live[SYNTH_TRACK_START].synth.active);
    assert!(!renderer.preview_activity[SYNTH_TRACK_START]);
    assert_eq!(renderer.sequencer.tracks[SYNTH_TRACK_START].next_step, 0);
    assert!(renderer.live[LEAD_TRACK_INDEX].synth.active);

    let snare = renderer.project.tracks[0];
    let mut expected_live = DrumVoice::new(0x1234_abcd);
    let mut expected_preview = DrumVoice::new(0x4a31_27dd);
    for voice in [
        &mut expected_live,
        &mut expected_preview,
        &mut renderer.live[0].drum,
        &mut renderer.preview[0].drum,
    ] {
        voice.start_drum_voice(&snare, true, DrumRecipeSlot::One, &locks);
    }
    assert_eq!(renderer.live[0].drum.hit, expected_live.hit);
    for _ in 0..32 {
        assert_eq!(renderer.live[0].drum.next_noise(), expected_live.next_noise());
        assert_eq!(renderer.preview[0].drum.next_noise(), expected_preview.next_noise());
    }
}

fn project_with_fm_note() -> Project {
    let mut project = Project::new();
    project.patterns[0].tracks[FM_TRACK_INDEX].steps[0] =
        Some(note(1, false, None, ArpeggioConfig::default(), ParameterLocks::new()));
    project
}

fn edit_fm_parameters(project: &mut Project) {
    let track = &mut project.tracks[FM_TRACK_INDEX];
    track.level = percent(31);
    track.delay_send = percent(32);
    track.reverb_send = percent(33);
    track.pan = percent(34);
    let Instrument::Fm(parameters) = &mut track.instrument else {
        unreachable!()
    };
    parameters.algorithm = FmAlgorithm::Pairs;
    parameters.operators[1].ratio = FmRatio::Four;
    parameters.operators[1].level = percent(81);
    parameters.operators[1].feedback = percent(67);
    parameters.brightness = percent(23);
    parameters.attack = percent(12);
    parameters.decay = percent(34);
    parameters.sustain = percent(56);
    parameters.release = percent(78);
}

fn assert_edited_fm_parameters(voice: &SynthVoice) {
    let controls = &voice.controls;
    assert_eq!(controls.fm_algorithm, FmAlgorithm::Pairs);
    assert_eq!(controls.fm_operators.second.ratio, FmRatio::Four);
    assert_eq!(controls.fm_operators.second.level.get(), 81);
    assert_eq!(controls.fm_operators.second.feedback.get(), 67);
    assert_eq!(controls.fm_brightness.get(), 23);
    assert_eq!(
        [
            controls.attack.get(),
            controls.decay.get(),
            controls.sustain.get(),
            controls.release.get(),
        ],
        [12, 34, 56, 78]
    );
    assert_eq!(controls.mix.level.get(), 31);
    assert_eq!(controls.mix.delay_send.get(), 32);
    assert_eq!(controls.mix.reverb_send.get(), 33);
    assert_eq!(voice.pan_position(), 340_000);
}

#[test]
fn live_fm_parameter_edits_refresh_sustaining_live_and_preview_voices() {
    let mut project = project_with_fm_note();
    let mut renderer = engine(&project, 8_000);
    renderer.boundary(0);
    renderer.audition_once(FM_TRACK_INDEX, 0);
    let live = renderer.live[FM_TRACK_INDEX].voicing.group * CHORD_GROUP_SIZE;
    let preview = renderer.preview[FM_TRACK_INDEX].voicing.group * CHORD_GROUP_SIZE;
    assert!(renderer.live[FM_TRACK_INDEX].voicing.voices[live].active);
    assert!(renderer.preview[FM_TRACK_INDEX].voicing.voices[preview].active);

    edit_fm_parameters(&mut project);
    renderer.handle(Audio::snapshot_with_smoothing(&project, ParameterSmoothing::Fader));
    assert_edited_fm_parameters(&renderer.live[FM_TRACK_INDEX].voicing.voices[live]);
    assert_edited_fm_parameters(&renderer.preview[FM_TRACK_INDEX].voicing.voices[preview]);

    let mut locks = ParameterLocks::new();
    assert!(locks.set(
        ParameterId::FmAlgorithm,
        ParameterValue::FmAlgorithm(FmAlgorithm::Additive),
    ));
    assert!(locks.set(ParameterId::FmOp2Level, ParameterValue::Percent(percent(17))));
    let trigger = SynthTrigger {
        degree: 1,
        octave: 3,
        accent: false,
        slide: false,
        chord_shape: None,
        arpeggio: ArpeggioConfig::default(),
    };
    for voice in [
        &mut renderer.live[FM_TRACK_INDEX].voicing.voices[live],
        &mut renderer.preview[FM_TRACK_INDEX].voicing.voices[preview],
    ] {
        configure_synth_voice(&renderer.project, FM_TRACK_INDEX, &trigger, &locks, voice);
    }
    let mut lock_edit = project.clone();
    let Instrument::Fm(parameters) = &mut lock_edit.tracks[FM_TRACK_INDEX].instrument else {
        unreachable!()
    };
    parameters.algorithm = FmAlgorithm::Cascade;
    parameters.operators[1].level = percent(99);
    renderer.handle(Audio::snapshot(&lock_edit));
    for voice in [
        &renderer.live[FM_TRACK_INDEX].voicing.voices[live],
        &renderer.preview[FM_TRACK_INDEX].voicing.voices[preview],
    ] {
        assert_eq!(voice.controls.fm_algorithm, FmAlgorithm::Additive);
        assert_eq!(voice.controls.fm_operators.second.level.get(), 17);
    }
}

#[test]
fn live_fm_parameter_edits_refresh_live_and_preview_release_tails() {
    let mut project = project_with_fm_note();
    let mut renderer = engine(&project, 8_000);
    renderer.boundary(0);
    renderer.audition_once(FM_TRACK_INDEX, 0);
    let live = renderer.live[FM_TRACK_INDEX].voicing.group * CHORD_GROUP_SIZE;
    let preview = renderer.preview[FM_TRACK_INDEX].voicing.group * CHORD_GROUP_SIZE;
    for voice in [
        &mut renderer.live[FM_TRACK_INDEX].voicing.voices[live],
        &mut renderer.preview[FM_TRACK_INDEX].voicing.voices[preview],
    ] {
        voice.gate_off();
        voice.active = false;
        assert_eq!(voice.stage, EnvStage::Release);
        assert!(!voice.is_idle());
    }

    edit_fm_parameters(&mut project);
    renderer.handle(Audio::snapshot_with_smoothing(&project, ParameterSmoothing::Fader));
    assert_edited_fm_parameters(&renderer.live[FM_TRACK_INDEX].voicing.voices[live]);
    assert_edited_fm_parameters(&renderer.preview[FM_TRACK_INDEX].voicing.voices[preview]);
}

#[test]
fn a_bass_slide_keeps_the_note_open() {
    let mut project = Project::new();
    let steps = &mut project.patterns[0].tracks[SYNTH_TRACK_START].steps;
    steps[0] = Some(bass(1, false, true, ParameterLocks::new()));
    steps[1] = Some(bass(8, false, false, ParameterLocks::new()));
    let mut renderer = engine(&project, 8_000);
    renderer.boundary(0);
    assert!(renderer.live[SYNTH_TRACK_START].synth.note.hard);
    renderer.boundary(0);
    let voice = renderer.live[SYNTH_TRACK_START].synth;
    assert!(!voice.note.hard);
    assert_eq!(voice.note.glide, Glide::BassSlide);
    assert_eq!(voice.note.midi, 60);
}

#[test]
fn an_action_touches_only_its_track() {
    let mut project = Project::new();
    for track in 0..4 {
        project.patterns[0].tracks[track].steps[0] = Some(hit(false, ParameterLocks::new()));
    }
    let mut renderer = engine(&project, 8_000);
    act(&mut renderer, 2, 0, false, true);
    let sounding: Vec<bool> = renderer.live.iter().map(|slot| slot.drum.sounding).collect();
    assert_eq!(
        sounding,
        vec![false, false, true, false, false, false, false, false, false, false]
    );
    assert!(renderer.preview.iter().all(|slot| !slot.drum.sounding));
}

#[test]
fn preview_activity_follows_the_auditioned_track() {
    let mut renderer = engine(&Project::new(), 48_000);
    for _ in 0..1_000 {
        frame(&mut renderer);
    }
    assert!(!renderer.preview_activity.iter().any(|active| *active));
    renderer.handle(AudioCommand::Audition { track: 0, step: 0 });
    frame(&mut renderer);
    frame(&mut renderer);
    assert!(renderer.preview_activity[0]);
    assert!(!renderer.preview_activity[1]);
    renderer.preview[0].drum.finish();
    frame(&mut renderer);
    assert!(!renderer.preview_activity[0]);
    let mut tails = [false; TRACK_COUNT];
    tails[0] = true;
    renderer.begin_frame(&tails);
    assert!(renderer.preview_activity[0]);
}

#[test]
fn an_audition_of_a_held_note_ends() {
    let mut project = Project::new();
    project.patterns[0].tracks[LEAD_TRACK_INDEX].steps[0] = None;
    let mut renderer = engine(&project, 8_000);
    renderer.audition_once(LEAD_TRACK_INDEX, 0);
    let remaining = renderer.preview[LEAD_TRACK_INDEX].synth.remaining;
    assert!(remaining > 0);
    for _ in 0..=remaining {
        frame(&mut renderer);
    }
    assert!(!renderer.preview[LEAD_TRACK_INDEX].synth.active);
    assert_eq!(renderer.preview[LEAD_TRACK_INDEX].synth.stage, EnvStage::Release);
}

#[test]
fn running_engines_keep_the_buffers_they_were_made_with() {
    let project = Project::new();
    let mut renderer = engine(&project, 8_000);
    let mut cues = Vec::with_capacity(CUE_ROOM);
    renderer.take_cues(&mut cues);
    let rooms = |renderer: &Renderer| {
        (
            renderer.ready.capacity(),
            renderer.ready_previews.capacity(),
            renderer.sequencer.scheduled.capacity(),
            renderer.sequencer.preview_scheduled.capacity(),
        )
    };
    let before = rooms(&renderer);
    for command in [AudioCommand::PlayPause, AudioCommand::Audition { track: 0, step: 0 }] {
        renderer.handle(command);
    }
    for _ in 0..8_000 {
        frame(&mut renderer);
        renderer.take_cues(&mut cues);
    }
    renderer.handle(AudioCommand::Stop);
    renderer.handle(Audio::snapshot(&project));
    assert_eq!(rooms(&renderer), before);
    assert!(cues.capacity() >= CUE_ROOM && renderer.cues.capacity() >= CUE_ROOM);
}

#[test]
fn fresh_voices_start_with_their_own_settings() {
    let renderer = engine(&Project::new(), 8_000);
    let slot = &renderer.live[SYNTH_TRACK_START];
    let controls = slot.synth.controls;
    assert_eq!(slot.drum.mix.pan.get(), 50);
    assert_eq!(controls.mix.pan.get(), 50);
    assert_eq!(controls.cutoff.get(), 65);
    assert_eq!(controls.resonance.get(), 10);
    assert_eq!(controls.filter_envelope.get(), 25);
    assert_eq!(controls.oscillator_mix.get(), 70);
    assert_eq!(controls.pulse_width.get(), 50);
    assert_eq!(controls.bass_decay.get(), 40);
    assert_eq!(controls.fm_brightness.get(), 72);
    assert_eq!(controls.keyboard_tracking.get(), 50);
    assert_eq!(controls.fm_operators.first.level.get(), 100);
    assert_eq!(controls.fm_operators.second.feedback.get(), 8);
}

#[test]
fn voices_of_a_pool_have_noise_of_their_own() {
    let mut pool = ChordVoicePool::new();
    let first = pool.voices[0].noise.next_sample();
    let second = pool.voices[1].noise.next_sample();
    assert_ne!(first, second);
    assert_eq!(first, SynthVoice::new_with_seed(0x91e1_0da5).noise.next_sample());
}

#[test]
fn stopping_lets_a_chord_fade() {
    let mut project = Project::new();
    project.patterns[0].tracks[CHORD_TRACK_INDEX].steps[0] = Some(StepEvent::Note {
        degree: 1,
        octave: 3,
        accent: false,
        chord_shape: None,
        arpeggio: ArpeggioConfig::default(),
        condition: TriggerCondition::Always,
        retrigger_count: 1,
        microtiming: Microtiming::zero(),
        locks: ParameterLocks::new(),
    });
    let mut renderer = engine(&project, 8_000);
    renderer.boundary(0);
    renderer.audition_once(CHORD_TRACK_INDEX, 0);
    let counts = renderer.live[CHORD_TRACK_INDEX].voicing.group_voice_counts;
    assert_ne!(counts, [0; 2]);
    renderer.handle(AudioCommand::Stop);
    for slot in [&renderer.live[CHORD_TRACK_INDEX], &renderer.preview[CHORD_TRACK_INDEX]] {
        let pool = &slot.voicing;
        assert!(!pool.active);
        assert_eq!(pool.group_voice_counts, counts);
        assert!(pool.voices.iter().all(|voice| !voice.active && voice.remaining == 0));
        let fading: Vec<bool> =
            pool.voices.iter().map(|voice| voice.stage == EnvStage::Release).collect();
        assert_eq!(fading.iter().filter(|fades| **fades).count(), 3);
    }
    frame(&mut renderer);
    assert!(renderer.preview_activity[CHORD_TRACK_INDEX]);
    for voice in &mut renderer.preview[CHORD_TRACK_INDEX].voicing.voices {
        voice.observe_envelope(true);
    }
    frame(&mut renderer);
    assert!(!renderer.preview_activity[CHORD_TRACK_INDEX]);
}

#[test]
fn the_end_of_a_take_is_delivered_from_the_callback() {
    let project = Project::new();
    let (retire, _retired) = RingBuffer::new(32);
    let (items, mut recorded) = RingBuffer::new(4);
    let mut renderer = Renderer::new_with_retirement(
        Box::new(AudioProject::from_project(&project)),
        8_000,
        retire,
        RecordingProducer::new(items),
    );
    let (mut producer, mut commands) = RingBuffer::new(8);
    producer.push(AudioCommand::StartRecording).unwrap();
    let mut edited = project.clone();
    edited.globals.tempo_bpm = 90;
    producer.push(Audio::snapshot(&edited)).unwrap();
    producer.push(AudioCommand::StopRecording).unwrap();
    renderer.drain_commands(&mut commands);
    assert_eq!(renderer.project.globals.tempo_bpm, 90);
    assert!(renderer.sequencer.status.recording_finalizing);
    assert_eq!(recorded.pop(), Ok(RecordingItem::End { overflowed: false }));
}
