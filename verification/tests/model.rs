//! Parameters, locks, events and index maps.
use terminal_groove::audio::pool::chord_midis;
use terminal_groove::audio::slot::{beat_samples, phrase_samples};
use terminal_groove::audio::voice::{note_midi, voicing_pan_offset, Spread};
use terminal_groove::model::event::{
    effective_event_locks, synth_action, tie_source, ArpeggioConfig, ChordShape, GateAction,
    StepEvent, TriggerCondition,
};
use terminal_groove::model::index_map::{PatternIndexMap, SongIndexMap};
use terminal_groove::model::instrument::{
    DelayDivision, FmAlgorithm, LfoAssignments, LfoConfig, LfoDivision, LfoRate, LfoWaveform, Scale,
    Waveform,
};
use terminal_groove::model::parameter::{
    FmOperatorField, ParameterId, ParameterLocks, ParameterValue, PARAMETER_COUNT,
};
use terminal_groove::model::percent::{Microtiming, Percent};
use terminal_groove::model::project::Project;

fn percent(value: u8) -> Percent {
    Percent::new(value).unwrap()
}

#[test]
fn percents_and_offsets_have_limits() {
    assert_eq!(percent(100).get(), 100);
    assert_eq!(Percent::new(101), None);
    assert_eq!(Microtiming::new(-50).unwrap().get(), -50);
    assert_eq!(Microtiming::new(-51), None);
    assert_eq!(Microtiming::new(51), None);
}

#[test]
fn every_parameter_has_its_index() {
    for index in 0..PARAMETER_COUNT {
        assert_eq!(ParameterId::from_index(index).unwrap().index(), index);
    }
    assert_eq!(ParameterId::from_index(PARAMETER_COUNT), None);
    assert_eq!(
        ParameterId::fm_operator(1, FmOperatorField::Level),
        Some(ParameterId::FmOp2Level)
    );
    assert_eq!(ParameterId::fm_operator(4, FmOperatorField::Level), None);
}

#[test]
fn locks_accept_only_values_of_their_kind() {
    let mut locks = ParameterLocks::new();
    assert!(!locks.set(ParameterId::Waveform, ParameterValue::Percent(percent(3))));
    assert_eq!(locks.get(ParameterId::Waveform), None);
    assert!(locks.set(ParameterId::Waveform, ParameterValue::Waveform(Waveform::Square)));
    assert_eq!(locks.waveform(Waveform::Saw), Waveform::Square);
    let mut over = ParameterLocks::new();
    assert!(over.set(ParameterId::Level, ParameterValue::Percent(percent(9))));
    let merged = locks.overlay(&over);
    assert_eq!(merged.percent(ParameterId::Level), Some(percent(9)));
    assert_eq!(merged.waveform(Waveform::Saw), Waveform::Square);
    assert!(merged.same(&over.overlay(&locks)));
    assert_eq!(merged.percent_under(ParameterId::Pan, percent(50)), percent(50));
}

fn bass(locks: ParameterLocks) -> StepEvent {
    StepEvent::BassNote {
        degree: 1,
        octave: 3,
        accent: false,
        slide: false,
        condition: TriggerCondition::Always,
        retrigger_count: 1,
        microtiming: Microtiming::zero(),
        locks,
    }
}

#[test]
fn ties_reach_back_to_their_note() {
    let tie = Some(StepEvent::Tie { locks: ParameterLocks::new() });
    let steps = vec![tie, None, Some(bass(ParameterLocks::new())), tie];
    assert_eq!(tie_source(&steps, 4, 3), Some(2));
    assert_eq!(tie_source(&steps, 4, 0), Some(2));
    assert!(effective_event_locks(&steps, 4, 1).is_none());
    let alone = vec![tie, None];
    assert_eq!(tie_source(&alone, 2, 0), None);
    assert!(matches!(synth_action(&steps, 4, 3, true), GateAction::Hold));
    assert!(matches!(synth_action(&steps, 4, 3, false), GateAction::Trigger(_)));
    assert!(matches!(synth_action(&steps, 4, 1, true), GateAction::Release));
    assert!(matches!(synth_action(&alone, 2, 0, false), GateAction::Release));
}

#[test]
fn index_maps_follow_inserts_and_deletes() {
    let insert = PatternIndexMap::insert(0);
    assert_eq!([insert.rebase(0, 4), insert.rebase(1, 4)], [0, 2]);
    assert_eq!(insert.origin_of(1), None);
    assert_eq!(insert.origin_of(2), Some(1));
    let delete = PatternIndexMap::delete(1);
    assert_eq!([delete.rebase(0, 2), delete.rebase(2, 2)], [0, 1]);
    assert!(!delete.is_identity());
    assert!(SongIndexMap::delete(2).removes(2));
    assert!(!SongIndexMap::identity().removes(2));
}

#[test]
fn notes_follow_key_scale_and_octave() {
    let mut globals = Project::new().globals;
    assert_eq!(note_midi(&globals, 1, 3), 48);
    assert_eq!(note_midi(&globals, 3, 3), 52);
    globals.scale = Scale::Minor;
    assert_eq!(note_midi(&globals, 3, 3), 51);
    globals.key = 2;
    assert_eq!(note_midi(&globals, 8, 3), 62);
    let (midis, count) = chord_midis(&Project::new().globals, 1, 3, ChordShape::TriadFirst);
    assert_eq!((&midis[..count]).to_vec(), vec![52, 55, 60]);
}

#[test]
fn spreads_are_fixed_by_the_number_of_voices() {
    assert_eq!(voicing_pan_offset(1, 0), Spread::Center);
    assert_eq!(voicing_pan_offset(3, 1), Spread::Center);
    assert_eq!(voicing_pan_offset(4, 2), Spread::Right);
    assert_eq!(Spread::Left.offset(), -166_667);
}

#[test]
fn durations_follow_the_tempo() {
    assert_eq!(beat_samples(48_000, 120), 24_000);
    assert_eq!(beat_samples(44_100, 123), 21_512);
    assert_eq!(phrase_samples(48_000, 120, 2, 3), 18_000);
    assert_eq!(DelayDivision::Eighth.samples(120, 48_000), 12_000);
    assert_eq!(DelayDivision::DottedEighth.samples(120, 48_000), 18_000);
    assert_eq!(DelayDivision::Sixteenth.samples(120, 48_000), 6_000);
}

#[test]
fn algorithms_name_their_carriers() {
    assert_eq!(FmAlgorithm::Additive.carrier_count(), 4);
    assert!((0..4).all(|operator| FmAlgorithm::Additive.is_carrier(operator)));
    assert_eq!(FmAlgorithm::Cascade.carrier_count(), 1);
}

#[test]
fn lfos_are_off_until_they_are_assigned() {
    let lfos = LfoAssignments::new();
    assert!((0..PARAMETER_COUNT).all(|index| !lfos.is_enabled(index)));
    assert_eq!(lfos.get(ParameterId::Level), None);
    assert_eq!(ArpeggioConfig::default().enabled, false);
}

#[test]
fn running_lfos_are_listed_in_order() {
    let running = LfoConfig {
        enabled: true,
        waveform: LfoWaveform::Sine,
        reset_on_trigger: false,
        start_phase: percent(0),
        rate: LfoRate::Synced { division: LfoDivision::Quarter },
        depth: percent(50),
    };
    let mut lfos = LfoAssignments::new();
    let mut listed = vec![ParameterId::Cutoff];
    lfos.destinations(&mut listed);
    assert_eq!(listed, vec![]);
    lfos.set(ParameterId::Cutoff, Some(running));
    lfos.set(ParameterId::Level, Some(running));
    lfos.set(ParameterId::FmOp2Level, Some(LfoConfig { enabled: false, ..running }));
    let mut expected = vec![ParameterId::Cutoff, ParameterId::Level];
    expected.sort_by_key(|parameter| parameter.index());
    lfos.destinations(&mut listed);
    assert_eq!(listed, expected);
}
