//! What a snapshot holds of the project it was taken of.
use crate::audio::snapshot::{
    pattern_snapshot, project_snapshot, sequence_snapshot, track_snapshot, updated_snapshot,
    EditImpact, ProjectModel, SequenceModel,
};
use crate::model::event::ChordShape;
use crate::model::index_map::IndexEdit;
use crate::model::project::{Project, Sequence, Track, TRACK_COUNT};
use vstd::prelude::*;

verus! {

/// A snapshot of a track holds all that is heard of it, and for input the
/// tonic, the third octave, the triad on its root and no arpeggio where nothing
/// was chosen.
pub proof fn track_snapshots_hold_what_is_heard(track: Track)
    ensures
        ({
            let taken = track_snapshot(track);
            &&& taken.level == track.level
            &&& taken.pan == track.pan
            &&& taken.muted == track.muted
            &&& taken.delay_send == track.delay_send
            &&& taken.reverb_send == track.reverb_send
            &&& taken.swing == track.swing
            &&& taken.probability == track.probability
            &&& taken.instrument == track.instrument
            &&& taken.effects == track.effects
            &&& taken.lfos == track.lfos
            &&& taken.input_accent == track.input_accent
            &&& track.input_degree matches Some(degree) ==> taken.input_degree == degree
            &&& track.input_degree is None ==> taken.input_degree == 1
            &&& track.input_octave matches Some(octave) ==> taken.input_octave == octave
            &&& track.input_octave is None ==> taken.input_octave == 3
            &&& track.input_chord_shape matches Some(shape) ==> taken.input_chord_shape == shape
            &&& track.input_chord_shape is None ==> taken.input_chord_shape
                == ChordShape::TriadRoot
            &&& track.input_chord_arpeggio matches Some(arpeggio) ==> taken.input_chord_arpeggio
                == arpeggio
            &&& track.input_chord_arpeggio is None ==> !taken.input_chord_arpeggio.enabled
        }),
{
}

/// A snapshot of a sequence holds its steps in order and is empty behind them.
pub proof fn sequence_snapshots_hold_every_step(sequence: Sequence, step: int)
    requires
        sequence.steps@.len() <= 64,
        0 <= step < 64,
    ensures
        ({
            let taken = sequence_snapshot(sequence);
            &&& taken.steps.len() == 64
            &&& taken.step_count == sequence.steps@.len()
            &&& step < sequence.steps@.len() ==> taken.steps[step] == sequence.steps@[step]
            &&& step >= sequence.steps@.len() ==> taken.steps[step] is None
        }),
{
}

/// A snapshot of a project holds its globals and its song as they are, and
/// every track, pattern and sequence in its place.
pub proof fn project_snapshots_hold_everything(project: Project, track: int, pattern: int)
    requires
        0 <= track < TRACK_COUNT,
        0 <= pattern < project.patterns@.len(),
    ensures
        ({
            let taken = project_snapshot(project);
            &&& taken.globals == project.globals
            &&& taken.song == project.song@
            &&& taken.tracks.len() == 10
            &&& taken.tracks[track] == track_snapshot(project.tracks@[track])
            &&& taken.patterns.len() == project.patterns@.len()
            &&& taken.patterns[pattern].len() == 10
            &&& taken.patterns[pattern][track] == sequence_snapshot(
                project.patterns@[pattern].tracks@[track],
            )
        }),
{
}

/// A sequence loops through its first steps, as many as it has.
pub proof fn sequences_loop_through_their_steps(sequence: SequenceModel, step: int)
    requires
        0 <= step < sequence.step_count <= sequence.steps.len(),
    ensures
        sequence.cycle().len() == sequence.step_count,
        sequence.cycle()[step] == sequence.steps[step],
{
}

/// An update takes anew every track that the edit touched and keeps the others;
/// the globals and the song are always taken anew.
pub proof fn updates_take_touched_tracks_anew(
    base: ProjectModel,
    project: Project,
    impact: EditImpact,
    edit: IndexEdit,
    track: int,
)
    requires
        0 <= track < TRACK_COUNT,
    ensures
        ({
            let taken = updated_snapshot(base, project, impact, edit);
            let touched = (impact.tracks >> (track as u16)) & 1u16 == 1u16;
            &&& touched ==> taken.tracks[track] == track_snapshot(project.tracks@[track])
            &&& !touched ==> taken.tracks[track] == base.tracks[track]
            &&& taken.tracks.len() == 10
            &&& taken.globals == project.globals
            &&& taken.song == project.song@
            &&& taken.patterns.len() == project.patterns@.len()
        }),
{
}

/// An update takes anew every pattern that the edit touched or brought, and
/// keeps the others under the indices that the edit gave them; where patterns
/// came or went in a way that no index tells, all are taken anew.
pub proof fn updates_take_touched_patterns_anew(
    base: ProjectModel,
    project: Project,
    impact: EditImpact,
    edit: IndexEdit,
    pattern: int,
    touch: int,
)
    requires
        0 <= pattern < project.patterns@.len(),
        0 <= touch < impact.sequences@.len() || impact.sequences@.len() == 0,
    ensures
        ({
            let taken = updated_snapshot(base, project, impact, edit).patterns[pattern];
            let anew = pattern_snapshot(project.patterns@[pattern]);
            let untouched = forall|i: int|
                0 <= i < impact.sequences@.len() ==> (#[trigger] impact.sequences@[i]).0 != pattern;
            let known = untouched && !(impact.patterns_structural && edit is Identity);
            &&& 0 <= touch < impact.sequences@.len() && impact.sequences@[touch].0 == pattern
                ==> taken == anew
            &&& impact.patterns_structural && edit is Identity ==> taken == anew
            &&& known && edit is Identity && pattern < base.patterns.len() ==> taken
                == base.patterns[pattern]
            &&& known && pattern >= base.patterns.len() && edit is Identity ==> taken == anew
            &&& edit matches IndexEdit::Insert { after } ==> {
                &&& pattern == after + 1 ==> taken == anew
                &&& known && pattern <= after && pattern < base.patterns.len() ==> taken
                    == base.patterns[pattern]
                &&& known && pattern > after + 1 && pattern - 1 < base.patterns.len() ==> taken
                    == base.patterns[pattern - 1]
            }
            &&& edit matches IndexEdit::Delete { at } ==> {
                &&& known && pattern < at && pattern < base.patterns.len() ==> taken
                    == base.patterns[pattern]
                &&& known && pattern >= at && pattern + 1 < base.patterns.len() ==> taken
                    == base.patterns[pattern + 1]
            }
        }),
{
    if 0 <= touch < impact.sequences@.len() && impact.sequences@[touch].0 == pattern {
        assert(impact.touches_pattern(pattern));
    }
}

/// Each track has a bit of its own in the impact of an edit: one that sets the
/// bit of a track alone touches that track and no other.
pub proof fn impacts_name_tracks_by_bit(impact: EditImpact, track: u16, other: u16)
    requires
        track < 16,
        other < 16,
        impact.tracks == 1u16 << track,
    ensures
        impact.touches_track(other as int) <==> track == other,
{
    assert((1u16 << track) >> other & 1u16 == 1u16 <==> track == other) by (bit_vector)
        requires
            track < 16,
            other < 16,
    ;
}

/// An event is looked up in its pattern, track and step; where there is none of
/// these there is no event.
pub proof fn events_are_looked_up_in_their_place(
    project: ProjectModel,
    pattern: int,
    track: int,
    step: int,
)
    ensures
        ({
            let present = 0 <= pattern < project.patterns.len() && 0 <= track
                < project.patterns[pattern].len() && 0 <= step
                < project.patterns[pattern][track].steps.len();
            &&& present ==> project.event(pattern, track, step)
                == project.patterns[pattern][track].steps[step]
            &&& !present ==> project.event(pattern, track, step) is None
        }),
{
}

} // verus!
