//! What playback does: selections, boundaries, pauses, stops and edits.
use crate::audio::schedule::{fresh_clock, track_boundary, ClockModel};
use crate::audio::sequencer::{
    boundary_queue, clock_at, clock_followed, playhead_followed, shown, SequencerModel,
};
use crate::audio::snapshot::ProjectModel;
use crate::audio::status::StatusModel;
use crate::audio::transport::{StepClock, Transport};
use crate::model::index_map::{PatternIndexMap, SongIndexMap};
use crate::model::project::TRACK_COUNT;
use vstd::prelude::*;

verus! {

/// The status shows what plays and what is queued, and the mark for nothing
/// where nothing is.
pub proof fn status_shows_the_transport(status: StatusModel, transport: Transport)
    requires
        transport.active_pattern < 255,
        transport.active_song < 255,
        transport.queued_pattern matches Some(pattern) ==> pattern < 255,
        transport.queued_song matches Some(entry) ==> entry < 65535,
    ensures
        ({
            let next = shown(status, transport);
            &&& next.active_pattern == transport.active_pattern
            &&& next.song_mode == transport.song_mode
            &&& next.active_song == transport.active_song
            &&& next.song_bar == transport.song_bar
            &&& transport.queued_pattern matches Some(pattern) ==> next.queued_pattern == pattern
            &&& transport.queued_pattern is None ==> next.queued_pattern == 255
            &&& transport.queued_song matches Some(entry) ==> next.queued_song == entry
            &&& transport.queued_song is None ==> next.queued_song == 65535
            &&& next.running == status.running
            &&& next.paused == status.paused
            &&& next.playheads == status.playheads
        }),
{
}

/// Whatever changes the transport shows it: the status always mirrors what
/// plays and what is queued.
pub proof fn status_follows_every_change(sequencer: SequencerModel, transport: Transport)
    ensures
        sequencer.with_transport(transport).transport == transport,
        sequencer.with_transport(transport).mirrored(),
        sequencer.with_transport(transport).status.active_pattern == transport.active_pattern as u8,
        sequencer.with_transport(transport).tracks == sequencer.tracks,
        sequencer.with_transport(transport).scheduled == sequencer.scheduled,
        sequencer.with_transport(transport).clock == sequencer.clock,
{
}

/// A pattern that is selected while playback runs is queued, and nothing else
/// changes; otherwise it is entered at once, from its first step. One that the
/// project does not hold is ignored.
pub proof fn patterns_are_queued_while_playing(
    sequencer: SequencerModel,
    project: ProjectModel,
    pattern: u8,
    track: int,
)
    requires
        0 <= track < TRACK_COUNT,
    ensures
        ({
            let next = sequencer.pattern_selected(project, pattern);
            let held = pattern < project.patterns.len();
            let playing = sequencer.transport.playing;
            &&& !held ==> next == sequencer
            &&& held && playing ==> {
                &&& next.transport.queued_pattern == Some(pattern as usize)
                &&& next.transport.active_pattern == sequencer.transport.active_pattern
                &&& next.transport.queued_song == sequencer.transport.queued_song
                &&& next.transport.song_mode == sequencer.transport.song_mode
                &&& next.transport.active_song == sequencer.transport.active_song
                &&& next.transport.song_bar == sequencer.transport.song_bar
                &&& next.tracks == sequencer.tracks
                &&& next.scheduled == sequencer.scheduled
                &&& next.previews == sequencer.previews
                &&& next.clock == sequencer.clock
                &&& next.status.queued_pattern == pattern
            }
            &&& held && !playing ==> {
                &&& next.transport.active_pattern == pattern
                &&& next.transport.queued_pattern is None
                &&& next.transport.song_mode == sequencer.transport.song_mode
                &&& next.tracks[track] == fresh_clock(track)
                &&& next.clock == sequencer.clock
                &&& next.status.active_pattern == pattern
            }
            &&& next.transport.playing == playing
        }),
{
}

/// A song entry that is selected while playback runs is queued, and nothing
/// else changes; otherwise the song is entered there at once, or at its last
/// entry where it is shorter.
pub proof fn songs_are_queued_while_playing(
    sequencer: SequencerModel,
    project: ProjectModel,
    entry: u16,
    track: int,
)
    requires
        project.wf(),
        0 <= track < TRACK_COUNT,
    ensures
        ({
            let next = sequencer.song_selected(project, entry);
            let playing = sequencer.transport.playing;
            &&& playing ==> {
                &&& next.transport == (Transport {
                    queued_song: Some(entry as usize),
                    ..sequencer.transport
                })
                &&& next.tracks == sequencer.tracks
                &&& next.scheduled == sequencer.scheduled
                &&& next.previews == sequencer.previews
                &&& next.clock == sequencer.clock
                &&& next.status.queued_song == entry
            }
            &&& !playing ==> {
                &&& next.transport.song_mode
                &&& entry < project.song.len() ==> next.transport.active_song == entry
                &&& entry >= project.song.len() ==> next.transport.active_song
                    == project.song.len() - 1
                &&& next.transport.active_pattern + 1
                    == project.song[next.transport.active_song as int].pattern
                &&& next.transport.song_bar == 0
                &&& next.transport.queued_song is None
                &&& next.transport.queued_pattern is None
                &&& next.tracks[track] == fresh_clock(track)
                &&& next.clock == sequencer.clock
            }
            &&& next.transport.playing == playing
        }),
{
    assert(project.song[if entry < project.song.len() {
        entry as int
    } else {
        project.song.len() - 1
    }].wf(project.patterns.len()));
}

/// Rewinding starts every track over and empties both queues, and leaves the
/// transport and the step clock alone.
pub proof fn rewinding_starts_tracks_over(sequencer: SequencerModel, track: int, place: int)
    requires
        0 <= track < TRACK_COUNT,
        0 <= place < 24,
    ensures
        ({
            let next = sequencer.rewound();
            &&& next.tracks[track] == fresh_clock(track)
            &&& next.scheduled.len() == 96
            &&& next.scheduled[place] is None
            &&& next.scheduled[4 * place] is None
            &&& next.previews.len() == 24
            &&& next.previews[place] is None
            &&& next.transport == sequencer.transport
            &&& next.clock == sequencer.clock
            &&& next.status == sequencer.status
        }),
{
}

/// Every track crosses a boundary by itself: with its own clock, its own
/// sequence of the pattern that plays and its own settings, delayed by swing on
/// every second step, and starting nothing early that a change would cut off.
pub proof fn tracks_cross_boundaries_by_themselves(
    sequencer: SequencerModel,
    project: ProjectModel,
    global_step: usize,
    track: int,
)
    requires
        0 <= track < TRACK_COUNT,
        0 <= sequencer.tracks[track].next_step < 256,
    ensures
        ({
            let next = sequencer.tracks_advanced(project, global_step);
            let following = if global_step == usize::MAX {
                0
            } else {
                global_step + 1
            };
            let pattern = sequencer.transport.active_pattern as int;
            &&& next.tracks[track] == track_boundary(
                sequencer.tracks[track],
                project.patterns[pattern][track],
                project.tracks[track],
                track as u8,
                global_step % 2 == 1,
                sequencer.clock.rounded_step(),
                sequencer.transport.transition_due(project, following),
            ).clock
            &&& next.status.playheads[track] == sequencer.tracks[track].next_step
            &&& next.transport == sequencer.transport
            &&& next.clock == sequencer.clock
            &&& next.previews == sequencer.previews
        }),
{
}

/// What the tracks schedule at a boundary is queued track by track.
pub proof fn boundaries_queue_track_by_track(
    sequencer: SequencerModel,
    project: ProjectModel,
    odd: bool,
    step_samples: int,
    transition_next: bool,
    n: int,
)
    requires
        0 < n <= TRACK_COUNT,
    ensures
        ({
            let pattern = sequencer.transport.active_pattern as int;
            let before = boundary_queue(
                sequencer.scheduled,
                sequencer.tracks,
                project,
                pattern,
                odd,
                step_samples,
                transition_next,
                n - 1,
            );
            let after = boundary_queue(
                sequencer.scheduled,
                sequencer.tracks,
                project,
                pattern,
                odd,
                step_samples,
                transition_next,
                n,
            );
            &&& after == crate::audio::schedule::enqueued_all(
                before,
                track_boundary(
                    sequencer.tracks[n - 1],
                    project.patterns[pattern][n - 1],
                    project.tracks[n - 1],
                    (n - 1) as u8,
                    odd,
                    step_samples,
                    transition_next,
                ).actions,
            )
            &&& boundary_queue(
                sequencer.scheduled,
                sequencer.tracks,
                project,
                pattern,
                odd,
                step_samples,
                transition_next,
                0,
            ) == sequencer.scheduled
        }),
{
}

/// A bar line that starts a pattern starts every track over and drops what was
/// queued; any other leaves both alone. The transport changes as the bar line
/// says, and the status shows it.
pub proof fn bar_lines_rewind_what_they_start(
    sequencer: SequencerModel,
    project: ProjectModel,
    global_step: usize,
    track: int,
    place: int,
)
    requires
        0 <= track < TRACK_COUNT,
        0 <= place < 96,
    ensures
        ({
            let (next, change) = sequencer.bar_crossed(project, global_step);
            &&& (next.transport, change) == sequencer.transport.at_boundary(
                project,
                global_step as int,
            )
            &&& change is Enter ==> {
                &&& next.tracks[track] == fresh_clock(track)
                &&& next.scheduled[place] is None
            }
            &&& !(change is Enter) ==> {
                &&& next.tracks == sequencer.tracks
                &&& next.scheduled == sequencer.scheduled
                &&& next.previews == sequencer.previews
            }
            &&& next.status.active_pattern == next.transport.active_pattern as u8
            &&& next.status.song_mode == next.transport.song_mode
            &&& next.status.song_bar == next.transport.song_bar
            &&& next.clock == sequencer.clock
        }),
{
}

/// Play and pause take turns; going on after a pause restarts the timing of the
/// step, and nothing else of the sequence changes.
pub proof fn play_and_pause_take_turns(sequencer: SequencerModel)
    ensures
        ({
            let next = sequencer.toggled();
            &&& next.transport == (Transport {
                playing: !sequencer.transport.playing,
                ..sequencer.transport
            })
            &&& next.status.running == !sequencer.transport.playing
            &&& next.status.paused == sequencer.transport.playing
            &&& !sequencer.transport.playing && sequencer.status.paused ==> next.clock == (
            StepClock { countdown: 0, ..sequencer.clock })
            &&& sequencer.transport.playing || !sequencer.status.paused ==> next.clock
                == sequencer.clock
            &&& next.tracks == sequencer.tracks
            &&& next.scheduled == sequencer.scheduled
            &&& next.previews == sequencer.previews
        }),
{
}

/// A stop goes back to the first step of the first pattern, empties the queues
/// and shows no playhead.
pub proof fn stops_rewind_the_sequence(sequencer: SequencerModel, track: int, place: int)
    requires
        0 <= track < TRACK_COUNT,
        0 <= place < 96,
    ensures
        ({
            let next = sequencer.stopped();
            &&& !next.transport.playing
            &&& next.transport.active_pattern == 0
            &&& next.transport.active_song == 0
            &&& next.transport.queued_pattern is None
            &&& next.transport.queued_song is None
            &&& next.clock.next_step == 0
            &&& next.clock.countdown == 0
            &&& next.clock.tempo_bpm == sequencer.clock.tempo_bpm
            &&& next.tracks[track] == fresh_clock(track)
            &&& next.scheduled[place] is None
            &&& next.status.playheads[track] == 255
            &&& !next.status.running
            &&& !next.status.paused
            &&& next.status.active_pattern == 0
        }),
{
}

/// An edit leaves the place of a track where its sequence still has it, else it
/// starts over; what was scheduled ahead stays so only while the same event
/// waits in the same pattern. A new instrument starts the track over.
pub proof fn edits_keep_the_place_of_a_track(
    clock: ClockModel,
    before: ProjectModel,
    before_pattern: int,
    after: ProjectModel,
    after_pattern: int,
    track: int,
    armed: u8,
)
    requires
        before.wf(),
        after.wf(),
        0 <= before_pattern < before.patterns.len(),
        0 <= after_pattern < after.patterns.len(),
        0 <= track < TRACK_COUNT,
        armed < 64,
    ensures
        ({
            let next = clock_followed(
                clock,
                before,
                before_pattern,
                after,
                after_pattern,
                track,
            );
            let same = before.tracks[track].instrument.kind_of()
                == after.tracks[track].instrument.kind_of();
            let was = before.patterns[before_pattern][track].steps[armed as int];
            let is = after.patterns[after_pattern][track].steps[armed as int];
            &&& !same ==> next == fresh_clock(track)
            &&& same ==> {
                &&& clock.next_step < after.patterns[after_pattern][track].step_count
                    ==> next.next_step == clock.next_step
                &&& clock.next_step >= after.patterns[after_pattern][track].step_count
                    ==> next.next_step == 0
                &&& clock.early_armed is None ==> next.early_armed is None
                &&& clock.early_armed == Some(armed) && before_pattern == after_pattern && was == is
                    ==> next.early_armed == Some(armed)
                &&& clock.early_armed == Some(armed) && (before_pattern != after_pattern || was
                    != is) ==> next.early_armed is None
                &&& next.cycle_counts == clock.cycle_counts
                &&& next.condition_rng == clock.condition_rng
                &&& next.probability_rng == clock.probability_rng
            }
        }),
{
    assert(before.patterns[before_pattern][track].wf());
    assert(after.patterns[after_pattern][track].wf());
}

/// A playhead stays shown while its step exists and its track keeps its
/// instrument.
pub proof fn edits_keep_the_playheads(
    playhead: u8,
    before: ProjectModel,
    after: ProjectModel,
    after_pattern: int,
    track: int,
)
    ensures
        ({
            let next = playhead_followed(playhead, before, after, after_pattern, track);
            let same = before.tracks[track].instrument.kind_of()
                == after.tracks[track].instrument.kind_of();
            let exists_still = playhead < after.patterns[after_pattern][track].step_count;
            &&& same && exists_still ==> next == playhead
            &&& !same || !exists_still ==> next == 255
        }),
{
}

/// A change of tempo takes effect at once: the step that is counted goes on
/// from where it is, but never lasts longer than a whole step.
pub proof fn tempo_changes_take_effect_at_once(clock: StepClock, tempo_bpm: u16)
    ensures
        ({
            let next = clock_at(clock, tempo_bpm);
            &&& next.tempo_bpm == tempo_bpm
            &&& next.sample_rate == clock.sample_rate
            &&& next.next_step == clock.next_step
            &&& clock.countdown <= 15 * clock.sample_rate ==> next.countdown == clock.countdown
            &&& clock.countdown > 15 * clock.sample_rate ==> next.countdown == 15
                * clock.sample_rate
        }),
{
}

/// An edit brings the whole sequencer over: the transport by the index maps,
/// the clock to the new tempo, and every track, playhead and queue by what
/// became of its events.
pub proof fn edits_bring_the_sequencer_over(
    sequencer: SequencerModel,
    before: ProjectModel,
    after: ProjectModel,
    pattern_map: PatternIndexMap,
    song_map: SongIndexMap,
    track: int,
)
    requires
        0 <= track < TRACK_COUNT,
    ensures
        ({
            let next = sequencer.followed(before, after, pattern_map, song_map);
            let was = sequencer.transport.active_pattern as int;
            let is = next.transport.active_pattern as int;
            &&& next.transport == sequencer.transport.moved(after, pattern_map, song_map)
            &&& next.clock == clock_at(sequencer.clock, after.globals.tempo_bpm)
            &&& next.tracks[track] == clock_followed(
                sequencer.tracks[track],
                before,
                was,
                after,
                is,
                track,
            )
            &&& next.status.playheads[track] == playhead_followed(
                sequencer.status.playheads[track],
                before,
                after,
                is,
                track,
            )
            &&& next.status.active_pattern == next.transport.active_pattern as u8
            &&& next.status.running == sequencer.status.running
        }),
{
}

/// After an edit an action waits on exactly where its event is the same as
/// before, its track has kept its instrument, and its step still exists.
pub proof fn edits_keep_what_still_applies(
    sequencer: SequencerModel,
    before: ProjectModel,
    after: ProjectModel,
    pattern_map: PatternIndexMap,
    song_map: SongIndexMap,
    place: int,
)
    requires
        before.wf(),
        after.wf(),
        sequencer.transport.active_pattern < before.patterns.len(),
        0 <= place < sequencer.scheduled.len(),
        sequencer.scheduled[place] matches Some(action) ==> action.track < TRACK_COUNT
            && action.step < 64,
    ensures
        ({
            let next = sequencer.followed(before, after, pattern_map, song_map);
            let was = sequencer.transport.active_pattern as int;
            let is = next.transport.active_pattern as int;
            &&& sequencer.scheduled[place] is None ==> next.scheduled[place] is None
            &&& sequencer.scheduled[place] matches Some(action) ==> {
                let t = action.track as int;
                let s = action.step as int;
                let applies = before.patterns[was][t].steps[s] == after.patterns[is][t].steps[s]
                    && before.tracks[t].instrument.kind_of() == after.tracks[t].instrument.kind_of()
                    && s < after.patterns[is][t].step_count;
                &&& applies ==> next.scheduled[place] == Some(action)
                &&& !applies ==> next.scheduled[place] is None
            }
        }),
{
    let next = sequencer.followed(before, after, pattern_map, song_map);
    let was = sequencer.transport.active_pattern as int;
    let is = next.transport.active_pattern as int;
    crate::audio::laws::changes::edits_stay_in_the_project(
        sequencer.transport,
        after,
        pattern_map,
        song_map,
    );
    if let Some(action) = sequencer.scheduled[place] {
        assert(before.patterns[was][action.track as int].wf());
        assert(after.patterns[is][action.track as int].wf());
    }
}

} // verus!
