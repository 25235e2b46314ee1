//! What the engine does with commands, frames, auditions and new projects.
use crate::audio::command::{CommandModel, Replacement};
use crate::audio::cue::Cue;
use crate::audio::recording::RecordingItem;
use crate::audio::renderer::{
    arpeggio_cues, default_smoothing, lfo_cues, mute_smoothing, refresh_all_cues, reset_cues,
    DrainState, RendererModel,
};
use crate::audio::schedule::{hit_count, PreviewAction, ScheduledTrackAction};
use crate::audio::sequencer::{
    audition_hits, changed_kinds, due_previews, no_previews, previews_counted_down, SequencerModel,
};
use crate::audio::snapshot::ProjectModel;
use crate::audio::transport::BarChange;
use crate::model::parameter::PARAMETER_COUNT;
use crate::model::project::TRACK_COUNT;
use vstd::prelude::*;

verus! {

/// Each command does what it says: play and pause take turns, stop stops, a
/// selection selects, and an audition is heard.
pub proof fn commands_do_what_they_say(
    engine: RendererModel,
    pattern: u8,
    entry: u16,
    track: u8,
    step: u8,
)
    ensures
        engine.obeyed(CommandModel::PlayPause) == engine.toggled(),
        engine.obeyed(CommandModel::Stop) == engine.stopped(),
        engine.obeyed(CommandModel::SelectPattern { pattern }).sequencer
            == engine.sequencer.pattern_selected(engine.project, pattern),
        engine.obeyed(CommandModel::SelectPattern { pattern }).live == engine.live,
        engine.obeyed(CommandModel::SelectSong { entry }).sequencer
            == engine.sequencer.song_selected(engine.project, entry),
        engine.obeyed(CommandModel::SelectSong { entry }).live == engine.live,
        engine.obeyed(CommandModel::Audition { track, step }) == engine.auditioned(track, step),
{
}

/// Pausing lets go of every note of the sequence and leaves auditions; going on
/// touches no voice.
pub proof fn pauses_let_go_of_the_sequence(engine: RendererModel, track: int)
    requires
        engine.wf(),
        0 <= track < TRACK_COUNT,
    ensures
        ({
            let next = engine.toggled();
            &&& next.sequencer == engine.sequencer.toggled()
            &&& next.playing() == !engine.playing()
            &&& engine.playing() ==> next.live[track] == engine.live[track].paused()
            &&& !engine.playing() ==> next.live == engine.live
            &&& next.preview == engine.preview
            &&& next.cues == engine.cues
            &&& next.project == engine.project
        }),
{
    reveal(RendererModel::toggled);
}

/// A stop stops the sequence and every voice, of the sequence and of auditions,
/// and has every tail cut.
pub proof fn stops_end_everything(engine: RendererModel, track: int)
    requires
        engine.wf(),
        0 <= track < TRACK_COUNT,
    ensures
        ({
            let next = engine.stopped();
            &&& next.sequencer == engine.sequencer.stopped()
            &&& next.live[track] == engine.live[track].stopped(engine.project.tracks[track])
            &&& next.preview[track] == engine.preview[track].stopped(engine.project.tracks[track])
            &&& !next.preview_activity[track]
            &&& next.cues == engine.cues.push(Cue::Clear)
            &&& next.project == engine.project
            &&& next.recording == engine.recording
        }),
{
    reveal(RendererModel::stopped);
}

/// An action acts on the voices of its own track, with the step it names and as
/// far as it may sound, and is announced behind what was announced before.
pub proof fn actions_act_on_their_track(engine: RendererModel, action: ScheduledTrackAction)
    requires
        engine.wf(),
        action.track < TRACK_COUNT,
    ensures
        ({
            let t = action.track as int;
            let next = engine.acted(action);
            &&& next.live[t] == engine.live[t].acted(
                engine.project,
                engine.sequencer.transport.active_pattern as int,
                t,
                action.step as int,
                action.retrigger,
                action.trigger_allowed,
            )
            &&& next.cues.len() >= engine.cues.len()
            &&& next.cues.take(engine.cues.len() as int) == engine.cues
            &&& next.cues.skip(engine.cues.len() as int) == engine.live[t].action_cues(
                engine.project,
                engine.sequencer.transport.active_pattern as int,
                t,
                action.step as int,
                action.retrigger,
                action.trigger_allowed,
                default_smoothing(engine.sample_rate),
            )
        }),
{
    let next = engine.acted(action);
    assert(next.cues.take(engine.cues.len() as int) =~= engine.cues);
    assert(next.cues.skip(engine.cues.len() as int) =~= engine.live[action.track as int].action_cues(
        engine.project,
        engine.pattern(),
        action.track as int,
        action.step as int,
        action.retrigger,
        action.trigger_allowed,
        default_smoothing(engine.sample_rate),
    ));
}

/// Actions that fall due together are carried out one after the other.
pub proof fn due_actions_are_carried_out_in_order(
    engine: RendererModel,
    actions: Seq<ScheduledTrackAction>,
    last: ScheduledTrackAction,
)
    ensures
        engine.all_acted(Seq::<ScheduledTrackAction>::empty()) == engine,
        engine.all_acted(actions.push(last)) == engine.all_acted(actions).acted(last),
{
    assert(actions.push(last).drop_last() =~= actions);
}

/// With every sample what is queued comes nearer, and what falls due is carried
/// out.
pub proof fn queues_are_carried_out(engine: RendererModel)
    ensures
        engine.queue_advanced() == (RendererModel {
            sequencer: engine.sequencer.queue_advanced(engine.project),
            ..engine
        }).all_acted(engine.sequencer.due(engine.project)),
        engine.sequencer.queue_advanced(engine.project).tracks == engine.sequencer.tracks,
        engine.sequencer.queue_advanced(engine.project).transport == engine.sequencer.transport,
        engine.sequencer.queue_advanced(engine.project).clock == engine.sequencer.clock,
        engine.sequencer.queue_advanced(engine.project).previews == engine.sequencer.previews,
{
}

/// An audition is heard on the preview voices of its track and nowhere else,
/// and never touches the sequence; one that names no step is ignored.
pub proof fn auditions_touch_only_previews(
    engine: RendererModel,
    track: int,
    step: int,
    other: int,
)
    requires
        engine.wf(),
        0 <= other < TRACK_COUNT,
        other != track,
    ensures
        ({
            let next = engine.auditioned_once(track, step);
            let pattern = engine.sequencer.transport.active_pattern as int;
            let named = 0 <= track < 10 && 0 <= step
                < engine.project.patterns[pattern][track].step_count;
            &&& !named ==> next == engine
            &&& named ==> next.preview[track] == engine.preview[track].auditioned(
                engine.project,
                pattern,
                track,
                step,
                engine.sample_rate as int,
            )
            &&& next.preview[other] == engine.preview[other]
            &&& next.live == engine.live
            &&& next.sequencer == engine.sequencer
            &&& next.project == engine.project
        }),
{
}

/// An audition replaces the one before it: its oscillators start over, its
/// first hit sounds at once, and its retriggers alone are queued.
pub proof fn auditions_replace_each_other(engine: RendererModel, track: u8, step: u8)
    requires
        engine.wf(),
        track < TRACK_COUNT,
        step < engine.project.patterns[engine.sequencer.transport.active_pattern as int][
            track as int].step_count,
    ensures
        ({
            let pattern = engine.sequencer.transport.active_pattern as int;
            let next = engine.auditioned(track, step);
            &&& next.preview[track as int] == engine.preview[track as int].auditioned(
                engine.project,
                pattern,
                track as int,
                step as int,
                engine.sample_rate as int,
            )
            &&& next.sequencer.previews == crate::audio::schedule::enqueued_all(
                no_previews(),
                audition_hits(
                    track,
                    step,
                    hit_count(engine.project.patterns[pattern][track as int].steps[step as int]),
                    engine.sequencer.clock.rounded_step(),
                ),
            )
            &&& next.cues.len() > engine.cues.len()
            &&& next.cues[engine.cues.len() as int] == (Cue::ResetPreviewLfos { track })
            &&& next.live == engine.live
            &&& next.sequencer.tracks == engine.sequencer.tracks
            &&& next.sequencer.transport == engine.sequencer.transport
            &&& next.sequencer.scheduled == engine.sequencer.scheduled
        }),
{
    reveal(RendererModel::auditioned);
}

/// A boundary first crosses the bar line and then lets every track on; a song
/// that is over stops instead. Notes are released only where a pattern starts
/// that asks for it.
pub proof fn boundaries_cross_the_bar_first(engine: RendererModel, global_step: usize)
    ensures
        ({
            let (sequencer, change) = engine.sequencer.bar_crossed(engine.project, global_step);
            let crossed = RendererModel { sequencer, ..engine };
            let next = engine.at_boundary(global_step);
            &&& change == BarChange::Finish ==> next == crossed.stopped()
            &&& change == BarChange::Continue ==> next == crossed.tracks_advanced(
                global_step,
            ).queue_advanced()
            &&& change == (BarChange::Enter { release: false }) ==> next == crossed.tracks_advanced(
                global_step,
            ).queue_advanced()
            &&& change == (BarChange::Enter { release: true }) ==> next == crossed.relaxed().tracks_advanced(
                global_step,
            ).queue_advanced()
            &&& crossed.relaxed().sequencer == sequencer
            &&& crossed.relaxed().preview == engine.preview
            &&& crossed.tracks_advanced(global_step).sequencer == sequencer.tracks_advanced(
                engine.project,
                global_step,
            )
            &&& crossed.tracks_advanced(global_step).live == engine.live
        }),
{
}

/// Releasing for a new pattern lets go of every track of the sequence.
pub proof fn new_patterns_release_every_track(engine: RendererModel, track: int)
    requires
        engine.wf(),
        0 <= track < TRACK_COUNT,
    ensures
        engine.relaxed().live[track] == engine.live[track].relaxed(),
{
}

/// A boundary is crossed on exactly those samples on which the clock has less
/// than one sample left.
pub proof fn boundaries_come_with_the_clock(engine: RendererModel)
    ensures
        ({
            let clock = engine.sequencer.clock;
            let next = engine.clock_ticked();
            &&& clock.countdown >= clock.tempo_bpm ==> {
                &&& next.sequencer.clock == clock.ticked()
                &&& next.sequencer.tracks == engine.sequencer.tracks
                &&& next.live == engine.live
                &&& next.cues == engine.cues
            }
            &&& clock.countdown < clock.tempo_bpm ==> exists|ticked: RendererModel|
                ticked.sequencer.clock == clock.ticked() && ticked.sequencer.tracks
                    == engine.sequencer.tracks && ticked.live == engine.live && next
                    == #[trigger] ticked.at_boundary(clock.next_step)
        }),
{
    let clock = engine.sequencer.clock;
    let ticked = RendererModel {
        sequencer: SequencerModel {
            clock: clock.ticked(),
            ..engine.sequencer
        },
        ..engine
    };
    if clock.countdown < clock.tempo_bpm {
        assert(engine.clock_ticked() == ticked.at_boundary(clock.next_step));
    }
}

/// A track is active in auditions while its voices are busy, its effects ring
/// or a hit still waits.
pub proof fn auditions_are_active_while_heard(
    engine: RendererModel,
    tails: Seq<bool>,
    track: int,
    place: int,
)
    requires
        0 <= track < TRACK_COUNT,
        0 <= place < engine.sequencer.previews.len(),
    ensures
        ({
            let active = engine.activity_refreshed(tails).preview_activity[track];
            &&& engine.preview[track].busy(engine.project.tracks[track]) ==> active
            &&& tails[track] ==> active
            &&& engine.sequencer.previews[place] matches Some(action) ==> action.track == track
                ==> active
            &&& !engine.preview[track].busy(engine.project.tracks[track]) && !tails[track] && (
            forall|i: int|
                0 <= i < engine.sequencer.previews.len() && (
                #[trigger] engine.sequencer.previews[i]) is Some
                    ==> engine.sequencer.previews[i]->0.track != track) ==> !active
        }),
{
    if let Some(action) = engine.sequencer.previews[place] {
        assert(crate::audio::renderer::auditions(engine.sequencer.previews[place], action.track as int));
    }
}

/// A frame lets the arpeggios of the sequence and of auditions on and counts
/// every gate; an audition that is not heard counts none.
pub proof fn frames_advance_arpeggios_and_gates(
    engine: RendererModel,
    live_due: Seq<bool>,
    preview_due: Seq<bool>,
    track: int,
)
    requires
        engine.wf(),
        0 <= track < TRACK_COUNT,
    ensures
        ({
            let next = engine.frame_finished(live_due, preview_due);
            let settings = engine.project.tracks[track];
            let live = engine.live[track].arpeggio_advanced(
                engine.project,
                track,
                false,
                live_due[track],
            );
            let preview = engine.preview[track].arpeggio_advanced(
                engine.project,
                track,
                true,
                preview_due[track],
            );
            &&& next.live[track] == live.gates_advanced(settings)
            &&& engine.preview_activity[track] ==> next.preview[track] == preview.gates_advanced(
                settings,
            )
            &&& !engine.preview_activity[track] ==> next.preview[track] == preview
            &&& next.sequencer == engine.sequencer
            &&& next.project == engine.project
        }),
{
}

/// A frame first takes stock of the auditions and plays their hits; while
/// playback runs the clock then ticks, and what is queued comes nearer unless
/// that ended the song.
pub proof fn frames_begin_in_order(engine: RendererModel, tails: Seq<bool>)
    ensures
        ({
            let previewed = engine.activity_refreshed(tails).previews_advanced();
            let ticked = previewed.clock_ticked();
            &&& !previewed.playing() ==> engine.frame_begun(tails) == previewed
            &&& previewed.playing() && ticked.playing() ==> engine.frame_begun(tails)
                == ticked.queue_advanced()
            &&& previewed.playing() && !ticked.playing() ==> engine.frame_begun(tails) == ticked
        }),
{
}

/// The hits of auditions that fall due are played in their order.
pub proof fn due_auditions_are_played_in_order(
    engine: RendererModel,
    actions: Seq<PreviewAction>,
    last: PreviewAction,
)
    ensures
        engine.previews_auditioned(Seq::<PreviewAction>::empty()) == engine,
        engine.previews_auditioned(actions.push(last)) == engine.previews_auditioned(
            actions,
        ).auditioned_once(last.track as int, last.step as int),
        engine.previews_advanced() == (RendererModel {
            sequencer: SequencerModel {
                previews: previews_counted_down(engine.sequencer.previews),
                ..engine.sequencer
            },
            ..engine
        }).previews_auditioned(due_previews(engine.sequencer.previews, 24)),
{
    assert(actions.push(last).drop_last() =~= actions);
}

/// An edit is announced track by track, the sequence before auditions, and
/// reaches every voice of both.
pub proof fn edits_are_announced_track_by_track(
    engine: RendererModel,
    smoothing: u32,
    track: int,
)
    requires
        engine.wf(),
        0 <= track < TRACK_COUNT,
    ensures
        refresh_all_cues(engine.live, engine.preview, engine.project, smoothing, track + 1)
            == refresh_all_cues(engine.live, engine.preview, engine.project, smoothing, track)
            + engine.live[track].refresh_cues(
            engine.project.tracks[track],
            track,
            false,
            smoothing,
        ) + engine.preview[track].refresh_cues(
            engine.project.tracks[track],
            track,
            true,
            smoothing,
        ),
        refresh_all_cues(engine.live, engine.preview, engine.project, smoothing, 0).len() == 0,
        engine.refreshed(smoothing).live[track] == engine.live[track].refreshed(
            engine.project.tracks[track],
        ),
        engine.refreshed(smoothing).preview[track] == engine.preview[track].refreshed(
            engine.project.tracks[track],
        ),
        engine.refreshed(smoothing).cues == engine.cues + refresh_all_cues(
            engine.live,
            engine.preview,
            engine.project,
            smoothing,
            10,
        ),
{
}

/// The tones of arpeggios are announced track by track, those of the sequence
/// before those of auditions.
pub proof fn arpeggios_are_announced_track_by_track(
    engine: RendererModel,
    live_due: Seq<bool>,
    preview_due: Seq<bool>,
    track: int,
)
    requires
        0 <= track < TRACK_COUNT,
    ensures
        arpeggio_cues(engine.live, engine.project, false, live_due, track + 1) == arpeggio_cues(
            engine.live,
            engine.project,
            false,
            live_due,
            track,
        ) + engine.live[track].arpeggio_cues(engine.project, track, false, live_due[track]),
        arpeggio_cues(engine.live, engine.project, false, live_due, 0).len() == 0,
        engine.frame_finished(live_due, preview_due).cues == engine.cues + arpeggio_cues(
            engine.live,
            engine.project,
            false,
            live_due,
            10,
        ) + arpeggio_cues(engine.preview, engine.project, true, preview_due, 10),
{
}

/// A project that waits is received before anything else; a held edit is
/// received when something else comes, or retired unplayed for a newer one.
pub proof fn waiting_projects_come_first(engine: RendererModel, held: Replacement)
    ensures
        engine.pending matches Some(next) ==> engine.unblocked() == (RendererModel {
            pending: None,
            ..engine
        }).received(next),
        engine.pending is None ==> engine.unblocked() == engine,
        engine.pending is Some ==> engine.share() == 7,
        engine.pending is None ==> engine.share() == 8,
        (DrainState { engine, held: None }).settled() == engine,
        (DrainState { engine, held: Some(held) }).settled() == engine.received(held),
        (DrainState { engine, held: Some(held) }).skipped() == (RendererModel {
            retired: engine.retired.push(held.project),
            ..engine
        }),
{
}

/// Only an edit that moves nothing may give way to a newer one: nothing else
/// that is sent is ever skipped.
pub proof fn only_edits_in_place_give_way(command: CommandModel)
    ensures
        command.coalescible() <==> (command is ReplaceProject && (
        command->ReplaceProject_0).pattern_map.edit is Identity && (
        command->ReplaceProject_0).song_map.edit is Identity),
{
}

/// A project that takes over is played at once and the one before it handed
/// back; a project that cannot be played is handed back itself and changes
/// nothing.
pub proof fn projects_are_swapped_whole(engine: RendererModel, next: Replacement)
    ensures
        ({
            let after = engine.received(next);
            &&& next.project.wf() ==> {
                &&& after.project == next.project
                &&& after.retired == engine.retired.push(engine.project)
                &&& after.sequencer == engine.sequencer.followed(
                    engine.project,
                    next.project,
                    next.pattern_map,
                    next.song_map,
                )
            }
            &&& !next.project.wf() ==> {
                &&& after.project == engine.project
                &&& after.retired == engine.retired.push(next.project)
                &&& after.sequencer == engine.sequencer
                &&& after.live == engine.live
                &&& after.preview == engine.preview
                &&& after.cues == engine.cues
            }
            &&& after.pending == engine.pending
            &&& after.recording == engine.recording
            &&& after.sample_rate == engine.sample_rate
            &&& engine.deferred(next).pending == Some(next)
            &&& engine.deferred(next).project == engine.project
            &&& engine.deferred(next).sequencer == engine.sequencer
            &&& engine.deferred(next).live == engine.live
        }),
{
    reveal(RendererModel::replaced);
}

/// An audition goes on under an edit unless its track gets another instrument.
pub proof fn edits_keep_auditions(engine: RendererModel, next: Replacement, track: int)
    requires
        engine.wf(),
        next.project.wf(),
        0 <= track < TRACK_COUNT,
    ensures
        ({
            let same = engine.project.tracks[track].instrument.kind_of()
                == next.project.tracks[track].instrument.kind_of();
            let after = engine.received(next);
            &&& same ==> after.preview_activity[track] == engine.preview_activity[track]
            &&& !same ==> !after.preview_activity[track]
        }),
{
    reveal(RendererModel::replaced);
}

proof fn oscillator_cues_tell_of_switches(
    before: ProjectModel,
    after: ProjectModel,
    n: int,
    track: int,
    parameter: int,
)
    requires
        0 <= n <= TRACK_COUNT * PARAMETER_COUNT,
        0 <= track < TRACK_COUNT,
        0 <= parameter < PARAMETER_COUNT,
    ensures
        ({
            let cues = lfo_cues(before, after, n);
            let ran = before.tracks[track].lfos.enabled_at(parameter);
            let runs = after.tracks[track].lfos.enabled_at(parameter);
            let told = track * PARAMETER_COUNT + parameter < n;
            &&& cues.contains(
                Cue::ResetLfo { track: track as u8, parameter: parameter as u8 },
            ) <==> told && !ran && runs
            &&& cues.contains(
                Cue::DisableLfo { track: track as u8, parameter: parameter as u8 },
            ) <==> told && ran && !runs
        }),
    decreases n,
{
    if n > 0 {
        oscillator_cues_tell_of_switches(before, after, n - 1, track, parameter);
        let at = (n - 1) / (PARAMETER_COUNT as int);
        let under = (n - 1) % (PARAMETER_COUNT as int);
        assert(0 <= at < TRACK_COUNT && 0 <= under < PARAMETER_COUNT && n - 1 == at
            * PARAMETER_COUNT + under);
        let rest = lfo_cues(before, after, n - 1);
        let cues = lfo_cues(before, after, n);
        let reset = Cue::ResetLfo { track: track as u8, parameter: parameter as u8 };
        let disabled = Cue::DisableLfo { track: track as u8, parameter: parameter as u8 };
        if cues != rest {
            let last = cues.last();
            assert(cues == rest.push(last));
            assert(cues[rest.len() as int] == last);
            pushing_contains(rest, last, reset);
            pushing_contains(rest, last, disabled);
        }
    }
}

proof fn pushing_contains(rest: Seq<Cue>, last: Cue, cue: Cue)
    ensures
        rest.push(last).contains(cue) <==> rest.contains(cue) || last == cue,
{
    let all = rest.push(last);
    if rest.contains(cue) {
        let k = choose|k: int| 0 <= k < rest.len() && rest[k] == cue;
        assert(all[k] == cue);
    }
    if last == cue {
        assert(all[rest.len() as int] == cue);
    }
    if all.contains(cue) && last != cue {
        let k = choose|k: int| 0 <= k < all.len() && all[k] == cue;
        assert(rest[k] == cue);
    }
}

/// The sound engine is told of exactly those oscillators that an edit switches
/// on, and of exactly those that it switches off.
pub proof fn switched_oscillators_are_announced(
    before: ProjectModel,
    after: ProjectModel,
    track: int,
    parameter: int,
)
    requires
        0 <= track < TRACK_COUNT,
        0 <= parameter < PARAMETER_COUNT,
    ensures
        ({
            let cues = lfo_cues(before, after, TRACK_COUNT * PARAMETER_COUNT);
            let old_config = before.tracks[track].lfos@[parameter];
            let new_config = after.tracks[track].lfos@[parameter];
            let ran = old_config is Some && old_config->0.enabled;
            let runs = new_config is Some && new_config->0.enabled;
            &&& cues.contains(
                Cue::ResetLfo { track: track as u8, parameter: parameter as u8 },
            ) <==> !ran && runs
            &&& cues.contains(
                Cue::DisableLfo { track: track as u8, parameter: parameter as u8 },
            ) <==> ran && !runs
        }),
{
    oscillator_cues_tell_of_switches(
        before,
        after,
        TRACK_COUNT * PARAMETER_COUNT,
        track,
        parameter,
    );
}

proof fn reset_cues_tell_of_changes(changed: Seq<bool>, n: int, track: int)
    requires
        0 <= n <= changed.len() <= 256,
        0 <= track < changed.len(),
    ensures
        reset_cues(changed, n).contains(Cue::ResetTrack { track: track as u8 }) <==> track < n
            && changed[track],
    decreases n,
{
    if n > 0 {
        reset_cues_tell_of_changes(changed, n - 1, track);
        if changed[n - 1] {
            pushing_contains(
                reset_cues(changed, n - 1),
                Cue::ResetTrack { track: (n - 1) as u8 },
                Cue::ResetTrack { track: track as u8 },
            );
        }
    }
}

/// Exactly those tracks are reset that an edit gives another instrument.
pub proof fn changed_instruments_are_reset(
    before: ProjectModel,
    after: ProjectModel,
    track: int,
)
    requires
        0 <= track < TRACK_COUNT,
    ensures
        reset_cues(changed_kinds(before, after), TRACK_COUNT as int).contains(
            Cue::ResetTrack { track: track as u8 },
        ) <==> before.tracks[track].instrument.kind_of() != after.tracks[track].instrument.kind_of(),
{
    reset_cues_tell_of_changes(changed_kinds(before, after), TRACK_COUNT as int, track);
}

/// An edit is smoothed as it asks, and mutes always over five milliseconds.
pub proof fn edits_are_smoothed_as_they_ask(engine: RendererModel, next: Replacement)
    requires
        engine.wf(),
        next.project.wf(),
    ensures
        ({
            let smoothing = next.smoothing.length(engine.sample_rate as int) as u32;
            let told = lfo_cues(engine.project, next.project, TRACK_COUNT * PARAMETER_COUNT)
                + reset_cues(changed_kinds(engine.project, next.project), TRACK_COUNT as int);
            let cues = engine.received(next).cues;
            let from = (engine.cues.len() + told.len()) as int;
            &&& cues.len() >= from + 2
            &&& cues[from] == (Cue::Globals { smoothing })
            &&& cues[from + 1] == (Cue::Mutes { smoothing: mute_smoothing(engine.sample_rate) })
            &&& 1000 * mute_smoothing(engine.sample_rate) <= 5 * engine.sample_rate
            &&& 5 * engine.sample_rate < 1000 * (mute_smoothing(engine.sample_rate) + 1)
        }),
{
    reveal(RendererModel::replaced);
}

/// A recording that is started clears what the one before left behind; starting
/// twice is starting once. One that is stopped while it is active ends its take
/// and is finalised where the end could be delivered.
pub proof fn recordings_start_and_stop(engine: RendererModel, delivered: bool)
    ensures
        ({
            let started = engine.obeyed(CommandModel::StartRecording);
            let stopped = engine.recording_stopped(delivered);
            &&& started.recording.active
            &&& started.recording.sent == engine.recording.sent
            &&& !engine.recording.active ==> {
                &&& started.sequencer.status.recording_active
                &&& !started.sequencer.status.recording_finalizing
                &&& !started.sequencer.status.recording_stop_requested
                &&& stopped == engine
            }
            &&& engine.recording.active ==> {
                &&& started.sequencer.status == engine.sequencer.status
                &&& !stopped.recording.active
                &&& !stopped.sequencer.status.recording_active
                &&& stopped.sequencer.status.recording_finalizing == delivered
                &&& delivered ==> stopped.recording.sent == engine.recording.sent.push(
                    RecordingItem::End { overflowed: false },
                )
                &&& !delivered ==> stopped.recording.sent == engine.recording.sent
            }
            &&& started.live == engine.live
            &&& stopped.live == engine.live
        }),
{
}

} // verus!
