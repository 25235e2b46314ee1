//! What holds of the engine as a whole.
pub mod changes;
pub mod engine;
pub mod gating;
pub mod locks;
pub mod names;
pub mod orders;
pub mod pitches;
pub mod playback;
pub mod recordings;
pub mod snapshots;
pub mod steps;
pub mod ties;
pub mod timing;
pub mod tracks;
pub mod voicing;
pub mod waiting;

use super::command::{CommandModel, Replacement};
use super::renderer::{drained, took, took_with_room, DrainState, RendererModel};
use super::schedule::{PreviewAction, ScheduledTrackAction};
use super::sequencer::SequencerModel;
use super::snapshot::ProjectModel;
use crate::model::project::TRACK_COUNT;
use vstd::prelude::*;

verus! {

/// An action of the sequence sounds on its own track and on no other, and
/// leaves auditions, the queue and the transport alone.
pub proof fn actions_touch_only_their_track(
    engine: RendererModel,
    action: ScheduledTrackAction,
    other: int,
)
    requires
        engine.wf(),
        action.track < TRACK_COUNT,
        0 <= other < TRACK_COUNT,
        other != action.track,
    ensures
        engine.acted(action).live[other] == engine.live[other],
        engine.acted(action).preview == engine.preview,
        engine.acted(action).sequencer == engine.sequencer,
        engine.acted(action).project == engine.project,
{
}

proof fn auditions_leave_the_sequence_alone(engine: RendererModel, actions: Seq<PreviewAction>)
    ensures
        engine.previews_auditioned(actions).sequencer == engine.sequencer,
        engine.previews_auditioned(actions).live == engine.live,
        engine.previews_auditioned(actions).project == engine.project,
    decreases actions.len(),
{
    if actions.len() > 0 {
        auditions_leave_the_sequence_alone(engine, actions.drop_last());
    }
}

/// While playback rests, the sequence rests: nothing that is queued comes
/// nearer, no track moves on and the step clock stands still, whatever is
/// auditioned meanwhile.
pub proof fn pausing_freezes_the_sequence(engine: RendererModel, tails: Seq<bool>)
    requires
        !engine.playing(),
    ensures
        ({
            let next = engine.frame_begun(tails);
            &&& next.sequencer.scheduled == engine.sequencer.scheduled
            &&& next.sequencer.tracks == engine.sequencer.tracks
            &&& next.sequencer.clock == engine.sequencer.clock
            &&& next.sequencer.transport == engine.sequencer.transport
            &&& next.live == engine.live
        }),
{
    let active = engine.activity_refreshed(tails);
    let counted = RendererModel {
        sequencer: SequencerModel {
            previews: super::sequencer::previews_counted_down(active.sequencer.previews),
            ..active.sequencer
        },
        ..active
    };
    auditions_leave_the_sequence_alone(
        counted,
        super::sequencer::due_previews(
            active.sequencer.previews,
            super::schedule::PREVIEW_ACTION_COUNT as int,
        ),
    );
}

/// Playback that goes on after a pause starts its next step with the next
/// sample, and it is the step that was next.
pub proof fn resuming_starts_the_next_step(sequencer: SequencerModel, project: ProjectModel)
    requires
        sequencer.wf(project),
        !sequencer.transport.playing,
        sequencer.status.paused,
    ensures
        sequencer.toggled().transport.playing,
        sequencer.toggled().clock.countdown < sequencer.toggled().clock.tempo_bpm,
        sequencer.toggled().clock.next_step == sequencer.clock.next_step,
        sequencer.toggled().tracks == sequencer.tracks,
{
}

/// A stop forgets where playback was: two sequencers at one tempo that differ
/// in everything they have played go on alike.
pub proof fn stopping_forgets_the_past(a: SequencerModel, b: SequencerModel)
    requires
        a.clock.sample_rate == b.clock.sample_rate,
        a.clock.tempo_bpm == b.clock.tempo_bpm,
        a.transport.song_mode == b.transport.song_mode,
    ensures
        a.stopped().clock == b.stopped().clock,
        a.stopped().transport == b.stopped().transport,
        a.stopped().tracks == b.stopped().tracks,
        a.stopped().scheduled == b.stopped().scheduled,
        a.stopped().previews == b.stopped().previews,
        a.stopped().status.playheads == b.stopped().status.playheads,
{
}

/// Stopping twice is stopping once.
pub proof fn stopping_is_final(sequencer: SequencerModel)
    ensures
        sequencer.stopped().stopped() == sequencer.stopped(),
{
}

/// Pausing and going on keeps the place of every track and everything queued.
pub proof fn pausing_keeps_the_place(sequencer: SequencerModel)
    ensures
        sequencer.toggled().toggled().tracks == sequencer.tracks,
        sequencer.toggled().toggled().scheduled == sequencer.scheduled,
        sequencer.toggled().toggled().transport == sequencer.transport,
{
}

/// An edit that gives no track another instrument resets none: every voice
/// goes on, under the new settings.
pub proof fn edits_reset_only_changed_tracks(
    engine: RendererModel,
    next: Replacement,
    track: int,
)
    requires
        engine.wf(),
        next.project.wf(),
        0 <= track < TRACK_COUNT,
    ensures
        engine.project.tracks[track].kind() == next.project.tracks[track].kind()
            ==> engine.replaced(next).live[track] == engine.live[track].refreshed(
            next.project.tracks[track],
        ) && engine.replaced(next).preview[track] == engine.preview[track].refreshed(
            next.project.tracks[track],
        ) && engine.replaced(next).sequencer.tracks[track].cycle_counts
            == engine.sequencer.tracks[track].cycle_counts,
        engine.project.tracks[track].kind() != next.project.tracks[track].kind()
            ==> engine.replaced(next).live[track] == engine.live[track].at_rest().refreshed(
            next.project.tracks[track],
        ) && engine.replaced(next).sequencer.tracks[track] == super::schedule::fresh_clock(track),
{
    reveal(RendererModel::replaced);
}

/// An edit that moves nothing leaves playback where it is, and playing.
pub proof fn edits_in_place_keep_playing(engine: RendererModel, next: Replacement)
    requires
        engine.wf(),
        next.project.wf(),
        next.in_place(),
        next.project.patterns.len() == engine.project.patterns.len(),
        next.project.song == engine.project.song,
    ensures
        engine.replaced(next).playing() == engine.playing(),
        engine.replaced(next).pattern() == engine.pattern(),
        engine.replaced(next).sequencer.transport.queued_pattern
            == engine.sequencer.transport.queued_pattern,
        engine.replaced(next).sequencer.transport.active_song
            == engine.sequencer.transport.active_song,
        engine.replaced(next).sequencer.clock.next_step == engine.sequencer.clock.next_step,
{
    reveal(RendererModel::replaced);
    crate::model::index_map::identity_keeps_every_index(
        engine.pattern(),
        next.project.patterns.len() as int,
    );
    crate::model::index_map::identity_keeps_every_index(
        engine.sequencer.transport.active_song as int,
        next.project.song.len() as int,
    );
    if let Some(p) = engine.sequencer.transport.queued_pattern {
        crate::model::index_map::identity_keeps_every_index(
            p as int,
            next.project.patterns.len() as int,
        );
    }
}

/// How many projects the engine has in its hands or has handed back.
pub open spec fn projects_accounted(state: DrainState) -> int {
    state.engine.retired.len() + 1 + if state.engine.pending is Some {
        1int
    } else {
        0
    } + if state.held is Some {
        1int
    } else {
        0
    }
}

proof fn reception_retires_one(engine: RendererModel, next: Replacement)
    ensures
        engine.received(next).retired.len() == engine.retired.len() + 1,
        engine.received(next).pending == engine.pending,
{
    reveal(RendererModel::replaced);
}

proof fn obedience_keeps_projects(engine: RendererModel, command: CommandModel)
    ensures
        engine.obeyed(command).retired == engine.retired,
        engine.obeyed(command).pending == engine.pending,
{
    reveal(RendererModel::toggled);
    reveal(RendererModel::stopped);
    reveal(RendererModel::auditioned);
}

/// No project is lost: each that a callback takes is playing, waits, is held
/// back or has been retired, and so is each that was there before.
pub proof fn no_project_is_lost(before: DrainState, command: CommandModel, after: DrainState)
    requires
        before.wf(),
        before.engine.pending is None,
        took(before, command, after),
    ensures
        projects_accounted(after) == projects_accounted(before) + if command is ReplaceProject {
            1int
        } else {
            0
        },
{
    if let Some(next) = before.held {
        reception_retires_one(before.engine, next);
    }
    if let CommandModel::ReplaceProject(next) = command {
        reception_retires_one(before.settled(), next);
    }
    obedience_keeps_projects(before.settled(), command);
}

/// The projects that the first `n` of these commands bring.
pub open spec fn brought(commands: Seq<CommandModel>, n: int) -> Seq<ProjectModel> {
    Seq::new(n as nat, |i: int| commands[i]->ReplaceProject_0.project)
}

proof fn edits_pile_up(
    before: RendererModel,
    taken: Seq<CommandModel>,
    trace: Seq<DrainState>,
    after: RendererModel,
    i: int,
)
    requires
        drained(before, taken, trace, after),
        forall|k: int| 0 <= k < taken.len() ==> (#[trigger] taken[k]).coalescible(),
        forall|k: int|
            0 <= k < taken.len() ==> took_with_room(#[trigger] trace[k], taken[k], trace[k + 1]),
        1 <= i <= taken.len(),
    ensures
        trace[i].held == Some(taken[i - 1]->ReplaceProject_0),
        trace[i].engine == (RendererModel {
            retired: before.retired + brought(taken, i - 1),
            ..before
        }),
    decreases i,
{
    assert(taken[i - 1].coalescible());
    assert(took(trace[i - 1], taken[i - 1], trace[i - 1 + 1]));
    assert(took_with_room(trace[i - 1], taken[i - 1], trace[i - 1 + 1]));
    if i == 1 {
        assert(before.retired + brought(taken, 0) =~= before.retired);
    } else {
        edits_pile_up(before, taken, trace, after, i - 1);
        assert(before.retired + brought(taken, i - 1) =~= (before.retired + brought(
            taken,
            i - 2,
        )).push(taken[i - 2]->ReplaceProject_0.project));
    }
}

/// Of several edits that move nothing, only the last is played, in the very
/// callback that takes them; the others are retired unplayed. So it is wherever
/// the projects can be retired.
pub proof fn only_the_last_edit_plays(
    before: RendererModel,
    taken: Seq<CommandModel>,
    trace: Seq<DrainState>,
    after: RendererModel,
)
    requires
        drained(before, taken, trace, after),
        taken.len() >= 1,
        forall|k: int| 0 <= k < taken.len() ==> (#[trigger] taken[k]).coalescible(),
        forall|k: int|
            0 <= k < taken.len() ==> took_with_room(#[trigger] trace[k], taken[k], trace[k + 1]),
        after == trace.last().settled(),
    ensures
        after == (RendererModel {
            retired: before.retired + brought(taken, taken.len() - 1),
            ..before
        }).received(taken.last()->ReplaceProject_0),
        taken.last().wf() ==> after.project == taken.last()->ReplaceProject_0.project,
        after.pending == before.pending,
{
    edits_pile_up(before, taken, trace, after, taken.len() as int);
    reveal(RendererModel::replaced);
}

/// An audition that comes up by itself never disturbs playback.
pub proof fn automatic_auditions_respect_playback(engine: RendererModel, track: u8, step: u8)
    ensures
        engine.playing() ==> engine.obeyed(CommandModel::AutoAudition { track, step }) == engine,
        !engine.playing() ==> engine.obeyed(CommandModel::AutoAudition { track, step })
            == engine.obeyed(CommandModel::Audition { track, step }),
{
}

} // verus!
