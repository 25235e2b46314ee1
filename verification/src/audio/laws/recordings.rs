//! Recordings: who may start one, what is captured, and what becomes of a take.
use crate::audio::channel::{projects_taken, projects_waiting};
use crate::audio::command::CommandModel;
use crate::audio::queue::{swept, AudioModel, RecordingError};
use crate::audio::recording::{
    capture_for, ended, ring_slots, take_ended, take_started, Capture, RecordingItem,
    RecordingProducer, RecordingState,
};
use crate::audio::snapshot::AudioProject;
use crate::audio::status::{capped, initial_status, StatusModel};
use crate::audio::writer::{
    first_of, followed, fresh_take, turned, TakeModel, WriterModel, WriterPhase, WriterStep,
};
use rtrb::Consumer;
use vstd::prelude::*;

verus! {

/// A recording is refused where the stream has failed, and else where one is
/// already going on; where neither holds it is not.
pub proof fn recordings_are_refused_with_a_reason(audio: AudioModel, stream_failed: bool)
    ensures
        ({
            let refusal = audio.start_refusal(stream_failed);
            &&& stream_failed ==> refusal == Some(RecordingError::StreamFailed)
            &&& !stream_failed && audio.recording_state == RecordingState::Idle ==> refusal is None
            &&& !stream_failed && audio.recording_state != RecordingState::Idle ==> refusal == Some(
                RecordingError::Busy,
            )
        }),
{
}

/// A command goes behind those sent before it, and only a project becomes the
/// base of later edits.
pub proof fn commands_are_sent_in_order(audio: AudioModel, command: CommandModel)
    ensures
        ({
            let next = audio.command_sent(command);
            &&& next.sent.len() == audio.sent.len() + 1
            &&& next.sent.last() == command
            &&& next.sent.drop_last() == audio.sent
            &&& command matches CommandModel::ReplaceProject(replacement) ==> next.snapshot
                == replacement.project
            &&& !(command is ReplaceProject) ==> next.snapshot == audio.snapshot
            &&& next.recording_state == audio.recording_state
            &&& next.recording_path == audio.recording_path
        }),
{
    assert(audio.command_sent(command).sent.drop_last() =~= audio.sent);
}

/// A recording that starts remembers its file and tells the engine.
pub proof fn recordings_remember_their_file(audio: AudioModel, path: Seq<char>)
    ensures
        ({
            let next = audio.recording_started(path);
            &&& next.recording_state == RecordingState::Recording
            &&& next.recording_path == Some(path)
            &&& next.sent == audio.sent.push(CommandModel::StartRecording)
            &&& next.snapshot == audio.snapshot
        }),
{
}

/// A recording whose stream is lost is finalised with what it got; without a
/// recording, or without a stream to close, nothing happens.
pub proof fn lost_streams_are_finalised(audio: AudioModel, has_stream: bool)
    ensures
        ({
            let next = audio.abandoned(has_stream);
            let lost = audio.recording_state != RecordingState::Idle && has_stream;
            &&& audio.abandons(has_stream) <==> lost
            &&& lost ==> next.recording_state == RecordingState::Finalizing
            &&& !lost ==> next == audio
            &&& next.sent == audio.sent
            &&& next.recording_path == audio.recording_path
        }),
{
}

/// A frame is kept while a take runs, nobody asked for its end and the end
/// still has room behind it; a take without that room overflows.
pub proof fn frames_leave_room_for_the_end(active: bool, stop_requested: bool, slots: int)
    ensures
        ({
            let done = capture_for(active, stop_requested, slots);
            &&& !active <==> done == Capture::Ignore
            &&& active && stop_requested <==> done == Capture::Finish
            &&& active && !stop_requested && slots >= 2 <==> done == Capture::Keep
            &&& active && !stop_requested && slots < 2 <==> done == Capture::Overflow
        }),
{
}

/// The ring of a recording holds two seconds of frames and the end of the take,
/// and always a frame and the end.
pub proof fn rings_hold_two_seconds(sample_rate: int)
    requires
        0 <= sample_rate,
    ensures
        2 * sample_rate < usize::MAX && sample_rate >= 1 ==> ring_slots(sample_rate) == 2
            * sample_rate + 1,
        2 * sample_rate >= usize::MAX ==> ring_slots(sample_rate) == usize::MAX,
        ring_slots(sample_rate) >= 2,
{
}

/// The status shows a take from its start to its end, and then its finalising
/// where the end was delivered.
pub proof fn status_shows_the_take(status: StatusModel, delivered: bool)
    ensures
        take_started(status).recording_active,
        !take_started(status).recording_finalizing,
        !take_started(status).recording_stop_requested,
        take_started(status).running == status.running,
        take_started(status).playheads == status.playheads,
        !take_ended(status, delivered).recording_active,
        take_ended(status, delivered).recording_finalizing == delivered,
        take_ended(status, delivered).recording_stop_requested == status.recording_stop_requested,
        take_ended(status, delivered).running == status.running,
{
}

/// A take that ends leaves its end behind as its last item where there is room
/// for it, and is then shown as finalising; without a take nothing happens.
pub proof fn takes_end_with_their_marker(
    before: &RecordingProducer,
    after: &RecordingProducer,
    status: StatusModel,
    shown: StatusModel,
    overflowed: bool,
    delivered: bool,
)
    requires
        ended(before, after, status, shown, overflowed, delivered),
    ensures
        !after@.active,
        !before@.active ==> after@.sent == before@.sent && shown == status && !delivered,
        before@.active ==> {
            &&& !shown.recording_active
            &&& shown.recording_finalizing == delivered
            &&& shown.running == status.running
            &&& delivered ==> after@.sent == before@.sent.push(RecordingItem::End { overflowed })
            &&& !delivered ==> after@.sent == before@.sent && before.room() == 0
        },
{
}

/// Sweeping takes every retired project that waits, keeps what was taken
/// before, and leaves none.
pub proof fn sweeping_leaves_nothing(
    before: Consumer<Box<AudioProject>>,
    after: Consumer<Box<AudioProject>>,
)
    requires
        swept(before, after),
        projects_taken(after).len() - projects_taken(before).len() < usize::MAX,
    ensures
        projects_waiting(after) == 0,
        projects_taken(after).len() >= projects_taken(before).len() + projects_waiting(before),
        projects_taken(after).take(projects_taken(before).len() as int) == projects_taken(before),
{
}

/// The telemetry keeps the longest callback and the highest load, and counts
/// the callbacks that took longer than they had.
pub proof fn telemetry_keeps_the_worst(status: StatusModel, elapsed: u64, budget: u64)
    requires
        budget > 0,
        1000 * elapsed <= u64::MAX,
    ensures
        ({
            let next = status.timed(elapsed as u128, budget as u128);
            let load = 1000 * elapsed / budget as int;
            &&& next.max_callback_duration_ns >= elapsed
            &&& next.max_callback_duration_ns == elapsed || next.max_callback_duration_ns
                == status.max_callback_duration_ns
            &&& next.max_callback_duration_ns >= status.max_callback_duration_ns
            &&& next.max_callback_load_per_mille >= load
            &&& next.max_callback_load_per_mille == load || next.max_callback_load_per_mille
                == status.max_callback_load_per_mille
            &&& next.max_callback_load_per_mille >= status.max_callback_load_per_mille
            &&& elapsed <= budget ==> next.callback_overruns == status.callback_overruns
            &&& elapsed > budget && status.callback_overruns < u64::MAX ==> next.callback_overruns
                == status.callback_overruns + 1
            &&& next.running == status.running
        }),
        status.timed(elapsed as u128, 0) == status,
{
    let load = 1000 * elapsed / budget as int;
    assert(0 <= load <= 1000 * elapsed) by (nonlinear_arith)
        requires
            load == 1000 * elapsed / budget as int,
            budget > 0,
            0 <= 1000 * elapsed,
    ;
    assert(elapsed as u128 * 1000 == 1000 * elapsed);
}

/// A number of nanoseconds that the telemetry can hold is kept as it is, and a
/// greater one as the greatest.
pub proof fn telemetry_is_capped(nanos: u128)
    ensures
        nanos <= u64::MAX ==> capped(nanos) == nanos,
        nanos > u64::MAX ==> capped(nanos) == u64::MAX,
{
}

/// A stream that fails stops everything that is shown, and stays failed.
pub proof fn failed_streams_show_nothing_playing(status: StatusModel, track: int)
    requires
        0 <= track < 10,
    ensures
        ({
            let next = status.stream_failed();
            &&& next.failed
            &&& !next.running
            &&& !next.paused
            &&& next.playheads.len() == 10
            &&& next.playheads[track] == 255
            &&& next.active_pattern == status.active_pattern
            &&& next.recording_active == status.recording_active
            &&& next.callback_overruns == status.callback_overruns
        }),
{
}

/// At first nothing plays, nothing is queued and nothing has gone wrong.
pub proof fn status_starts_empty(track: int)
    requires
        0 <= track < 10,
    ensures
        !initial_status().running,
        !initial_status().paused,
        !initial_status().failed,
        !initial_status().recording_active,
        initial_status().playheads[track] == 255,
        initial_status().queued_pattern == 255,
        initial_status().queued_song == 65535,
        initial_status().active_pattern == 0,
        !initial_status().song_mode,
        initial_status().active_song == 0,
        initial_status().song_bar == 0,
        !initial_status().non_finite,
        !initial_status().recording_finalizing,
        !initial_status().recording_stop_requested,
        initial_status().callback_overruns == 0,
        initial_status().max_callback_duration_ns == 0,
        initial_status().max_callback_load_per_mille == 0,
{
}

/// A take counts every frame that is written and has its header brought up to
/// date with every second of them.
pub proof fn takes_count_their_frames(take: TakeModel, path: Seq<char>, sample_rate: nat)
    requires
        sample_rate >= 1,
    ensures
        fresh_take(path).path == path,
        fresh_take(path).frames == 0,
        fresh_take(path).since_flush == 0,
        fresh_take(path).error is None,
        take.frame_written(sample_rate).frames == take.frames + 1,
        take.frame_written(sample_rate).path == take.path,
        take.frame_written(sample_rate).error == take.error,
        take.since_flush + 1 >= sample_rate <==> take.flush_due(sample_rate),
        take.since_flush + 1 >= sample_rate ==> take.frame_written(sample_rate).since_flush == 0,
        take.since_flush + 1 < sample_rate ==> take.frame_written(sample_rate).since_flush
            == take.since_flush + 1,
{
}

/// A take is reported by the first thing that went wrong: an error while it
/// ran, then an overflow, then its last flush, then its closing; it is sound
/// where nothing did.
pub proof fn takes_are_reported_by_their_first_error(
    take: TakeModel,
    overflowed: bool,
    flushed: Result<(), String>,
    finalized: Result<(), String>,
)
    ensures
        ({
            let verdict = take.verdict(overflowed, flushed, finalized);
            &&& take.error matches Some(error) ==> verdict == Some(error)
            &&& take.error is None && overflowed ==> verdict == Some(
                "recording queue overflowed; the contiguous captured prefix was retained"@,
            )
            &&& take.error is None && !overflowed ==> {
                &&& flushed matches Err(cause) ==> verdict == Some(
                    "could not flush WAV header: "@ + cause@,
                )
                &&& flushed is Ok ==> {
                    &&& finalized matches Err(cause) ==> verdict == Some(
                        "could not finalize WAV: "@ + cause@,
                    )
                    &&& finalized is Ok ==> verdict is None
                }
            }
        }),
{
}

/// Of two errors the earlier one is kept.
pub proof fn earlier_errors_are_kept(error: Option<Seq<char>>, next: Option<Seq<char>>)
    ensures
        error is Some ==> first_of(error, next) == error,
        error is None ==> first_of(error, next) == next,
{
}

/// The writer writes every frame of an open take and finishes it with its end;
/// what belongs to no take is dropped.
pub proof fn writers_follow_their_take(
    before: WriterModel,
    item: RecordingItem,
    step: WriterStep,
)
    requires
        followed(before, item, step),
    ensures
        before.take is None ==> step is Discard,
        before.take is Some && item is Frame ==> {
            &&& step matches WriterStep::Write { left, right, live }
            &&& left == item->left
            &&& right == item->right
            &&& live == (before.phase == WriterPhase::Reading)
        },
        before.take is Some && item is End ==> {
            &&& step matches WriterStep::Finish { take, overflowed, live }
            &&& take@ == before.take->0
            &&& overflowed == item->overflowed
            &&& live == (before.phase == WriterPhase::Reading)
        },
        before.after_item(item).progressed,
        before.after_item(item).phase == before.phase,
        item is End ==> before.after_item(item).take is None,
        item is Frame ==> before.after_item(item).take == before.take,
{
}

/// A writer that is told to leave reads what is left, finishes the take that
/// got no end, and only then goes; until then it listens.
pub proof fn writers_clear_up_before_they_leave(
    before: WriterModel,
    after: WriterModel,
    step: WriterStep,
)
    requires
        turned(before, after, step),
    ensures
        before.phase == WriterPhase::Reading && !before.shutdown ==> {
            &&& step matches WriterStep::Listen { idle }
            &&& idle == !before.progressed
            &&& !after.progressed
            &&& after.take == before.take
            &&& after.phase == WriterPhase::Reading
        },
        before.phase == WriterPhase::Reading && before.shutdown ==> {
            &&& step is Proceed
            &&& after.phase == WriterPhase::Clearing
            &&& !before.stream_failed ==> after.take == before.take
            &&& before.take is None ==> after.take is None
            &&& before.take matches Some(take) ==> {
                &&& after.take is Some
                &&& after.take->0.frames == take.frames
                &&& after.take->0.path == take.path
                &&& before.stream_failed && take.error is None ==> after.take->0.error == Some(
                    "audio stream failed while recording"@,
                )
                &&& take.error is Some ==> after.take->0.error == take.error
            }
        },
        before.phase == WriterPhase::Clearing ==> step is Proceed && after.phase
            == WriterPhase::Closing && after.take == before.take,
        before.phase == WriterPhase::Closing && before.take is None ==> step is Leave,
        before.phase == WriterPhase::Closing && before.take is Some ==> {
            &&& step matches WriterStep::Finish { take, overflowed, live }
            &&& take@ == before.take->0
            &&& !overflowed
            &&& !live
            &&& after.take is None
        },
{
}

/// The ring is read for an open take and while the writer clears up, and not
/// otherwise.
pub proof fn rings_are_read_for_a_take(writer: WriterModel)
    ensures
        writer.phase == WriterPhase::Reading ==> (writer.reads() <==> writer.take is Some),
        writer.phase == WriterPhase::Clearing ==> writer.reads(),
        writer.phase == WriterPhase::Closing ==> !writer.reads(),
{
}

} // verus!
