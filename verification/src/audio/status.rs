//! What the engine tells the user interface.
use super::channel::{messages_room, messages_sent, push_message};
use crate::model::project::TRACK_COUNT;
use rtrb::Producer;
use vstd::prelude::*;

verus! {

/// Stands for no playhead, and for no queued pattern.
pub const NO_INDEX: u8 = 255;

/// Stands for no queued song entry.
pub const NO_SONG: u16 = 65535;

#[derive(Clone, Copy, Debug, PartialEq, Eq)]
pub struct AudioStatus {
    pub running: bool,
    pub paused: bool,
    pub playheads: [u8; TRACK_COUNT],
    pub failed: bool,
    pub non_finite: bool,
    pub active_pattern: u8,
    pub queued_pattern: u8,
    pub song_mode: bool,
    pub active_song: u8,
    pub queued_song: u16,
    pub song_bar: u8,
    pub callback_overruns: u64,
    pub max_callback_duration_ns: u64,
    pub max_callback_load_per_mille: u64,
    pub recording_active: bool,
    pub recording_finalizing: bool,
    pub recording_stop_requested: bool,
}

#[verifier::ext_equal]
pub struct StatusModel {
    pub running: bool,
    pub paused: bool,
    pub playheads: Seq<u8>,
    pub failed: bool,
    pub non_finite: bool,
    pub active_pattern: u8,
    pub queued_pattern: u8,
    pub song_mode: bool,
    pub active_song: u8,
    pub queued_song: u16,
    pub song_bar: u8,
    pub callback_overruns: u64,
    pub max_callback_duration_ns: u64,
    pub max_callback_load_per_mille: u64,
    pub recording_active: bool,
    pub recording_finalizing: bool,
    pub recording_stop_requested: bool,
}

impl View for AudioStatus {
    type V = StatusModel;

    open spec fn view(&self) -> StatusModel {
        StatusModel {
            running: self.running,
            paused: self.paused,
            playheads: self.playheads@,
            failed: self.failed,
            non_finite: self.non_finite,
            active_pattern: self.active_pattern,
            queued_pattern: self.queued_pattern,
            song_mode: self.song_mode,
            active_song: self.active_song,
            queued_song: self.queued_song,
            song_bar: self.song_bar,
            callback_overruns: self.callback_overruns,
            max_callback_duration_ns: self.max_callback_duration_ns,
            max_callback_load_per_mille: self.max_callback_load_per_mille,
            recording_active: self.recording_active,
            recording_finalizing: self.recording_finalizing,
            recording_stop_requested: self.recording_stop_requested,
        }
    }
}

pub open spec fn no_playheads() -> Seq<u8> {
    Seq::new(TRACK_COUNT as nat, |t: int| NO_INDEX)
}

pub open spec fn initial_status() -> StatusModel {
    StatusModel {
        running: false,
        paused: false,
        playheads: no_playheads(),
        failed: false,
        non_finite: false,
        active_pattern: 0,
        queued_pattern: NO_INDEX,
        song_mode: false,
        active_song: 0,
        queued_song: NO_SONG,
        song_bar: 0,
        callback_overruns: 0,
        max_callback_duration_ns: 0,
        max_callback_load_per_mille: 0,
        recording_active: false,
        recording_finalizing: false,
        recording_stop_requested: false,
    }
}

impl Default for AudioStatus {
    fn default() -> (status: AudioStatus)
        ensures
            status@ == initial_status(),
    {
        let status = AudioStatus {
            running: false,
            paused: false,
            playheads: [NO_INDEX; TRACK_COUNT],
            failed: false,
            non_finite: false,
            active_pattern: 0,
            queued_pattern: NO_INDEX,
            song_mode: false,
            active_song: 0,
            queued_song: NO_SONG,
            song_bar: 0,
            callback_overruns: 0,
            max_callback_duration_ns: 0,
            max_callback_load_per_mille: 0,
            recording_active: false,
            recording_finalizing: false,
            recording_stop_requested: false,
        };
        assert(status@ =~= initial_status());
        status
    }
}

pub open spec fn greater(a: u64, b: u64) -> u64 {
    if a > b {
        a
    } else {
        b
    }
}

/// The nearest number of nanoseconds that the telemetry can hold.
pub open spec fn capped(nanos: u128) -> u64 {
    if nanos > u64::MAX {
        u64::MAX
    } else {
        nanos as u64
    }
}

pub open spec fn load_per_mille(elapsed: u64, budget: u64) -> u64 {
    capped((elapsed as u128 * 1000 / budget as int) as u128)
}

impl StatusModel {
    /// The status after a callback took `elapsed` of its `budget`
    /// nanoseconds. A callback without a budget tells nothing.
    pub open spec fn timed(self, elapsed: u128, budget: u128) -> StatusModel {
        if budget == 0 {
            self
        } else {
            StatusModel {
                max_callback_duration_ns: greater(self.max_callback_duration_ns, capped(elapsed)),
                max_callback_load_per_mille: greater(
                    self.max_callback_load_per_mille,
                    load_per_mille(capped(elapsed), capped(budget)),
                ),
                callback_overruns: if elapsed > budget {
                    self.callback_overruns.wrapping_add(1)
                } else {
                    self.callback_overruns
                },
                ..self
            }
        }
    }

    /// The status of a stream that has failed.
    pub open spec fn stream_failed(self) -> StatusModel {
        StatusModel {
            failed: true,
            running: false,
            paused: false,
            playheads: no_playheads(),
            ..self
        }
    }
}

fn cap(nanos: u128) -> (r: u64)
    ensures
        r == capped(nanos),
{
    if nanos > u64::MAX as u128 {
        u64::MAX
    } else {
        nanos as u64
    }
}

/// Keeps the worst duration and load of the callbacks and counts those that
/// overran their budget. Both times are in nanoseconds.
pub fn record_callback_timing(status: &mut AudioStatus, elapsed: u128, budget: u128)
    ensures
        final(status)@ == old(status)@.timed(elapsed, budget),
{
    if budget == 0 {
        return;
    }
    let elapsed_ns: u64 = cap(elapsed);
    let budget_ns: u64 = cap(budget);
    if elapsed_ns > status.max_callback_duration_ns {
        status.max_callback_duration_ns = elapsed_ns;
    }
    let load: u64 = cap((elapsed_ns as u128 * 1000) / budget_ns as u128);
    if load > status.max_callback_load_per_mille {
        status.max_callback_load_per_mille = load;
    }
    if elapsed > budget {
        status.callback_overruns = status.callback_overruns.wrapping_add(1);
    }
}

/// The telemetry never forgets: its maxima only grow, and the overruns grow
/// by one exactly where a callback took longer than its budget.
pub proof fn telemetry_is_monotonic(status: StatusModel, elapsed: u128, budget: u128)
    requires
        status.callback_overruns < u64::MAX,
    ensures
        status.timed(elapsed, budget).max_callback_duration_ns >= status.max_callback_duration_ns,
        status.timed(elapsed, budget).max_callback_load_per_mille
            >= status.max_callback_load_per_mille,
        status.timed(elapsed, budget).callback_overruns == status.callback_overruns + if budget > 0
            && elapsed > budget {
            1int
        } else {
            0
        },
{
}

/// Marks the stream as failed and everything as stopped, and leaves word of the
/// error. Where no room for it is known of, the reader decides whether it is
/// kept.
pub fn mark_failed(status: &mut AudioStatus, errors: &mut Producer<String>, error: String)
    ensures
        final(status)@ == old(status)@.stream_failed(),
        messages_sent(*final(errors)) == messages_sent(*old(errors)).push(error@) || (
        messages_sent(*final(errors)) == messages_sent(*old(errors)) && messages_room(*old(errors))
            == 0 && messages_room(*final(errors)) == 0),
{
    status.failed = true;
    status.running = false;
    status.paused = false;
    status.playheads = [NO_INDEX; TRACK_COUNT];
    assert(status@.playheads =~= no_playheads());
    push_message(errors, error);
}

/// What the diagnostics of a stream came to.
#[derive(Clone, Copy, Debug, PartialEq, Eq, Structural)]
pub struct AudioDiagnostics {
    pub stream_failures: usize,
    pub non_finite: bool,
}

impl Default for AudioDiagnostics {
    fn default() -> (d: AudioDiagnostics)
        ensures
            d == (AudioDiagnostics { stream_failures: 0, non_finite: false }),
    {
        AudioDiagnostics { stream_failures: 0, non_finite: false }
    }
}

impl AudioDiagnostics {
    /// Counts one failure that was logged.
    pub fn note_failure(&mut self)
        requires
            old(self).stream_failures < usize::MAX,
        ensures
            *final(self) == (AudioDiagnostics {
                stream_failures: (old(self).stream_failures + 1) as usize,
                ..*old(self)
            }),
    {
        self.stream_failures = self.stream_failures + 1;
    }

    /// Takes a report of non-finite output over, once.
    pub fn take_non_finite(&mut self, status: &mut AudioStatus) -> (reported: bool)
        ensures
            reported == old(status)@.non_finite,
            final(self).stream_failures == old(self).stream_failures,
            final(self).non_finite == (old(self).non_finite || reported),
            final(status)@ == (StatusModel { non_finite: false, ..old(status)@ }),
    {
        let reported: bool = status.non_finite;
        status.non_finite = false;
        if reported {
            self.non_finite = true;
        }
        reported
    }
}

} // verus!
