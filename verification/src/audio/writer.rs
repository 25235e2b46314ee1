//! The writer of recordings: what it does with what arrives, and what it
//! reports of a take.
use super::channel::{items_taken, items_waiting, pop_item};
use super::recording::{RecordingEvent, RecordingItem};
use super::status::{AudioStatus, StatusModel};
use rtrb::Consumer;
use vstd::prelude::*;

verus! {

/// A take that is being written.
#[derive(Debug)]
pub struct Take {
    pub path: String,
    pub frames: u64,
    pub frames_since_flush: u32,
    pub first_error: Option<String>,
}

#[verifier::ext_equal]
pub struct TakeModel {
    pub path: Seq<char>,
    pub frames: nat,
    pub since_flush: nat,
    pub error: Option<Seq<char>>,
}

pub open spec fn text(message: Option<String>) -> Option<Seq<char>> {
    match message {
        Some(m) => Some(m@),
        None => None,
    }
}

impl View for Take {
    type V = TakeModel;

    open spec fn view(&self) -> TakeModel {
        TakeModel {
            path: self.path@,
            frames: self.frames as nat,
            since_flush: self.frames_since_flush as nat,
            error: text(self.first_error),
        }
    }
}

pub open spec fn fresh_take(path: Seq<char>) -> TakeModel {
    TakeModel { path, frames: 0, since_flush: 0, error: None }
}

/// The first of two errors.
pub open spec fn first_of(error: Option<Seq<char>>, next: Option<Seq<char>>) -> Option<Seq<char>> {
    if error is Some {
        error
    } else {
        next
    }
}

/// An error of the file, said in full.
pub open spec fn described(what: Seq<char>, result: Result<(), String>) -> Option<Seq<char>> {
    match result {
        Ok(()) => None,
        Err(cause) => Some(what + cause@),
    }
}

impl TakeModel {
    /// The take after a frame went to the file. The header is brought up to
    /// date once a second.
    pub open spec fn frame_written(self, sample_rate: nat) -> TakeModel {
        TakeModel {
            frames: self.frames + 1,
            since_flush: if self.flush_due(sample_rate) {
                0
            } else {
                self.since_flush + 1
            },
            ..self
        }
    }

    pub open spec fn flush_due(self, sample_rate: nat) -> bool {
        self.since_flush + 1 >= sample_rate
    }

    /// What is reported of the take: the first thing that went wrong.
    pub open spec fn verdict(
        self,
        overflowed: bool,
        flushed: Result<(), String>,
        finalized: Result<(), String>,
    ) -> Option<Seq<char>> {
        let overflow = if overflowed {
            Some("recording queue overflowed; the contiguous captured prefix was retained"@)
        } else {
            None
        };
        first_of(
            first_of(
                first_of(self.error, overflow),
                described("could not flush WAV header: "@, flushed),
            ),
            described("could not finalize WAV: "@, finalized),
        )
    }
}

fn describe(what: &str, cause: &String) -> (message: String)
    ensures
        message@ == what@ + cause@,
{
    let mut message = String::from_str(what);
    message.append(cause.as_str());
    message
}

impl Take {
    pub fn new(path: String) -> (take: Take)
        ensures
            take@ == fresh_take(path@),
    {
        Take { path, frames: 0, frames_since_flush: 0, first_error: None }
    }

    /// Whether frames still go to the file: nothing went wrong so far.
    pub fn is_sound(&self) -> (r: bool)
        ensures
            r == (self@.error is None),
    {
        self.first_error.is_none()
    }

    /// Takes over that a frame was written, or why not; says whether the
    /// header is to be brought up to date.
    pub fn write_frame(&mut self, written: Result<(), String>, sample_rate: u32) -> (flush: bool)
        requires
            old(self)@.error is None,
            old(self)@.frames < u64::MAX,
            old(self)@.since_flush < u32::MAX,
        ensures
            match written {
                Ok(()) => {
                    &&& flush == old(self)@.flush_due(sample_rate as nat)
                    &&& final(self)@ == old(self)@.frame_written(sample_rate as nat)
                },
                Err(_) => {
                    &&& !flush
                    &&& final(self)@ == (TakeModel {
                        error: described("could not write WAV data: "@, written),
                        ..old(self)@
                    })
                },
            },
    {
        match &written {
            Ok(()) => {
                self.frames = self.frames + 1;
                self.frames_since_flush = self.frames_since_flush + 1;
                if self.frames_since_flush >= sample_rate {
                    self.frames_since_flush = 0;
                    true
                } else {
                    false
                }
            },
            Err(cause) => {
                self.first_error = Some(describe("could not write WAV data: ", cause));
                false
            },
        }
    }

    /// Takes over whether the header was brought up to date.
    pub fn checkpoint(&mut self, flushed: Result<(), String>)
        requires
            old(self)@.error is None,
        ensures
            final(self)@ == (TakeModel {
                error: described("could not checkpoint WAV header: "@, flushed),
                ..old(self)@
            }),
    {
        if let Err(cause) = &flushed {
            self.first_error = Some(describe("could not checkpoint WAV header: ", cause));
        }
    }

    /// Takes over that the audio stream failed; an earlier error stays.
    pub fn lose_stream(&mut self)
        ensures
            final(self)@ == (TakeModel {
                error: first_of(old(self)@.error, Some("audio stream failed while recording"@)),
                ..old(self)@
            }),
    {
        if self.first_error.is_none() {
            self.first_error = Some(String::from_str("audio stream failed while recording"));
        }
    }

    /// Reports the take, given how its file was closed.
    pub fn finish(
        self,
        overflowed: bool,
        flushed: Result<(), String>,
        finalized: Result<(), String>,
    ) -> (event: RecordingEvent)
        ensures
            event.path@ == self@.path,
            event.frames == self@.frames,
            match self@.verdict(overflowed, flushed, finalized) {
                None => event.result is Ok,
                Some(error) => event.result matches Err(message) && message@ == error,
            },
    {
        let Take { path, frames, first_error, .. } = self;
        let mut error = first_error;
        if overflowed && error.is_none() {
            error =
            Some(
                String::from_str(
                    "recording queue overflowed; the contiguous captured prefix was retained",
                ),
            );
        }
        if let Err(cause) = &flushed {
            if error.is_none() {
                error = Some(describe("could not flush WAV header: ", cause));
            }
        }
        if let Err(cause) = &finalized {
            if error.is_none() {
                error = Some(describe("could not finalize WAV: ", cause));
            }
        }
        RecordingEvent {
            path,
            frames,
            result: match error {
                None => Ok(()),
                Some(message) => Err(message),
            },
        }
    }
}

/// What the writer is told.
#[derive(Debug)]
pub enum WriterCommand {
    /// A file was opened for a new take.
    Prepare { path: String },
    /// Finish; the stream may have failed.
    Shutdown { stream_failed: bool },
    /// Nobody is left to send commands.
    Disconnected,
}

/// Where the writer stands.
#[derive(Clone, Copy, Debug, PartialEq, Eq, Structural)]
pub enum WriterPhase {
    /// The ring is read for the take, up to its end.
    Reading,
    /// The writer leaves: what is left in the ring is read.
    Clearing,
    /// The writer leaves: a take that got no end is finished as it is.
    Closing,
}

/// What is to be done next. While `live` is set the status shows what became
/// of the take.
#[derive(Debug)]
pub enum WriterStep {
    /// Ask for commands. Where `idle` is set nothing has arrived since the last
    /// time, so that there is time to wait first.
    Listen { idle: bool },
    /// The next phase began.
    Proceed,
    /// An item that belongs to no take was dropped.
    Discard,
    /// A frame is to be written to the take.
    Write { left: u32, right: u32, live: bool },
    /// The take is over: its file is to be closed and its end reported.
    Finish { take: Take, overflowed: bool, live: bool },
    /// Everything is done.
    Leave,
}

#[derive(Debug)]
pub struct Writer {
    pub take: Option<Take>,
    pub phase: WriterPhase,
    pub shutdown: bool,
    pub stream_failed: bool,
    pub progressed: bool,
}

#[verifier::ext_equal]
pub struct WriterModel {
    pub take: Option<TakeModel>,
    pub phase: WriterPhase,
    pub shutdown: bool,
    pub stream_failed: bool,
    pub progressed: bool,
}

impl View for Writer {
    type V = WriterModel;

    open spec fn view(&self) -> WriterModel {
        WriterModel {
            take: take_view(self.take),
            phase: self.phase,
            shutdown: self.shutdown,
            stream_failed: self.stream_failed,
            progressed: self.progressed,
        }
    }
}

impl WriterModel {
    /// Whether the next step looks at the ring. Without a take its items wait,
    /// unless the writer leaves.
    pub open spec fn reads(self) -> bool {
        match self.phase {
            WriterPhase::Reading => self.take is Some,
            WriterPhase::Clearing => true,
            WriterPhase::Closing => false,
        }
    }

    /// The writer once it leaves: a take that lost its stream says so.
    pub open spec fn leaving(self) -> WriterModel {
        WriterModel {
            phase: WriterPhase::Clearing,
            take: match self.take {
                Some(take) => if self.stream_failed {
                    Some(
                        TakeModel {
                            error: first_of(
                                take.error,
                                Some("audio stream failed while recording"@),
                            ),
                            ..take
                        },
                    )
                } else {
                    Some(take)
                },
                None => None,
            },
            ..self
        }
    }

    /// The writer after an item was read: the take ends with its marker.
    pub open spec fn after_item(self, item: RecordingItem) -> WriterModel {
        WriterModel {
            take: if item is End {
                None
            } else {
                self.take
            },
            progressed: true,
            ..self
        }
    }
}

/// What is made of an item that was read.
pub open spec fn followed(before: WriterModel, item: RecordingItem, step: WriterStep) -> bool {
    let live = before.phase == WriterPhase::Reading;
    match before.take {
        None => step is Discard,
        Some(open) => match item {
            RecordingItem::Frame { left, right } => step == (WriterStep::Write {
                left,
                right,
                live,
            }),
            RecordingItem::End { overflowed } => {
                &&& step matches WriterStep::Finish { take, overflowed: over, live: shown }
                &&& take@ == open
                &&& over == overflowed
                &&& shown == live
            },
        },
    }
}

/// What happens where nothing is read: the writer listens, goes on to the next
/// phase, finishes the take that is left, or leaves.
pub open spec fn turned(before: WriterModel, after: WriterModel, step: WriterStep) -> bool {
    match before.phase {
        WriterPhase::Reading => if before.shutdown {
            step is Proceed && after == before.leaving()
        } else {
            step == (WriterStep::Listen { idle: !before.progressed }) && after == (WriterModel {
                progressed: false,
                ..before
            })
        },
        WriterPhase::Clearing => step is Proceed && after == (WriterModel {
            phase: WriterPhase::Closing,
            ..before
        }),
        WriterPhase::Closing => match before.take {
            Some(open) => {
                &&& step matches WriterStep::Finish { take, overflowed, live }
                &&& take@ == open
                &&& !overflowed
                &&& !live
                &&& after == (WriterModel { take: None, ..before })
            },
            None => step is Leave && after == before,
        },
    }
}

pub open spec fn take_view(take: Option<Take>) -> Option<TakeModel> {
    match take {
        Some(t) => Some(t@),
        None => None,
    }
}

impl Writer {
    pub fn new() -> (writer: Writer)
        ensures
            writer@ == (WriterModel {
                take: None,
                phase: WriterPhase::Reading,
                shutdown: false,
                stream_failed: false,
                progressed: false,
            }),
    {
        Writer {
            take: None,
            phase: WriterPhase::Reading,
            shutdown: false,
            stream_failed: false,
            progressed: false,
        }
    }

    /// Carries out a command; hands out a take that a new one replaces.
    pub fn receive(&mut self, command: WriterCommand) -> (replaced: Option<Take>)
        ensures
            match command {
                WriterCommand::Prepare { path } => {
                    &&& take_view(replaced) == old(self)@.take
                    &&& final(self)@ == (WriterModel {
                        take: Some(fresh_take(path@)),
                        ..old(self)@
                    })
                },
                WriterCommand::Shutdown { stream_failed } => {
                    &&& replaced is None
                    &&& final(self)@ == (WriterModel {
                        shutdown: true,
                        stream_failed,
                        ..old(self)@
                    })
                },
                WriterCommand::Disconnected => {
                    &&& replaced is None
                    &&& final(self)@ == (WriterModel { shutdown: true, ..old(self)@ })
                },
            },
    {
        match command {
            WriterCommand::Prepare { path } => {
                let replaced = self.take.take();
                self.take = Some(Take::new(path));
                replaced
            },
            WriterCommand::Shutdown { stream_failed } => {
                self.shutdown = true;
                self.stream_failed = stream_failed;
                None
            },
            WriterCommand::Disconnected => {
                self.shutdown = true;
                None
            },
        }
    }

    /// Decides what to do with an item. A take leaves the writer with its end.
    pub fn route(&mut self, item: RecordingItem) -> (step: WriterStep)
        ensures
            followed(old(self)@, item, step),
            final(self)@ == old(self)@.after_item(item),
    {
        self.progressed = true;
        let live: bool = self.phase == WriterPhase::Reading;
        match item {
            RecordingItem::Frame { left, right } => if self.take.is_some() {
                WriterStep::Write { left, right, live }
            } else {
                WriterStep::Discard
            },
            RecordingItem::End { overflowed } => match self.take.take() {
                Some(take) => WriterStep::Finish { take, overflowed, live },
                None => WriterStep::Discard,
            },
        }
    }

    /// Decides what to do where nothing was read.
    pub fn turn(&mut self) -> (step: WriterStep)
        ensures
            turned(old(self)@, final(self)@, step),
    {
        match self.phase {
            WriterPhase::Reading => if self.shutdown {
                if self.stream_failed {
                    if let Some(take) = self.take.take() {
                        let mut lost = take;
                        lost.lose_stream();
                        self.take = Some(lost);
                    }
                }
                self.phase = WriterPhase::Clearing;
                WriterStep::Proceed
            } else {
                let idle: bool = !self.progressed;
                self.progressed = false;
                WriterStep::Listen { idle }
            },
            WriterPhase::Clearing => {
                self.phase = WriterPhase::Closing;
                WriterStep::Proceed
            },
            WriterPhase::Closing => match self.take.take() {
                Some(take) => WriterStep::Finish { take, overflowed: false, live: false },
                None => WriterStep::Leave,
            },
        }
    }

    /// One step of the writer: the next item of the ring, or what comes after
    /// the last one. An item that is known to wait is read.
    pub fn pull(&mut self, queue: &mut Consumer<RecordingItem>) -> (step: WriterStep)
        ensures
            !old(self)@.reads() ==> *final(queue) == *old(queue) && turned(
                old(self)@,
                final(self)@,
                step,
            ),
            old(self)@.reads() && items_taken(*final(queue)) == items_taken(*old(queue)) ==> turned(
                old(self)@,
                final(self)@,
                step,
            ) && items_waiting(*old(queue)) == 0 && items_waiting(*final(queue)) == 0,
            old(self)@.reads() && items_taken(*final(queue)) != items_taken(*old(queue)) ==> {
                let item = items_taken(*final(queue)).last();
                &&& items_taken(*final(queue)) == items_taken(*old(queue)).push(item)
                &&& followed(old(self)@, item, step)
                &&& final(self)@ == old(self)@.after_item(item)
                &&& items_waiting(*old(queue)) > 0 ==> items_waiting(*final(queue)) + 1
                    == items_waiting(*old(queue))
            },
    {
        let reads: bool = match self.phase {
            WriterPhase::Reading => self.take.is_some(),
            WriterPhase::Clearing => true,
            WriterPhase::Closing => false,
        };
        if !reads {
            return self.turn();
        }
        match pop_item(queue) {
            None => self.turn(),
            Some(item) => {
                assert(items_taken(*queue).len() == items_taken(*old(queue)).len() + 1);
                self.route(item)
            },
        }
    }
}

/// While the writer reads for a take, every frame is written to it in the order
/// of the ring, and none of them costs the take its good standing.
pub proof fn accepted_frames_are_written(
    states: Seq<WriterModel>,
    items: Seq<RecordingItem>,
    steps: Seq<WriterStep>,
    i: int,
)
    requires
        0 <= i < items.len(),
        states.len() == items.len(),
        steps.len() == items.len(),
        forall|k: int|
            0 <= k < items.len() ==> (#[trigger] states[k]).phase == WriterPhase::Reading
                && states[k].take is Some && followed(states[k], items[k], steps[k]),
    ensures
        items[i] matches RecordingItem::Frame { left, right } ==> steps[i] == (WriterStep::Write {
            left,
            right,
            live: true,
        }) && states[i].after_item(items[i]).take == states[i].take,
{
    let _ = states[i];
}

/// A take learns that its stream is lost only once, when the writer turns from
/// reading to leaving, where it has read everything that the ring held: what
/// was accepted before is kept.
pub proof fn lost_streams_keep_what_was_accepted(
    before: WriterModel,
    after: WriterModel,
    step: WriterStep,
)
    requires
        turned(before, after, step),
        after.take != before.take,
    ensures
        before.phase == WriterPhase::Reading ==> before.shutdown && before.stream_failed
            && after.phase == WriterPhase::Clearing && before.take->0.error is None
            && after.take->0.error == Some("audio stream failed while recording"@)
            && after.take->0.frames == before.take->0.frames,
        before.phase != WriterPhase::Reading ==> before.phase == WriterPhase::Closing
            && after.take is None && step is Finish,
{
}

/// The phases of a writer that leaves follow each other, and it leaves only when
/// no take is left unfinished.
pub proof fn writers_leave_in_order(before: WriterModel, after: WriterModel, step: WriterStep)
    requires
        turned(before, after, step),
    ensures
        before.phase == WriterPhase::Reading && after.phase != before.phase ==> after.phase
            == WriterPhase::Clearing && before.shutdown,
        before.phase == WriterPhase::Clearing ==> after.phase == WriterPhase::Closing,
        before.phase == WriterPhase::Closing ==> after.phase == WriterPhase::Closing,
        step is Leave ==> before.phase == WriterPhase::Closing && before.take is None,
{
}

/// What the status shows after a frame: a take that went wrong asks for its
/// end.
pub fn note_frame(status: &mut AudioStatus, take: &Take)
    ensures
        final(status)@ == (StatusModel {
            recording_stop_requested: old(status)@.recording_stop_requested || take@.error is Some,
            ..old(status)@
        }),
{
    if !take.is_sound() {
        status.recording_stop_requested = true;
    }
}

/// What the status shows once the end of a take was dealt with.
pub fn note_end(status: &mut AudioStatus)
    ensures
        final(status)@ == (StatusModel { recording_finalizing: false, ..old(status)@ }),
{
    status.recording_finalizing = false;
}

/// What the status shows once the writer has left.
pub fn note_shutdown(status: &mut AudioStatus)
    ensures
        final(status)@ == (StatusModel {
            recording_active: false,
            recording_finalizing: false,
            recording_stop_requested: false,
            ..old(status)@
        }),
{
    status.recording_active = false;
    status.recording_finalizing = false;
    status.recording_stop_requested = false;
}

/// The header of a file is never older than a second of frames: between two
/// flushes fewer frames than the sample rate go to the file.
pub proof fn checkpoints_are_regular(take: TakeModel, sample_rate: nat)
    requires
        sample_rate >= 1,
        take.since_flush < sample_rate,
    ensures
        take.frame_written(sample_rate).since_flush < sample_rate,
        take.frame_written(sample_rate).since_flush == 0 <==> take.flush_due(sample_rate),
{
}

} // verus!
