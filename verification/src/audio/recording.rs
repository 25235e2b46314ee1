//! Recording: what the callback hands over, and what the writer makes of it.
use super::channel::{item_slots, items_room, items_sent, push_item};
use super::status::{AudioStatus, StatusModel};
use rtrb::Producer;
use vstd::prelude::*;

verus! {

#[derive(Clone, Copy, Debug, PartialEq, Eq, Structural)]
pub enum RecordingState {
    Idle,
    Recording,
    Finalizing,
}

/// How a recording ended.
#[derive(Debug)]
pub struct RecordingEvent {
    pub path: String,
    pub frames: u64,
    pub result: Result<(), String>,
}

/// What goes from the callback to the writer: frames, as the bits of their two
/// samples, and the end of a take in its place among them.
#[derive(Clone, Copy, Debug, PartialEq, Eq, Structural)]
pub enum RecordingItem {
    Frame { left: u32, right: u32 },
    End { overflowed: bool },
}

/// What to do with a frame.
#[derive(Clone, Copy, Debug, PartialEq, Eq, Structural)]
pub enum Capture {
    /// No take is running.
    Ignore,
    /// The writer asked for the end of the take.
    Finish,
    /// There is no room for another frame.
    Overflow,
    Keep,
}

/// One slot is always left for the end of the take.
pub open spec fn capture_for(active: bool, stop_requested: bool, slots: int) -> Capture {
    if !active {
        Capture::Ignore
    } else if stop_requested {
        Capture::Finish
    } else if slots <= 1 {
        Capture::Overflow
    } else {
        Capture::Keep
    }
}

/// Slots of the ring for a sample rate: two seconds and the end of a take.
pub open spec fn ring_slots(sample_rate: int) -> int {
    let slots = if 2 * sample_rate + 1 > usize::MAX {
        usize::MAX as int
    } else {
        2 * sample_rate + 1
    };
    if slots < 2 {
        2
    } else {
        slots
    }
}

pub fn recording_capacity(sample_rate: u32) -> (slots: usize)
    ensures
        slots == ring_slots(sample_rate as int),
        slots >= 2,
{
    let rate: usize = sample_rate as usize;
    let double: usize = if rate > usize::MAX / 2 { usize::MAX } else { rate * 2 };
    let slots: usize = if double == usize::MAX { usize::MAX } else { double + 1 };
    if slots < 2 {
        2
    } else {
        slots
    }
}

/// The callback's end of a recording.
pub struct RecordingProducer {
    pub queue: Producer<RecordingItem>,
    pub active: bool,
}

#[verifier::ext_equal]
pub struct ProducerModel {
    pub sent: Seq<RecordingItem>,
    pub active: bool,
}

impl View for RecordingProducer {
    type V = ProducerModel;

    open spec fn view(&self) -> ProducerModel {
        ProducerModel { sent: items_sent(self.queue), active: self.active }
    }
}

/// The status of a take that has just started.
pub open spec fn take_started(status: StatusModel) -> StatusModel {
    StatusModel {
        recording_stop_requested: false,
        recording_finalizing: false,
        recording_active: true,
        ..status
    }
}

/// The status of a take that has just ended; the writer still has to finish
/// it where it got the end.
pub open spec fn take_ended(status: StatusModel, delivered: bool) -> StatusModel {
    StatusModel { recording_active: false, recording_finalizing: delivered, ..status }
}

impl RecordingProducer {
    /// Free slots that the producer knows of.
    pub open spec fn room(self) -> nat {
        items_room(self.queue)
    }

    pub fn new(queue: Producer<RecordingItem>) -> (p: RecordingProducer)
        ensures
            p.queue == queue,
            p@ == (ProducerModel { sent: items_sent(queue), active: false }),
    {
        RecordingProducer { queue, active: false }
    }

    pub fn start(&mut self, status: &mut AudioStatus)
        ensures
            final(self)@ == (ProducerModel { active: true, ..old(self)@ }),
            final(status)@ == if old(self)@.active {
                old(status)@
            } else {
                take_started(old(status)@)
            },
            final(self).room() == old(self).room(),
    {
        if !self.active {
            self.active = true;
            status.recording_stop_requested = false;
            status.recording_finalizing = false;
            status.recording_active = true;
        }
    }

    /// Ends the take in good order.
    pub fn stop(&mut self, status: &mut AudioStatus) -> (delivered: bool)
        ensures
            ended(old(self), final(self), old(status)@, final(status)@, false, delivered),
    {
        self.end(false, status)
    }

    /// Takes a frame, or ends the take where the writer asked for it or no
    /// room is left. Whether there is room depends on the writer; where two
    /// slots are known to be free there is.
    pub fn capture(&mut self, left: u32, right: u32, status: &mut AudioStatus) -> (done: Capture)
        ensures
            !old(self)@.active <==> done is Ignore,
            old(self)@.active && old(status)@.recording_stop_requested <==> done is Finish,
            old(self)@.active && !old(status)@.recording_stop_requested && old(self).room() >= 2
                ==> done is Keep,
            match done {
                Capture::Ignore => final(self)@ == old(self)@ && final(status)@ == old(status)@
                    && final(self).room() == old(self).room(),
                Capture::Finish => exists|delivered: bool|
                    ended(old(self), final(self), old(status)@, final(status)@, false, delivered),
                Capture::Overflow => exists|delivered: bool|
                    ended(old(self), final(self), old(status)@, final(status)@, true, delivered),
                Capture::Keep => {
                    &&& final(self)@ == (ProducerModel {
                        sent: old(self)@.sent.push(RecordingItem::Frame { left, right }),
                        ..old(self)@
                    })
                    &&& final(status)@ == old(status)@
                    &&& final(self).room() >= 1
                    &&& final(self).room() + 1 >= old(self).room()
                },
            },
    {
        let slots: usize = if self.active && !status.recording_stop_requested {
            item_slots(&mut self.queue)
        } else {
            0
        };
        let ghost looked = *self;
        let done = decide_capture(self.active, status.recording_stop_requested, slots);
        match done {
            Capture::Ignore => {},
            Capture::Finish => {
                let delivered: bool = self.end(false, status);
                assert(ended(old(self), self, old(status)@, status@, false, delivered));
            },
            Capture::Overflow => {
                let delivered: bool = self.end(true, status);
                assert(ended(&looked, self, old(status)@, status@, true, delivered));
                assert(ended(old(self), self, old(status)@, status@, true, delivered));
            },
            Capture::Keep => {
                push_item(&mut self.queue, RecordingItem::Frame { left, right });
            },
        }
        done
    }

    fn end(&mut self, overflowed: bool, status: &mut AudioStatus) -> (delivered: bool)
        ensures
            ended(old(self), final(self), old(status)@, final(status)@, overflowed, delivered),
    {
        if !self.active {
            return false;
        }
        let delivered: bool = push_item(&mut self.queue, RecordingItem::End { overflowed });
        self.active = false;
        status.recording_active = false;
        status.recording_finalizing = delivered;
        delivered
    }
}

/// The end of a take: the marker is the last item of the take, unless the ring
/// is full to the brim; where a slot is known to be free it is delivered.
/// Without a take nothing happens.
pub open spec fn ended(
    before: &RecordingProducer,
    after: &RecordingProducer,
    status: StatusModel,
    shown: StatusModel,
    overflowed: bool,
    delivered: bool,
) -> bool {
    if !before@.active {
        after@ == before@ && shown == status && !delivered && after.room() == before.room()
    } else {
        &&& !after@.active
        &&& after@.sent == if delivered {
            before@.sent.push(RecordingItem::End { overflowed })
        } else {
            before@.sent
        }
        &&& shown == take_ended(status, delivered)
        &&& before.room() >= 1 ==> delivered
        &&& after.room() + 1 >= before.room()
    }
}

/// Decides what to do with a frame.
pub fn decide_capture(active: bool, stop_requested: bool, slots: usize) -> (done: Capture)
    ensures
        done == capture_for(active, stop_requested, slots as int),
{
    if !active {
        Capture::Ignore
    } else if stop_requested {
        Capture::Finish
    } else if slots <= 1 {
        Capture::Overflow
    } else {
        Capture::Keep
    }
}

/// Nothing but frames from a place on.
pub open spec fn only_frames(items: Seq<RecordingItem>, from: int) -> bool {
    0 <= from <= items.len() && forall|i: int|
        from <= i < items.len() ==> (#[trigger] items[i]) is Frame
}

/// However a take ends, the frames that were kept are a contiguous prefix of
/// those that were played, and its end comes after all of them.
pub proof fn takes_stay_contiguous(
    before: &RecordingProducer,
    after: &RecordingProducer,
    status: StatusModel,
    shown: StatusModel,
    overflowed: bool,
    delivered: bool,
    from: int,
)
    requires
        before@.active,
        only_frames(before@.sent, from),
        ended(before, after, status, shown, overflowed, delivered),
    ensures
        !after@.active,
        delivered ==> after@.sent.last() == (RecordingItem::End { overflowed })
            && after@.sent.drop_last() == before@.sent && only_frames(
            after@.sent.drop_last(),
            from,
        ),
        !delivered ==> only_frames(after@.sent, from),
{
    if delivered {
        assert(after@.sent.drop_last() =~= before@.sent);
    }
}

} // verus!
