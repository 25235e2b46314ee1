//! Takes: from the callback through the ring into a file.
use rtrb::RingBuffer;
use terminal_groove::audio::recording::{
    decide_capture, recording_capacity, Capture, RecordingItem, RecordingProducer,
};
use terminal_groove::audio::status::AudioStatus;
use terminal_groove::audio::writer::{
    note_end, note_frame, note_shutdown, Take, Writer, WriterCommand, WriterPhase, WriterStep,
};

fn bits(sample: f32) -> u32 {
    sample.to_bits()
}

#[test]
fn overflow_keeps_a_contiguous_prefix_and_ordered_end_marker() {
    let mut status = AudioStatus::default();
    let (queue, mut consumer) = RingBuffer::new(3);
    let mut producer = RecordingProducer::new(queue);
    producer.start(&mut status);
    producer.capture(bits(1.0), bits(-1.0), &mut status);
    producer.capture(bits(0.5), bits(-0.5), &mut status);
    producer.capture(bits(0.25), bits(-0.25), &mut status);
    assert!(!status.recording_active);
    assert!(status.recording_finalizing);
    assert_eq!(
        consumer.pop(),
        Ok(RecordingItem::Frame { left: bits(1.0), right: bits(-1.0) })
    );
    assert_eq!(
        consumer.pop(),
        Ok(RecordingItem::Frame { left: bits(0.5), right: bits(-0.5) })
    );
    assert_eq!(consumer.pop(), Ok(RecordingItem::End { overflowed: true }));
}

#[test]
fn a_capture_is_decided_by_the_room_that_is_left() {
    assert_eq!(decide_capture(false, true, 9), Capture::Ignore);
    assert_eq!(decide_capture(true, true, 9), Capture::Finish);
    assert_eq!(decide_capture(true, false, 1), Capture::Overflow);
    assert_eq!(decide_capture(true, false, 2), Capture::Keep);
    assert_eq!(recording_capacity(48_000), 96_001);
    assert_eq!(recording_capacity(0), 2);
}

#[test]
fn stopping_ends_a_take_in_order() {
    let mut status = AudioStatus::default();
    let (queue, mut consumer) = RingBuffer::new(8);
    let mut producer = RecordingProducer::new(queue);
    assert_eq!(producer.capture(1, 2, &mut status), Capture::Ignore);
    producer.start(&mut status);
    assert!(status.recording_active);
    assert_eq!(producer.capture(1, 2, &mut status), Capture::Keep);
    assert!(producer.stop(&mut status));
    assert!(!producer.stop(&mut status));
    assert_eq!(consumer.pop(), Ok(RecordingItem::Frame { left: 1, right: 2 }));
    assert_eq!(consumer.pop(), Ok(RecordingItem::End { overflowed: false }));
    assert!(consumer.pop().is_err());
}

#[test]
fn a_writer_that_failed_stops_the_callback() {
    let mut status = AudioStatus::default();
    let (queue, _consumer) = RingBuffer::new(8);
    let mut producer = RecordingProducer::new(queue);
    producer.start(&mut status);
    let mut take = Take::new(String::from("a.wav"));
    note_frame(&mut status, &take);
    assert!(!status.recording_stop_requested);
    take.write_frame(Err(String::from("disk full")), 48_000);
    assert!(!take.is_sound());
    note_frame(&mut status, &take);
    assert!(status.recording_stop_requested);
    assert_eq!(producer.capture(1, 2, &mut status), Capture::Finish);
    let event = take.finish(false, Ok(()), Ok(()));
    assert_eq!(event.result, Err(String::from("could not write WAV data: disk full")));
}

#[test]
fn checkpoints_come_once_a_second() {
    let mut take = Take::new(String::from("a.wav"));
    let flushes: Vec<bool> = (0..9).map(|_| take.write_frame(Ok(()), 4)).collect();
    assert_eq!(
        flushes,
        vec![false, false, false, true, false, false, false, true, false]
    );
    assert_eq!(take.frames, 9);
    take.checkpoint(Err(String::from("gone")));
    let event = take.finish(true, Ok(()), Err(String::from("late")));
    assert_eq!(event.frames, 9);
    assert_eq!(
        event.result,
        Err(String::from("could not checkpoint WAV header: gone"))
    );
}

#[test]
fn the_first_error_of_a_take_is_kept() {
    let overflowed = Take::new(String::from("a.wav")).finish(true, Ok(()), Ok(()));
    assert_eq!(overflowed.path, "a.wav");
    assert_eq!(
        overflowed.result,
        Err(String::from(
            "recording queue overflowed; the contiguous captured prefix was retained"
        ))
    );
    let unflushed = Take::new(String::from("a.wav")).finish(
        false,
        Err(String::from("x")),
        Err(String::from("y")),
    );
    assert_eq!(unflushed.result, Err(String::from("could not flush WAV header: x")));
    let unfinished =
        Take::new(String::from("a.wav")).finish(false, Ok(()), Err(String::from("y")));
    assert_eq!(unfinished.result, Err(String::from("could not finalize WAV: y")));
    let sound = Take::new(String::from("a.wav")).finish(false, Ok(()), Ok(()));
    assert_eq!(sound.result, Ok(()));
}

#[test]
fn a_writer_routes_items_to_its_take() {
    let mut status = AudioStatus::default();
    let (mut producer, mut queue) = RingBuffer::new(8);
    let mut writer = Writer::new();
    producer.push(RecordingItem::Frame { left: 3, right: 4 }).unwrap();
    assert!(matches!(writer.pull(&mut queue), WriterStep::Listen { idle: true }));
    assert_eq!(queue.slots(), 1);
    assert!(writer.receive(WriterCommand::Prepare { path: String::from("a.wav") }).is_none());
    producer.push(RecordingItem::End { overflowed: true }).unwrap();
    producer.push(RecordingItem::Frame { left: 5, right: 6 }).unwrap();
    assert!(matches!(
        writer.pull(&mut queue),
        WriterStep::Write { left: 3, right: 4, live: true }
    ));
    let WriterStep::Finish { take, overflowed, live } = writer.pull(&mut queue) else {
        panic!("expected the end of the take")
    };
    assert!(overflowed && live);
    assert_eq!(take.path, "a.wav");
    status.recording_finalizing = true;
    note_end(&mut status);
    assert!(!status.recording_finalizing);
    assert!(matches!(writer.pull(&mut queue), WriterStep::Listen { idle: false }));
    assert!(matches!(writer.pull(&mut queue), WriterStep::Listen { idle: true }));

    writer.receive(WriterCommand::Prepare { path: String::from("b.wav") });
    let replaced = writer.receive(WriterCommand::Prepare { path: String::from("c.wav") });
    assert_eq!(replaced.unwrap().path, "b.wav");
}

#[test]
fn failed_stream_shutdown_without_callback_end_finalizes_the_accepted_prefix() {
    let mut status = AudioStatus::default();
    let (queue, mut items) = RingBuffer::new(8);
    let mut producer = RecordingProducer::new(queue);
    let mut writer = Writer::new();
    writer.receive(WriterCommand::Prepare { path: String::from("failed-stream.wav") });
    producer.start(&mut status);
    producer.capture(bits(0.25), bits(-0.25), &mut status);
    producer.capture(bits(0.5), bits(-0.5), &mut status);
    drop(producer);
    writer.receive(WriterCommand::Shutdown { stream_failed: true });
    assert!(writer.shutdown);
    let mut event = None;
    loop {
        match writer.pull(&mut items) {
            WriterStep::Write { .. } => {
                writer.take.as_mut().unwrap().write_frame(Ok(()), 48_000);
            }
            WriterStep::Finish { take, overflowed, live } => {
                assert!(!overflowed && !live);
                event = Some(take.finish(overflowed, Ok(()), Ok(())));
            }
            WriterStep::Proceed => {}
            WriterStep::Leave => break,
            other => panic!("unexpected step {other:?}"),
        }
    }
    let event = event.unwrap();
    assert_eq!(event.frames, 2);
    assert_eq!(event.result, Err(String::from("audio stream failed while recording")));
    note_shutdown(&mut status);
    assert!(!status.recording_active);
}

#[test]
fn a_writer_leaves_in_order() {
    let (mut producer, mut queue) = RingBuffer::new(8);
    let mut writer = Writer::new();
    writer.receive(WriterCommand::Prepare { path: String::from("a.wav") });
    producer.push(RecordingItem::End { overflowed: false }).unwrap();
    producer.push(RecordingItem::Frame { left: 1, right: 2 }).unwrap();
    writer.receive(WriterCommand::Disconnected);
    assert!(matches!(
        writer.pull(&mut queue),
        WriterStep::Finish { overflowed: false, live: true, .. }
    ));
    assert!(matches!(writer.pull(&mut queue), WriterStep::Proceed));
    assert_eq!(writer.phase, WriterPhase::Clearing);
    assert!(matches!(writer.pull(&mut queue), WriterStep::Discard));
    assert!(matches!(writer.pull(&mut queue), WriterStep::Proceed));
    assert_eq!(writer.phase, WriterPhase::Closing);
    assert!(matches!(writer.pull(&mut queue), WriterStep::Leave));
}
