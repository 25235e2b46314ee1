//! The user interface's end of the engine.
use super::channel::{
    command_slots, commands_room, commands_sent, pop_project, projects_taken, projects_waiting,
    push_command,
};
use super::command::{AudioCommand, CommandModel, Replacement};
use super::controls::ParameterSmoothing;
use super::recording::RecordingState;
use super::snapshot::{
    project_snapshot, snapshot_source, updated_snapshot, AudioProject, EditImpact, ProjectModel,
};
use crate::model::index_map::{IndexEdit, PatternIndexMap, SongIndexMap};
use crate::model::project::{Project, TRACK_COUNT};
use rtrb::{Consumer, Producer};
use vstd::prelude::*;

verus! {

/// The ring of commands had no room.
#[derive(Clone, Copy, Debug, PartialEq, Eq, Structural)]
pub struct QueueFull;

impl QueueFull {
    pub fn message(&self) -> (text: &'static str)
        ensures
            text@ == "audio command queue full"@,
    {
        "audio command queue full"
    }
}

/// Why a recording was not started or stopped.
#[derive(Clone, Copy, Debug, PartialEq, Eq, Structural)]
pub enum RecordingError {
    StreamFailed,
    Busy,
    NotRecording,
    Queue(QueueFull),
}

impl RecordingError {
    pub open spec fn text(self) -> Seq<char> {
        match self {
            RecordingError::StreamFailed => "audio stream has failed; cannot start recording"@,
            RecordingError::Busy => "a recording is already active or finalizing"@,
            RecordingError::NotRecording => "no recording is active"@,
            RecordingError::Queue(_) => "could not start or stop recording"@,
        }
    }

    pub fn message(&self) -> (text: &'static str)
        ensures
            text@ == self.text(),
    {
        match self {
            RecordingError::StreamFailed => "audio stream has failed; cannot start recording",
            RecordingError::Busy => "a recording is already active or finalizing",
            RecordingError::NotRecording => "no recording is active",
            RecordingError::Queue(_) => "could not start or stop recording",
        }
    }
}

/// The error of a recording for which the ring of commands had no room.
pub fn queue_full_error() -> (error: RecordingError)
    ensures
        error == RecordingError::Queue(QueueFull),
{
    RecordingError::Queue(QueueFull)
}

/// What became of a request to stop a recording.
#[derive(Clone, Copy, Debug, PartialEq, Eq, Structural)]
pub enum StopRequest {
    /// The callback ends the take.
    Sent,
    /// The stream has failed, so the writer has to end the take. Where `close`
    /// is set the stream is to be closed first.
    StreamLost { close: bool },
}

/// That a ring of retired projects was emptied: what was known to wait in it
/// was taken, and nothing is known to wait any more. One pass stops at the
/// largest count that there is.
pub open spec fn swept(
    before: Consumer<Box<AudioProject>>,
    after: Consumer<Box<AudioProject>>,
) -> bool {
    let earlier = projects_taken(before);
    let count = projects_taken(after).len() - earlier.len();
    &&& earlier.len() <= projects_taken(after).len()
    &&& projects_taken(after).take(earlier.len() as int) == earlier
    &&& count < usize::MAX ==> projects_waiting(after) == 0
    &&& count < usize::MAX ==> count >= projects_waiting(before)
}

proof fn swept_again(
    before: Consumer<Box<AudioProject>>,
    between: Consumer<Box<AudioProject>>,
    after: Consumer<Box<AudioProject>>,
)
    requires
        swept(before, between),
        swept(between, after),
    ensures
        swept(before, after),
{
    let earlier = projects_taken(before).len() as int;
    let middle = projects_taken(between).len() as int;
    assert(projects_taken(after).take(middle).take(earlier) =~= projects_taken(after).take(
        earlier,
    ));
}

/// Takes everything out of a ring of retired projects. They are destroyed
/// here, never in the callback.
pub fn reap_retired_queue(retired: &mut Consumer<Box<AudioProject>>) -> (count: usize)
    ensures
        projects_taken(*final(retired)).len() == projects_taken(*old(retired)).len() + count,
        swept(*old(retired), *final(retired)),
{
    let mut count: usize = 0;
    let mut more: bool = true;
    assert(projects_taken(*retired).take(projects_taken(*old(retired)).len() as int)
        =~= projects_taken(*old(retired)));
    while more && count < usize::MAX
        invariant
            projects_taken(*retired).len() == projects_taken(*old(retired)).len() + count,
            projects_taken(*retired).take(projects_taken(*old(retired)).len() as int)
                == projects_taken(*old(retired)),
            !more ==> projects_waiting(*retired) == 0,
            projects_waiting(*old(retired)) <= projects_waiting(*retired) + count,
        decreases usize::MAX - count + if more {
            1int
        } else {
            0
        },
    {
        let ghost before = projects_taken(*retired);
        match pop_project(retired) {
            Some(_) => {
                assert(projects_taken(*retired).take(projects_taken(*old(retired)).len() as int)
                    =~= before.take(projects_taken(*old(retired)).len() as int));
                count = count + 1;
            },
            None => {
                more = false;
            },
        }
    }
    count
}

/// Why a recording was not started: it was refused, or its file could not be
/// prepared.
#[derive(Clone, Copy, Debug, PartialEq, Eq)]
pub enum StartError<E> {
    Refused(RecordingError),
    Prepare(E),
}

/// Where a shutdown stands: the take is being stopped, or what is left of it
/// written.
#[derive(Clone, Copy, Debug, PartialEq, Eq, Structural)]
pub enum ShutdownPhase {
    Stopping,
    Draining,
}

/// What a shutdown needs done next.
#[derive(Clone, Copy, Debug, PartialEq, Eq, Structural)]
pub enum ShutdownAction {
    /// Let the callback make room for a command, and ask again.
    Wait,
    /// Close the stream where `close` is set, and look whether the writer has
    /// finished.
    Poll { close: bool },
    /// Nothing is recorded any more: close everything.
    Close,
}

pub struct Audio {
    pub producer: Producer<AudioCommand>,
    pub retired: Consumer<Box<AudioProject>>,
    pub recording_state: RecordingState,
    pub recording_path: Option<String>,
    /// The project that was last sent: the base of the next edit.
    pub snapshot_project: AudioProject,
}

#[verifier::ext_equal]
pub struct AudioModel {
    pub sent: Seq<CommandModel>,
    pub recording_state: RecordingState,
    pub recording_path: Option<Seq<char>>,
    pub snapshot: ProjectModel,
}

impl View for Audio {
    type V = AudioModel;

    open spec fn view(&self) -> AudioModel {
        AudioModel {
            sent: commands_sent(self.producer),
            recording_state: self.recording_state,
            recording_path: match self.recording_path {
                Some(path) => Some(path@),
                None => None,
            },
            snapshot: self.snapshot_project@,
        }
    }
}

impl AudioModel {
    /// The control after a command went into the ring. A project that was sent
    /// is the base of later edits.
    pub open spec fn command_sent(self, command: CommandModel) -> AudioModel {
        AudioModel {
            sent: self.sent.push(command),
            snapshot: match command {
                CommandModel::ReplaceProject(next) => next.project,
                _ => self.snapshot,
            },
            ..self
        }
    }

    /// Why no new recording may start, whatever room there is for commands.
    pub open spec fn start_refusal(self, stream_failed: bool) -> Option<RecordingError> {
        if stream_failed {
            Some(RecordingError::StreamFailed)
        } else if self.recording_state != RecordingState::Idle {
            Some(RecordingError::Busy)
        } else {
            None
        }
    }

    pub open spec fn recording_started(self, path: Seq<char>) -> AudioModel {
        AudioModel {
            recording_state: RecordingState::Recording,
            recording_path: Some(path),
            ..self.command_sent(CommandModel::StartRecording)
        }
    }

    /// Whether the stream has to be closed so that the writer can end the
    /// take: a take is open, and the stream still is.
    pub open spec fn abandons(self, has_stream: bool) -> bool {
        self.recording_state != RecordingState::Idle && has_stream
    }

    pub open spec fn abandoned(self, has_stream: bool) -> AudioModel {
        if self.abandons(has_stream) {
            AudioModel { recording_state: RecordingState::Finalizing, ..self }
        } else {
            self
        }
    }
}

impl Audio {
    /// The room for commands that is known of.
    pub open spec fn room(&self) -> nat {
        commands_room(self.producer)
    }

    pub fn new(
        producer: Producer<AudioCommand>,
        retired: Consumer<Box<AudioProject>>,
        snapshot_project: AudioProject,
    ) -> (audio: Audio)
        ensures
            audio.producer == producer,
            audio.retired == retired,
            audio@ == (AudioModel {
                sent: commands_sent(producer),
                recording_state: RecordingState::Idle,
                recording_path: None,
                snapshot: snapshot_project@,
            }),
    {
        Audio {
            producer,
            retired,
            recording_state: RecordingState::Idle,
            recording_path: None,
            snapshot_project,
        }
    }

    /// Destroys the projects that the callback has retired.
    pub fn reap_retired(&mut self) -> (count: usize)
        ensures
            final(self)@ == old(self)@,
            final(self).room() == old(self).room(),
            projects_taken(final(self).retired).len() == projects_taken(old(self).retired).len()
                + count,
            swept(old(self).retired, final(self).retired),
    {
        reap_retired_queue(&mut self.retired)
    }

    /// Destroys what the callback has retired and sends a command. Only a
    /// project that went into the ring becomes the base of later edits. Where no
    /// room is known of, the callback decides.
    pub fn send(&mut self, command: AudioCommand) -> (r: Result<(), QueueFull>)
        ensures
            old(self).room() > 0 ==> r is Ok,
            r is Err ==> final(self).room() == 0,
            final(self)@ == match r {
                Ok(()) => old(self)@.command_sent(command@),
                Err(_) => old(self)@,
            },
            swept(old(self).retired, final(self).retired),
    {
        self.reap_retired();
        let replacement = match &command {
            AudioCommand::ReplaceProject { project, .. } => Some(project.duplicate()),
            _ => None,
        };
        match push_command(&mut self.producer, command) {
            Err(_) => Err(QueueFull),
            Ok(()) => {
                if let Some(project) = replacement {
                    self.snapshot_project = project;
                }
                Ok(())
            },
        }
    }

    /// Sends an edited project, of which only what the edit touched is taken
    /// anew.
    pub fn send_project_update(
        &mut self,
        project: &Project,
        impact: &EditImpact,
        smoothing: ParameterSmoothing,
        pattern_map: PatternIndexMap,
        song_map: SongIndexMap,
    ) -> (r: Result<(), QueueFull>)
        requires
            snapshot_source(*project),
            old(self)@.snapshot.tracks.len() == TRACK_COUNT,
            project.patterns@.len() < usize::MAX,
        ensures
            old(self).room() > 0 ==> r is Ok,
            r is Err ==> final(self).room() == 0,
            final(self)@ == match r {
                Ok(()) => old(self)@.command_sent(
                    CommandModel::ReplaceProject(
                        Replacement {
                            project: updated_snapshot(
                                old(self)@.snapshot,
                                *project,
                                *impact,
                                pattern_map.edit,
                            ),
                            smoothing,
                            pattern_map,
                            song_map,
                        },
                    ),
                ),
                Err(_) => old(self)@,
            },
            swept(old(self).retired, final(self).retired),
    {
        let next = self.snapshot_project.updated(project, impact, pattern_map);
        self.send(
            AudioCommand::ReplaceProject {
                project: Box::new(next),
                smoothing,
                pattern_map,
                song_map,
            },
        )
    }

    /// How many commands there is room for.
    pub fn available_commands(&mut self) -> (slots: usize)
        ensures
            slots == final(self).room(),
            slots >= old(self).room(),
            final(self)@ == old(self)@,
            final(self).retired == old(self).retired,
    {
        command_slots(&mut self.producer)
    }

    /// What the recording is doing. The callback may already have ended the
    /// take.
    pub fn recording_state(&self, finalizing: bool) -> (state: RecordingState)
        ensures
            state == if self@.recording_state == RecordingState::Recording && finalizing {
                RecordingState::Finalizing
            } else {
                self@.recording_state
            },
    {
        if self.recording_state == RecordingState::Recording && finalizing {
            RecordingState::Finalizing
        } else {
            self.recording_state
        }
    }

    /// Starts a recording, once `prepare` has made its file ready. Room for the
    /// command is found before, so that no file is prepared in vain.
    pub fn start_recording<E, P: FnOnce(&str) -> Result<(), E>>(
        &mut self,
        stream_failed: bool,
        path: String,
        prepare: P,
    ) -> (r: Result<(), StartError<E>>)
        requires
            forall|file: &str| file@ == path@ ==> call_requires(prepare, (file,)),
        ensures
            match old(self)@.start_refusal(stream_failed) {
                Some(error) => r == Err::<(), StartError<E>>(StartError::Refused(error))
                    && final(self)@ == old(self)@,
                None => match r {
                    Ok(()) => prepared(prepare, path@, None) && final(self)@
                        == old(self)@.recording_started(path@),
                    Err(StartError::Prepare(error)) => prepared(prepare, path@, Some(error))
                        && final(self)@ == old(self)@,
                    Err(StartError::Refused(error)) => error == RecordingError::Queue(QueueFull)
                        && old(self).room() == 0 && final(self).room() == 0 && final(self)@
                        == old(self)@,
                },
            },
            if r is Ok {
                swept(old(self).retired, final(self).retired)
            } else {
                final(self).retired == old(self).retired
            },
    {
        if stream_failed {
            return Err(StartError::Refused(RecordingError::StreamFailed));
        }
        if self.recording_state != RecordingState::Idle {
            return Err(StartError::Refused(RecordingError::Busy));
        }
        if self.available_commands() == 0 {
            return Err(StartError::Refused(queue_full_error()));
        }
        let file: &str = path.as_str();
        let answer = prepare(file);
        assert(call_ensures(prepare, (file,), answer));
        match answer {
            Err(error) => {
                assert(prepared(prepare, path@, Some(error)));
                return Err(StartError::Prepare(error));
            },
            Ok(()) => {
                assert(prepared(prepare, path@, None));
            },
        }
        match self.send(AudioCommand::StartRecording) {
            Err(_) => Err(StartError::Refused(queue_full_error())),
            Ok(()) => {
                self.recording_path = Some(path);
                self.recording_state = RecordingState::Recording;
                Ok(())
            },
        }
    }

    /// Stops the recording. A stream that has failed cannot end its take.
    pub fn stop_recording(&mut self, stream_failed: bool, has_stream: bool) -> (r: Result<
        StopRequest,
        RecordingError,
    >)
        ensures
            old(self)@.recording_state != RecordingState::Recording ==> r == Err::<
                StopRequest,
                RecordingError,
            >(RecordingError::NotRecording) && final(self)@ == old(self)@,
            old(self)@.recording_state == RecordingState::Recording && stream_failed ==> r == Ok::<
                StopRequest,
                RecordingError,
            >(StopRequest::StreamLost { close: has_stream }) && final(self)@
                == old(self)@.abandoned(has_stream),
            old(self)@.recording_state == RecordingState::Recording && !stream_failed ==> match r {
                Ok(request) => request == StopRequest::Sent && final(self)@ == (AudioModel {
                    recording_state: RecordingState::Finalizing,
                    ..old(self)@.command_sent(CommandModel::StopRecording)
                }),
                Err(error) => error == RecordingError::Queue(QueueFull) && old(self).room() == 0
                    && final(self)@ == old(self)@,
            },
            if old(self)@.recording_state == RecordingState::Recording && !stream_failed {
                swept(old(self).retired, final(self).retired)
            } else {
                final(self).retired == old(self).retired && final(self).room() == old(self).room()
            },
    {
        if self.recording_state != RecordingState::Recording {
            return Err(RecordingError::NotRecording);
        }
        if stream_failed {
            let close: bool = self.begin_failed_stream_finalization(has_stream);
            return Ok(StopRequest::StreamLost { close });
        }
        match self.send(AudioCommand::StopRecording) {
            Err(_) => Err(queue_full_error()),
            Ok(()) => {
                self.recording_state = RecordingState::Finalizing;
                Ok(StopRequest::Sent)
            },
        }
    }

    /// A failed callback cannot deliver the end of its take. Says whether the
    /// stream is to be closed, so that the writer can finish what it got.
    pub fn begin_failed_stream_finalization(&mut self, has_stream: bool) -> (close: bool)
        ensures
            close == old(self)@.abandons(has_stream),
            final(self)@ == old(self)@.abandoned(has_stream),
            final(self).retired == old(self).retired,
            final(self).room() == old(self).room(),
    {
        if self.recording_state == RecordingState::Idle || !has_stream {
            return false;
        }
        self.recording_state = RecordingState::Finalizing;
        true
    }

    /// To be called before the writer is asked for a finished take. Says
    /// whether the stream is to be closed first.
    pub fn before_poll(&mut self, stream_failed: bool, has_stream: bool) -> (close: bool)
        ensures
            close == (stream_failed && old(self)@.abandons(has_stream)),
            final(self)@ == if stream_failed {
                old(self)@.abandoned(has_stream)
            } else {
                old(self)@
            },
            final(self).retired == old(self).retired,
            final(self).room() == old(self).room(),
    {
        if self.recording_state != RecordingState::Idle && stream_failed {
            self.begin_failed_stream_finalization(has_stream)
        } else {
            false
        }
    }

    /// One step of a shutdown, which goes on until the recording is idle: stops
    /// the take, for which there may be no room yet, and then waits for the
    /// writer. A stream that has failed is closed instead.
    pub fn shutdown_recording(
        &mut self,
        phase: &mut ShutdownPhase,
        stream_failed: bool,
        has_stream: bool,
    ) -> (action: ShutdownAction)
        ensures
            old(self)@.recording_state == RecordingState::Idle ==> action == ShutdownAction::Close
                && final(self)@ == old(self)@,
            old(self)@.recording_state != RecordingState::Idle && stream_failed ==> action
                == (ShutdownAction::Poll { close: has_stream }) && *final(phase)
                == ShutdownPhase::Draining && final(self)@ == old(self)@.abandoned(has_stream),
            old(self)@.recording_state != RecordingState::Idle && !stream_failed && (*old(phase)
                == ShutdownPhase::Draining || old(self)@.recording_state
                == RecordingState::Finalizing) ==> action == (ShutdownAction::Poll { close: false })
                && *final(phase) == ShutdownPhase::Draining && final(self)@ == old(self)@,
            old(self)@.recording_state == RecordingState::Recording && !stream_failed && *old(phase)
                == ShutdownPhase::Stopping ==> match action {
                ShutdownAction::Wait => old(self).room() == 0 && *final(phase)
                    == ShutdownPhase::Stopping && final(self)@ == old(self)@,
                ShutdownAction::Poll { close } => !close && *final(phase) == ShutdownPhase::Draining
                    && final(self)@ == (AudioModel {
                    recording_state: RecordingState::Finalizing,
                    ..old(self)@.command_sent(CommandModel::StopRecording)
                }),
                ShutdownAction::Close => false,
            },
            if old(self)@.recording_state == RecordingState::Idle {
                *final(phase) == *old(phase) && final(self).retired == old(self).retired
            } else {
                swept(old(self).retired, final(self).retired)
            },
    {
        if self.recording_state == RecordingState::Idle {
            return ShutdownAction::Close;
        }
        self.reap_retired();
        if stream_failed {
            *phase = ShutdownPhase::Draining;
            let close: bool = self.begin_failed_stream_finalization(has_stream);
            return ShutdownAction::Poll { close };
        }
        if *phase == ShutdownPhase::Stopping && self.recording_state == RecordingState::Recording {
            let ghost between = self.retired;
            let stopped = self.stop_recording(false, has_stream);
            proof {
                swept_again(old(self).retired, between, self.retired);
            }
            match stopped {
                Ok(_) => {},
                Err(_) => {
                    return ShutdownAction::Wait;
                },
            }
        }
        *phase = ShutdownPhase::Draining;
        ShutdownAction::Poll { close: false }
    }

    /// Takes over that a take was finished.
    pub fn recording_finished(&mut self)
        ensures
            final(self)@ == (AudioModel {
                recording_state: RecordingState::Idle,
                recording_path: None,
                ..old(self)@
            }),
            final(self).retired == old(self).retired,
            final(self).room() == old(self).room(),
    {
        self.recording_state = RecordingState::Idle;
        self.recording_path = None;
    }

    /// A replacement of the project as it stands.
    pub fn snapshot(project: &Project) -> (command: AudioCommand)
        requires
            snapshot_source(*project),
        ensures
            command@ == CommandModel::ReplaceProject(
                Replacement {
                    project: project_snapshot(*project),
                    smoothing: ParameterSmoothing::Default,
                    pattern_map: PatternIndexMap {
                        edit: IndexEdit::Identity,
                    },
                    song_map: SongIndexMap { edit: IndexEdit::Identity },
                },
            ),
            project.wf() ==> command@.wf(),
    {
        Audio::snapshot_with_smoothing_and_maps(
            project,
            ParameterSmoothing::Default,
            PatternIndexMap::identity(),
            SongIndexMap::identity(),
        )
    }

    pub fn snapshot_with_smoothing(project: &Project, smoothing: ParameterSmoothing) -> (command:
        AudioCommand)
        requires
            snapshot_source(*project),
        ensures
            command@ == CommandModel::ReplaceProject(
                Replacement {
                    project: project_snapshot(*project),
                    smoothing,
                    pattern_map: PatternIndexMap {
                        edit: IndexEdit::Identity,
                    },
                    song_map: SongIndexMap { edit: IndexEdit::Identity },
                },
            ),
            project.wf() ==> command@.wf(),
    {
        Audio::snapshot_with_smoothing_and_maps(
            project,
            smoothing,
            PatternIndexMap::identity(),
            SongIndexMap::identity(),
        )
    }

    pub fn snapshot_with_smoothing_and_map(
        project: &Project,
        smoothing: ParameterSmoothing,
        pattern_map: PatternIndexMap,
    ) -> (command: AudioCommand)
        requires
            snapshot_source(*project),
        ensures
            command@ == CommandModel::ReplaceProject(
                Replacement {
                    project: project_snapshot(*project),
                    smoothing,
                    pattern_map,
                    song_map: SongIndexMap { edit: IndexEdit::Identity },
                },
            ),
            project.wf() ==> command@.wf(),
    {
        Audio::snapshot_with_smoothing_and_maps(
            project,
            smoothing,
            pattern_map,
            SongIndexMap::identity(),
        )
    }

    pub fn snapshot_with_smoothing_and_maps(
        project: &Project,
        smoothing: ParameterSmoothing,
        pattern_map: PatternIndexMap,
        song_map: SongIndexMap,
    ) -> (command: AudioCommand)
        requires
            snapshot_source(*project),
        ensures
            command@ == CommandModel::ReplaceProject(
                Replacement {
                    project: project_snapshot(*project),
                    smoothing,
                    pattern_map,
                    song_map,
                },
            ),
            project.wf() ==> command@.wf(),
    {
        AudioCommand::ReplaceProject {
            project: Box::new(AudioProject::from_project(project)),
            smoothing,
            pattern_map,
            song_map,
        }
    }
}

/// That `prepare` ended so for a file of that name: with an error, or well.
pub open spec fn prepared<E, P: FnOnce(&str) -> Result<(), E>>(
    prepare: P,
    path: Seq<char>,
    error: Option<E>,
) -> bool {
    exists|file: &str, answer: Result<(), E>|
        {
            &&& file@ == path
            &&& #[trigger] call_ensures(prepare, (file,), answer)
            &&& match answer {
                Ok(_) => error is None,
                Err(e) => error == Some(e),
            }
        }
}

/// The base of later edits is always the last project that went into the
/// ring: a command that was refused does not count.
pub proof fn base_follows_the_ring(audio: AudioModel, command: CommandModel)
    requires
        audio.sent.len() > 0 && audio.sent.last() is ReplaceProject ==> audio.snapshot
            == audio.sent.last()->ReplaceProject_0.project,
    ensures
        audio.command_sent(command).sent.last() is ReplaceProject ==> audio.command_sent(
            command,
        ).snapshot == audio.command_sent(command).sent.last()->ReplaceProject_0.project,
{
}

} // verus!
