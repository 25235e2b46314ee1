//! What the user interface asks of the engine.
use super::controls::ParameterSmoothing;
use super::snapshot::{AudioProject, ProjectModel};
use crate::model::index_map::{PatternIndexMap, SongIndexMap};
use vstd::prelude::*;

verus! {

#[derive(Clone, Debug)]
pub enum AudioCommand {
    PlayPause,
    Stop,
    SelectPattern { pattern: u8 },
    SelectSong { entry: u16 },
    ReplaceProject {
        project: Box<AudioProject>,
        smoothing: ParameterSmoothing,
        pattern_map: PatternIndexMap,
        song_map: SongIndexMap,
    },
    Audition { track: u8, step: u8 },
    AutoAudition { track: u8, step: u8 },
    StartRecording,
    StopRecording,
}

/// A project on its way into the engine.
#[verifier::ext_equal]
pub struct Replacement {
    pub project: ProjectModel,
    pub smoothing: ParameterSmoothing,
    pub pattern_map: PatternIndexMap,
    pub song_map: SongIndexMap,
}

impl Replacement {
    /// Nothing moved, so a later replacement may take this one's place.
    pub open spec fn in_place(self) -> bool {
        self.pattern_map.edit == crate::model::index_map::IndexEdit::Identity && self.song_map.edit
            == crate::model::index_map::IndexEdit::Identity
    }
}

#[verifier::ext_equal]
pub enum CommandModel {
    PlayPause,
    Stop,
    SelectPattern { pattern: u8 },
    SelectSong { entry: u16 },
    ReplaceProject(Replacement),
    Audition { track: u8, step: u8 },
    AutoAudition { track: u8, step: u8 },
    StartRecording,
    StopRecording,
}

impl View for AudioCommand {
    type V = CommandModel;

    open spec fn view(&self) -> CommandModel {
        match self {
            AudioCommand::PlayPause => CommandModel::PlayPause,
            AudioCommand::Stop => CommandModel::Stop,
            AudioCommand::SelectPattern { pattern } => CommandModel::SelectPattern {
                pattern: *pattern,
            },
            AudioCommand::SelectSong { entry } => CommandModel::SelectSong { entry: *entry },
            AudioCommand::ReplaceProject { project, smoothing, pattern_map, song_map } => {
                CommandModel::ReplaceProject(
                    Replacement {
                        project: project@,
                        smoothing: *smoothing,
                        pattern_map: *pattern_map,
                        song_map: *song_map,
                    },
                )
            },
            AudioCommand::Audition { track, step } => CommandModel::Audition {
                track: *track,
                step: *step,
            },
            AudioCommand::AutoAudition { track, step } => CommandModel::AutoAudition {
                track: *track,
                step: *step,
            },
            AudioCommand::StartRecording => CommandModel::StartRecording,
            AudioCommand::StopRecording => CommandModel::StopRecording,
        }
    }
}

impl CommandModel {
    /// A command that carries no project, or one that can be played.
    pub open spec fn wf(self) -> bool {
        self matches CommandModel::ReplaceProject(r) ==> r.project.wf()
    }

    /// A replacement that a later one may take the place of.
    pub open spec fn coalescible(self) -> bool {
        self matches CommandModel::ReplaceProject(r) && r.in_place()
    }
}

impl AudioCommand {
    /// Whether a later command of this kind may take the place of this one.
    pub fn is_coalescible(&self) -> (r: bool)
        ensures
            r == self@.coalescible(),
    {
        match self {
            AudioCommand::ReplaceProject { pattern_map, song_map, .. } => {
                pattern_map.is_identity() && song_map.is_identity()
            },
            _ => false,
        }
    }
}

} // verus!
