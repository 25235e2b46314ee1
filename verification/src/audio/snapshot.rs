//! Immutable snapshots of a project, as the audio callback reads them.
use crate::model::event::{ArpeggioConfig, ChordShape, StepEvent};
use crate::model::index_map::{origin, IndexEdit, PatternIndexMap};
use crate::model::instrument::{Instrument, LfoAssignments, TrackEffects, TrackKind};
use crate::model::percent::Percent;
use crate::model::project::{
    step_wf, Globals, Pattern, Project, Sequence, SongEntry, Track, MAX_PATTERN_COUNT,
    MAX_SONG_LENGTH, MAX_STEP_COUNT, TRACK_COUNT,
};
use std::sync::Arc;
use vstd::prelude::*;

verus! {

/// Settings of a track, with the input defaults filled in.
#[derive(Clone, Copy, Debug, PartialEq, Eq)]
pub struct AudioTrack {
    pub level: Percent,
    pub pan: Percent,
    pub muted: bool,
    pub delay_send: Percent,
    pub reverb_send: Percent,
    pub swing: Percent,
    pub probability: Percent,
    pub instrument: Instrument,
    pub effects: TrackEffects,
    pub lfos: LfoAssignments,
    pub input_degree: u8,
    pub input_octave: u8,
    pub input_accent: bool,
    pub input_chord_shape: ChordShape,
    pub input_chord_arpeggio: ArpeggioConfig,
}

impl AudioTrack {
    pub open spec fn wf(self) -> bool {
        1 <= self.input_degree <= 8
    }

    pub open spec fn kind(self) -> TrackKind {
        self.instrument.kind_of()
    }

    pub fn instrument_kind(&self) -> (kind: TrackKind)
        ensures
            kind == self.kind(),
    {
        self.instrument.kind()
    }
}

/// A loop of steps: room for the longest, of which `step_count` are in use.
#[derive(Clone, Debug, PartialEq, Eq)]
pub struct AudioSequence {
    pub steps: Vec<Option<StepEvent>>,
    pub step_count: u8,
}

#[verifier::ext_equal]
pub struct SequenceModel {
    pub steps: Seq<Option<StepEvent>>,
    pub step_count: u8,
}

impl SequenceModel {
    pub open spec fn wf(self) -> bool {
        &&& self.steps.len() == MAX_STEP_COUNT
        &&& 1 <= self.step_count <= MAX_STEP_COUNT
        &&& forall|s: int| 0 <= s < MAX_STEP_COUNT ==> step_wf(#[trigger] self.steps[s])
    }

    /// The steps in use.
    pub open spec fn cycle(self) -> Seq<Option<StepEvent>> {
        self.steps.take(self.step_count as int)
    }
}

impl View for AudioSequence {
    type V = SequenceModel;

    open spec fn view(&self) -> SequenceModel {
        SequenceModel { steps: self.steps@, step_count: self.step_count }
    }
}

#[derive(Clone, Debug, PartialEq, Eq)]
pub struct AudioPattern {
    pub tracks: Vec<AudioSequence>,
}

impl View for AudioPattern {
    type V = Seq<SequenceModel>;

    open spec fn view(&self) -> Seq<SequenceModel> {
        Seq::new(self.tracks@.len(), |t: int| self.tracks@[t]@)
    }
}

pub open spec fn pattern_wf(pattern: Seq<SequenceModel>) -> bool {
    &&& pattern.len() == TRACK_COUNT
    &&& forall|t: int| 0 <= t < TRACK_COUNT ==> (#[trigger] pattern[t]).wf()
}

/// The patterns of a snapshot. Snapshots that agree on a pattern share it.
#[derive(Clone, Debug, PartialEq, Eq)]
pub struct AudioPatterns(pub Vec<Arc<AudioPattern>>);

impl View for AudioPatterns {
    type V = Seq<Seq<SequenceModel>>;

    open spec fn view(&self) -> Seq<Seq<SequenceModel>> {
        Seq::new(self.0@.len(), |p: int| self.0@[p]@)
    }
}

impl AudioPatterns {
    pub fn len(&self) -> (n: usize)
        ensures
            n == self@.len(),
    {
        self.0.len()
    }
}

#[derive(Clone, Debug, PartialEq, Eq)]
pub struct AudioProject {
    pub globals: Globals,
    pub tracks: Vec<AudioTrack>,
    pub patterns: AudioPatterns,
    pub song: Vec<SongEntry>,
}

#[verifier::ext_equal]
pub struct ProjectModel {
    pub globals: Globals,
    pub tracks: Seq<AudioTrack>,
    pub patterns: Seq<Seq<SequenceModel>>,
    pub song: Seq<SongEntry>,
}

impl View for AudioProject {
    type V = ProjectModel;

    open spec fn view(&self) -> ProjectModel {
        ProjectModel {
            globals: self.globals,
            tracks: self.tracks@,
            patterns: self.patterns@,
            song: self.song@,
        }
    }
}

impl ProjectModel {
    /// A snapshot that the sequencer can play.
    pub open spec fn wf(self) -> bool {
        &&& self.globals.wf()
        &&& self.tracks.len() == TRACK_COUNT
        &&& forall|t: int| 0 <= t < TRACK_COUNT ==> (#[trigger] self.tracks[t]).wf()
        &&& 1 <= self.patterns.len() <= MAX_PATTERN_COUNT
        &&& forall|p: int| 0 <= p < self.patterns.len() ==> pattern_wf(#[trigger] self.patterns[p])
        &&& 1 <= self.song.len() <= MAX_SONG_LENGTH
        &&& forall|e: int|
            0 <= e < self.song.len() ==> (#[trigger] self.song[e]).wf(self.patterns.len())
    }

    /// The event at a step, or none outside the pattern.
    pub open spec fn event(self, pattern: int, track: int, step: int) -> Option<StepEvent> {
        if 0 <= pattern < self.patterns.len() && 0 <= track < self.patterns[pattern].len() && 0
            <= step < self.patterns[pattern][track].steps.len() {
            self.patterns[pattern][track].steps[step]
        } else {
            None
        }
    }
}

pub open spec fn track_snapshot(track: Track) -> AudioTrack {
    AudioTrack {
        level: track.level,
        pan: track.pan,
        muted: track.muted,
        delay_send: track.delay_send,
        reverb_send: track.reverb_send,
        swing: track.swing,
        probability: track.probability,
        instrument: track.instrument,
        effects: track.effects,
        lfos: track.lfos,
        input_degree: match track.input_degree {
            Some(degree) => degree,
            None => 1,
        },
        input_octave: match track.input_octave {
            Some(octave) => octave,
            None => 3,
        },
        input_accent: track.input_accent,
        input_chord_shape: match track.input_chord_shape {
            Some(shape) => shape,
            None => ChordShape::TriadRoot,
        },
        input_chord_arpeggio: match track.input_chord_arpeggio {
            Some(arpeggio) => arpeggio,
            None => crate::model::event::no_arpeggio(),
        },
    }
}

pub open spec fn sequence_snapshot(sequence: Sequence) -> SequenceModel {
    SequenceModel {
        steps: Seq::new(
            MAX_STEP_COUNT as nat,
            |s: int|
                if s < sequence.steps@.len() {
                    sequence.steps@[s]
                } else {
                    None
                },
        ),
        step_count: sequence.steps@.len() as u8,
    }
}

pub open spec fn pattern_snapshot(pattern: Pattern) -> Seq<SequenceModel> {
    Seq::new(TRACK_COUNT as nat, |t: int| sequence_snapshot(pattern.tracks@[t]))
}

/// The snapshot that a project calls for.
pub open spec fn project_snapshot(project: Project) -> ProjectModel {
    ProjectModel {
        globals: project.globals,
        tracks: Seq::new(TRACK_COUNT as nat, |t: int| track_snapshot(project.tracks@[t])),
        patterns: Seq::new(project.patterns@.len(), |p: int| pattern_snapshot(project.patterns@[p])),
        song: project.song@,
    }
}

/// A project has everything that a snapshot reads.
pub open spec fn snapshot_source(project: Project) -> bool {
    &&& project.tracks@.len() >= TRACK_COUNT
    &&& forall|p: int|
        0 <= p < project.patterns@.len() ==> (#[trigger] project.patterns@[p]).tracks@.len()
            >= TRACK_COUNT
}

/// The snapshot of a playable project can be played.
pub proof fn snapshot_is_playable(project: Project)
    requires
        project.wf(),
    ensures
        project_snapshot(project).wf(),
{
    let model = project_snapshot(project);
    assert forall|t: int| 0 <= t < TRACK_COUNT implies (#[trigger] model.tracks[t]).wf() by {
        assert(project.tracks@[t].wf());
    }
    assert forall|p: int| 0 <= p < model.patterns.len() implies pattern_wf(
        #[trigger] model.patterns[p],
    ) by {
        let pattern = project.patterns@[p];
        assert(pattern.wf());
        assert forall|t: int| 0 <= t < TRACK_COUNT implies (#[trigger] model.patterns[p][t]).wf() by {
            assert(pattern.tracks@[t].wf());
        }
    }
}

fn snapshot_track(track: &Track) -> (r: AudioTrack)
    ensures
        r == track_snapshot(*track),
{
    AudioTrack {
        level: track.level,
        pan: track.pan,
        muted: track.muted,
        delay_send: track.delay_send,
        reverb_send: track.reverb_send,
        swing: track.swing,
        probability: track.probability,
        instrument: track.instrument,
        effects: track.effects,
        lfos: track.lfos,
        input_degree: track.input_degree.unwrap_or(1),
        input_octave: track.input_octave.unwrap_or(3),
        input_accent: track.input_accent,
        input_chord_shape: track.input_chord_shape.unwrap_or(ChordShape::TriadRoot),
        input_chord_arpeggio: track.input_chord_arpeggio.unwrap_or(ArpeggioConfig::default()),
    }
}

fn snapshot_sequence(sequence: &Sequence) -> (r: AudioSequence)
    ensures
        r@ == sequence_snapshot(*sequence),
{
    let mut steps: Vec<Option<StepEvent>> = Vec::with_capacity(MAX_STEP_COUNT);
    while steps.len() < MAX_STEP_COUNT
        invariant
            steps@.len() <= MAX_STEP_COUNT,
            forall|s: int|
                0 <= s < steps@.len() ==> #[trigger] steps@[s] == sequence_snapshot(
                    *sequence,
                ).steps[s],
        decreases MAX_STEP_COUNT - steps@.len(),
    {
        let s: usize = steps.len();
        if s < sequence.steps.len() {
            steps.push(sequence.steps[s]);
        } else {
            steps.push(None);
        }
    }
    let r = AudioSequence { steps, step_count: sequence.steps.len() as u8 };
    assert(r@ =~= sequence_snapshot(*sequence));
    r
}

fn snapshot_pattern(pattern: &Pattern) -> (r: AudioPattern)
    requires
        pattern.tracks@.len() >= TRACK_COUNT,
    ensures
        r@ == pattern_snapshot(*pattern),
{
    let mut tracks: Vec<AudioSequence> = Vec::with_capacity(TRACK_COUNT);
    while tracks.len() < TRACK_COUNT
        invariant
            pattern.tracks@.len() >= TRACK_COUNT,
            tracks@.len() <= TRACK_COUNT,
            forall|t: int|
                0 <= t < tracks@.len() ==> (#[trigger] tracks@[t])@ == sequence_snapshot(
                    pattern.tracks@[t],
                ),
        decreases TRACK_COUNT - tracks@.len(),
    {
        let t: usize = tracks.len();
        tracks.push(snapshot_sequence(&pattern.tracks[t]));
    }
    let r = AudioPattern { tracks };
    assert(r@ =~= pattern_snapshot(*pattern));
    r
}

fn copy_song(song: &Vec<SongEntry>) -> (r: Vec<SongEntry>)
    ensures
        r@ == song@,
{
    let mut r: Vec<SongEntry> = Vec::with_capacity(song.len());
    while r.len() < song.len()
        invariant
            r@.len() <= song@.len(),
            r@ == song@.take(r@.len() as int),
        decreases song@.len() - r@.len(),
    {
        let i: usize = r.len();
        r.push(song[i]);
    }
    assert(song@.take(song@.len() as int) =~= song@);
    r
}

/// What an edit touched: tracks by bit, single sequences, and whether patterns
/// came or went.
#[derive(Clone, Debug, PartialEq, Eq)]
pub struct EditImpact {
    pub tracks: u16,
    pub sequences: Vec<(usize, usize)>,
    pub patterns_structural: bool,
}

impl Default for EditImpact {
    fn default() -> (impact: EditImpact)
        ensures
            impact.tracks == 0,
            impact.sequences@ == Seq::<(usize, usize)>::empty(),
            !impact.patterns_structural,
    {
        EditImpact { tracks: 0, sequences: Vec::new(), patterns_structural: false }
    }
}

impl EditImpact {
    pub open spec fn touches_track(self, track: int) -> bool {
        (self.tracks >> (track as u16)) & 1u16 == 1u16
    }

    pub open spec fn touches_pattern(self, pattern: int) -> bool {
        exists|i: int| 0 <= i < self.sequences@.len() && (#[trigger] self.sequences@[i]).0 == pattern
    }

    /// Which pattern of the earlier snapshot an edited one still equals: none
    /// where it was touched, is new, or nothing is known of what moved.
    pub open spec fn survivor(self, edit: IndexEdit, pattern: int, length: int) -> Option<int> {
        if self.touches_pattern(pattern) || (self.patterns_structural && edit
            == IndexEdit::Identity) {
            None
        } else {
            match origin(edit, pattern) {
                Some(o) => if o < length {
                    Some(o)
                } else {
                    None
                },
                None => None,
            }
        }
    }

    fn touches(&self, pattern: usize) -> (r: bool)
        ensures
            r == self.touches_pattern(pattern as int),
    {
        let mut i: usize = 0;
        while i < self.sequences.len()
            invariant
                i <= self.sequences@.len(),
                forall|j: int| 0 <= j < i ==> (#[trigger] self.sequences@[j]).0 != pattern,
            decreases self.sequences@.len() - i,
        {
            if self.sequences[i].0 == pattern {
                assert(self.sequences@[i as int].0 == pattern);
                return true;
            }
            i = i + 1;
        }
        false
    }
}

/// The snapshot after an edit: what the edit touched comes from the project,
/// the rest from the earlier snapshot.
pub open spec fn updated_snapshot(
    base: ProjectModel,
    project: Project,
    impact: EditImpact,
    edit: IndexEdit,
) -> ProjectModel {
    ProjectModel {
        globals: project.globals,
        tracks: Seq::new(
            TRACK_COUNT as nat,
            |t: int|
                if impact.touches_track(t) {
                    track_snapshot(project.tracks@[t])
                } else {
                    base.tracks[t]
                },
        ),
        patterns: Seq::new(
            project.patterns@.len(),
            |p: int|
                match impact.survivor(edit, p, base.patterns.len() as int) {
                    Some(o) => base.patterns[o],
                    None => pattern_snapshot(project.patterns@[p]),
                },
        ),
        song: project.song@,
    }
}

/// An impact tells the truth about an edit: what it does not name is the same
/// before and after.
pub open spec fn impact_is_complete(
    before: Project,
    after: Project,
    impact: EditImpact,
    edit: IndexEdit,
) -> bool {
    &&& forall|t: int|
        0 <= t < TRACK_COUNT && !impact.touches_track(t) ==> #[trigger] before.tracks@[t]
            == after.tracks@[t]
    &&& forall|p: int|
        0 <= p < after.patterns@.len() ==> match impact.survivor(
            edit,
            p,
            before.patterns@.len() as int,
        ) {
            Some(o) => pattern_snapshot(before.patterns@[o]) == pattern_snapshot(
                #[trigger] after.patterns@[p],
            ),
            None => true,
        }
}

/// An incremental snapshot equals a full rebuild whenever the impact names
/// everything that changed.
pub proof fn incremental_snapshots_match_full_rebuilds(
    before: Project,
    after: Project,
    impact: EditImpact,
    edit: IndexEdit,
)
    requires
        impact_is_complete(before, after, impact, edit),
    ensures
        updated_snapshot(project_snapshot(before), after, impact, edit) == project_snapshot(after),
{
    let base = project_snapshot(before);
    let next = updated_snapshot(base, after, impact, edit);
    let full = project_snapshot(after);
    assert(next.tracks =~= full.tracks) by {
        assert forall|t: int| 0 <= t < TRACK_COUNT implies next.tracks[t] == full.tracks[t] by {
            if !impact.touches_track(t) {
                assert(before.tracks@[t] == after.tracks@[t]);
            }
        }
    }
    assert(next.patterns =~= full.patterns) by {
        assert forall|p: int| 0 <= p < next.patterns.len() implies next.patterns[p]
            == full.patterns[p] by {
            let _ = after.patterns@[p];
            if let Some(o) = impact.survivor(edit, p, base.patterns.len() as int) {
                origin_is_a_place(edit, p);
                assert(base.patterns[o] == pattern_snapshot(before.patterns@[o]));
            }
        }
    }
}

proof fn origin_is_a_place(edit: IndexEdit, index: int)
    requires
        index >= 0,
    ensures
        origin(edit, index) matches Some(o) ==> o >= 0,
{
}

impl AudioProject {
    /// A full snapshot of a project.
    pub fn from_project(project: &Project) -> (r: AudioProject)
        requires
            snapshot_source(*project),
        ensures
            r@ == project_snapshot(*project),
            project.wf() ==> r@.wf(),
    {
        let mut tracks: Vec<AudioTrack> = Vec::with_capacity(TRACK_COUNT);
        while tracks.len() < TRACK_COUNT
            invariant
                snapshot_source(*project),
                tracks@.len() <= TRACK_COUNT,
                forall|t: int|
                    0 <= t < tracks@.len() ==> #[trigger] tracks@[t] == track_snapshot(
                        project.tracks@[t],
                    ),
            decreases TRACK_COUNT - tracks@.len(),
        {
            let t: usize = tracks.len();
            tracks.push(snapshot_track(&project.tracks[t]));
        }
        let mut patterns: Vec<Arc<AudioPattern>> = Vec::with_capacity(project.patterns.len());
        while patterns.len() < project.patterns.len()
            invariant
                snapshot_source(*project),
                patterns@.len() <= project.patterns@.len(),
                forall|p: int|
                    0 <= p < patterns@.len() ==> (#[trigger] patterns@[p])@ == pattern_snapshot(
                        project.patterns@[p],
                    ),
            decreases project.patterns@.len() - patterns@.len(),
        {
            let p: usize = patterns.len();
            patterns.push(Arc::new(snapshot_pattern(&project.patterns[p])));
        }
        let r = AudioProject {
            globals: project.globals,
            tracks,
            patterns: AudioPatterns(patterns),
            song: copy_song(&project.song),
        };
        proof {
            assert(r@.tracks =~= project_snapshot(*project).tracks);
            assert(r@.patterns =~= project_snapshot(*project).patterns);
            if project.wf() {
                snapshot_is_playable(*project);
            }
        }
        r
    }

    /// The snapshot after an edit. Patterns that the edit left alone are
    /// shared with this snapshot.
    pub fn updated(
        &self,
        project: &Project,
        impact: &EditImpact,
        pattern_map: PatternIndexMap,
    ) -> (r: AudioProject)
        requires
            snapshot_source(*project),
            self@.tracks.len() == TRACK_COUNT,
            project.patterns@.len() < usize::MAX,
        ensures
            r@ == updated_snapshot(self@, *project, *impact, pattern_map.edit),
    {
        let mut tracks: Vec<AudioTrack> = Vec::with_capacity(TRACK_COUNT);
        while tracks.len() < TRACK_COUNT
            invariant
                snapshot_source(*project),
                self@.tracks.len() == TRACK_COUNT,
                tracks@.len() <= TRACK_COUNT,
                forall|t: int|
                    0 <= t < tracks@.len() ==> #[trigger] tracks@[t] == if impact.touches_track(t) {
                        track_snapshot(project.tracks@[t])
                    } else {
                        self.tracks@[t]
                    },
            decreases TRACK_COUNT - tracks@.len(),
        {
            let t: usize = tracks.len();
            let bit: u16 = t as u16;
            if (impact.tracks >> bit) & 1u16 == 1u16 {
                tracks.push(snapshot_track(&project.tracks[t]));
            } else {
                tracks.push(self.tracks[t]);
            }
        }
        let unknown: bool = impact.patterns_structural && pattern_map.is_identity();
        let mut patterns: Vec<Arc<AudioPattern>> = Vec::with_capacity(project.patterns.len());
        while patterns.len() < project.patterns.len()
            invariant
                snapshot_source(*project),
                project.patterns@.len() < usize::MAX,
                unknown == (impact.patterns_structural && pattern_map.edit == IndexEdit::Identity),
                patterns@.len() <= project.patterns@.len(),
                forall|p: int|
                    0 <= p < patterns@.len() ==> (#[trigger] patterns@[p])@ == match impact.survivor(
                        pattern_map.edit,
                        p,
                        self.patterns@.len() as int,
                    ) {
                        Some(o) => self.patterns@[o],
                        None => pattern_snapshot(project.patterns@[p]),
                    },
            decreases project.patterns@.len() - patterns@.len(),
        {
            let p: usize = patterns.len();
            let mut shared: Option<usize> = None;
            if !unknown && !impact.touches(p) {
                if let Some(o) = pattern_map.origin_of(p) {
                    if o < self.patterns.0.len() {
                        shared = Some(o);
                    }
                }
            }
            match shared {
                Some(o) => patterns.push(self.patterns.0[o].clone()),
                None => patterns.push(Arc::new(snapshot_pattern(&project.patterns[p]))),
            }
        }
        let r = AudioProject {
            globals: project.globals,
            tracks,
            patterns: AudioPatterns(patterns),
            song: copy_song(&project.song),
        };
        proof {
            let model = updated_snapshot(self@, *project, *impact, pattern_map.edit);
            assert(r@.tracks =~= model.tracks);
            assert(r@.patterns =~= model.patterns);
        }
        r
    }

    /// A second snapshot with the same contents, sharing the patterns.
    pub fn duplicate(&self) -> (r: AudioProject)
        ensures
            r@ == self@,
    {
        let mut tracks: Vec<AudioTrack> = Vec::with_capacity(self.tracks.len());
        while tracks.len() < self.tracks.len()
            invariant
                tracks@.len() <= self.tracks@.len(),
                forall|t: int| 0 <= t < tracks@.len() ==> tracks@[t] == self.tracks@[t],
            decreases self.tracks@.len() - tracks@.len(),
        {
            let t: usize = tracks.len();
            tracks.push(self.tracks[t]);
        }
        let mut patterns: Vec<Arc<AudioPattern>> = Vec::with_capacity(self.patterns.0.len());
        while patterns.len() < self.patterns.0.len()
            invariant
                patterns@.len() <= self.patterns.0@.len(),
                forall|p: int|
                    0 <= p < patterns@.len() ==> (#[trigger] patterns@[p])@ == self.patterns@[p],
            decreases self.patterns.0@.len() - patterns@.len(),
        {
            let p: usize = patterns.len();
            patterns.push(self.patterns.0[p].clone());
        }
        let r = AudioProject {
            globals: self.globals,
            tracks,
            patterns: AudioPatterns(patterns),
            song: copy_song(&self.song),
        };
        proof {
            assert(r@.tracks =~= self@.tracks);
            assert(r@.patterns =~= self@.patterns);
        }
        r
    }

    /// The event at a step, or none outside the pattern.
    pub fn event_at(&self, pattern: usize, track: usize, step: usize) -> (event: Option<StepEvent>)
        ensures
            event == self@.event(pattern as int, track as int, step as int),
    {
        if pattern < self.patterns.0.len() {
            let tracks = &self.patterns.0[pattern].tracks;
            assert(self@.patterns[pattern as int] == self.patterns.0@[pattern as int]@);
            if track < tracks.len() {
                let steps = &tracks[track].steps;
                if step < steps.len() {
                    return steps[step];
                }
            }
        }
        None
    }
}

impl AudioSequence {
    /// Whether the sequence can be played.
    pub fn is_playable(&self) -> (r: bool)
        ensures
            r == self@.wf(),
    {
        if self.steps.len() != MAX_STEP_COUNT || self.step_count < 1 || self.step_count as usize
            > MAX_STEP_COUNT {
            return false;
        }
        let mut s: usize = 0;
        while s < MAX_STEP_COUNT
            invariant
                s <= MAX_STEP_COUNT,
                self.steps@.len() == MAX_STEP_COUNT,
                forall|k: int| 0 <= k < s ==> step_wf(#[trigger] self@.steps[k]),
            decreases MAX_STEP_COUNT - s,
        {
            let valid: bool = match &self.steps[s] {
                Some(event) => event.is_valid(),
                None => true,
            };
            if !valid {
                assert(!step_wf(self@.steps[s as int]));
                return false;
            }
            s = s + 1;
        }
        true
    }
}

impl AudioPattern {
    pub fn is_playable(&self) -> (r: bool)
        ensures
            r == pattern_wf(self@),
    {
        if self.tracks.len() != TRACK_COUNT {
            return false;
        }
        let mut t: usize = 0;
        while t < TRACK_COUNT
            invariant
                t <= TRACK_COUNT,
                self.tracks@.len() == TRACK_COUNT,
                forall|k: int| 0 <= k < t ==> (#[trigger] self@[k]).wf(),
            decreases TRACK_COUNT - t,
        {
            if !self.tracks[t].is_playable() {
                assert(!self@[t as int].wf());
                return false;
            }
            t = t + 1;
        }
        true
    }
}

impl AudioProject {
    fn tracks_are_playable(&self) -> (r: bool)
        ensures
            r == (self@.tracks.len() == TRACK_COUNT && forall|t: int|
                0 <= t < TRACK_COUNT ==> (#[trigger] self@.tracks[t]).wf()),
    {
        if self.tracks.len() != TRACK_COUNT {
            return false;
        }
        let mut t: usize = 0;
        while t < TRACK_COUNT
            invariant
                t <= TRACK_COUNT,
                self.tracks@.len() == TRACK_COUNT,
                forall|k: int| 0 <= k < t ==> (#[trigger] self@.tracks[k]).wf(),
            decreases TRACK_COUNT - t,
        {
            let degree: u8 = self.tracks[t].input_degree;
            if degree < 1 || degree > 8 {
                assert(!self@.tracks[t as int].wf());
                return false;
            }
            t = t + 1;
        }
        true
    }

    fn patterns_are_playable(&self) -> (r: bool)
        ensures
            r == forall|p: int|
                0 <= p < self@.patterns.len() ==> pattern_wf(#[trigger] self@.patterns[p]),
    {
        let mut p: usize = 0;
        while p < self.patterns.0.len()
            invariant
                p <= self.patterns.0@.len(),
                forall|k: int| 0 <= k < p ==> pattern_wf(#[trigger] self@.patterns[k]),
            decreases self.patterns.0@.len() - p,
        {
            if !self.patterns.0[p].is_playable() {
                assert(!pattern_wf(self@.patterns[p as int]));
                return false;
            }
            p = p + 1;
        }
        true
    }

    fn song_is_playable(&self) -> (r: bool)
        ensures
            r == forall|e: int|
                0 <= e < self@.song.len() ==> (#[trigger] self@.song[e]).wf(self@.patterns.len()),
    {
        let mut e: usize = 0;
        while e < self.song.len()
            invariant
                e <= self.song@.len(),
                forall|k: int|
                    0 <= k < e ==> (#[trigger] self@.song[k]).wf(self@.patterns.len()),
            decreases self.song@.len() - e,
        {
            let entry = self.song[e];
            if entry.pattern < 1 || entry.pattern as usize > self.patterns.len() {
                assert(!self@.song[e as int].wf(self@.patterns.len()));
                return false;
            }
            e = e + 1;
        }
        true
    }

    /// Whether the sequencer can play the snapshot.
    pub fn is_playable(&self) -> (r: bool)
        ensures
            r == self@.wf(),
    {
        self.globals.tempo_bpm >= 1 && self.globals.key < 12 && self.tracks_are_playable()
            && self.patterns.len() >= 1 && self.patterns.len() <= MAX_PATTERN_COUNT
            && self.patterns_are_playable() && self.song.len() >= 1 && self.song.len()
            <= MAX_SONG_LENGTH && self.song_is_playable()
    }
}

} // verus!
