//! Where playback stands: the step clock, the pattern and the song.
use super::snapshot::{AudioProject, ProjectModel};
use crate::model::index_map::{rebased, PatternIndexMap, SongIndexMap};
use vstd::prelude::*;

verus! {

/// Steps in a bar: patterns and songs change only on a bar.
pub const BAR_STEPS: usize = 16;

/// Fastest sample rate: at the slowest tempo a step still fits the
/// arithmetic of the scheduler.
pub const MAX_SAMPLE_RATE: u32 = 560_000;

/// Longest step in samples.
pub const MAX_STEP_SAMPLES: u32 = 8_421_504;

/// Counts samples to the next sixteenth. The count is kept in units of one
/// beat per minute, in which a step is a whole number, so it never drifts.
#[derive(Clone, Copy, Debug, PartialEq, Eq, Structural)]
pub struct StepClock {
    pub sample_rate: u32,
    pub tempo_bpm: u16,
    /// Units left until the next step is due.
    pub countdown: u64,
    pub next_step: usize,
}

impl StepClock {
    pub open spec fn wf(self) -> bool {
        &&& self.tempo_bpm >= 1
        &&& self.sample_rate <= MAX_SAMPLE_RATE
        &&& self.countdown <= 15 * self.sample_rate + self.tempo_bpm
    }

    /// Units in one step: a quarter of a beat.
    pub open spec fn step_units(self) -> int {
        15 * self.sample_rate
    }

    /// The nearest whole number of samples to a step.
    pub open spec fn rounded_step(self) -> int {
        (30 * self.sample_rate + self.tempo_bpm) / (2 * self.tempo_bpm as int)
    }

    /// The clock after one sample.
    pub open spec fn ticked(self) -> StepClock {
        if self.countdown < self.tempo_bpm {
            StepClock {
                countdown: if self.countdown + self.step_units() < self.tempo_bpm {
                    0
                } else {
                    (self.countdown + self.step_units() - self.tempo_bpm) as u64
                },
                next_step: self.next_step.wrapping_add(1),
                ..self
            }
        } else {
            StepClock { countdown: (self.countdown - self.tempo_bpm) as u64, ..self }
        }
    }

    pub fn new(sample_rate: u32, tempo_bpm: u16) -> (clock: StepClock)
        requires
            tempo_bpm >= 1,
            sample_rate <= MAX_SAMPLE_RATE,
        ensures
            clock.wf(),
            clock == (StepClock { sample_rate, tempo_bpm, countdown: 0, next_step: 0 }),
    {
        StepClock { sample_rate, tempo_bpm, countdown: 0, next_step: 0 }
    }

    /// Back to the first step, due at once.
    pub fn reset(&mut self)
        requires
            old(self).wf(),
        ensures
            *final(self) == (StepClock { countdown: 0, next_step: 0, ..*old(self) }),
            final(self).wf(),
    {
        self.countdown = 0;
        self.next_step = 0;
    }

    /// The next step is due at once.
    pub fn restart_timing(&mut self)
        requires
            old(self).wf(),
        ensures
            *final(self) == (StepClock { countdown: 0, ..*old(self) }),
            final(self).wf(),
    {
        self.countdown = 0;
    }

    pub fn set_bpm(&mut self, tempo_bpm: u16)
        requires
            old(self).wf(),
            tempo_bpm >= 1,
        ensures
            final(self).wf(),
            final(self).sample_rate == old(self).sample_rate,
            final(self).next_step == old(self).next_step,
            final(self).tempo_bpm == tempo_bpm,
            final(self).countdown == if old(self).countdown > old(self).step_units() {
                old(self).step_units()
            } else {
                old(self).countdown as int
            },
    {
        let units: u64 = 15 * self.sample_rate as u64;
        if self.countdown > units {
            self.countdown = units;
        }
        self.tempo_bpm = tempo_bpm;
    }

    pub fn step_samples(&self) -> (n: u32)
        requires
            self.wf(),
        ensures
            n == self.rounded_step(),
            n <= MAX_STEP_SAMPLES,
    {
        let bpm: u64 = self.tempo_bpm as u64;
        let units: u64 = 30 * self.sample_rate as u64 + bpm;
        proof {
            step_is_bounded(units as int, bpm as int);
        }
        (units / (2 * bpm)) as u32
    }

    /// Counts one sample; gives the step that falls due on it.
    pub fn tick(&mut self) -> (due: Option<usize>)
        requires
            old(self).wf(),
        ensures
            final(self).wf(),
            *final(self) == old(self).ticked(),
            due is Some <==> old(self).countdown < old(self).tempo_bpm,
            due matches Some(step) ==> step == old(self).next_step,
    {
        let bpm: u64 = self.tempo_bpm as u64;
        if self.countdown < bpm {
            let step: usize = self.next_step;
            let units: u64 = 15 * self.sample_rate as u64;
            // A step shorter than a sample falls due again on the next one.
            if self.countdown + units < bpm {
                self.countdown = 0;
            } else {
                self.countdown = self.countdown + units - bpm;
            }
            self.next_step = step.wrapping_add(1);
            Some(step)
        } else {
            self.countdown = self.countdown - bpm;
            None
        }
    }
}

proof fn step_is_bounded(units: int, bpm: int)
    requires
        1 <= bpm <= 65535,
        0 <= units <= 30 * MAX_SAMPLE_RATE + bpm,
    ensures
        0 <= units / (2 * bpm) <= MAX_STEP_SAMPLES,
{
    assert(units / (2 * bpm) <= 15 * MAX_SAMPLE_RATE + 1) by (nonlinear_arith)
        requires
            1 <= bpm,
            0 <= units <= 30 * MAX_SAMPLE_RATE + bpm,
    ;
    assert(0 <= units / (2 * bpm)) by (nonlinear_arith)
        requires
            1 <= bpm,
            0 <= units,
    ;
}

/// The clock keeps to the grid of exact step times: `steps` steps and `frames`
/// samples into a run, it owes exactly the difference, whatever the tempo, so
/// rounding never accumulates.
pub proof fn clock_never_drifts(clock: StepClock, steps: int, frames: int)
    requires
        clock.wf(),
        clock.step_units() >= clock.tempo_bpm,
        clock.countdown == steps * clock.step_units() - frames * clock.tempo_bpm,
    ensures
        clock.ticked().countdown == (steps + if clock.countdown < clock.tempo_bpm {
            1int
        } else {
            0
        }) * clock.step_units() - (frames + 1) * clock.tempo_bpm,
{
    let units = clock.step_units();
    let bpm = clock.tempo_bpm as int;
    assert((steps + 1) * units == steps * units + units) by (nonlinear_arith);
    assert((frames + 1) * bpm == frames * bpm + bpm) by (nonlinear_arith);
}

/// What plays, and what is to play next.
#[derive(Clone, Copy, Debug, PartialEq, Eq, Structural)]
pub struct Transport {
    pub playing: bool,
    pub active_pattern: usize,
    pub queued_pattern: Option<usize>,
    pub song_mode: bool,
    pub active_song: usize,
    pub queued_song: Option<usize>,
    pub song_bar: u8,
}

/// What a bar line does to playback.
#[derive(Clone, Copy, Debug, PartialEq, Eq, Structural)]
pub enum BarChange {
    /// Nothing changes, or the song goes on in the same pattern.
    Continue,
    /// A pattern starts from its first step; sounding notes are released
    /// where it is another pattern than before, or was asked for.
    Enter { release: bool },
    /// The song is over.
    Finish,
}

impl Transport {
    /// Every index names something that the project holds.
    pub open spec fn wf(self, project: ProjectModel) -> bool {
        &&& self.active_pattern < project.patterns.len()
        &&& self.queued_pattern matches Some(p) ==> p < project.patterns.len()
        &&& self.active_song < project.song.len()
        &&& self.song_bar < 255
    }

    pub open spec fn initial() -> Transport {
        Transport {
            playing: false,
            active_pattern: 0,
            queued_pattern: None,
            song_mode: false,
            active_song: 0,
            queued_song: None,
            song_bar: 0,
        }
    }

    pub open spec fn pattern_entered(self, pattern: usize) -> Transport {
        Transport { active_pattern: pattern, queued_pattern: None, ..self }
    }

    /// The entry of the song nearest to the one asked for.
    pub open spec fn song_entered(self, project: ProjectModel, entry: int) -> Transport {
        let last = project.song.len() - 1;
        let chosen = if entry > last {
            last
        } else {
            entry
        };
        Transport {
            song_mode: true,
            active_song: chosen as usize,
            queued_song: None,
            song_bar: 0,
            ..self
        }.pattern_entered((project.song[chosen].pattern - 1) as usize)
    }

    /// Whether the current song entry has another bar.
    pub open spec fn more_bars(self, project: ProjectModel) -> bool {
        self.song_bar + 1 < project.song[self.active_song as int].bars
    }

    /// The transport one bar further in the song, or none at its end.
    pub open spec fn song_advanced(self, project: ProjectModel) -> Option<Transport> {
        if self.more_bars(project) {
            let pattern = (project.song[self.active_song as int].pattern - 1) as usize;
            let next = Transport { song_bar: (self.song_bar + 1) as u8, ..self };
            Some(
                if self.active_pattern != pattern {
                    next.pattern_entered(pattern)
                } else {
                    next
                },
            )
        } else if self.active_song + 1 < project.song.len() {
            Some(self.song_entered(project, self.active_song + 1))
        } else {
            None
        }
    }

    /// Whether the pattern may change at a step.
    pub open spec fn transition_due(self, project: ProjectModel, global_step: int) -> bool {
        global_step % (BAR_STEPS as int) == 0 && (self.queued_song is Some
            || self.queued_pattern is Some || (self.song_mode && global_step > 0
            && !self.more_bars(project)))
    }

    /// The transport after a step boundary, and what the boundary changes.
    pub open spec fn at_boundary(self, project: ProjectModel, global_step: int) -> (
        Transport,
        BarChange,
    ) {
        if global_step % (BAR_STEPS as int) != 0 {
            (self, BarChange::Continue)
        } else if let Some(entry) = self.queued_song {
            let next = self.song_entered(project, entry as int);
            (next, BarChange::Enter { release: true })
        } else if let Some(pattern) = self.queued_pattern {
            (
                Transport { song_mode: false, ..self }.pattern_entered(pattern),
                BarChange::Enter { release: true },
            )
        } else if self.song_mode && global_step > 0 {
            match self.song_advanced(project) {
                None => (self, BarChange::Finish),
                Some(next) => (
                    next,
                    if song_enters(self, project) {
                        BarChange::Enter { release: next.active_pattern != self.active_pattern }
                    } else {
                        BarChange::Continue
                    },
                ),
            }
        } else {
            (self, BarChange::Continue)
        }
    }

    /// The transport brought over to an edited project.
    pub open spec fn moved(
        self,
        project: ProjectModel,
        pattern_map: PatternIndexMap,
        song_map: SongIndexMap,
    ) -> Transport {
        let patterns = project.patterns.len() as int;
        let songs = project.song.len() as int;
        let active_song = rebased(song_map.edit, self.active_song as int, songs);
        let bars = project.song[active_song].bars;
        Transport {
            active_pattern: rebased(pattern_map.edit, self.active_pattern as int, patterns) as usize,
            queued_pattern: match self.queued_pattern {
                Some(p) => Some(rebased(pattern_map.edit, p as int, patterns) as usize),
                None => None,
            },
            active_song: active_song as usize,
            queued_song: match self.queued_song {
                Some(s) => Some(rebased(song_map.edit, s as int, songs) as usize),
                None => None,
            },
            song_bar: if song_map.removed(self.active_song as int) || bars == 0 {
                0
            } else if self.song_bar > bars - 1 {
                (bars - 1) as u8
            } else {
                self.song_bar
            },
            ..self
        }
    }

    /// The transport after a stop: at the beginning of everything.
    pub open spec fn stopped(self) -> Transport {
        Transport {
            playing: false,
            active_pattern: 0,
            queued_pattern: None,
            active_song: 0,
            queued_song: None,
            song_bar: 0,
            ..self
        }
    }

    pub fn new() -> (t: Transport)
        ensures
            t == Transport::initial(),
    {
        Transport {
            playing: false,
            active_pattern: 0,
            queued_pattern: None,
            song_mode: false,
            active_song: 0,
            queued_song: None,
            song_bar: 0,
        }
    }

    pub fn stop(&mut self)
        ensures
            *final(self) == old(self).stopped(),
    {
        self.playing = false;
        self.active_pattern = 0;
        self.queued_pattern = None;
        self.active_song = 0;
        self.queued_song = None;
        self.song_bar = 0;
    }

    pub fn enter_pattern(&mut self, pattern: usize)
        ensures
            *final(self) == old(self).pattern_entered(pattern),
    {
        self.active_pattern = pattern;
        self.queued_pattern = None;
    }

    /// Starts the song at an entry, or at its last where there are fewer.
    pub fn enter_song(&mut self, project: &AudioProject, entry: usize)
        requires
            project@.wf(),
        ensures
            *final(self) == old(self).song_entered(project@, entry as int),
            final(self).wf(project@),
    {
        let last: usize = project.song.len() - 1;
        let chosen: usize = if entry > last { last } else { entry };
        self.song_mode = true;
        self.active_song = chosen;
        self.queued_song = None;
        self.song_bar = 0;
        assert(project@.song[chosen as int].wf(project@.patterns.len()));
        self.enter_pattern(project.song[chosen].pattern as usize - 1);
    }

    /// Goes one bar further in the song; fails at its end.
    pub fn advance_song(&mut self, project: &AudioProject) -> (more: bool)
        requires
            project@.wf(),
            old(self).wf(project@),
        ensures
            match old(self).song_advanced(project@) {
                Some(next) => more && *final(self) == next,
                None => !more && *final(self) == *old(self),
            },
            final(self).wf(project@),
    {
        let entry = project.song[self.active_song];
        assert(project@.song[self.active_song as int].wf(project@.patterns.len()));
        if self.song_bar + 1 < entry.bars {
            self.song_bar = self.song_bar + 1;
            let pattern: usize = entry.pattern as usize - 1;
            if self.active_pattern != pattern {
                self.enter_pattern(pattern);
            }
            true
        } else if self.active_song + 1 < project.song.len() {
            self.enter_song(project, self.active_song + 1);
            true
        } else {
            false
        }
    }

    /// Whether the pattern may change at a step, so that nothing of the
    /// current pattern may be started ahead of it.
    pub fn transition_due_at(&self, project: &AudioProject, global_step: usize) -> (due: bool)
        requires
            project@.wf(),
            self.wf(project@),
        ensures
            due == self.transition_due(project@, global_step as int),
    {
        if global_step % BAR_STEPS != 0 {
            return false;
        }
        if self.queued_song.is_some() || self.queued_pattern.is_some() {
            return true;
        }
        self.song_mode && global_step > 0 && self.song_bar + 1
            >= project.song[self.active_song].bars
    }

    /// Crosses a step boundary.
    pub fn cross_boundary(&mut self, project: &AudioProject, global_step: usize) -> (change:
        BarChange)
        requires
            project@.wf(),
            old(self).wf(project@),
        ensures
            (*final(self), change) == old(self).at_boundary(project@, global_step as int),
            final(self).wf(project@),
    {
        if global_step % BAR_STEPS != 0 {
            return BarChange::Continue;
        }
        if let Some(entry) = self.queued_song {
            self.enter_song(project, entry);
            return BarChange::Enter { release: true };
        }
        if let Some(pattern) = self.queued_pattern {
            self.song_mode = false;
            self.enter_pattern(pattern);
            return BarChange::Enter { release: true };
        }
        if self.song_mode && global_step > 0 {
            let previous: usize = self.active_pattern;
            let entry_bars: u8 = project.song[self.active_song].bars;
            let staying: bool = self.song_bar + 1 < entry_bars && self.active_pattern
                == project.song[self.active_song].pattern as usize - 1;
            assert(project@.song[self.active_song as int].wf(project@.patterns.len()));
            if !self.advance_song(project) {
                return BarChange::Finish;
            }
            if !staying {
                return BarChange::Enter { release: self.active_pattern != previous };
            }
        }
        BarChange::Continue
    }

    /// Follows the edits of a project.
    pub fn rebase(
        &mut self,
        project: &AudioProject,
        pattern_map: PatternIndexMap,
        song_map: SongIndexMap,
    )
        requires
            project@.wf(),
            old(self).song_bar < 255,
        ensures
            *final(self) == old(self).moved(project@, pattern_map, song_map),
            final(self).wf(project@),
    {
        let patterns: usize = project.patterns.len();
        let songs: usize = project.song.len();
        let removed: bool = song_map.removes(self.active_song);
        self.active_pattern = pattern_map.rebase(self.active_pattern, patterns);
        self.queued_pattern =
        match self.queued_pattern {
            Some(p) => Some(pattern_map.rebase(p, patterns)),
            None => None,
        };
        self.active_song = song_map.rebase(self.active_song, songs);
        self.queued_song =
        match self.queued_song {
            Some(s) => Some(song_map.rebase(s, songs)),
            None => None,
        };
        let bars: u8 = project.song[self.active_song].bars;
        assert(project@.song[self.active_song as int].wf(project@.patterns.len()));
        if removed {
            self.song_bar = 0;
        } else if self.song_bar > bars.saturating_sub(1) {
            self.song_bar = bars.saturating_sub(1);
        }
    }
}

/// Whether one bar further the song starts a pattern from its first step.
pub open spec fn song_enters(transport: Transport, project: ProjectModel) -> bool {
    !(transport.more_bars(project) && transport.active_pattern
        == project.song[transport.active_song as int].pattern - 1)
}

/// A pattern changes only where a change was due: a boundary at which none is
/// due goes on as it was.
pub proof fn patterns_change_only_when_due(
    transport: Transport,
    project: ProjectModel,
    global_step: int,
)
    requires
        project.wf(),
        transport.wf(project),
        !transport.transition_due(project, global_step),
        transport.song_mode ==> transport.active_pattern
            == project.song[transport.active_song as int].pattern - 1,
    ensures
        transport.at_boundary(project, global_step).1 == BarChange::Continue,
        transport.at_boundary(project, global_step).0.active_pattern == transport.active_pattern,
{
}

/// A song plays every entry for its bars and then ends: as long as a bar or an
/// entry is left it goes on, and it gets nearer to its end with every bar.
pub proof fn songs_progress(transport: Transport, project: ProjectModel)
    requires
        project.wf(),
        transport.wf(project),
    ensures
        transport.song_advanced(project) is None <==> !transport.more_bars(project)
            && transport.active_song == project.song.len() - 1,
        transport.song_advanced(project) matches Some(next) ==> {
            ||| next.active_song == transport.active_song && next.song_bar == transport.song_bar + 1
            ||| next.active_song == transport.active_song + 1 && next.song_bar == 0
        },
        transport.song_advanced(project) matches Some(next) ==> next.active_pattern
            == project.song[next.active_song as int].pattern - 1,
{
}

} // verus!
