//! Step events, ties and the notes they sound.
use super::instrument::DrumRecipeSlot;
use super::parameter::{overlaid, ParameterLocks};
use super::percent::{Microtiming, Percent};
use vstd::prelude::*;

verus! {

/// When a trigger sounds.
#[derive(Clone, Copy, Debug, PartialEq, Eq, Structural)]
pub enum TriggerCondition {
    Always,
    /// On one pass out of `length`.
    Cycle { position: u8, length: u8 },
    Chance { probability: Percent },
}

impl TriggerCondition {
    pub open spec fn wf(self) -> bool {
        match self {
            TriggerCondition::Cycle { length, .. } => length >= 1,
            _ => true,
        }
    }

    pub fn is_valid(&self) -> (r: bool)
        ensures
            r == self.wf(),
    {
        match self {
            TriggerCondition::Cycle { length, .. } => *length >= 1,
            _ => true,
        }
    }
}

/// The tones of a chord, as degrees of the scale in the order they sound.
#[derive(Clone, Copy, Debug, PartialEq, Eq, Structural)]
pub enum ChordShape {
    Single,
    DyadThird,
    DyadFifth,
    TriadRoot,
    TriadFirst,
    TriadSecond,
    SeventhRoot,
    SeventhFirst,
    SeventhSecond,
    SeventhThird,
}

impl ChordShape {
    pub open spec fn degrees(self) -> Seq<u8> {
        match self {
            ChordShape::Single => seq![1],
            ChordShape::DyadThird => seq![1, 3],
            ChordShape::DyadFifth => seq![1, 5],
            ChordShape::TriadRoot => seq![1, 3, 5],
            ChordShape::TriadFirst => seq![3, 5, 1],
            ChordShape::TriadSecond => seq![5, 1, 3],
            ChordShape::SeventhRoot => seq![1, 3, 5, 7],
            ChordShape::SeventhFirst => seq![3, 5, 7, 1],
            ChordShape::SeventhSecond => seq![5, 7, 1, 3],
            ChordShape::SeventhThird => seq![7, 1, 3, 5],
        }
    }

    /// How many tones the shape has.
    pub fn voices(self) -> (n: usize)
        ensures
            n == self.degrees().len(),
            1 <= n <= 4,
    {
        match self {
            ChordShape::Single => 1,
            ChordShape::DyadThird | ChordShape::DyadFifth => 2,
            ChordShape::TriadRoot | ChordShape::TriadFirst | ChordShape::TriadSecond => 3,
            _ => 4,
        }
    }

    pub fn degree(self, voice: usize) -> (degree: u8)
        requires
            voice < self.degrees().len(),
        ensures
            degree == self.degrees()[voice as int],
            1 <= degree <= 7,
    {
        let table: [u8; 4] = match self {
            ChordShape::Single => [1, 0, 0, 0],
            ChordShape::DyadThird => [1, 3, 0, 0],
            ChordShape::DyadFifth => [1, 5, 0, 0],
            ChordShape::TriadRoot => [1, 3, 5, 0],
            ChordShape::TriadFirst => [3, 5, 1, 0],
            ChordShape::TriadSecond => [5, 1, 3, 0],
            ChordShape::SeventhRoot => [1, 3, 5, 7],
            ChordShape::SeventhFirst => [3, 5, 7, 1],
            ChordShape::SeventhSecond => [5, 7, 1, 3],
            ChordShape::SeventhThird => [7, 1, 3, 5],
        };
        table[voice]
    }
}

#[derive(Clone, Copy, Debug, PartialEq, Eq, Structural)]
pub enum ArpeggioType {
    Up,
    Down,
    UpDown,
    DownUp,
    Random,
}

#[derive(Clone, Copy, Debug, PartialEq, Eq, Structural)]
pub enum ArpeggioRate {
    Quarter,
    Eighth,
    Sixteenth,
    ThirtySecond,
}

impl ArpeggioRate {
    /// Length of one tone in eighths of a beat.
    pub open spec fn eighths(self) -> int {
        match self {
            ArpeggioRate::Quarter => 8,
            ArpeggioRate::Eighth => 4,
            ArpeggioRate::Sixteenth => 2,
            ArpeggioRate::ThirtySecond => 1,
        }
    }

    pub fn beat_eighths(self) -> (n: u8)
        ensures
            n == self.eighths(),
    {
        match self {
            ArpeggioRate::Quarter => 8,
            ArpeggioRate::Eighth => 4,
            ArpeggioRate::Sixteenth => 2,
            ArpeggioRate::ThirtySecond => 1,
        }
    }
}

#[derive(Clone, Copy, Debug, PartialEq, Eq, Structural)]
pub struct ArpeggioConfig {
    pub enabled: bool,
    pub kind: ArpeggioType,
    pub rate: ArpeggioRate,
}

/// No arpeggio.
pub open spec fn no_arpeggio() -> ArpeggioConfig {
    ArpeggioConfig { enabled: false, kind: ArpeggioType::Up, rate: ArpeggioRate::Sixteenth }
}

impl Default for ArpeggioConfig {
    fn default() -> (config: ArpeggioConfig)
        ensures
            config == no_arpeggio(),
    {
        ArpeggioConfig { enabled: false, kind: ArpeggioType::Up, rate: ArpeggioRate::Sixteenth }
    }
}

/// What a step of a sequence does.
#[derive(Clone, Copy, Debug, PartialEq, Eq)]
pub enum StepEvent {
    Trigger {
        accent: bool,
        recipe: DrumRecipeSlot,
        condition: TriggerCondition,
        retrigger_count: u8,
        microtiming: Microtiming,
        locks: ParameterLocks,
    },
    BassNote {
        degree: u8,
        octave: u8,
        accent: bool,
        slide: bool,
        condition: TriggerCondition,
        retrigger_count: u8,
        microtiming: Microtiming,
        locks: ParameterLocks,
    },
    Note {
        degree: u8,
        octave: u8,
        accent: bool,
        chord_shape: Option<ChordShape>,
        arpeggio: ArpeggioConfig,
        condition: TriggerCondition,
        retrigger_count: u8,
        microtiming: Microtiming,
        locks: ParameterLocks,
    },
    LeadNote {
        degree: u8,
        octave: u8,
        accent: bool,
        slide: bool,
        condition: TriggerCondition,
        retrigger_count: u8,
        microtiming: Microtiming,
        locks: ParameterLocks,
    },
    Tie { locks: ParameterLocks },
}

/// A note to start: pitch, emphasis and how it unfolds.
#[derive(Clone, Copy, Debug, PartialEq, Eq, Structural)]
pub struct SynthTrigger {
    pub degree: u8,
    pub octave: u8,
    pub accent: bool,
    pub slide: bool,
    pub chord_shape: Option<ChordShape>,
    pub arpeggio: ArpeggioConfig,
}

impl SynthTrigger {
    pub open spec fn wf(self) -> bool {
        1 <= self.degree <= 8
    }
}

impl StepEvent {
    pub open spec fn condition_of(self) -> Option<TriggerCondition> {
        match self {
            StepEvent::Trigger { condition, .. } => Some(condition),
            StepEvent::BassNote { condition, .. } => Some(condition),
            StepEvent::Note { condition, .. } => Some(condition),
            StepEvent::LeadNote { condition, .. } => Some(condition),
            StepEvent::Tie { .. } => None,
        }
    }

    pub open spec fn retriggers(self) -> Option<u8> {
        match self {
            StepEvent::Trigger { retrigger_count, .. } => Some(retrigger_count),
            StepEvent::BassNote { retrigger_count, .. } => Some(retrigger_count),
            StepEvent::Note { retrigger_count, .. } => Some(retrigger_count),
            StepEvent::LeadNote { retrigger_count, .. } => Some(retrigger_count),
            StepEvent::Tie { .. } => None,
        }
    }

    pub open spec fn timing(self) -> Option<Microtiming> {
        match self {
            StepEvent::Trigger { microtiming, .. } => Some(microtiming),
            StepEvent::BassNote { microtiming, .. } => Some(microtiming),
            StepEvent::Note { microtiming, .. } => Some(microtiming),
            StepEvent::LeadNote { microtiming, .. } => Some(microtiming),
            StepEvent::Tie { .. } => None,
        }
    }

    pub open spec fn own_locks(self) -> ParameterLocks {
        match self {
            StepEvent::Trigger { locks, .. } => locks,
            StepEvent::BassNote { locks, .. } => locks,
            StepEvent::Note { locks, .. } => locks,
            StepEvent::LeadNote { locks, .. } => locks,
            StepEvent::Tie { locks } => locks,
        }
    }

    /// The note that the event starts by itself, if it is one.
    pub open spec fn note(self) -> Option<SynthTrigger> {
        match self {
            StepEvent::BassNote { degree, octave, accent, slide, .. } => Some(
                SynthTrigger {
                    degree,
                    octave,
                    accent,
                    slide,
                    chord_shape: None,
                    arpeggio: no_arpeggio(),
                },
            ),
            StepEvent::Note { degree, octave, accent, chord_shape, arpeggio, .. } => Some(
                SynthTrigger { degree, octave, accent, slide: false, chord_shape, arpeggio },
            ),
            StepEvent::LeadNote { degree, octave, accent, slide, .. } => Some(
                SynthTrigger {
                    degree,
                    octave,
                    accent,
                    slide,
                    chord_shape: None,
                    arpeggio: no_arpeggio(),
                },
            ),
            _ => None,
        }
    }

    pub open spec fn wf(self) -> bool {
        &&& self.condition_of() matches Some(c) ==> c.wf()
        &&& self.retriggers() matches Some(n) ==> n >= 1
        &&& self.note() matches Some(t) ==> t.wf()
    }

    /// Whether the event can be played.
    pub fn is_valid(&self) -> (r: bool)
        ensures
            r == self.wf(),
    {
        let conditioned: bool = match self.condition() {
            Some(condition) => condition.is_valid(),
            None => true,
        };
        let counted: bool = match self.retrigger_count() {
            Some(count) => count >= 1,
            None => true,
        };
        let pitched: bool = match self.note_trigger() {
            Some(trigger) => 1 <= trigger.degree && trigger.degree <= 8,
            None => true,
        };
        conditioned && counted && pitched
    }

    pub fn condition(&self) -> (condition: Option<TriggerCondition>)
        ensures
            condition == self.condition_of(),
    {
        match self {
            StepEvent::Trigger { condition, .. } => Some(*condition),
            StepEvent::BassNote { condition, .. } => Some(*condition),
            StepEvent::Note { condition, .. } => Some(*condition),
            StepEvent::LeadNote { condition, .. } => Some(*condition),
            StepEvent::Tie { .. } => None,
        }
    }

    pub fn retrigger_count(&self) -> (count: Option<u8>)
        ensures
            count == self.retriggers(),
    {
        match self {
            StepEvent::Trigger { retrigger_count, .. } => Some(*retrigger_count),
            StepEvent::BassNote { retrigger_count, .. } => Some(*retrigger_count),
            StepEvent::Note { retrigger_count, .. } => Some(*retrigger_count),
            StepEvent::LeadNote { retrigger_count, .. } => Some(*retrigger_count),
            StepEvent::Tie { .. } => None,
        }
    }

    pub fn microtiming(&self) -> (timing: Option<Microtiming>)
        ensures
            timing == self.timing(),
    {
        match self {
            StepEvent::Trigger { microtiming, .. } => Some(*microtiming),
            StepEvent::BassNote { microtiming, .. } => Some(*microtiming),
            StepEvent::Note { microtiming, .. } => Some(*microtiming),
            StepEvent::LeadNote { microtiming, .. } => Some(*microtiming),
            StepEvent::Tie { .. } => None,
        }
    }

    pub fn locks(&self) -> (locks: ParameterLocks)
        ensures
            locks == self.own_locks(),
    {
        match self {
            StepEvent::Trigger { locks, .. } => *locks,
            StepEvent::BassNote { locks, .. } => *locks,
            StepEvent::Note { locks, .. } => *locks,
            StepEvent::LeadNote { locks, .. } => *locks,
            StepEvent::Tie { locks } => *locks,
        }
    }

    pub fn note_trigger(&self) -> (note: Option<SynthTrigger>)
        ensures
            note == self.note(),
    {
        match self {
            StepEvent::BassNote { degree, octave, accent, slide, .. } => Some(
                SynthTrigger {
                    degree: *degree,
                    octave: *octave,
                    accent: *accent,
                    slide: *slide,
                    chord_shape: None,
                    arpeggio: ArpeggioConfig::default(),
                },
            ),
            StepEvent::Note { degree, octave, accent, chord_shape, arpeggio, .. } => Some(
                SynthTrigger {
                    degree: *degree,
                    octave: *octave,
                    accent: *accent,
                    slide: false,
                    chord_shape: *chord_shape,
                    arpeggio: *arpeggio,
                },
            ),
            StepEvent::LeadNote { degree, octave, accent, slide, .. } => Some(
                SynthTrigger {
                    degree: *degree,
                    octave: *octave,
                    accent: *accent,
                    slide: *slide,
                    chord_shape: None,
                    arpeggio: ArpeggioConfig::default(),
                },
            ),
            _ => None,
        }
    }

    pub fn is_tie(&self) -> (r: bool)
        ensures
            r == (self is Tie),
    {
        match self {
            StepEvent::Tie { .. } => true,
            _ => false,
        }
    }

    /// Whether two events are the same in every respect.
    pub fn same(&self, other: &StepEvent) -> (r: bool)
        ensures
            r == (*self == *other),
    {
        match (self, other) {
            (
                StepEvent::Trigger {
                    accent: a0,
                    recipe: a1,
                    condition: a2,
                    retrigger_count: a3,
                    microtiming: a4,
                    locks: a5,
                },
                StepEvent::Trigger {
                    accent: b0,
                    recipe: b1,
                    condition: b2,
                    retrigger_count: b3,
                    microtiming: b4,
                    locks: b5,
                },
            ) => *a0 == *b0 && *a1 == *b1 && *a2 == *b2 && *a3 == *b3 && *a4 == *b4 && a5.same(b5),
            (
                StepEvent::BassNote {
                    degree: a0,
                    octave: a1,
                    accent: a2,
                    slide: a3,
                    condition: a4,
                    retrigger_count: a5,
                    microtiming: a6,
                    locks: a7,
                },
                StepEvent::BassNote {
                    degree: b0,
                    octave: b1,
                    accent: b2,
                    slide: b3,
                    condition: b4,
                    retrigger_count: b5,
                    microtiming: b6,
                    locks: b7,
                },
            ) => *a0 == *b0 && *a1 == *b1 && *a2 == *b2 && *a3 == *b3 && *a4 == *b4 && *a5 == *b5
                && *a6 == *b6 && a7.same(b7),
            (
                StepEvent::Note {
                    degree: a0,
                    octave: a1,
                    accent: a2,
                    chord_shape: a3,
                    arpeggio: a4,
                    condition: a5,
                    retrigger_count: a6,
                    microtiming: a7,
                    locks: a8,
                },
                StepEvent::Note {
                    degree: b0,
                    octave: b1,
                    accent: b2,
                    chord_shape: b3,
                    arpeggio: b4,
                    condition: b5,
                    retrigger_count: b6,
                    microtiming: b7,
                    locks: b8,
                },
            ) => *a0 == *b0 && *a1 == *b1 && *a2 == *b2 && *a3 == *b3 && *a4 == *b4 && *a5 == *b5
                && *a6 == *b6 && *a7 == *b7 && a8.same(b8),
            (
                StepEvent::LeadNote {
                    degree: a0,
                    octave: a1,
                    accent: a2,
                    slide: a3,
                    condition: a4,
                    retrigger_count: a5,
                    microtiming: a6,
                    locks: a7,
                },
                StepEvent::LeadNote {
                    degree: b0,
                    octave: b1,
                    accent: b2,
                    slide: b3,
                    condition: b4,
                    retrigger_count: b5,
                    microtiming: b6,
                    locks: b7,
                },
            ) => *a0 == *b0 && *a1 == *b1 && *a2 == *b2 && *a3 == *b3 && *a4 == *b4 && *a5 == *b5
                && *a6 == *b6 && a7.same(b7),
            (StepEvent::Tie { locks: a0 }, StepEvent::Tie { locks: b0 }) => a0.same(b0),
            _ => false,
        }
    }
}

/// Whether two steps hold the same event, or both none.
pub fn same_step(a: &Option<StepEvent>, b: &Option<StepEvent>) -> (r: bool)
    ensures
        r == (*a == *b),
{
    match (a, b) {
        (None, None) => true,
        (Some(x), Some(y)) => x.same(y),
        _ => false,
    }
}

/// The step `distance` before `step` in a loop of `count` steps.
pub open spec fn step_before(count: int, step: int, distance: int) -> int {
    if step >= distance {
        step - distance
    } else {
        step - distance + count
    }
}

pub open spec fn is_tie(event: Option<StepEvent>) -> bool {
    event matches Some(StepEvent::Tie { .. })
}

/// How far back the run of ties that reaches `step` goes: the distance to the
/// nearest step that is no tie, or the length of the loop where there is none.
pub open spec fn tie_reach(steps: Seq<Option<StepEvent>>, step: int, from: int) -> int
    decreases steps.len() - from,
{
    if from >= steps.len() {
        steps.len() as int
    } else if is_tie(steps[step_before(steps.len() as int, step, from)]) {
        tie_reach(steps, step, from + 1)
    } else {
        from
    }
}

/// The distance from a tie back to the note that it holds, if it holds one.
pub open spec fn source_distance(steps: Seq<Option<StepEvent>>, step: int) -> Option<int> {
    let distance = tie_reach(steps, step, 1);
    if distance < steps.len() {
        match steps[step_before(steps.len() as int, step, distance)] {
            Some(event) => if event.note() is Some {
                Some(distance)
            } else {
                None
            },
            None => None,
        }
    } else {
        None
    }
}

/// A run of ties is looked for behind the step.
pub proof fn reach_is_behind(steps: Seq<Option<StepEvent>>, step: int, from: int)
    requires
        0 <= from <= steps.len(),
    ensures
        from <= tie_reach(steps, step, from) <= steps.len(),
    decreases steps.len() - from,
{
    if from < steps.len() && is_tie(steps[step_before(steps.len() as int, step, from)]) {
        reach_is_behind(steps, step, from + 1);
    }
}

/// The locks in force `distance` steps before `step`, for a run of ties that
/// starts at the note `source` steps before it.
pub open spec fn held_locks(
    steps: Seq<Option<StepEvent>>,
    step: int,
    source: int,
    distance: int,
) -> Seq<Option<super::parameter::ParameterValue>>
    decreases source - distance,
{
    let here = steps[step_before(steps.len() as int, step, distance)]->0.own_locks()@;
    if distance >= source {
        here
    } else {
        overlaid(held_locks(steps, step, source, distance + 1), here)
    }
}

/// The locks in force at a step: its own, and through ties those of the note
/// it holds and of the ties in between. Nothing is in force on an empty step
/// or on a tie without a note.
pub open spec fn locks_in_force(
    steps: Seq<Option<StepEvent>>,
    step: int,
) -> Option<Seq<Option<super::parameter::ParameterValue>>> {
    match steps[step] {
        None => None,
        Some(StepEvent::Tie { .. }) => match source_distance(steps, step) {
            Some(source) => Some(held_locks(steps, step, source, 0)),
            None => None,
        },
        Some(event) => Some(event.own_locks()@),
    }
}

fn back(count: usize, step: usize, distance: usize) -> (r: usize)
    requires
        step < count,
        distance <= count,
    ensures
        r == step_before(count as int, step as int, distance as int),
        distance > 0 || r == step,
        r < count || distance == 0,
        r < count,
{
    if step >= distance {
        step - distance
    } else {
        count - (distance - step)
    }
}

fn find_source(steps: &Vec<Option<StepEvent>>, count: usize, step: usize) -> (distance: Option<usize>)
    requires
        0 < count <= steps@.len(),
        step < count,
    ensures
        match source_distance(steps@.take(count as int), step as int) {
            Some(d) => distance matches Some(found) && found == d && 1 <= d < count,
            None => distance is None,
        },
{
    let ghost s = steps@.take(count as int);
    let mut distance: usize = 1;
    while distance < count
        invariant
            0 < count <= steps@.len(),
            step < count,
            s == steps@.take(count as int),
            1 <= distance <= count,
            tie_reach(s, step as int, 1) == tie_reach(s, step as int, distance as int),
        decreases count - distance,
    {
        let at: usize = back(count, step, distance);
        assert(s[at as int] == steps@[at as int]);
        match &steps[at] {
            Some(event) => {
                if !event.is_tie() {
                    assert(tie_reach(s, step as int, distance as int) == distance);
                    return if event.note_trigger().is_some() {
                        Some(distance)
                    } else {
                        None
                    };
                }
            },
            None => {
                assert(tie_reach(s, step as int, distance as int) == distance);
                return None;
            },
        }
        distance = distance + 1;
    }
    None
}

/// The step of the note that a tie holds.
pub fn tie_source(steps: &Vec<Option<StepEvent>>, count: usize, step: usize) -> (source: Option<
    usize,
>)
    requires
        0 < count <= steps@.len(),
        step < count,
    ensures
        match source_distance(steps@.take(count as int), step as int) {
            Some(d) => source matches Some(at) && at == step_before(count as int, step as int, d),
            None => source is None,
        },
        source matches Some(at) ==> at < count && (steps@[at as int] matches Some(event)
            && event.note() is Some),
{
    match find_source(steps, count, step) {
        Some(distance) => {
            let at: usize = back(count, step, distance);
            assert(steps@.take(count as int)[at as int] == steps@[at as int]);
            Some(at)
        },
        None => None,
    }
}

/// The locks in force at a step of a loop of `count` steps.
pub fn effective_event_locks(
    steps: &Vec<Option<StepEvent>>,
    count: usize,
    step: usize,
) -> (locks: Option<ParameterLocks>)
    requires
        0 < count <= steps@.len(),
        step < count,
    ensures
        match locks_in_force(steps@.take(count as int), step as int) {
            Some(l) => locks matches Some(r) && r@ == l,
            None => locks is None,
        },
{
    let ghost s = steps@.take(count as int);
    assert(s[step as int] == steps@[step as int]);
    match &steps[step] {
        None => None,
        Some(event) => {
            if !event.is_tie() {
                return Some(event.locks());
            }
            let source: usize = match find_source(steps, count, step) {
                None => {
                    return None;
                },
                Some(source) => source,
            };
            let mut distance: usize = source;
            let origin: usize = back(count, step, source);
            assert(s[origin as int] == steps@[origin as int]);
            let mut locks = match &steps[origin] {
                Some(note) => note.locks(),
                None => {
                    return None;
                },
            };
            proof {
                ties_between(s, step as int, source as int);
            }
            while distance > 0
                invariant
                    0 < count <= steps@.len(),
                    step < count,
                    s == steps@.take(count as int),
                    1 <= source < count,
                    distance <= source,
                    is_tie(s[step as int]),
                    forall|d: int|
                        1 <= d < source ==> is_tie(
                            #[trigger] s[step_before(count as int, step as int, d)],
                        ),
                    locks@ == held_locks(s, step as int, source as int, distance as int),
                decreases distance,
            {
                distance = distance - 1;
                let at: usize = back(count, step, distance);
                assert(s[at as int] == steps@[at as int]);
                assert(is_tie(s[step_before(count as int, step as int, distance as int)]));
                if let Some(tie) = &steps[at] {
                    locks = locks.overlay(&tie.locks());
                }
            }
            Some(locks)
        },
    }
}

/// Every step between a tie and its source is a tie.
pub proof fn ties_between(steps: Seq<Option<StepEvent>>, step: int, source: int)
    requires
        0 <= step < steps.len(),
        source_distance(steps, step) == Some(source),
    ensures
        forall|d: int|
            1 <= d < source ==> is_tie(
                #[trigger] steps[step_before(steps.len() as int, step, d)],
            ),
{
    reach_skips_ties(steps, step, 1);
}

proof fn reach_skips_ties(steps: Seq<Option<StepEvent>>, step: int, from: int)
    requires
        0 <= step < steps.len(),
        1 <= from <= steps.len(),
    ensures
        from <= tie_reach(steps, step, from) <= steps.len(),
        forall|d: int|
            from <= d < tie_reach(steps, step, from) ==> is_tie(
                #[trigger] steps[step_before(steps.len() as int, step, d)],
            ),
    decreases steps.len() - from,
{
    if from < steps.len() && is_tie(steps[step_before(steps.len() as int, step, from)]) {
        reach_skips_ties(steps, step, from + 1);
    }
}

/// A lock that a tie carries itself is in force on that tie, whatever the note
/// and the earlier ties lock.
pub proof fn ties_override_their_source(
    steps: Seq<Option<StepEvent>>,
    step: int,
    position: int,
)
    requires
        0 <= step < steps.len(),
        is_tie(steps[step]),
        0 <= position < super::parameter::PARAMETER_COUNT,
        source_distance(steps, step) is Some,
        steps[step]->0.own_locks()@[position] is Some,
    ensures
        locks_in_force(steps, step) is Some,
        locks_in_force(steps, step)->0[position] == steps[step]->0.own_locks()@[position],
{
    let source = source_distance(steps, step)->0;
    reach_skips_ties(steps, step, 1);
    assert(step_before(steps.len() as int, step, 0) == step);
    held_length(steps, step, source, 1);
}

/// A parameter that neither a tie nor any tie before it locks keeps the lock
/// of the note.
pub proof fn ties_inherit_from_their_source(
    steps: Seq<Option<StepEvent>>,
    step: int,
    position: int,
)
    requires
        0 <= step < steps.len(),
        is_tie(steps[step]),
        0 <= position < super::parameter::PARAMETER_COUNT,
        source_distance(steps, step) matches Some(source) && forall|d: int|
            0 <= d < source ==> (#[trigger] steps[step_before(
                steps.len() as int,
                step,
                d,
            )])->0.own_locks()@[position] is None,
    ensures
        locks_in_force(steps, step)->0[position] == steps[step_before(
            steps.len() as int,
            step,
            source_distance(steps, step)->0,
        )]->0.own_locks()@[position],
{
    reach_skips_ties(steps, step, 1);
    inherit_from(steps, step, source_distance(steps, step)->0, position, 0);
}

proof fn held_length(steps: Seq<Option<StepEvent>>, step: int, source: int, distance: int)
    ensures
        held_locks(steps, step, source, distance).len()
            == super::parameter::PARAMETER_COUNT,
    decreases source - distance,
{
    steps[step_before(steps.len() as int, step, distance)]->0.own_locks().view_length();
    if distance < source {
        held_length(steps, step, source, distance + 1);
    }
}

proof fn inherit_from(
    steps: Seq<Option<StepEvent>>,
    step: int,
    source: int,
    position: int,
    distance: int,
)
    requires
        0 <= distance <= source,
        0 <= position < super::parameter::PARAMETER_COUNT,
        forall|d: int|
            0 <= d < source ==> (#[trigger] steps[step_before(
                steps.len() as int,
                step,
                d,
            )])->0.own_locks()@[position] is None,
    ensures
        held_locks(steps, step, source, distance)[position] == steps[step_before(
            steps.len() as int,
            step,
            source,
        )]->0.own_locks()@[position],
    decreases source - distance,
{
    held_length(steps, step, source, distance);
    if distance < source {
        inherit_from(steps, step, source, position, distance + 1);
        held_length(steps, step, source, distance + 1);
        assert(steps[step_before(steps.len() as int, step, distance)]->0.own_locks()@[position] is None);
    }
}

/// What a step asks of a voice.
#[derive(Clone, Copy, Debug, PartialEq, Eq, Structural)]
pub enum GateAction {
    Trigger(SynthTrigger),
    Hold,
    Release,
}

/// A note starts itself; a tie holds a sounding voice and restarts the note
/// it belongs to on a silent one; everything else releases.
pub open spec fn gate_action(
    steps: Seq<Option<StepEvent>>,
    step: int,
    active: bool,
) -> GateAction {
    match steps[step] {
        Some(StepEvent::Tie { .. }) => if active {
            GateAction::Hold
        } else {
            match source_distance(steps, step) {
                Some(d) => GateAction::Trigger(
                    steps[step_before(steps.len() as int, step, d)]->0.note()->0,
                ),
                None => GateAction::Release,
            }
        },
        Some(event) => match event.note() {
            Some(note) => GateAction::Trigger(note),
            None => GateAction::Release,
        },
        None => GateAction::Release,
    }
}

pub fn synth_action(
    steps: &Vec<Option<StepEvent>>,
    count: usize,
    step: usize,
    active: bool,
) -> (action: GateAction)
    requires
        0 < count <= steps@.len(),
        step < count,
    ensures
        action == gate_action(steps@.take(count as int), step as int, active),
{
    let ghost s = steps@.take(count as int);
    assert(s[step as int] == steps@[step as int]);
    match &steps[step] {
        None => GateAction::Release,
        Some(event) => {
            if event.is_tie() {
                if active {
                    return GateAction::Hold;
                }
                match tie_source(steps, count, step) {
                    None => GateAction::Release,
                    Some(source) => {
                        assert(s[source as int] == steps@[source as int]);
                        match &steps[source] {
                            Some(note) => match note.note_trigger() {
                                Some(trigger) => GateAction::Trigger(trigger),
                                None => GateAction::Release,
                            },
                            None => GateAction::Release,
                        }
                    },
                }
            } else {
                match event.note_trigger() {
                    Some(trigger) => GateAction::Trigger(trigger),
                    None => GateAction::Release,
                }
            }
        },
    }
}

} // verus!
