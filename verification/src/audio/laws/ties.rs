//! What ties hold: the note they go back to, and the locks in force on them.
use crate::model::event::{
    gate_action, held_locks, is_tie, locks_in_force, source_distance, step_before,
    tie_reach, GateAction, StepEvent, SynthTrigger,
};
use crate::model::parameter::{
    overlaid, ParameterLocks, ParameterValue, PARAMETER_COUNT,
};
use vstd::prelude::*;

verus! {

/// Counting steps back goes round the loop: from the first step to the last.
pub proof fn steps_go_back_round_the_loop(count: int, step: int, distance: int)
    requires
        0 <= step < count,
        0 <= distance < count,
    ensures
        0 <= step_before(count, step, distance) < count,
        (step_before(count, step, distance) + distance) % count == step,
        step_before(count, step, 0) == step,
        step > 0 && count > 1 ==> step_before(count, step, 1) == step - 1,
        count > 1 ==> step_before(count, 0, 1) == count - 1,
{
    if step >= distance {
        vstd::arithmetic::div_mod::lemma_small_mod(step as nat, count as nat);
    } else {
        vstd::arithmetic::div_mod::lemma_mod_add_multiples_vanish(step, count);
        vstd::arithmetic::div_mod::lemma_small_mod(step as nat, count as nat);
        assert(step_before(count, step, distance) + distance == count + step);
    }
}

proof fn reach_passes_ties(steps: Seq<Option<StepEvent>>, step: int, from: int, to: int)
    requires
        1 <= from <= to < steps.len(),
        !is_tie(steps[step_before(steps.len() as int, step, to)]),
        forall|d: int|
            from <= d < to ==> is_tie(#[trigger] steps[step_before(steps.len() as int, step, d)]),
    ensures
        tie_reach(steps, step, from) == to,
    decreases to - from,
{
    if from < to {
        assert(is_tie(steps[step_before(steps.len() as int, step, from)]));
        reach_passes_ties(steps, step, from + 1, to);
    }
}

/// A step goes back to the nearest note with nothing but ties in between.
pub proof fn ties_go_back_to_the_nearest_note(
    steps: Seq<Option<StepEvent>>,
    step: int,
    distance: int,
)
    requires
        0 <= step < steps.len(),
        1 <= distance < steps.len(),
        forall|d: int|
            1 <= d < distance ==> is_tie(#[trigger] steps[step_before(steps.len() as int, step, d)]),
    ensures
        ({
            let at = steps[step_before(steps.len() as int, step, distance)];
            &&& at matches Some(event) ==> event is BassNote || event is Note || event is LeadNote
                ==> source_distance(steps, step) == Some(distance)
            &&& at is None ==> source_distance(steps, step) is None
            &&& at matches Some(event) ==> event is Trigger ==> source_distance(steps, step)
                is None
        }),
{
    if !is_tie(steps[step_before(steps.len() as int, step, distance)]) {
        reach_passes_ties(steps, step, 1, distance);
    }
}

proof fn nearer_locks_hide_the_rest(
    steps: Seq<Option<StepEvent>>,
    step: int,
    source: int,
    position: int,
    from: int,
    at: int,
)
    requires
        0 <= from <= at <= source,
        0 <= position < PARAMETER_COUNT,
        forall|d: int|
            from <= d < at ==> (#[trigger] steps[step_before(
                steps.len() as int,
                step,
                d,
            )])->0.own_locks()@[position] is None,
        at == source || steps[step_before(steps.len() as int, step, at)]->0.own_locks()@[position]
            is Some,
    ensures
        held_locks(steps, step, source, from).len() == PARAMETER_COUNT,
        held_locks(steps, step, source, from)[position] == steps[step_before(
            steps.len() as int,
            step,
            at,
        )]->0.own_locks()@[position],
    decreases at - from,
{
    held_locks_are_complete(steps, step, source, from);
    if from < source {
        held_locks_are_complete(steps, step, source, from + 1);
    }
    if from < at {
        assert(steps[step_before(steps.len() as int, step, from)]->0.own_locks()@[position]
            is None);
        nearer_locks_hide_the_rest(steps, step, source, position, from + 1, at);
    }
}

proof fn held_locks_are_complete(
    steps: Seq<Option<StepEvent>>,
    step: int,
    source: int,
    distance: int,
)
    ensures
        held_locks(steps, step, source, distance).len() == PARAMETER_COUNT,
    decreases source - distance,
{
    steps[step_before(steps.len() as int, step, distance)]->0.own_locks().view_length();
    if distance < source {
        held_locks_are_complete(steps, step, source, distance + 1);
    }
}

/// On a tie each parameter has the lock of the nearest step, from the tie
/// itself back to the note it holds, that locks it.
pub proof fn nearest_locks_are_in_force(
    steps: Seq<Option<StepEvent>>,
    step: int,
    position: int,
    distance: int,
)
    requires
        0 <= step < steps.len(),
        steps[step] matches Some(StepEvent::Tie { .. }),
        0 <= position < PARAMETER_COUNT,
        source_distance(steps, step) matches Some(source) && 0 <= distance <= source,
        forall|d: int|
            0 <= d < distance ==> (#[trigger] steps[step_before(
                steps.len() as int,
                step,
                d,
            )])->0.own_locks()@[position] is None,
        steps[step_before(steps.len() as int, step, distance)]->0.own_locks()@[position] is Some,
    ensures
        locks_in_force(steps, step) is Some,
        locks_in_force(steps, step)->0[position] == steps[step_before(
            steps.len() as int,
            step,
            distance,
        )]->0.own_locks()@[position],
{
    nearer_locks_hide_the_rest(
        steps,
        step,
        source_distance(steps, step)->0,
        position,
        0,
        distance,
    );
}

/// A parameter that neither a tie, nor the note it holds, nor any tie between
/// them locks is not locked on the tie.
pub proof fn ties_lock_nothing_of_their_own_accord(
    steps: Seq<Option<StepEvent>>,
    step: int,
    position: int,
)
    requires
        0 <= step < steps.len(),
        steps[step] matches Some(StepEvent::Tie { .. }),
        0 <= position < PARAMETER_COUNT,
        source_distance(steps, step) matches Some(source) && source >= 0 && forall|d: int|
            0 <= d <= source ==> (#[trigger] steps[step_before(
                steps.len() as int,
                step,
                d,
            )])->0.own_locks()@[position] is None,
    ensures
        locks_in_force(steps, step) is Some,
        locks_in_force(steps, step)->0[position] is None,
{
    let source = source_distance(steps, step)->0;
    nearer_locks_hide_the_rest(steps, step, source, position, 0, source);
    assert(steps[step_before(steps.len() as int, step, source)]->0.own_locks()@[position]
        is None);
}

/// A step that is no tie has its own locks in force and no others; an empty
/// step and a tie that holds no note have none.
pub proof fn steps_lock_for_themselves(steps: Seq<Option<StepEvent>>, step: int)
    requires
        0 <= step < steps.len(),
    ensures
        steps[step] is None ==> locks_in_force(steps, step) is None,
        steps[step] matches Some(StepEvent::Tie { .. }) ==> (locks_in_force(steps, step) is Some
            <==> source_distance(steps, step) is Some),
        steps[step] matches Some(StepEvent::Trigger { locks, .. }) ==> locks_in_force(steps, step)
            == Some(locks@),
        steps[step] matches Some(StepEvent::BassNote { locks, .. }) ==> locks_in_force(steps, step)
            == Some(locks@),
        steps[step] matches Some(StepEvent::Note { locks, .. }) ==> locks_in_force(steps, step)
            == Some(locks@),
        steps[step] matches Some(StepEvent::LeadNote { locks, .. }) ==> locks_in_force(steps, step)
            == Some(locks@),
{
}

/// Every event carries its own locks, ties too.
pub proof fn events_carry_their_locks(event: StepEvent, held: ParameterLocks)
    requires
        event matches StepEvent::Trigger { locks, .. } ==> locks == held,
        event matches StepEvent::BassNote { locks, .. } ==> locks == held,
        event matches StepEvent::Note { locks, .. } ==> locks == held,
        event matches StepEvent::LeadNote { locks, .. } ==> locks == held,
        event matches StepEvent::Tie { locks } ==> locks == held,
    ensures
        event.own_locks() == held,
{
}

/// What an event plays: a bass or lead note with its slide, a chord with its
/// shape and arpeggio; drum hits and ties play no note of their own.
pub proof fn notes_play_what_they_are_given(event: StepEvent, note: SynthTrigger)
    requires
        event.note() == Some(note),
    ensures
        event matches StepEvent::BassNote { degree, octave, accent, slide, .. } ==> {
            &&& note.degree == degree
            &&& note.octave == octave
            &&& note.accent == accent
            &&& note.slide == slide
            &&& note.chord_shape is None
            &&& !note.arpeggio.enabled
        },
        event matches StepEvent::LeadNote { degree, octave, accent, slide, .. } ==> {
            &&& note.degree == degree
            &&& note.octave == octave
            &&& note.accent == accent
            &&& note.slide == slide
            &&& note.chord_shape is None
            &&& !note.arpeggio.enabled
        },
        event matches StepEvent::Note { degree, octave, accent, chord_shape, arpeggio, .. } ==> {
            &&& note.degree == degree
            &&& note.octave == octave
            &&& note.accent == accent
            &&& !note.slide
            &&& note.chord_shape == chord_shape
            &&& note.arpeggio == arpeggio
        },
        !(event is Trigger),
        !(event is Tie),
{
}

/// Every bass note, chord and lead note plays.
pub proof fn notes_play(event: StepEvent)
    requires
        event is BassNote || event is Note || event is LeadNote,
    ensures
        event.note() is Some,
{
}

/// A note starts whether or not one sounds. A tie holds what sounds; where
/// nothing does it starts the note that it goes back to, and without one it
/// lets go, as an empty step does.
pub proof fn gates_follow_the_step(
    steps: Seq<Option<StepEvent>>,
    step: int,
    active: bool,
    distance: int,
)
    requires
        0 <= step < steps.len(),
        1 <= distance < steps.len(),
        forall|d: int|
            1 <= d < distance ==> is_tie(#[trigger] steps[step_before(steps.len() as int, step, d)]),
    ensures
        ({
            let back = steps[step_before(steps.len() as int, step, distance)];
            &&& steps[step] is None ==> gate_action(steps, step, active) == GateAction::Release
            &&& steps[step] matches Some(StepEvent::Trigger { .. }) ==> gate_action(
                steps,
                step,
                active,
            ) == GateAction::Release
            &&& steps[step] matches Some(event) ==> event.note() matches Some(note) ==> gate_action(
                steps,
                step,
                active,
            ) == GateAction::Trigger(note)
            &&& steps[step] matches Some(StepEvent::Tie { .. }) ==> {
                &&& active ==> gate_action(steps, step, active) == GateAction::Hold
                &&& !active && back is None ==> gate_action(steps, step, active)
                    == GateAction::Release
                &&& back matches Some(event) ==> event.note() matches Some(note) ==> !active
                    ==> gate_action(steps, step, active) == GateAction::Trigger(note)
            }
        }),
{
    if let Some(event) = steps[step_before(steps.len() as int, step, distance)] {
        if event.note() is Some {
            notes_play_what_they_are_given(event, event.note()->0);
        }
    }
    ties_go_back_to_the_nearest_note(steps, step, distance);
}

/// Locks laid over others win wherever they lock, and only there.
pub proof fn upper_locks_win(
    base: Seq<Option<ParameterValue>>,
    over: Seq<Option<ParameterValue>>,
    position: int,
)
    requires
        0 <= position < base.len(),
        base.len() == over.len(),
    ensures
        overlaid(base, over).len() == base.len(),
        over[position] is Some ==> overlaid(base, over)[position] == over[position],
        over[position] is None ==> overlaid(base, over)[position] == base[position],
{
}

} // verus!
