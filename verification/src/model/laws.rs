//! What holds of the musical model.
use super::event::{StepEvent, TriggerCondition};
use super::index_map::{edited, origin, rebased, IndexEdit, SongIndexMap};
use super::instrument::{ChorusMode, DelayDivision, FmAlgorithm, FmRatio, TrackEffects};
use super::parameter::{FmOperatorField, ParameterId, ParameterLocks, ParameterValue};
use super::percent::Percent;
use super::project::{default_kind, Globals, SongEntry};
use vstd::prelude::*;

verus! {

/// Every operator of an algorithm is either heard or modulates another, never
/// both and never neither.
pub proof fn operators_are_heard_or_modulate(algorithm: FmAlgorithm, operator: int)
    requires
        0 <= operator < 4,
    ensures
        algorithm.carries(operator) <==> !(exists|target: int|
            #[trigger] algorithm.feeds(operator, target)),
        algorithm.carries(0),
{
    if !algorithm.carries(operator) {
        let target = match algorithm {
            FmAlgorithm::Cascade => operator - 1,
            FmAlgorithm::Split => if operator == 3 {
                2
            } else {
                0
            },
            FmAlgorithm::Converge => 0,
            FmAlgorithm::Pairs => operator - 1,
            FmAlgorithm::Shared => 0,
            FmAlgorithm::Stack => operator - 1,
            FmAlgorithm::Mixed => 2,
            FmAlgorithm::Additive => 0,
        };
        assert(algorithm.feeds(operator, target));
    }
}

/// The eight algorithms: a cascade of four, one that splits and meets again,
/// three into one, two pairs, one into three, a stack beside a carrier, one
/// pair beside two carriers, and four carriers.
pub proof fn algorithms_route_as_they_are_named(source: int, target: int)
    requires
        0 <= source < 4,
        0 <= target < 4,
    ensures
        FmAlgorithm::Cascade.feeds(source, target) <==> source == target + 1,
        FmAlgorithm::Converge.feeds(source, target) <==> source > 0 && target == 0,
        FmAlgorithm::Shared.feeds(source, target) <==> source == 3 && target < 3,
        !FmAlgorithm::Additive.feeds(source, target),
        FmAlgorithm::Pairs.feeds(source, target) <==> source == target + 1 && source % 2 == 1,
        FmAlgorithm::Stack.feeds(source, target) <==> source == target + 1 && target > 0,
        FmAlgorithm::Mixed.feeds(source, target) <==> FmAlgorithm::Pairs.feeds(source, target)
            && source == 3,
        FmAlgorithm::Split.feeds(source, target) <==> (source == 3 && (target == 1 || target == 2))
            || ((source == 1 || source == 2) && target == 0),
{
}

/// The output of an algorithm is scaled by exactly the operators that are
/// heard.
pub proof fn carriers_are_counted(algorithm: FmAlgorithm)
    ensures
        algorithm == FmAlgorithm::Cascade || algorithm == FmAlgorithm::Split || algorithm
            == FmAlgorithm::Converge <==> algorithm.carrier_total() == 1,
        algorithm == FmAlgorithm::Pairs || algorithm == FmAlgorithm::Stack
            <==> algorithm.carrier_total() == 2,
        algorithm == FmAlgorithm::Shared || algorithm == FmAlgorithm::Mixed
            <==> algorithm.carrier_total() == 3,
        algorithm == FmAlgorithm::Additive <==> algorithm.carrier_total() == 4,
{
}

/// Ratios are the whole numbers up to eight, and a half.
pub proof fn ratios_are_harmonics()
    ensures
        2 * FmRatio::Half.doubled() == FmRatio::One.doubled(),
        FmRatio::One.doubled() == 2,
        FmRatio::Two.doubled() == FmRatio::One.doubled() + 2,
        FmRatio::Three.doubled() == FmRatio::Two.doubled() + 2,
        FmRatio::Four.doubled() == FmRatio::Three.doubled() + 2,
        FmRatio::Five.doubled() == FmRatio::Four.doubled() + 2,
        FmRatio::Six.doubled() == FmRatio::Five.doubled() + 2,
        FmRatio::Seven.doubled() == FmRatio::Six.doubled() + 2,
        FmRatio::Eight.doubled() == FmRatio::Seven.doubled() + 2,
{
}

/// A quarter is two eighths, an eighth two sixteenths, and a dotted eighth an
/// eighth and a half.
pub proof fn delay_divisions_halve()
    ensures
        DelayDivision::Sixteenth.sixteenths() == 1,
        DelayDivision::Eighth.sixteenths() == 2 * DelayDivision::Sixteenth.sixteenths(),
        DelayDivision::Quarter.sixteenths() == 2 * DelayDivision::Eighth.sixteenths(),
        2 * DelayDivision::DottedEighth.sixteenths() == 3 * DelayDivision::Eighth.sixteenths(),
{
}

/// A parameter takes values of one sort only: ratios for the ratios of the
/// operators, its own sort for each of the four choices, and a percentage for
/// everything else.
pub proof fn parameters_take_one_sort(id: ParameterId, a: ParameterValue, b: ParameterValue)
    requires
        a.fits(id),
    ensures
        a is Waveform <==> id == ParameterId::Waveform,
        a is LeadSubMode <==> id == ParameterId::LeadSubMode,
        a is FmAlgorithm <==> id == ParameterId::FmAlgorithm,
        a is Chorus <==> id == ParameterId::Chorus,
        a is FmRatio <==> id == ParameterId::FmOp1Ratio || id == ParameterId::FmOp2Ratio || id
            == ParameterId::FmOp3Ratio || id == ParameterId::FmOp4Ratio,
        b.fits(id) && a is Percent ==> b is Percent,
        b is Percent && a is Percent ==> b.fits(id),
{
}

/// Every parameter takes some value.
pub proof fn parameters_take_some_value(id: ParameterId, value: ParameterValue)
    requires
        value is Percent,
    ensures
        value.fits(id) || id == ParameterId::Waveform || id == ParameterId::LeadSubMode || id
            == ParameterId::FmAlgorithm || id == ParameterId::Chorus || id
            == ParameterId::FmOp1Ratio || id == ParameterId::FmOp2Ratio || id
            == ParameterId::FmOp3Ratio || id == ParameterId::FmOp4Ratio,
{
}

/// The controls of the four operators are parameters of their own, three in a
/// row for each.
pub proof fn operators_have_their_own_parameters(
    a: int,
    b: int,
    field: FmOperatorField,
    other: FmOperatorField,
)
    requires
        0 <= a < 4,
        0 <= b < 4,
    ensures
        ParameterId::operator(a, field) == ParameterId::operator(b, other) ==> a == b && field
            == other,
        ParameterId::operator(a, FmOperatorField::Ratio).position() == 25 + 3 * a,
        ParameterId::operator(a, FmOperatorField::Level).position() == 26 + 3 * a,
        ParameterId::operator(a, FmOperatorField::Feedback).position() == 27 + 3 * a,
{
}

/// A set of locks answers for each parameter with the value of that parameter,
/// and with the setting it is given where it holds none.
pub proof fn locks_answer_for_each_parameter(
    locks: ParameterLocks,
    id: ParameterId,
    base: Percent,
)
    ensures
        locks.value_of(id) == locks@[id.position()],
        locks@[id.position()] matches Some(ParameterValue::Percent(p)) ==> locks.percent_or(
            id,
            base,
        ) == p && locks.percent_of(id) == Some(p),
        locks@[id.position()] is None ==> locks.percent_or(id, base) == base && locks.percent_of(id)
            is None,
{
}

/// Behind an insertion every entry moves one up and in front of it none does;
/// the new entry comes from nowhere.
pub proof fn insertions_move_what_is_behind(after: usize, index: int, length: int)
    requires
        0 <= index < length,
    ensures
        ({
            let edit = IndexEdit::Insert { after };
            &&& index <= after ==> rebased(edit, index, length) == index && origin(edit, index)
                == Some(index)
            &&& index > after && index + 1 < length ==> rebased(edit, index, length) == index + 1
            &&& index == after + 1 ==> origin(edit, index) is None
            &&& index > after + 1 ==> origin(edit, index) == Some(index - 1)
            &&& 0 <= rebased(edit, index, length) < length
        }),
{
}

/// Behind a deletion every entry moves one down and in front of it none does; a
/// deleted entry is stood in for by the one behind it, or by the last.
pub proof fn deletions_move_what_is_behind(at: usize, index: int, length: int)
    requires
        0 <= index <= length,
        1 <= length,
    ensures
        ({
            let edit = IndexEdit::Delete { at };
            &&& index < at && index < length ==> rebased(edit, index, length) == index
            &&& index < at ==> origin(edit, index) == Some(index)
            &&& index > at ==> rebased(edit, index, length) == index - 1
            &&& index == at && index < length ==> rebased(edit, index, length) == index
            &&& index == length && at == length ==> rebased(edit, index, length) == length - 1
            &&& index >= at ==> origin(edit, index) == Some(index + 1)
            &&& (SongIndexMap { edit }).removed(index) <==> index == at
            &&& 0 <= rebased(edit, index, length) < length
        }),
{
}

/// Each entry of an edited list is the one that it came from.
pub proof fn edited_lists_hold_what_they_came_from<T>(
    edit: IndexEdit,
    list: Seq<T>,
    fresh: T,
    index: int,
)
    requires
        match edit {
            IndexEdit::Identity => true,
            IndexEdit::Insert { after } => after < list.len(),
            IndexEdit::Delete { at } => at < list.len(),
        },
        0 <= index < edited(edit, list, fresh).len(),
    ensures
        edit is Insert ==> edited(edit, list, fresh).len() == list.len() + 1,
        edit is Delete ==> edited(edit, list, fresh).len() == list.len() - 1,
        edit is Identity ==> edited(edit, list, fresh) == list,
        origin(edit, index) matches Some(from) ==> 0 <= from < list.len() && edited(
            edit,
            list,
            fresh,
        )[index] == list[from],
        origin(edit, index) is None ==> edited(edit, list, fresh)[index] == fresh,
{
}

/// The first six tracks of a new project are drums and the last four play
/// notes, no two with the same instrument.
pub proof fn new_projects_have_every_instrument(a: int, b: int)
    requires
        0 <= a < b < 10,
    ensures
        default_kind(a) != default_kind(b),
        default_kind(a).drum() <==> a < 6,
        default_kind(b).drum() <==> b < 6,
        default_kind(b).voiced() <==> b == 7 || b == 9,
{
}

/// The effects of a new track are not heard.
pub proof fn new_tracks_have_no_effects(effects: TrackEffects)
    requires
        effects.neutral(),
    ensures
        effects.chorus == ChorusMode::Off,
        effects.distortion.mix@ == 0,
        effects.bit_crusher.mix@ == 0,
        effects.phaser.mix@ == 0,
        effects.flanger.mix@ == 0,
{
}

/// What can be played: a tempo above nothing, a key within the octave, entries
/// that name a pattern, cycles of some length, steps that come at least once
/// and degrees of the scale.
pub proof fn playable_parts_are_in_range(
    globals: Globals,
    entry: SongEntry,
    patterns: nat,
    condition: TriggerCondition,
    event: StepEvent,
)
    ensures
        globals.wf() <==> globals.tempo_bpm >= 1 && globals.key <= 11,
        entry.wf(patterns) <==> 1 <= entry.pattern <= patterns,
        condition.wf() <==> (condition matches TriggerCondition::Cycle { length, .. } ==> length
            != 0),
        event is Tie ==> event.wf(),
        event matches StepEvent::Trigger { condition: c, retrigger_count, .. } ==> (event.wf()
            <==> c.wf() && retrigger_count >= 1),
        event matches StepEvent::BassNote { condition: c, retrigger_count, degree, .. } ==> (
        event.wf() <==> c.wf() && retrigger_count >= 1 && 1 <= degree <= 8),
        event matches StepEvent::Note { condition: c, retrigger_count, degree, .. } ==> (event.wf()
            <==> c.wf() && retrigger_count >= 1 && 1 <= degree <= 8),
        event matches StepEvent::LeadNote { condition: c, retrigger_count, degree, .. } ==> (
        event.wf() <==> c.wf() && retrigger_count >= 1 && 1 <= degree <= 8),
{
}

} // verus!
