//! What waits in the queues of actions, and what leaves them.
use crate::audio::schedule::{
    counted_down, due_actions, enqueued, enqueued_all, pruned, without_replaced, ActionQueue,
    ScheduledTrackAction,
};
use crate::audio::sequencer::{
    actions_kept, audition_hits, changed_kinds, due_previews, previews_counted_down,
    previews_kept, PreviewQueue,
};
use crate::audio::schedule::{free_place, PreviewAction};
use crate::audio::snapshot::ProjectModel;
use crate::model::project::TRACK_COUNT;
use vstd::prelude::*;

verus! {

proof fn free_places_come_first<T>(queue: Seq<Option<T>>, from: int)
    requires
        0 <= from <= queue.len(),
    ensures
        from <= free_place(queue, from) <= queue.len(),
        free_place(queue, from) < queue.len() ==> queue[free_place(queue, from)] is None,
        forall|i: int| from <= i < free_place(queue, from) ==> (#[trigger] queue[i]) is Some,
    decreases queue.len() - from,
{
    if from < queue.len() && queue[from] is Some {
        free_places_come_first(queue, from + 1);
    }
}

/// What is queued takes the first free place and disturbs nothing that waits;
/// a queue without a free place stays as it is.
pub proof fn queueing_disturbs_nothing<T>(queue: Seq<Option<T>>, item: T, place: int)
    requires
        0 <= place < queue.len(),
    ensures
        enqueued(queue, item).len() == queue.len(),
        queue[place] is Some ==> enqueued(queue, item)[place] == queue[place],
        queue[place] is None && (forall|i: int| 0 <= i < place ==> (#[trigger] queue[i]) is Some)
            ==> enqueued(queue, item)[place] == Some(item),
        queue[place] is None && (exists|i: int| 0 <= i < place && (#[trigger] queue[i]) is None)
            ==> enqueued(queue, item)[place] is None,
{
    free_places_come_first(queue, 0);
}

/// Queueing several is queueing them one after the other, in their order.
pub proof fn queueing_keeps_the_order<T>(queue: Seq<Option<T>>, items: Seq<T>, last: T)
    ensures
        enqueued_all(queue, Seq::<T>::empty()) == queue,
        enqueued_all(queue, items.push(last)) == enqueued(enqueued_all(queue, items), last),
{
    assert(items.push(last).drop_last() =~= items);
}

proof fn queueing_keeps_the_length<T>(queue: Seq<Option<T>>, items: Seq<T>)
    ensures
        enqueued_all(queue, items).len() == queue.len(),
    decreases items.len(),
{
    if items.len() > 0 {
        queueing_keeps_the_length(queue, items.drop_last());
        free_places_come_first(enqueued_all(queue, items.drop_last()), 0);
    }
}

/// What waits stays where it is, however much is queued behind it.
pub proof fn waiting_items_stay<T>(queue: Seq<Option<T>>, items: Seq<T>, place: int)
    requires
        0 <= place < queue.len(),
        queue[place] is Some,
    ensures
        enqueued_all(queue, items)[place] == queue[place],
        enqueued_all(queue, items).len() == queue.len(),
    decreases items.len(),
{
    if items.len() > 0 {
        waiting_items_stay(queue, items.drop_last(), place);
        queueing_keeps_the_length(queue, items.drop_last());
        free_places_come_first(enqueued_all(queue, items.drop_last()), 0);
    }
}

/// With every sample an action comes one nearer, and one whose count is over
/// leaves the queue.
pub proof fn actions_count_down(queue: ActionQueue, place: int)
    requires
        0 <= place < queue.len(),
    ensures
        counted_down(queue).len() == queue.len(),
        queue[place] is None ==> counted_down(queue)[place] is None,
        queue[place] matches Some(action) ==> {
            &&& action.remaining == 0 ==> counted_down(queue)[place] is None
            &&& action.remaining > 0 ==> {
                &&& counted_down(queue)[place] matches Some(left)
                &&& left.remaining == action.remaining - 1
                &&& left.track == action.track
                &&& left.step == action.step
                &&& left.retrigger == action.retrigger
                &&& left.trigger_allowed == action.trigger_allowed
            }
        },
{
}

/// Exactly those actions fall due whose count is over: each of them does, and
/// nothing else.
pub proof fn actions_fall_due_when_their_count_is_over(
    queue: ActionQueue,
    n: int,
    action: ScheduledTrackAction,
)
    requires
        0 <= n <= queue.len(),
    ensures
        due_actions(queue, n).contains(action) <==> action.remaining == 0 && (exists|i: int|
            0 <= i < n && (#[trigger] queue[i]) == Some(action)),
        due_actions(queue, n).len() <= n,
    decreases n,
{
    if n > 0 {
        actions_fall_due_when_their_count_is_over(queue, n - 1, action);
        let before = due_actions(queue, n - 1);
        let now = due_actions(queue, n);
        if queue[n - 1] matches Some(last) && last.remaining == 0 {
            let last = queue[n - 1]->0;
            assert(now == before.push(last));
            assert(now[before.len() as int] == last);
            if before.contains(action) {
                let k = choose|k: int| 0 <= k < before.len() && before[k] == action;
                assert(now[k] == action);
            }
            if now.contains(action) && action != last {
                let k = choose|k: int| 0 <= k < now.len() && now[k] == action;
                assert(before[k] == action);
            }
        } else {
            assert(now == before);
        }
    }
}

/// Actions that fall due together are carried out in the order of their
/// places.
pub proof fn due_actions_keep_their_order(queue: ActionQueue, n: int)
    requires
        0 < n <= queue.len(),
    ensures
        queue[n - 1] matches Some(action) && action.remaining == 0 ==> due_actions(queue, n)
            == due_actions(queue, n - 1).push(queue[n - 1]->0),
        !(queue[n - 1] matches Some(action) && action.remaining == 0) ==> due_actions(queue, n)
            == due_actions(queue, n - 1),
        due_actions(queue, 0).len() == 0,
{
}

/// An action stays queued exactly as long as its track still has its step in
/// the pattern that plays.
pub proof fn pruning_drops_what_names_no_step(
    queue: ActionQueue,
    project: ProjectModel,
    pattern: int,
    place: int,
)
    requires
        0 <= place < queue.len(),
        0 <= pattern < project.patterns.len(),
    ensures
        pruned(queue, project, pattern).len() == queue.len(),
        queue[place] is None ==> pruned(queue, project, pattern)[place] is None,
        queue[place] matches Some(action) ==> {
            let named = (action.track as int) < project.patterns[pattern].len() && action.step
                < project.patterns[pattern][action.track as int].step_count;
            &&& named ==> pruned(queue, project, pattern)[place] == queue[place]
            &&& !named ==> pruned(queue, project, pattern)[place] is None
        },
{
}

/// Without a pattern to play nothing stays queued.
pub proof fn pruning_drops_everything_without_a_pattern(
    queue: ActionQueue,
    project: ProjectModel,
    pattern: int,
    place: int,
)
    requires
        0 <= place < queue.len(),
        pattern < 0 || pattern >= project.patterns.len(),
    ensures
        pruned(queue, project, pattern)[place] is None,
{
}

/// An edit drops the actions whose events it changed, and keeps those whose
/// events are the same before and after.
pub proof fn edits_drop_what_they_change(
    queue: ActionQueue,
    before: ProjectModel,
    before_pattern: int,
    after: ProjectModel,
    after_pattern: int,
    place: int,
)
    requires
        0 <= place < queue.len(),
        before.wf(),
        after.wf(),
        0 <= before_pattern < before.patterns.len(),
        0 <= after_pattern < after.patterns.len(),
        queue[place] matches Some(action) ==> action.track < TRACK_COUNT && action.step < 64,
    ensures
        ({
            let kept = without_replaced(queue, before, before_pattern, after, after_pattern);
            &&& kept.len() == queue.len()
            &&& queue[place] is None ==> kept[place] is None
            &&& queue[place] matches Some(action) ==> {
                let was = before.patterns[before_pattern][action.track as int].steps[
                    action.step as int];
                let is = after.patterns[after_pattern][action.track as int].steps[
                    action.step as int];
                &&& was == is ==> kept[place] == queue[place]
                &&& was != is ==> kept[place] is None
            }
        }),
{
    if let Some(action) = queue[place] {
        assert(before.patterns[before_pattern][action.track as int].wf());
        assert(after.patterns[after_pattern][action.track as int].wf());
    }
}

/// A track that gets another instrument loses what it has queued, and no other
/// track does.
pub proof fn new_instruments_drop_what_is_queued(
    queue: ActionQueue,
    previews: PreviewQueue,
    before: ProjectModel,
    after: ProjectModel,
    place: int,
)
    requires
        0 <= place < queue.len(),
        0 <= place < previews.len(),
        queue[place] matches Some(action) ==> action.track < TRACK_COUNT,
        previews[place] matches Some(action) ==> action.track < TRACK_COUNT,
    ensures
        ({
            let changed = changed_kinds(before, after);
            &&& queue[place] is None ==> actions_kept(queue, changed)[place] is None
            &&& queue[place] matches Some(action) ==> {
                let same = before.tracks[action.track as int].instrument.kind_of()
                    == after.tracks[action.track as int].instrument.kind_of();
                &&& same ==> actions_kept(queue, changed)[place] == queue[place]
                &&& !same ==> actions_kept(queue, changed)[place] is None
            }
            &&& previews[place] is None ==> previews_kept(previews, changed)[place] is None
            &&& previews[place] matches Some(action) ==> {
                let same = before.tracks[action.track as int].instrument.kind_of()
                    == after.tracks[action.track as int].instrument.kind_of();
                &&& same ==> previews_kept(previews, changed)[place] == previews[place]
                &&& !same ==> previews_kept(previews, changed)[place] is None
            }
        }),
{
}

/// The later hits of an audition count down as actions do.
pub proof fn auditions_count_down(queue: PreviewQueue, place: int)
    requires
        0 <= place < queue.len(),
    ensures
        previews_counted_down(queue).len() == queue.len(),
        queue[place] is None ==> previews_counted_down(queue)[place] is None,
        queue[place] matches Some(action) ==> {
            &&& action.remaining == 0 ==> previews_counted_down(queue)[place] is None
            &&& action.remaining > 0 ==> {
                &&& previews_counted_down(queue)[place] matches Some(left)
                &&& left.remaining == action.remaining - 1
                &&& left.track == action.track
                &&& left.step == action.step
            }
        },
{
}

/// Exactly those hits of auditions fall due whose count is over.
pub proof fn auditions_fall_due_when_their_count_is_over(
    queue: PreviewQueue,
    n: int,
    action: PreviewAction,
)
    requires
        0 <= n <= queue.len(),
    ensures
        due_previews(queue, n).contains(action) <==> action.remaining == 0 && (exists|i: int|
            0 <= i < n && (#[trigger] queue[i]) == Some(action)),
        due_previews(queue, n).len() <= n,
    decreases n,
{
    if n > 0 {
        auditions_fall_due_when_their_count_is_over(queue, n - 1, action);
        let before = due_previews(queue, n - 1);
        let now = due_previews(queue, n);
        if queue[n - 1] matches Some(last) && last.remaining == 0 {
            let last = queue[n - 1]->0;
            assert(now == before.push(last));
            assert(now[before.len() as int] == last);
            if before.contains(action) {
                let k = choose|k: int| 0 <= k < before.len() && before[k] == action;
                assert(now[k] == action);
            }
            if now.contains(action) && action != last {
                let k = choose|k: int| 0 <= k < now.len() && now[k] == action;
                assert(before[k] == action);
            }
        } else {
            assert(now == before);
        }
    }
}

/// An auditioned step that is retriggered hits evenly over one step: of `n`
/// hits, hit number `k` comes after `k` parts in `n` of it, rounded down.
pub proof fn auditions_hit_evenly(track: u8, step: u8, count: int, step_samples: int, hit: int)
    requires
        1 <= count,
        0 <= step_samples <= u32::MAX,
        1 <= hit < count,
    ensures
        ({
            let hits = audition_hits(track, step, count, step_samples);
            &&& hits.len() == count - 1
            &&& count * hits[hit - 1].remaining <= step_samples * hit
            &&& step_samples * hit < count * (hits[hit - 1].remaining + 1)
            &&& hits[hit - 1].track == track
            &&& hits[hit - 1].step == step
        }),
{
    let share = step_samples * hit / count;
    vstd::arithmetic::div_mod::lemma_fundamental_div_mod(step_samples * hit, count);
    assert(count * (share + 1) == count * share + count) by (nonlinear_arith);
    assert(0 <= step_samples * hit <= step_samples * count) by (nonlinear_arith)
        requires
            0 <= step_samples,
            1 <= hit < count,
    ;
    assert(0 <= share <= step_samples) by (nonlinear_arith)
        requires
            count * share <= step_samples * hit <= step_samples * count,
            0 <= step_samples * hit < count * (share + 1),
            count >= 1,
    ;
}

} // verus!
