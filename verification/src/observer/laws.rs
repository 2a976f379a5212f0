//! What holds of the registry and of the detector, whatever the requests and
//! whatever the repositories hold.

use vstd::prelude::*;
use crate::observer::detector::{commit_after, outcome_of, DetectorError, OutcomeView, ResourceView};
use crate::observer::path::{classified, PathView};
use crate::observer::registry::{
    after_forget, after_observe, after_pass, distinct, events_of, forget_answer, fresh,
    observe_answer, position_of, watches, EventView, ObsError,
};

verus! {

/// After a resource has been taken up, a second request under the same raw
/// identifier is refused as already observed, whatever is then found of its
/// repository, and the registry keeps its entries and their number.
pub proof fn observing_twice_is_refused(
    entries: Seq<ResourceView>,
    raw: Seq<char>,
    first: bool,
    second: bool,
)
    requires
        observe_answer(entries, classified(raw), first) is Ok,
    ensures
        observe_answer(after_observe(entries, classified(raw), first), classified(raw), second)
            == Err::<(), ObsError>(ObsError::AlreadyObserving),
        after_observe(after_observe(entries, classified(raw), first), classified(raw), second)
            == after_observe(entries, classified(raw), first),
        after_observe(after_observe(entries, classified(raw), first), classified(raw), second).len()
            == after_observe(entries, classified(raw), first).len(),
{
    let p = classified(raw);
    let taken = after_observe(entries, p, first);
    assert(taken == entries.push(fresh(p)));
    assert(taken[entries.len() as int].path == p);
}

/// A request to watch a resource never leaves the registry with the same
/// identifier twice.
pub proof fn observing_keeps_distinct(entries: Seq<ResourceView>, p: PathView, reachable: bool)
    requires
        distinct(entries),
    ensures
        distinct(after_observe(entries, p, reachable)),
{
    let taken = after_observe(entries, p, reachable);
    if !watches(entries, p) && reachable {
        assert forall|i: int, j: int| 0 <= i < j < taken.len() implies (#[trigger] taken[i]).path
            != (#[trigger] taken[j]).path by {
            assert(taken[i] == entries[i]);
            if j < entries.len() {
                assert(taken[j] == entries[j]);
            }
        }
    }
}

/// Taking one entry out of a registry without duplicates leaves a registry
/// without duplicates, in which the identifier of that entry is not watched
/// any more.
pub proof fn removal_keeps_distinct(entries: Seq<ResourceView>, index: int)
    requires
        distinct(entries),
        0 <= index < entries.len(),
    ensures
        distinct(entries.remove(index)),
        !watches(entries.remove(index), entries[index].path),
{
    let rest = entries.remove(index);
    assert forall|i: int, j: int| 0 <= i < j < rest.len() implies (#[trigger] rest[i]).path != (
    #[trigger] rest[j]).path by {
        let a = if i < index { i } else { i + 1 };
        let b = if j < index { j } else { j + 1 };
        assert(rest[i] == entries[a]);
        assert(rest[j] == entries[b]);
    }
    assert forall|i: int| 0 <= i < rest.len() implies (#[trigger] rest[i]).path
        != entries[index].path by {
        let a = if i < index { i } else { i + 1 };
        assert(rest[i] == entries[a]);
    }
}

/// Giving up a resource that is not watched is refused and changes nothing;
/// giving up a watched one succeeds, after which the resource is not in the
/// registry any more and the registry is one entry shorter.
pub proof fn forgetting_removes(entries: Seq<ResourceView>, p: PathView)
    requires
        distinct(entries),
    ensures
        !watches(entries, p) ==> forget_answer(entries, p) == Err::<(), ObsError>(
            ObsError::NotObserving,
        ) && after_forget(entries, p) == entries,
        watches(entries, p) ==> forget_answer(entries, p) is Ok && !watches(
            after_forget(entries, p),
            p,
        ) && after_forget(entries, p).len() == entries.len() - 1,
        distinct(after_forget(entries, p)),
{
    if watches(entries, p) {
        removal_keeps_distinct(entries, position_of(entries, p));
    }
}

/// The first poll of a resource that was just taken up never reports a
/// change; where a commit id is resolved, it reports that id as the baseline
/// and records it.
pub proof fn first_poll_is_baseline(p: PathView, resolved: Option<Seq<char>>)
    ensures
        !(outcome_of(fresh(p).commit, resolved) matches Ok(OutcomeView::Changed(_, _))),
        resolved matches Some(id) ==> outcome_of(fresh(p).commit, resolved) == Ok::<
            OutcomeView,
            DetectorError,
        >(OutcomeView::Baseline(id)) && commit_after(fresh(p).commit, resolved) == Some(id),
{
}

/// Where two successive polls of one resource resolve two different commit
/// ids, the second reports a change from the first id to the second,
/// whatever was recorded before.
pub proof fn second_poll_reports_change(
    recorded: Option<Seq<char>>,
    first: Seq<char>,
    second: Seq<char>,
)
    requires
        first != second,
    ensures
        outcome_of(commit_after(recorded, Some(first)), Some(second)) == Ok::<
            OutcomeView,
            DetectorError,
        >(OutcomeView::Changed(first, second)),
{
}

/// Where two successive polls of one resource resolve the same commit id,
/// the second reports no change and leaves the record as it is, whatever was
/// recorded before.
pub proof fn second_poll_is_unchanged(recorded: Option<Seq<char>>, id: Seq<char>)
    ensures
        outcome_of(commit_after(recorded, Some(id)), Some(id)) == Ok::<OutcomeView, DetectorError>(
            OutcomeView::Unchanged,
        ),
        commit_after(commit_after(recorded, Some(id)), Some(id)) == commit_after(
            recorded,
            Some(id),
        ),
{
}

/// A poll that cannot reach the repository fails and leaves the record as it
/// is.
pub proof fn unreachable_keeps_record(recorded: Option<Seq<char>>)
    ensures
        outcome_of(recorded, None) == Err::<OutcomeView, DetectorError>(DetectorError::Unreachable),
        commit_after(recorded, None) == recorded,
{
}

/// A pass keeps every resource under its identifier and at its position, so
/// it adds none, removes none and keeps the registry free of duplicates,
/// whatever is resolved.
pub proof fn pass_keeps_resources(entries: Seq<ResourceView>, resolved: Seq<Option<Seq<char>>>)
    requires
        distinct(entries),
    ensures
        after_pass(entries, resolved).len() == entries.len(),
        forall|i: int|
            0 <= i < entries.len() ==> (#[trigger] after_pass(entries, resolved)[i]).path
                == entries[i].path,
        distinct(after_pass(entries, resolved)),
{
    let after = after_pass(entries, resolved);
    assert forall|i: int, j: int| 0 <= i < j < after.len() implies (#[trigger] after[i]).path != (
    #[trigger] after[j]).path by {
        assert(after[i].path == entries[i].path);
        assert(after[j].path == entries[j].path);
    }
}

/// A pass over a registry of one resource whose record is `before` and for
/// which a different id `found` is resolved gives exactly one event, for
/// that resource and with the id found; a pass right after it that resolves
/// `found` again gives none.
pub proof fn change_is_reported_once(p: PathView, before: Seq<char>, found: Seq<char>)
    requires
        before != found,
    ensures
        events_of(seq![ResourceView { path: p, commit: Some(before) }], seq![Some(found)], 1)
            == seq![EventView { path: p, commit: found }],
        events_of(
            after_pass(seq![ResourceView { path: p, commit: Some(before) }], seq![Some(found)]),
            seq![Some(found)],
            1,
        ) == Seq::<EventView>::empty(),
{
    let entries = seq![ResourceView { path: p, commit: Some(before) }];
    let resolved = seq![Some(found)];
    reveal_with_fuel(events_of, 2);
    assert(events_of(entries, resolved, 0) == Seq::<EventView>::empty());
    assert(events_of(entries, resolved, 1) =~= seq![EventView { path: p, commit: found }]);
    let after = after_pass(entries, resolved);
    assert(after[0].commit == Some(found));
    assert(events_of(after, resolved, 0) == Seq::<EventView>::empty());
}

} // verus!
