//! The registry of watched resources and the polling pass over it.

use vstd::prelude::*;
use crate::observer::detector::{
    commit_after, commit_view, current_commit, outcome_of, remote_advertisement, OutcomeView,
    PollOutcome, ResourceView, WatchedResource,
};
use crate::observer::laws::removal_keeps_distinct;
use crate::observer::git::open_repository;
use crate::observer::path::{classified, classify, Path, PathView};

verus! {

/// The interval between two passes that a new observer starts with.
pub const DEFAULT_FREQUENCY: i32 = 5;

/// Error type for reporting observer errors.
#[derive(Debug, Clone, Copy, PartialEq, Eq, Structural)]
pub enum ObsError {
    /// The resource is already watched.
    AlreadyObserving,
    /// The resource is not watched.
    NotObserving,
    /// No version-control repository can be reached under the identifier.
    GitError,
    /// The interval between passes is not positive.
    FrequencyError,
}

/// What the dispatcher is asked to do.
#[derive(Debug, Clone, Copy, PartialEq, Eq, Structural)]
pub enum ObsCommand {
    /// Dispatch work for a new commit.
    Dispatch,
}

/// A change that a pass detected, to be handed to the dispatcher.
#[derive(Debug)]
pub struct ObsResult {
    cmd: ObsCommand,
    resource: Path,
    commit: String,
}

/// What an [`ObsResult`] stands for: the resource that changed and the
/// commit id that it changed to.
pub struct EventView {
    pub path: PathView,
    pub commit: Seq<char>,
}

impl View for ObsResult {
    type V = EventView;

    closed spec fn view(&self) -> EventView {
        EventView { path: self.resource@, commit: self.commit@ }
    }
}

impl ObsResult {
    /// The event that `resource` now stands at `commit`.
    pub fn new(resource: Path, commit: String) -> (event: ObsResult)
        ensures
            event@ == (EventView { path: resource@, commit: commit@ }),
    {
        ObsResult { cmd: ObsCommand::Dispatch, resource, commit }
    }

    /// What the dispatcher is asked to do.
    pub fn command(&self) -> (cmd: ObsCommand)
        ensures
            cmd == ObsCommand::Dispatch,
    {
        ObsCommand::Dispatch
    }

    /// The resource that changed.
    pub fn resource(&self) -> (p: &Path)
        ensures
            p@ == self@.path,
    {
        &self.resource
    }

    /// The commit id that the resource changed to.
    pub fn commit(&self) -> (id: &str)
        ensures
            id@ == self@.commit,
    {
        self.commit.as_str()
    }
}

/// Whether `p` is among the watched resources.
pub open spec fn watches(entries: Seq<ResourceView>, p: PathView) -> bool {
    exists|i: int| 0 <= i < entries.len() && (#[trigger] entries[i]).path == p
}

/// The registry's invariant: no identifier is watched twice.
pub open spec fn distinct(entries: Seq<ResourceView>) -> bool {
    forall|i: int, j: int|
        0 <= i < j < entries.len() ==> (#[trigger] entries[i]).path != (#[trigger] entries[j]).path
}

/// The position at which `p` is watched.
pub open spec fn position_of(entries: Seq<ResourceView>, p: PathView) -> int {
    choose|i: int| 0 <= i < entries.len() && (#[trigger] entries[i]).path == p
}

/// The identifiers of the watched resources, in the order of the registry.
pub open spec fn paths_of(entries: Seq<ResourceView>) -> Seq<PathView> {
    entries.map_values(|e: ResourceView| e.path)
}

/// The entry that a newly accepted resource gets: no commit recorded.
pub open spec fn fresh(p: PathView) -> ResourceView {
    ResourceView { path: p, commit: None }
}

/// The registry after a request to watch `p`, whose repository was found
/// reachable or not.
pub open spec fn after_observe(entries: Seq<ResourceView>, p: PathView, reachable: bool) -> Seq<
    ResourceView,
> {
    if !watches(entries, p) && reachable {
        entries.push(fresh(p))
    } else {
        entries
    }
}

/// The answer to a request to watch `p`, whose repository was found
/// reachable or not.
pub open spec fn observe_answer(entries: Seq<ResourceView>, p: PathView, reachable: bool) -> Result<
    (),
    ObsError,
> {
    if watches(entries, p) {
        Err(ObsError::AlreadyObserving)
    } else if reachable {
        Ok(())
    } else {
        Err(ObsError::GitError)
    }
}

/// The registry after a request to stop watching `p`.
pub open spec fn after_forget(entries: Seq<ResourceView>, p: PathView) -> Seq<ResourceView> {
    if watches(entries, p) {
        entries.remove(position_of(entries, p))
    } else {
        entries
    }
}

/// The answer to a request to stop watching `p`.
pub open spec fn forget_answer(entries: Seq<ResourceView>, p: PathView) -> Result<(), ObsError> {
    if watches(entries, p) {
        Ok(())
    } else {
        Err(ObsError::NotObserving)
    }
}

/// Whether `f` can be the interval between two passes.
pub open spec fn valid_frequency(f: int) -> bool {
    f > 0
}

/// The interval after a request to set it to `f`.
pub open spec fn after_configure(current: int, f: int) -> int {
    if valid_frequency(f) {
        f
    } else {
        current
    }
}

/// The answer to a request to set the interval to `f`.
pub open spec fn configure_answer(f: int) -> Result<(), ObsError> {
    if valid_frequency(f) {
        Ok(())
    } else {
        Err(ObsError::FrequencyError)
    }
}

/// What was resolved for the resource at position `i` of a pass: nothing
/// where `resolved` has no such position.
pub open spec fn resolved_at(resolved: Seq<Option<Seq<char>>>, i: int) -> Option<Seq<char>> {
    if 0 <= i < resolved.len() {
        resolved[i]
    } else {
        None
    }
}

/// The registry after a pass in which `resolved` was resolved, position by
/// position: each resource's record follows the detector's rule, and no
/// resource is added or removed.
pub open spec fn after_pass(entries: Seq<ResourceView>, resolved: Seq<Option<Seq<char>>>) -> Seq<
    ResourceView,
> {
    Seq::new(
        entries.len(),
        |i: int|
            ResourceView {
                path: entries[i].path,
                commit: commit_after(entries[i].commit, resolved_at(resolved, i)),
            },
    )
}

/// The events of the first `n` resources of a pass, in the order of the
/// registry: one for each resource whose poll found a change, with the new
/// commit id, and none for a baseline, an unchanged or an unreachable one.
pub open spec fn events_of(
    entries: Seq<ResourceView>,
    resolved: Seq<Option<Seq<char>>>,
    n: nat,
) -> Seq<EventView>
    decreases n,
{
    if n == 0 {
        Seq::empty()
    } else {
        let before = events_of(entries, resolved, (n - 1) as nat);
        match outcome_of(entries[n - 1].commit, resolved_at(resolved, n - 1)) {
            Ok(OutcomeView::Changed(_, found)) => before.push(
                EventView { path: entries[n - 1].path, commit: found },
            ),
            _ => before,
        }
    }
}

/// The views of the values resolved in a pass.
pub open spec fn resolved_views(resolved: Seq<Option<String>>) -> Seq<Option<Seq<char>>> {
    resolved.map_values(|r: Option<String>| commit_view(r))
}

/// The views of the entries of a registry.
pub open spec fn entry_views(entries: Seq<WatchedResource>) -> Seq<ResourceView> {
    entries.map_values(|e: WatchedResource| e@)
}

/// The views of the events of a pass.
pub open spec fn event_views(events: Seq<ObsResult>) -> Seq<EventView> {
    events.map_values(|e: ObsResult| e@)
}

/// The views of a list of paths.
pub open spec fn path_views(paths: Seq<Path>) -> Seq<PathView> {
    paths.map_values(|p: Path| p@)
}

/// What an observer is asked for: to take up and give up resources, to
/// change the interval between its passes, and to run a pass.
pub trait GenericObserver: Sized {
    /// An error type for reporting commonly occurring errors.
    type ObserverErrorType;

    /// What a pass hands to the dispatcher.
    type ObserverResultType;

    fn new() -> Self;

    fn observe(&mut self, resource: String) -> Result<(), Self::ObserverErrorType>;

    fn forget(&mut self, resource: String) -> Result<(), Self::ObserverErrorType>;

    fn configure_frequency(&mut self, freq: i32) -> Result<(), Self::ObserverErrorType>;

    fn run(&mut self) -> Vec<Self::ObserverResultType>;
}

/// The observer: the resources it watches, each with the commit last seen,
/// and the interval between two passes.
pub struct Observer {
    resource_paths: Vec<WatchedResource>,
    frequency: i32,
}

impl View for Observer {
    type V = Seq<ResourceView>;

    closed spec fn view(&self) -> Seq<ResourceView> {
        entry_views(self.resource_paths@)
    }
}

impl Observer {
    #[verifier::type_invariant]
    spec fn well_formed(self) -> bool {
        &&& distinct(self@)
        &&& valid_frequency(self.frequency as int)
    }

    /// The interval between two passes.
    pub closed spec fn interval(&self) -> int {
        self.frequency as int
    }

    /// Moves the entries out of the registry, which is left empty.
    fn take_entries(&mut self) -> (entries: Vec<WatchedResource>)
        ensures
            entry_views(entries@) == old(self)@,
            final(self)@ == Seq::<ResourceView>::empty(),
            final(self).interval() == old(self).interval(),
    {
        proof {
            use_type_invariant(&*self);
        }
        let mut entries: Vec<WatchedResource> = Vec::new();
        core::mem::swap(&mut self.resource_paths, &mut entries);
        assert(self@ =~= Seq::<ResourceView>::empty());
        entries
    }

    /// Makes `entries` the entries of the registry.
    fn put_entries(&mut self, entries: Vec<WatchedResource>)
        requires
            distinct(entry_views(entries@)),
        ensures
            final(self)@ == entry_views(entries@),
            final(self).interval() == old(self).interval(),
    {
        proof {
            use_type_invariant(&*self);
        }
        let mut entries = entries;
        core::mem::swap(&mut self.resource_paths, &mut entries);
    }

    /// The interval between two passes.
    pub fn frequency(&self) -> (f: i32)
        ensures
            f == self.interval(),
            valid_frequency(f as int),
    {
        proof {
            use_type_invariant(self);
        }
        self.frequency
    }

    /// The number of watched resources.
    pub fn len(&self) -> (n: usize)
        ensures
            n == self@.len(),
    {
        self.resource_paths.len()
    }

    /// The position at which `resource` is watched, if it is.
    pub fn position(&self, resource: &Path) -> (found: Option<usize>)
        ensures
            distinct(self@),
            found is Some == watches(self@, resource@),
            found matches Some(i) ==> i == position_of(self@, resource@),
    {
        proof {
            use_type_invariant(self);
        }
        let mut i: usize = 0;
        while i < self.resource_paths.len()
            invariant
                distinct(self@),
                i <= self.resource_paths@.len(),
                forall|k: int| 0 <= k < i ==> (#[trigger] self@[k]).path != resource@,
            decreases self.resource_paths@.len() - i,
        {
            if *self.resource_paths[i].path() == *resource {
                proof {
                    assert(self@[i as int].path == resource@);
                    let c = position_of(self@, resource@);
                    assert(self@[c].path == resource@);
                    assert(c == i);
                }
                return Some(i);
            }
            i += 1;
        }
        None
    }

    /// Whether `resource` is watched.
    pub fn already_observing(&self, resource: Path) -> (watched: bool)
        ensures
            watched == watches(self@, resource@),
    {
        self.position(&resource).is_some()
    }

    /// Whether a version-control repository can be reached under
    /// `resource`: for a local resource, whether a repository can be opened
    /// at the path; for a web resource, whether the remote answers with its
    /// advertisement. The answer depends on the disk or on the network, so
    /// nothing is promised of it.
    pub fn is_git_repository(&self, resource: Path) -> (reachable: bool) {
        match resource {
            Path::WebResource(uri) => remote_advertisement(uri.as_str()).is_some(),
            Path::Local(path) => open_repository(path.as_str()).is_ok(),
        }
    }

    /// Answers a request to watch `resource`, whose repository was found
    /// reachable or not: a resource that is already watched is refused, an
    /// unreachable one is refused, and any other is taken up with no commit
    /// recorded.
    pub fn enlist(&mut self, resource: Path, reachable: bool) -> (answer: Result<(), ObsError>)
        ensures
            final(self)@ == after_observe(old(self)@, resource@, reachable),
            answer == observe_answer(old(self)@, resource@, reachable),
            final(self).interval() == old(self).interval(),
    {
        proof {
            use_type_invariant(&*self);
        }
        if self.position(&resource).is_some() {
            Err(ObsError::AlreadyObserving)
        } else if reachable {
            let ghost before = self@;
            let mut entries = self.take_entries();
            entries.push(WatchedResource::new(resource));
            proof {
                assert(entry_views(entries@) =~= before.push(fresh(resource@)));
            }
            self.put_entries(entries);
            Ok(())
        } else {
            Err(ObsError::GitError)
        }
    }

    /// The identifiers of the watched resources, in the order in which they
    /// were taken up: a snapshot, which later changes of the registry do not
    /// touch.
    pub fn list(&self) -> (paths: Vec<Path>)
        ensures
            path_views(paths@) == paths_of(self@),
            distinct(self@),
    {
        proof {
            use_type_invariant(self);
        }
        let mut paths: Vec<Path> = Vec::new();
        let mut i: usize = 0;
        while i < self.resource_paths.len()
            invariant
                i <= self.resource_paths@.len(),
                paths@.len() == i,
                forall|k: int| 0 <= k < i ==> (#[trigger] paths@[k])@ == self@[k].path,
            decreases self.resource_paths@.len() - i,
        {
            paths.push(self.resource_paths[i].path().clone());
            i += 1;
        }
        assert(path_views(paths@) =~= paths_of(self@));
        paths
    }

    /// Answers a request to stop watching `resource`: a resource that is
    /// not watched is refused, and a watched one leaves the registry, with
    /// the others staying in their order.
    pub fn remove(&mut self, resource: &Path) -> (answer: Result<(), ObsError>)
        ensures
            final(self)@ == after_forget(old(self)@, resource@),
            answer == forget_answer(old(self)@, resource@),
            final(self).interval() == old(self).interval(),
    {
        match self.position(resource) {
            Some(index) => {
                let ghost before = self@;
                let mut entries = self.take_entries();
                entries.remove(index);
                proof {
                    assert(entry_views(entries@) =~= before.remove(index as int));
                    removal_keeps_distinct(before, index as int);
                }
                self.put_entries(entries);
                Ok(())
            },
            None => Err(ObsError::NotObserving),
        }
    }

    /// Resolves the current commit of every watched resource, in the order
    /// of the registry: `None` for one that cannot be reached. What is
    /// resolved depends on the repositories, so only the length is known.
    pub fn resolve_all(&self) -> (resolved: Vec<Option<String>>)
        ensures
            resolved@.len() == self@.len(),
    {
        let mut resolved: Vec<Option<String>> = Vec::new();
        let mut i: usize = 0;
        while i < self.resource_paths.len()
            invariant
                i <= self.resource_paths@.len(),
                resolved@.len() == i,
            decreases self.resource_paths@.len() - i,
        {
            resolved.push(current_commit(self.resource_paths[i].path()));
            i += 1;
        }
        resolved
    }

    /// Applies the detector's rule to every watched resource, given what
    /// was resolved for each, position by position (a resource for which
    /// `resolved` holds nothing counts as unreachable). Gives the changes
    /// found, in the order of the registry. No resource is added or removed,
    /// and an unreachable one keeps its record.
    pub fn record_pass(&mut self, resolved: Vec<Option<String>>) -> (events: Vec<ObsResult>)
        ensures
            final(self)@ == after_pass(old(self)@, resolved_views(resolved@)),
            event_views(events@) == events_of(
                old(self)@,
                resolved_views(resolved@),
                old(self)@.len(),
            ),
            final(self).interval() == old(self).interval(),
    {
        proof {
            use_type_invariant(&*self);
        }
        let ghost before = self@;
        let ghost seen = resolved_views(resolved@);
        let mut entries = self.take_entries();
        let mut events: Vec<ObsResult> = Vec::new();
        let n: usize = entries.len();
        let mut i: usize = 0;
        while i < n
            invariant
                entries@.len() == n == before.len(),
                i <= n,
                seen == resolved_views(resolved@),
                forall|k: int| 0 <= k < n ==> (#[trigger] entries@[k])@.path == before[k].path,
                forall|k: int|
                    0 <= k < i ==> (#[trigger] entries@[k])@.commit == commit_after(
                        before[k].commit,
                        resolved_at(seen, k),
                    ),
                forall|k: int| i <= k < n ==> (#[trigger] entries@[k])@.commit == before[k].commit,
                event_views(events@) == events_of(before, seen, i as nat),
            decreases n - i,
        {
            let found = if i < resolved.len() {
                clone_commit(&resolved[i])
            } else {
                None
            };
            assert(commit_view(found) == resolved_at(seen, i as int));
            let ghost events_before = event_views(events@);
            let polled = entries[i].record(found);
            match polled {
                Ok(PollOutcome::Changed(_, id)) => {
                    let event = ObsResult::new(entries[i].path().clone(), id);
                    events.push(event);
                    assert(event_views(events@) =~= events_before.push(event@));
                },
                _ => {},
            }
            i += 1;
        }
        proof {
            assert(entry_views(entries@) =~= after_pass(before, seen));
            assert forall|a: int, b: int| 0 <= a < b < n implies (#[trigger] entry_views(
                entries@,
            )[a]).path != (#[trigger] entry_views(entries@)[b]).path by {
                assert(entries@[a]@.path == before[a].path);
                assert(entries@[b]@.path == before[b].path);
            }
        }
        self.put_entries(entries);
        events
    }
}

/// A copy of an optional commit id.
fn clone_commit(commit: &Option<String>) -> (copy: Option<String>)
    ensures
        copy == *commit,
{
    match commit {
        Some(id) => Some(id.clone()),
        None => None,
    }
}

impl GenericObserver for Observer {
    type ObserverErrorType = ObsError;

    type ObserverResultType = ObsResult;

    /// An observer that watches nothing yet and waits the default interval
    /// between passes.
    fn new() -> (observer: Observer)
        ensures
            observer@ == Seq::<ResourceView>::empty(),
            observer.interval() == DEFAULT_FREQUENCY,
    {
        let observer = Observer { resource_paths: Vec::new(), frequency: DEFAULT_FREQUENCY };
        assert(observer@ =~= Seq::<ResourceView>::empty());
        observer
    }

    /// Classifies `resource` and takes it up, unless it is already watched
    /// or no repository can be reached under it. Whether one can be reached
    /// depends on the disk or on the network: the answer and the registry are
    /// those of [`Observer::enlist`] for one of the two findings.
    fn observe(&mut self, resource: String) -> (answer: Result<(), ObsError>)
        ensures
            watches(old(self)@, classified(resource@)) ==> answer == Err::<(), ObsError>(
                ObsError::AlreadyObserving,
            ) && final(self)@ == old(self)@,
            exists|reachable: bool|
                {
                    &&& final(self)@ == #[trigger] after_observe(
                        old(self)@,
                        classified(resource@),
                        reachable,
                    )
                    &&& answer == observe_answer(old(self)@, classified(resource@), reachable)
                },
            final(self).interval() == old(self).interval(),
    {
        let res_path = classify(resource.as_str());
        let reachable = !self.already_observing(res_path.clone()) && self.is_git_repository(
            res_path.clone(),
        );
        let answer = self.enlist(res_path, reachable);
        assert(final(self)@ == after_observe(old(self)@, classified(resource@), reachable));
        answer
    }

    /// Classifies `resource` and gives it up: refused where it is not
    /// watched.
    fn forget(&mut self, resource: String) -> (answer: Result<(), ObsError>)
        ensures
            final(self)@ == after_forget(old(self)@, classified(resource@)),
            answer == forget_answer(old(self)@, classified(resource@)),
            final(self).interval() == old(self).interval(),
    {
        let res_path = classify(resource.as_str());
        self.remove(&res_path)
    }

    /// Sets the interval between two passes: a value that is not positive
    /// is refused and leaves the interval as it was.
    fn configure_frequency(&mut self, freq: i32) -> (answer: Result<(), ObsError>)
        ensures
            final(self).interval() == after_configure(old(self).interval(), freq as int),
            answer == configure_answer(freq as int),
            final(self)@ == old(self)@,
    {
        proof {
            use_type_invariant(&*self);
        }
        if freq > 0 {
            self.frequency = freq;
            Ok(())
        } else {
            Err(ObsError::FrequencyError)
        }
    }

    /// Runs one pass: resolves the current commit of every watched
    /// resource, applies the detector's rule to each, and gives the changes
    /// found, in the order of the registry. What is resolved depends on the
    /// repositories: the registry and the events are those of
    /// [`Observer::record_pass`] for some resolved values, one for each
    /// resource.
    fn run(&mut self) -> (events: Vec<ObsResult>)
        ensures
            exists|resolved: Seq<Option<Seq<char>>>|
                {
                    &&& resolved.len() == old(self)@.len()
                    &&& final(self)@ == #[trigger] after_pass(old(self)@, resolved)
                    &&& event_views(events@) == events_of(old(self)@, resolved, old(self)@.len())
                },
            final(self).interval() == old(self).interval(),
    {
        let resolved = self.resolve_all();
        let ghost seen = resolved_views(resolved@);
        let events = self.record_pass(resolved);
        assert(final(self)@ == after_pass(old(self)@, seen));
        events
    }
}

} // verus!
