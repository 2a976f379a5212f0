//! The change detector: what a freshly resolved commit id means for a
//! watched resource, and how the current commit id of a resource is resolved.

use vstd::prelude::*;
use crate::observer::git::{
    advertised_ids, connect_for_fetch, detached_remote, open_repository, revision_id,
};
use crate::observer::path::{Path, PathView};

verus! {

/// Why a poll of one resource failed.
#[derive(Debug, Clone, Copy, PartialEq, Eq, Structural)]
pub enum DetectorError {
    /// The repository could not be opened, or its current commit could not be
    /// resolved. The resource stays watched: the next poll may succeed.
    Unreachable,
}

/// What a poll of one resource found.
#[derive(Debug)]
pub enum PollOutcome {
    /// No commit was recorded before: the id found is now the baseline.
    Baseline(String),
    /// The id found is the recorded one.
    Unchanged,
    /// The id found differs from the recorded one: the recorded id, then the
    /// id found.
    Changed(String, String),
}

/// What a [`PollOutcome`] stands for.
pub enum OutcomeView {
    Baseline(Seq<char>),
    Unchanged,
    Changed(Seq<char>, Seq<char>),
}

impl View for PollOutcome {
    type V = OutcomeView;

    open spec fn view(&self) -> OutcomeView {
        match self {
            PollOutcome::Baseline(id) => OutcomeView::Baseline(id@),
            PollOutcome::Unchanged => OutcomeView::Unchanged,
            PollOutcome::Changed(old_id, new_id) => OutcomeView::Changed(old_id@, new_id@),
        }
    }
}

/// A watched repository: its identifier and the commit id that the last
/// successful poll recorded, if any.
#[derive(Debug)]
pub struct WatchedResource {
    path: Path,
    last_known_commit: Option<String>,
}

/// What a [`WatchedResource`] stands for.
pub struct ResourceView {
    pub path: PathView,
    pub commit: Option<Seq<char>>,
}

/// The view of an optional commit id.
pub open spec fn commit_view(commit: Option<String>) -> Option<Seq<char>> {
    match commit {
        Some(id) => Some(id@),
        None => None,
    }
}

/// The detector's rule: the record after a poll that resolved `resolved`
/// (`None` where nothing could be resolved).
pub open spec fn commit_after(recorded: Option<Seq<char>>, resolved: Option<Seq<char>>) -> Option<
    Seq<char>,
> {
    match resolved {
        Some(id) => Some(id),
        None => recorded,
    }
}

/// The detector's rule: the outcome of a poll that resolved `resolved`
/// (`None` where nothing could be resolved).
pub open spec fn outcome_of(recorded: Option<Seq<char>>, resolved: Option<Seq<char>>) -> Result<
    OutcomeView,
    DetectorError,
> {
    match resolved {
        None => Err(DetectorError::Unreachable),
        Some(id) => match recorded {
            None => Ok(OutcomeView::Baseline(id)),
            Some(before) => if before == id {
                Ok(OutcomeView::Unchanged)
            } else {
                Ok(OutcomeView::Changed(before, id))
            },
        },
    }
}

/// The view of the result of a poll.
pub open spec fn polled_view(polled: Result<PollOutcome, DetectorError>) -> Result<
    OutcomeView,
    DetectorError,
> {
    match polled {
        Ok(outcome) => Ok(outcome@),
        Err(e) => Err(e),
    }
}

impl View for WatchedResource {
    type V = ResourceView;

    closed spec fn view(&self) -> ResourceView {
        ResourceView { path: self.path@, commit: commit_view(self.last_known_commit) }
    }
}

impl WatchedResource {
    /// A resource that was just accepted: no commit is recorded yet.
    pub fn new(path: Path) -> (r: WatchedResource)
        ensures
            r@ == (ResourceView { path: path@, commit: None }),
    {
        WatchedResource { path, last_known_commit: None }
    }

    /// The identifier of this resource.
    pub fn path(&self) -> (p: &Path)
        ensures
            p@ == self@.path,
    {
        &self.path
    }

    /// The commit id that the last successful poll recorded.
    pub fn last_known_commit(&self) -> (c: Option<&str>)
        ensures
            c is Some == self@.commit is Some,
            c matches Some(id) ==> Some(id@) == self@.commit,
    {
        match &self.last_known_commit {
            Some(id) => Some(id.as_str()),
            None => None,
        }
    }

    /// Applies the detector's rule to what was resolved for this resource:
    /// `None` where the repository could not be reached. The first id found
    /// becomes the baseline; a later one is compared with the recorded id,
    /// character by character, and replaces it where it differs.
    pub fn record(&mut self, resolved: Option<String>) -> (polled: Result<
        PollOutcome,
        DetectorError,
    >)
        ensures
            final(self)@.path == old(self)@.path,
            final(self)@.commit == commit_after(old(self)@.commit, commit_view(resolved)),
            polled_view(polled) == outcome_of(old(self)@.commit, commit_view(resolved)),
    {
        match resolved {
            None => Err(DetectorError::Unreachable),
            Some(id) => {
                let before = self.last_known_commit.take();
                match before {
                    None => {
                        self.last_known_commit = Some(id.clone());
                        Ok(PollOutcome::Baseline(id))
                    },
                    Some(recorded) => {
                        if recorded == id {
                            self.last_known_commit = Some(recorded);
                            Ok(PollOutcome::Unchanged)
                        } else {
                            self.last_known_commit = Some(id.clone());
                            Ok(PollOutcome::Changed(recorded, id))
                        }
                    },
                }
            },
        }
    }

    /// Resolves the current commit of this resource and applies the
    /// detector's rule to it. What is resolved depends on the repository, so
    /// the outcome is one that [`WatchedResource::record`] gives for some
    /// resolved value.
    pub fn poll(&mut self) -> (polled: Result<PollOutcome, DetectorError>)
        ensures
            final(self)@.path == old(self)@.path,
            exists|resolved: Option<Seq<char>>|
                {
                    &&& final(self)@.commit == commit_after(old(self)@.commit, resolved)
                    &&& polled_view(polled) == #[trigger] outcome_of(old(self)@.commit, resolved)
                },
    {
        let resolved = current_commit(&self.path);
        let ghost seen = commit_view(resolved);
        let polled = self.record(resolved);
        assert(polled_view(polled) == outcome_of(old(self)@.commit, seen));
        polled
    }
}

/// The tip that a remote advertises: the first id of its advertisement.
/// That is the id of `HEAD` where the remote advertises one, which comes
/// first; a remote without one gives the id of its first reference.
pub open spec fn tip_of(ids: Seq<Seq<char>>) -> Option<Seq<char>> {
    if ids.len() > 0 {
        Some(ids[0])
    } else {
        None
    }
}

/// Picks the tip out of a remote's advertisement.
pub fn advertised_tip(ids: Vec<String>) -> (tip: Option<String>)
    ensures
        commit_view(tip) == tip_of(ids@.map_values(|id: String| id@)),
{
    if ids.len() > 0 {
        Some(ids[0].clone())
    } else {
        None
    }
}

/// Resolves the commit that a local repository's `HEAD` stands for, or `None`
/// where no repository can be opened at `path` or its `HEAD` resolves to
/// nothing.
pub(crate) fn local_commit(path: &str) -> (resolved: Option<String>) {
    match open_repository(path) {
        Ok(repo) => match revision_id(&repo, "HEAD") {
            Ok(id) => Some(id),
            Err(_) => None,
        },
        Err(_) => None,
    }
}

/// Asks the remote at `uri` for the ids that it advertises, without fetching
/// any history, or gives `None` where the remote cannot be reached.
pub(crate) fn remote_advertisement(uri: &str) -> (ids: Option<Vec<String>>) {
    match detached_remote(uri) {
        Ok(remote) => {
            let mut remote = remote;
            match connect_for_fetch(&mut remote) {
                Ok(()) => match advertised_ids(&remote) {
                    Ok(ids) => Some(ids),
                    Err(_) => None,
                },
                Err(_) => None,
            }
        },
        Err(_) => None,
    }
}

/// Resolves the current commit of the resource that `path` names: for a
/// local resource through its repository's `HEAD`, for a web resource
/// through the tip of the remote's advertisement. `None` where nothing can
/// be resolved.
pub(crate) fn current_commit(path: &Path) -> (resolved: Option<String>) {
    match path {
        Path::Local(p) => local_commit(p.as_str()),
        Path::WebResource(uri) => match remote_advertisement(uri.as_str()) {
            Some(ids) => advertised_tip(ids),
            None => None,
        },
    }
}

} // verus!
