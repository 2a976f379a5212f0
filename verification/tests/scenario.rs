use crust::dispatcher::request_body;
use crust::observer::{GenericObserver, ObsError, Observer, Path, PollOutcome, WatchedResource};

fn commit(repo: &git2::Repository, message: &str) -> String {
    let sig = git2::Signature::now("tester", "tester@example.org").unwrap();
    let tree_id = repo.index().unwrap().write_tree().unwrap();
    let tree = repo.find_tree(tree_id).unwrap();
    let parents: Vec<git2::Commit> = match repo.head() {
        Ok(head) => vec![head.peel_to_commit().unwrap()],
        Err(_) => vec![],
    };
    let parents: Vec<&git2::Commit> = parents.iter().collect();
    repo.commit(Some("HEAD"), &sig, &sig, message, &tree, &parents).unwrap().to_string()
}

#[test]
fn local_repository_from_baseline_to_change() {
    let dir = "/tmp/crust_scenario_local";
    let repo = git2::Repository::init(dir).unwrap();
    let a = commit(&repo, "first");
    let mut r = WatchedResource::new(Path::from(dir.to_owned()));
    match r.poll() {
        Ok(PollOutcome::Baseline(id)) => assert_eq!(id, a),
        other => panic!("unexpected outcome {:?}", other),
    }
    assert!(matches!(r.poll(), Ok(PollOutcome::Unchanged)));
    let b = commit(&repo, "second");
    assert_ne!(a, b);
    match r.poll() {
        Ok(PollOutcome::Changed(before, found)) => {
            assert_eq!(before, a);
            assert_eq!(found, b);
        },
        other => panic!("unexpected outcome {:?}", other),
    }
    assert!(matches!(r.poll(), Ok(PollOutcome::Unchanged)));
    assert_eq!(r.last_known_commit(), Some(b.as_str()));
}

#[test]
fn observer_notifies_once_per_change() {
    let dir = "/tmp/crust_scenario_observer";
    let repo = git2::Repository::init(dir).unwrap();
    let a = commit(&repo, "first");
    let mut o = Observer::new();
    assert_eq!(o.observe(dir.to_owned()), Ok(()));
    assert_eq!(o.observe(dir.to_owned()), Err(ObsError::AlreadyObserving));
    assert_eq!(o.list(), vec![Path::Local(dir.to_owned())]);
    assert_eq!(o.resolve_all(), vec![Some(a.clone())]);
    assert!(o.run().is_empty());
    assert!(o.run().is_empty());
    let b = commit(&repo, "second");
    let events = o.run();
    assert_eq!(events.len(), 1);
    assert_eq!(*events[0].resource(), Path::Local(dir.to_owned()));
    assert_eq!(events[0].commit(), b);
    assert_eq!(request_body(&events[0]), format!("comm_id={}&resource={}", b, dir));
    assert!(o.run().is_empty());
    assert_eq!(o.forget(dir.to_owned()), Ok(()));
    assert!(o.list().is_empty());
}

#[test]
fn remote_advertisement_gives_the_tip() {
    let dir = "/tmp/crust_scenario_www";
    let repo = git2::Repository::init(dir).unwrap();
    let a = commit(&repo, "first");
    let path = Path::from(dir.to_owned());
    assert_eq!(path, Path::WebResource(dir.to_owned()));
    let mut o = Observer::new();
    assert!(o.is_git_repository(path.clone()));
    assert_eq!(o.observe(dir.to_owned()), Ok(()));
    assert!(o.run().is_empty());
    let b = commit(&repo, "second");
    let events = o.run();
    assert_eq!(events.len(), 1);
    assert_eq!(events[0].commit(), b);
    assert_ne!(a, b);
}

#[test]
fn empty_repository_is_observed_but_unreachable_until_a_commit() {
    let dir = "/tmp/crust_scenario_unborn";
    let _ = git2::Repository::init(dir).unwrap();
    let fresh = git2::Repository::open(dir).unwrap().head().is_err();
    let mut o = Observer::new();
    assert_eq!(o.observe(dir.to_owned()), Ok(()));
    if fresh {
        assert_eq!(o.resolve_all(), vec![None]);
    }
    assert!(o.run().is_empty());
    assert_eq!(o.len(), 1);
}

#[test]
fn observe_accepts_a_repository() {
    let dir = "/tmp/crust_scenario_code";
    let _ = git2::Repository::init(dir).unwrap();
    let mut a: Observer = Observer::new();
    let b = a.observe(dir.to_owned());
    assert_eq!(b, Ok(()));
    assert_eq!(a.len(), 1);
}

#[test]
fn observing_twice_keeps_two_resources() {
    let code = "/tmp/crust_scenario_code";
    let sandpile = "/tmp/crust_scenario_sandpile";
    let _ = git2::Repository::init(code).unwrap();
    let _ = git2::Repository::init(sandpile).unwrap();
    let mut a: Observer = Observer::new();
    assert_eq!(a.observe(code.to_owned()), Ok(()));
    assert_eq!(a.observe(sandpile.to_owned()), Ok(()));
    let d = a.observe(code.to_owned());
    assert_eq!(d, Err(ObsError::AlreadyObserving));
    assert_eq!(a.len(), 2);
    assert_eq!(a.list(), vec![Path::Local(code.to_owned()), Path::Local(sandpile.to_owned())]);
}
