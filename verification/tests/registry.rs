use crust::dispatcher::{confirm, request_body, DispatchError};
use crust::observer::registry::DEFAULT_FREQUENCY;
use crust::observer::{GenericObserver, ObsCommand, ObsError, ObsResult, Observer, Path};

fn local(raw: &str) -> Path {
    Path::Local(raw.to_owned())
}

fn watching(raws: &[&str]) -> Observer {
    let mut o = Observer::new();
    for raw in raws {
        assert_eq!(o.enlist(Path::from((*raw).to_owned()), true), Ok(()));
    }
    o
}

#[test]
fn new_observer_is_empty_with_default_frequency() {
    let o = Observer::new();
    assert_eq!(o.len(), 0);
    assert!(o.list().is_empty());
    assert_eq!(o.frequency(), 5);
    assert_eq!(DEFAULT_FREQUENCY, 5);
}

#[test]
fn enlist_takes_up_a_reachable_resource_once() {
    let mut o = Observer::new();
    assert_eq!(o.enlist(local("/a"), true), Ok(()));
    assert_eq!(o.enlist(local("/a"), true), Err(ObsError::AlreadyObserving));
    assert_eq!(o.enlist(local("/a"), false), Err(ObsError::AlreadyObserving));
    assert_eq!(o.len(), 1);
    assert_eq!(o.enlist(local("/b"), false), Err(ObsError::GitError));
    assert_eq!(o.len(), 1);
    assert_eq!(o.enlist(Path::WebResource("/a".to_owned()), true), Ok(()));
    assert_eq!(o.list(), vec![local("/a"), Path::WebResource("/a".to_owned())]);
    assert!(o.already_observing(local("/a")));
    assert!(!o.already_observing(local("/b")));
    assert_eq!(o.position(&Path::WebResource("/a".to_owned())), Some(1));
    assert_eq!(o.position(&local("/b")), None);
}

#[test]
fn forget_of_an_unknown_resource_is_refused() {
    let mut o = watching(&["/a", "/b"]);
    assert_eq!(o.forget("/c".to_owned()), Err(ObsError::NotObserving));
    assert_eq!(o.list(), vec![local("/a"), local("/b")]);
    let mut empty = Observer::new();
    assert_eq!(empty.forget("/a".to_owned()), Err(ObsError::NotObserving));
}

#[test]
fn forget_removes_the_resource_and_keeps_the_order() {
    let mut o = watching(&["/a", "/b", "/c"]);
    assert_eq!(o.forget("/b".to_owned()), Ok(()));
    assert_eq!(o.list(), vec![local("/a"), local("/c")]);
    assert_eq!(o.forget("/b".to_owned()), Err(ObsError::NotObserving));
    assert_eq!(o.forget("/a".to_owned()), Ok(()));
    assert_eq!(o.forget("/c".to_owned()), Ok(()));
    assert_eq!(o.len(), 0);
}

#[test]
fn frequency_must_be_positive() {
    let mut o = Observer::new();
    assert_eq!(o.configure_frequency(0), Err(ObsError::FrequencyError));
    assert_eq!(o.frequency(), 5);
    assert_eq!(o.configure_frequency(-1), Err(ObsError::FrequencyError));
    assert_eq!(o.frequency(), 5);
    assert_eq!(o.configure_frequency(10), Ok(()));
    assert_eq!(o.frequency(), 10);
    assert_eq!(o.configure_frequency(i32::MIN), Err(ObsError::FrequencyError));
    assert_eq!(o.frequency(), 10);
    assert_eq!(o.configure_frequency(1), Ok(()));
    assert_eq!(o.frequency(), 1);
}

fn summary(events: &[ObsResult]) -> Vec<(Path, String)> {
    events.iter().map(|e| (e.resource().clone(), e.commit().to_owned())).collect()
}

#[test]
fn pass_reports_changes_only() {
    let mut o = watching(&["/a", "/b", "/c"]);
    let first = o.record_pass(vec![Some("a1".to_owned()), Some("b1".to_owned()), None]);
    assert!(first.is_empty());
    let second = o.record_pass(vec![Some("a2".to_owned()), Some("b1".to_owned()), Some("c1".to_owned())]);
    assert_eq!(summary(&second), vec![(local("/a"), "a2".to_owned())]);
    assert_eq!(second[0].command(), ObsCommand::Dispatch);
    let third = o.record_pass(vec![None, Some("b2".to_owned()), Some("c2".to_owned())]);
    assert_eq!(summary(&third), vec![(local("/b"), "b2".to_owned()), (local("/c"), "c2".to_owned())]);
    let fourth = o.record_pass(vec![Some("a2".to_owned()), Some("b2".to_owned()), Some("c2".to_owned())]);
    assert!(fourth.is_empty());
    assert_eq!(o.list(), vec![local("/a"), local("/b"), local("/c")]);
}

#[test]
fn pass_counts_missing_values_as_unreachable() {
    let mut o = watching(&["/a", "/b"]);
    let _ = o.record_pass(vec![Some("a1".to_owned()), Some("b1".to_owned())]);
    let short = o.record_pass(vec![Some("a2".to_owned())]);
    assert_eq!(summary(&short), vec![(local("/a"), "a2".to_owned())]);
    let long = o.record_pass(vec![None, Some("b2".to_owned()), Some("x".to_owned())]);
    assert_eq!(summary(&long), vec![(local("/b"), "b2".to_owned())]);
    assert!(Observer::new().record_pass(vec![Some("x".to_owned())]).is_empty());
}

#[test]
fn run_skips_unreachable_resources() {
    let mut o = watching(&["/home/chinmay_dd/deragger.txt"]);
    assert_eq!(o.resolve_all(), vec![None]);
    assert!(o.run().is_empty());
    assert_eq!(o.len(), 1);
}

#[test]
fn message_names_commit_and_resource() {
    let event = ObsResult::new(local("/home/me/repo"), "0123abcd".to_owned());
    assert_eq!(request_body(&event), "comm_id=0123abcd&resource=/home/me/repo");
    let web = ObsResult::new(Path::from("https://example.org/r.git".to_owned()), "ff".to_owned());
    assert_eq!(request_body(&web), "comm_id=ff&resource=https://example.org/r.git");
}

#[test]
fn delivery_failure_is_reported() {
    assert_eq!(confirm(true), Ok(()));
    assert_eq!(confirm(false), Err(DispatchError::DeliveryFailed));
}
