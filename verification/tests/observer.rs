use crust::observer::{GenericObserver, ObsError, Observer, Path};

/// A repository at `path`; where that place cannot be written, one at the
/// same path under `/tmp`.
fn repository(path: &str) -> String {
    if git2::Repository::init(path).is_ok() {
        return path.to_owned();
    }
    let fallback = format!("/tmp{}", path);
    git2::Repository::init(&fallback).expect("a repository can be made under /tmp");
    fallback
}

#[test]
fn observer_check_web_resource_for_path() {
    let a: Path = Path::from("www.google.com".to_owned());
    assert_eq!(a, Path::WebResource("www.google.com".to_owned()))
}

#[test]
fn observer_check_local_path() {
    let a: Path = Path::from("/home/chinmay_dd/defragger.txt".to_owned());
    assert_eq!(a, Path::Local("/home/chinmay_dd/defragger.txt".to_owned()))
}

#[test]
fn observer_check_git_error() {
    let mut a: Observer = Observer::new();
    let b = a.observe("/home/chinmay_dd/deragger.txt".to_owned());
    assert_eq!(b, Err(ObsError::GitError))
}

#[test]
fn observer_check_ok() {
    let code = repository("/home/chinmay_dd/Projects/Code");
    let mut a: Observer = Observer::new();
    let b = a.observe(code);
    assert_eq!(b, Ok(()))
}

#[test]
fn observer_check_already_observing() {
    let code = repository("/home/chinmay_dd/Projects/Code");
    let sandpile = repository("/home/chinmay_dd/Projects/sandpile");
    let mut a: Observer = Observer::new();
    let _ = a.observe(code.clone());
    let _ = a.observe(sandpile);
    let d = a.observe(code);
    assert_eq!(d, Err(ObsError::AlreadyObserving));
    assert_eq!(a.len(), 2)
}

#[test]
fn observer_check_incorrect_web_path() {
    let mut a: Observer = Observer::new();
    let b = a.observe("www.google.com".to_owned());
    assert_eq!(b, Err(ObsError::GitError))
}

#[test]
fn it_works() {
}
