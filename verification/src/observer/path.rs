//! Resource identifiers and the rule that classifies a raw string as one.

use vstd::prelude::*;
use vstd::std_specs::cmp::PartialEqSpecImpl;
use vstd::std_specs::convert::FromSpecImpl;
use crate::observer::text::{contains, has_infix, occurs_at, starts_with};

verus! {

/// Path of a repository to be observed: a web resource (a URI) or a local
/// resource (a filesystem path).
#[derive(Debug)]
pub enum Path {
    WebResource(String),
    Local(String),
}

/// What a [`Path`] stands for: its kind and the characters it was made from.
pub struct PathView {
    pub web: bool,
    pub raw: Seq<char>,
}

impl View for Path {
    type V = PathView;

    open spec fn view(&self) -> PathView {
        match self {
            Path::WebResource(s) => PathView { web: true, raw: s@ },
            Path::Local(s) => PathView { web: false, raw: s@ },
        }
    }
}

/// The marker of a web host: the characters `www`.
pub open spec fn web_marker() -> Seq<char> {
    seq!['w', 'w', 'w']
}

/// The secure web scheme: the characters `https`.
pub open spec fn secure_scheme() -> Seq<char> {
    seq!['h', 't', 't', 'p', 's']
}

/// The classification rule: a raw identifier names a web resource exactly
/// when `www` occurs in it or it begins with `https`. This is a heuristic on
/// the text, not a URI parser: a local path that holds `www` counts as a web
/// resource, and `https` after the first character counts for nothing.
pub open spec fn is_web(raw: Seq<char>) -> bool {
    has_infix(raw, web_marker()) || occurs_at(raw, secure_scheme(), 0)
}

/// The identifier that a raw string is classified as.
pub open spec fn classified(raw: Seq<char>) -> PathView {
    PathView { web: is_web(raw), raw }
}

/// Decides the classification rule on `raw`.
pub fn names_web_resource(raw: &str) -> (web: bool)
    ensures
        web == is_web(raw@),
{
    proof {
        reveal_strlit("www");
        reveal_strlit("https");
        assert("www"@ =~= web_marker());
        assert("https"@ =~= secure_scheme());
    }
    contains(raw, "www") || starts_with(raw, "https")
}

/// Classifies a raw identifier. Total: whether the resource exists is not
/// looked at here.
pub fn classify(raw: &str) -> (p: Path)
    ensures
        p@ == classified(raw@),
{
    if names_web_resource(raw) {
        Path::WebResource(raw.to_owned())
    } else {
        Path::Local(raw.to_owned())
    }
}

impl Path {
    /// The raw identifier that this path was made from.
    pub fn as_str(&self) -> (s: &str)
        ensures
            s@ == self@.raw,
    {
        match self {
            Path::WebResource(s) => s.as_str(),
            Path::Local(s) => s.as_str(),
        }
    }

    /// Whether this path names a web resource.
    pub fn is_web_resource(&self) -> (web: bool)
        ensures
            web == self@.web,
    {
        match self {
            Path::WebResource(_) => true,
            Path::Local(_) => false,
        }
    }
}

impl Clone for Path {
    fn clone(&self) -> (p: Path)
        ensures
            p == *self,
    {
        match self {
            Path::WebResource(s) => Path::WebResource(s.clone()),
            Path::Local(s) => Path::Local(s.clone()),
        }
    }
}

impl PartialEq for Path {
    fn eq(&self, other: &Path) -> (b: bool) {
        match (self, other) {
            (Path::WebResource(a), Path::WebResource(b)) => *a == *b,
            (Path::Local(a), Path::Local(b)) => *a == *b,
            _ => false,
        }
    }
}

impl PartialEqSpecImpl for Path {
    open spec fn obeys_eq_spec() -> bool {
        true
    }

    open spec fn eq_spec(&self, other: &Path) -> bool {
        self@ == other@
    }
}

impl From<String> for Path {
    fn from(path: String) -> (p: Path) {
        if names_web_resource(path.as_str()) {
            Path::WebResource(path)
        } else {
            Path::Local(path)
        }
    }
}

impl FromSpecImpl<String> for Path {
    open spec fn obeys_from_spec() -> bool {
        true
    }

    open spec fn from_spec(path: String) -> Path {
        if is_web(path@) {
            Path::WebResource(path)
        } else {
            Path::Local(path)
        }
    }
}

/// Every raw identifier is classified as a web resource if `www` occurs in
/// it or it begins with `https`, and as a local resource otherwise, and keeps
/// its text.
pub proof fn classification_is_total_and_exact(raw: Seq<char>)
    ensures
        classified(raw).raw == raw,
        (has_infix(raw, web_marker()) || occurs_at(raw, secure_scheme(), 0)) ==> classified(
            raw,
        ).web,
        !(has_infix(raw, web_marker()) || occurs_at(raw, secure_scheme(), 0)) ==> !classified(
            raw,
        ).web,
{
}

/// A text that begins with `https` is a web resource whatever follows, and a
/// text in which `https` stands only after the start is one only if it holds
/// `www`.
pub proof fn scheme_counts_at_the_start_only(raw: Seq<char>)
    ensures
        raw.len() >= 5 && raw.subrange(0, 5) == secure_scheme() ==> classified(raw).web,
        !has_infix(raw, web_marker()) && !(raw.len() >= 5 && raw.subrange(0, 5)
            == secure_scheme()) ==> !classified(raw).web,
{
    assert(secure_scheme().len() == 5);
}

} // verus!
