use vstd::prelude::*;
use crate::json::{Json, JsonView};
use crate::schema::Record;

verus! {

/// The layouts that documents have had, oldest first.
#[derive(Clone, Copy, PartialEq, Eq, Structural, Debug)]
pub enum Revision {
    /// Ranks are free unsigned integers and event values fit in one byte.
    First,
    /// Ranks are one of 1, 3, 5, 7, 9 and event values are wider.
    Second,
}

/// The layout of the documents whose version has this major number.
pub open spec fn revision_of(major: u64) -> Option<Revision> {
    if major == 1 {
        Some(Revision::First)
    } else if major == 2 {
        Some(Revision::Second)
    } else {
        None
    }
}

/// Looks up the layout that belongs to a major version number.
pub fn select_revision(major: u64) -> (r: Option<Revision>)
    ensures
        r == revision_of(major),
{
    match major {
        1 => Some(Revision::First),
        2 => Some(Revision::Second),
        _ => None,
    }
}

/// The major, minor and patch numbers that `semver` reads from a version text, or `None`
/// where it rejects the text. Nothing is stated of it but that it depends on the text
/// alone.
pub uninterp spec fn parsed_version(text: Seq<char>) -> Option<(u64, u64, u64)>;

/// Calls `semver::Version::parse` and picks the fields `major`, `minor` and `patch` of
/// what it returns; `None` stands for its error. Not proved: that these are the numbers
/// that `parsed_version` names.
#[verifier::external_body]
fn read_version(text: &str) -> (r: Option<(u64, u64, u64)>)
    ensures
        r == parsed_version(text@),
{
    semver::Version::parse(text).ok().map(|v| (v.major, v.minor, v.patch))
}

/// A document's version: the text as the document wrote it, and its three numbers.
#[derive(Clone, Debug, PartialEq)]
pub struct Version {
    pub text: String,
    pub major: u64,
    pub minor: u64,
    pub patch: u64,
}

/// A version as contracts speak of it.
pub struct VersionView {
    pub text: Seq<char>,
    pub major: u64,
    pub minor: u64,
    pub patch: u64,
}

impl View for Version {
    type V = VersionView;

    open spec fn view(&self) -> VersionView {
        VersionView { text: self.text@, major: self.major, minor: self.minor, patch: self.patch }
    }
}

impl DeepView for Version {
    type V = VersionView;

    open spec fn deep_view(&self) -> VersionView {
        self@
    }
}

impl VersionView {
    /// The numbers are those that the text gives.
    pub open spec fn wf(self) -> bool {
        parsed_version(self.text) == Some((self.major, self.minor, self.patch))
    }

    /// The version that a text stands for.
    pub open spec fn of_text(text: Seq<char>) -> Option<VersionView> {
        match parsed_version(text) {
            Some((major, minor, patch)) => Some(VersionView { text, major, minor, patch }),
            None => None,
        }
    }
}

impl Version {
    /// Reads a version of three numbers, with or without a pre-release and build part.
    pub fn parse(text: &str) -> (r: Option<Version>)
        ensures
            r is Some <==> VersionView::of_text(text@) is Some,
            r matches Some(v) ==> VersionView::of_text(text@) == Some(v@),
    {
        match read_version(text) {
            Some((major, minor, patch)) => Some(
                Version { text: text.to_owned(), major, minor, patch },
            ),
            None => None,
        }
    }
}

/// A version is written as its text, and a text is read as the version that it gives.
impl Record for Version {
    open spec fn reading(tree: JsonView, revision: Revision) -> Option<VersionView> {
        match tree.as_text() {
            Some(text) => VersionView::of_text(text),
            None => None,
        }
    }

    open spec fn writing(value: VersionView) -> JsonView {
        JsonView::Text(value.text)
    }

    open spec fn fits(value: VersionView, revision: Revision) -> bool {
        value.wf()
    }

    fn read(tree: &Json, revision: Revision) -> (r: Option<Version>) {
        match tree.as_text() {
            Some(text) => Version::parse(text.as_str()),
            None => None,
        }
    }

    fn write(&self) -> (tree: Json) {
        Json::Text(self.text.clone())
    }

    proof fn round_trip(value: VersionView, revision: Revision) {
    }

    proof fn read_fits(tree: JsonView, revision: Revision) {
    }
}

} // verus!
