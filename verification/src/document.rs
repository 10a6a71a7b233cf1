use vstd::prelude::*;
use crate::json::{Json, JsonView};
use crate::version::{revision_of, select_revision, Revision, Version, VersionView};

verus! {

/// Why a document was not read.
#[derive(Clone, Copy, PartialEq, Eq, Structural, Debug)]
pub enum DecodeError {
    /// The text is no JSON.
    Syntax,
    /// The version is no version of three numbers, or no layout is known for its major
    /// number.
    SchemaVersion,
    /// A member is missing, has the wrong shape, or holds a number outside its enumeration
    /// or range.
    Field,
}

/// The version that a document declares and the layout that goes with it. A document
/// without a `_version` text has a field error; a text that is no version, and a major
/// number without a layout, have a version error.
pub open spec fn heading(tree: JsonView) -> Result<(VersionView, Revision), DecodeError> {
    match tree.field("_version"@) {
        Some(JsonView::Text(text)) => match VersionView::of_text(text) {
            Some(version) => match revision_of(version.major) {
                Some(revision) => Ok((version, revision)),
                None => Err(DecodeError::SchemaVersion),
            },
            None => Err(DecodeError::SchemaVersion),
        },
        _ => Err(DecodeError::Field),
    }
}

/// Reads the version of a document and selects its layout, before any other member is
/// looked at.
pub fn read_heading(tree: &Json) -> (r: Result<(Version, Revision), DecodeError>)
    ensures
        r matches Ok(h) ==> heading(tree@) == Ok::<(VersionView, Revision), DecodeError>(
            (h.0@, h.1),
        ),
        r matches Err(e) ==> heading(tree@) == Err::<(VersionView, Revision), DecodeError>(e),
{
    let text = match tree.get("_version") {
        Some(Json::Text(text)) => text,
        _ => return Err(DecodeError::Field),
    };
    let version = match Version::parse(text.as_str()) {
        Some(version) => version,
        None => return Err(DecodeError::SchemaVersion),
    };
    match select_revision(version.major) {
        Some(revision) => Ok((version, revision)),
        None => Err(DecodeError::SchemaVersion),
    }
}

} // verus!
