use vstd::prelude::*;
use crate::difficulty::{DifficultyView, LineIndex, Note, NoteType, Obstacle};
use crate::document::{heading, DecodeError};
use crate::info::InfoView;
use crate::json::{JsonView, NumberView};
use crate::schema::Record;
use crate::version::{parsed_version, revision_of, Revision};

verus! {

/// A line index is read from one of the numbers 0, 1, 2 and 3 and from nothing else, and
/// what is read is the place of that very number: no other number is taken for a place.
pub proof fn lemma_line_index_is_closed(tree: JsonView, revision: Revision)
    ensures
        LineIndex::reading(tree, revision) matches Some(place) ==> tree == LineIndex::writing(
            place,
        ),
        LineIndex::reading(tree, revision) is Some <==> exists|code: u64|
            code <= 3 && tree == JsonView::Number(NumberView::Unsigned(code)),
{
    if LineIndex::reading(tree, revision) is Some {
        let code = tree.as_unsigned()->Some_0;
        assert(code <= 3 && tree == JsonView::Number(NumberView::Unsigned(code)));
    }
}

/// A note type is read from one of the numbers 0, 1 and 3 and from nothing else.
pub proof fn lemma_note_type_is_closed(tree: JsonView, revision: Revision)
    ensures
        NoteType::reading(tree, revision) matches Some(kind) ==> tree == NoteType::writing(kind),
        NoteType::reading(tree, revision) is Some <==> exists|code: u64|
            (code == 0 || code == 1 || code == 3) && tree == JsonView::Number(
                NumberView::Unsigned(code),
            ),
{
    if NoteType::reading(tree, revision) is Some {
        let code = tree.as_unsigned()->Some_0;
        assert((code == 0 || code == 1 || code == 3) && tree == JsonView::Number(
            NumberView::Unsigned(code),
        ));
    }
}

/// A note whose line index or type is outside its enumeration is no note.
pub proof fn lemma_note_outside_enumerations(tree: JsonView, revision: Revision)
    requires
        ({
            ||| tree.field("_lineIndex"@) matches Some(v) && LineIndex::reading(v, revision) is None
            ||| tree.field("_type"@) matches Some(v) && NoteType::reading(v, revision) is None
        }),
    ensures
        Note::reading(tree, revision) is None,
{
}

/// An obstacle whose line index is outside its enumeration is no obstacle.
pub proof fn lemma_obstacle_outside_enumeration(tree: JsonView, revision: Revision)
    requires
        tree.field("_lineIndex"@) matches Some(v) && LineIndex::reading(v, revision) is None,
    ensures
        Obstacle::reading(tree, revision) is None,
{
}

/// A difficulty document one of whose notes is no note is refused with a field error.
pub proof fn lemma_unreadable_note_fails(tree: JsonView, i: int)
    requires
        heading(tree) is Ok,
        tree.field("_notes"@) matches Some(JsonView::Array(items)) && 0 <= i < items.len()
            && Note::reading(items[i], heading(tree)->Ok_0.1) is None,
    ensures
        DifficultyView::of_tree(tree) == Err::<DifficultyView, DecodeError>(DecodeError::Field),
{
}

/// A difficulty document one of whose obstacles is no obstacle is refused with a field
/// error.
pub proof fn lemma_unreadable_obstacle_fails(tree: JsonView, i: int)
    requires
        heading(tree) is Ok,
        tree.field("_obstacles"@) matches Some(JsonView::Array(items)) && 0 <= i < items.len()
            && Obstacle::reading(items[i], heading(tree)->Ok_0.1) is None,
    ensures
        DifficultyView::of_tree(tree) == Err::<DifficultyView, DecodeError>(DecodeError::Field),
{
}

/// A document whose version text is no version of three numbers, or whose major number
/// has no layout, is refused with a version error, whatever else it holds.
pub proof fn lemma_unreadable_version_fails(tree: JsonView, text: Seq<char>)
    requires
        tree.field("_version"@) == Some(JsonView::Text(text)),
        parsed_version(text) matches Some(numbers) ==> revision_of(numbers.0) is None,
    ensures
        DifficultyView::of_tree(tree) == Err::<DifficultyView, DecodeError>(
            DecodeError::SchemaVersion,
        ),
        InfoView::of_tree(tree) == Err::<InfoView, DecodeError>(DecodeError::SchemaVersion),
{
}

/// A document without a version text is refused with a field error.
pub proof fn lemma_missing_version_fails(tree: JsonView)
    requires
        !(tree.field("_version"@) matches Some(JsonView::Text(_))),
    ensures
        DifficultyView::of_tree(tree) == Err::<DifficultyView, DecodeError>(DecodeError::Field),
        InfoView::of_tree(tree) == Err::<InfoView, DecodeError>(DecodeError::Field),
{
}

} // verus!
