//! Maps of a rhythm game: the info document of a map, its difficulty documents, and
//! the map as a whole, read from JSON and put together from a source of named documents.

/// What a probe of the audio says, and the stream that a duration is taken from.
pub mod audio;
/// The entries of an info document: one difficulty of one characteristic each.
pub mod beatmap;
/// A map as a whole: its info document and the difficulty documents that it declares.
pub mod bundle;
/// Difficulty documents: notes, obstacles, events, tempo changes and bookmarks.
pub mod difficulty;
/// What every document starts with: its version, and the layout that it selects.
pub mod document;
/// Info documents: what a map is and which difficulties it declares.
pub mod info;
/// JSON documents as trees.
pub mod json;
/// What is refused when documents are read.
pub mod laws;
/// Locators of remote maps and the keys in them.
pub mod locator;
/// Looking up the first of several members under a key.
pub mod lookup;
/// Numbers and strings as values of the schema.
pub mod scalars;
/// Values that are read from JSON trees and written to them.
pub mod schema;
/// Named byte streams among which documents are looked up.
pub mod source;
/// Difficulty documents by characteristic and rank.
pub mod table;
/// Versions of documents and the layouts that go with them.
pub mod version;

pub use crate::bundle::Beatmap;
