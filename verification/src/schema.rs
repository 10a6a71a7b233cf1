use vstd::prelude::*;
use crate::json::{Json, JsonView, Member};
use crate::json::{lemma_view_parts, views};
use crate::version::Revision;

verus! {

/// A value of the schema: it can be read from a JSON tree and written to one.
pub trait Record: DeepView + Sized {
    /// The value that a tree stands for under a revision, or `None` where the tree is no
    /// such value.
    spec fn reading(tree: JsonView, revision: Revision) -> Option<Self::V>;

    /// The tree that stands for a value.
    spec fn writing(value: Self::V) -> JsonView;

    /// The value is one that documents of the revision can hold.
    spec fn fits(value: Self::V, revision: Revision) -> bool;

    /// Reads a value from a tree; `None` where the tree is no such value.
    fn read(tree: &Json, revision: Revision) -> (r: Option<Self>)
        ensures
            r is Some <==> Self::reading(tree@, revision) is Some,
            r matches Some(v) ==> Self::reading(tree@, revision) == Some(v.deep_view()),
    ;

    /// Writes the value as a tree.
    fn write(&self) -> (tree: Json)
        ensures
            tree@ == Self::writing(self.deep_view()),
    ;

    /// Reading what was written gives the value back.
    proof fn round_trip(value: Self::V, revision: Revision)
        requires
            Self::fits(value, revision),
        ensures
            Self::reading(Self::writing(value), revision) == Some(value),
    ;

    /// What is read fits the revision it was read under.
    proof fn read_fits(tree: JsonView, revision: Revision)
        ensures
            Self::reading(tree, revision) matches Some(v) ==> Self::fits(v, revision),
    ;
}

/// The value of the member `key` of an object, read as a `T`.
pub open spec fn at<T: Record>(tree: JsonView, key: Seq<char>, revision: Revision) -> Option<T::V> {
    match tree.field(key) {
        Some(v) => T::reading(v, revision),
        None => None,
    }
}

/// Reads the member `key` of an object as a `T`.
pub fn read_at<T: Record>(tree: &Json, key: &str, revision: Revision) -> (r: Option<T>)
    ensures
        r is Some <==> at::<T>(tree@, key@, revision) is Some,
        r matches Some(v) ==> at::<T>(tree@, key@, revision) == Some(v.deep_view()),
{
    match tree.get(key) {
        Some(v) => T::read(v, revision),
        None => None,
    }
}

/// The value of the member `key`, which may be missing or null.
pub open spec fn optional_at<T: Record>(
    tree: JsonView,
    key: Seq<char>,
    revision: Revision,
) -> Option<Option<T::V>> {
    match tree.field(key) {
        None => Some(None),
        Some(JsonView::Null) => Some(None),
        Some(v) => match T::reading(v, revision) {
            Some(x) => Some(Some(x)),
            None => None,
        },
    }
}

/// Reads the member `key` of an object as a `T`, where it is there and not null.
pub fn read_optional_at<T: Record>(tree: &Json, key: &str, revision: Revision) -> (r: Option<
    Option<T>,
>)
    ensures
        r is Some <==> optional_at::<T>(tree@, key@, revision) is Some,
        r matches Some(v) ==> optional_at::<T>(tree@, key@, revision) == Some(v.deep_view()),
{
    match tree.get(key) {
        None => Some(None),
        Some(Json::Null) => Some(None),
        Some(v) => match T::read(v, revision) {
            Some(x) => Some(Some(x)),
            None => None,
        },
    }
}

/// The tree that stands for a value that may be absent.
pub open spec fn writing_optional<T: Record>(value: Option<T::V>) -> JsonView {
    match value {
        Some(x) => T::writing(x),
        None => JsonView::Null,
    }
}

/// Writes a value that may be absent: `null` stands for none.
pub fn write_optional<T: Record>(value: &Option<T>) -> (tree: Json)
    ensures
        tree@ == writing_optional::<T>(value.deep_view()),
{
    match value {
        Some(x) => x.write(),
        None => Json::Null,
    }
}

/// A member of an object under construction.
pub fn member(key: &str, value: Json) -> (m: Member)
    ensures
        m.key@ == key@,
        m.value == value,
{
    Member { key: key.to_owned(), value }
}

/// The values that the items of an array stand for, where each of them stands for one.
pub open spec fn reading_all<T: Record>(items: Seq<JsonView>, revision: Revision) -> Option<
    Seq<T::V>,
> {
    if forall|i: int| 0 <= i < items.len() ==> (#[trigger] T::reading(items[i], revision)) is Some {
        Some(Seq::new(items.len(), |i: int| T::reading(items[i], revision)->Some_0))
    } else {
        None
    }
}

/// The trees that stand for the values of a sequence, in order.
pub open spec fn writing_all<T: Record>(values: Seq<T::V>) -> Seq<JsonView> {
    Seq::new(values.len(), |i: int| T::writing(values[i]))
}

/// An array stands for the values of its items, where each of them stands for one.
impl<T: Record> Record for Vec<T> {
    open spec fn reading(tree: JsonView, revision: Revision) -> Option<Seq<T::V>> {
        match tree.as_array() {
            Some(items) => reading_all::<T>(items, revision),
            None => None,
        }
    }

    open spec fn writing(value: Seq<T::V>) -> JsonView {
        JsonView::Array(writing_all::<T>(value))
    }

    open spec fn fits(value: Seq<T::V>, revision: Revision) -> bool {
        forall|i: int| 0 <= i < value.len() ==> T::fits(#[trigger] value[i], revision)
    }

    fn read(tree: &Json, revision: Revision) -> (r: Option<Vec<T>>) {
        match tree.as_array() {
            None => None,
            Some(items) => {
                let ghost trees = views(items@);
                let mut out: Vec<T> = Vec::new();
                let mut i: usize = 0;
                while i < items.len()
                    invariant
                        i <= items.len(),
                        out.len() == i,
                        trees == views(items@),
                        tree@.as_array() == Some(trees),
                        forall|j: int|
                            0 <= j < i ==> (#[trigger] T::reading(trees[j], revision)) == Some(
                                out@[j].deep_view(),
                            ),
                    decreases items.len() - i,
                {
                    match T::read(&items[i], revision) {
                        Some(v) => {
                            out.push(v);
                        },
                        None => {
                            assert(T::reading(trees[i as int], revision) is None);
                            return None;
                        },
                    }
                    i += 1;
                }
                assert(reading_all::<T>(trees, revision)->Some_0 =~= out.deep_view());
                Some(out)
            },
        }
    }

    fn write(&self) -> (tree: Json) {
        let mut out: Vec<Json> = Vec::new();
        let mut i: usize = 0;
        while i < self.len()
            invariant
                i <= self.len(),
                out.len() == i,
                forall|j: int| 0 <= j < i ==> (#[trigger] out@[j])@ == T::writing(self@[j].deep_view()),
            decreases self.len() - i,
        {
            out.push(self[i].write());
            i += 1;
        }
        let tree = Json::Array(out);
        proof {
            lemma_view_parts(tree);
            assert(views(out@) =~= writing_all::<T>(self.deep_view()));
        }
        tree
    }

    proof fn round_trip(value: Seq<T::V>, revision: Revision) {
        let trees = writing_all::<T>(value);
        assert forall|i: int| 0 <= i < trees.len() implies (#[trigger] T::reading(
            trees[i],
            revision,
        )) == Some(value[i]) by {
            T::round_trip(value[i], revision);
        }
        assert(reading_all::<T>(trees, revision)->Some_0 =~= value);
    }

    proof fn read_fits(tree: JsonView, revision: Revision) {
        match Self::reading(tree, revision) {
            Some(values) => {
                let items = tree.as_array()->Some_0;
                assert forall|i: int| 0 <= i < values.len() implies T::fits(
                    #[trigger] values[i],
                    revision,
                ) by {
                    T::read_fits(items[i], revision);
                    assert(T::reading(items[i], revision) is Some);
                }
            },
            None => {},
        }
    }
}

} // verus!
