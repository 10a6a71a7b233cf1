use vstd::prelude::*;
use crate::lookup::{first_named, lemma_named_absent, lemma_named_at, named};

verus! {

/// A JSON number, in one of the three forms in which a document can write it.
#[derive(Clone, Debug, PartialEq)]
pub enum Number {
    /// A non-negative integer.
    Unsigned(u64),
    /// A negative integer.
    Negative(i64),
    /// Any other number, kept as decimal text.
    Real(String),
}

/// A number as contracts speak of it.
pub enum NumberView {
    Unsigned(u64),
    Negative(i64),
    Real(Seq<char>),
}

impl View for Number {
    type V = NumberView;

    open spec fn view(&self) -> NumberView {
        match self {
            Number::Unsigned(u) => NumberView::Unsigned(*u),
            Number::Negative(i) => NumberView::Negative(*i),
            Number::Real(t) => NumberView::Real(t@),
        }
    }
}

/// One member of a JSON object.
#[derive(Debug, PartialEq)]
pub struct Member {
    pub key: String,
    pub value: Json,
}

/// A JSON document as a tree.
#[derive(Debug, PartialEq)]
pub enum Json {
    Null,
    Bool(bool),
    Number(Number),
    Text(String),
    Array(Vec<Json>),
    Object(Vec<Member>),
}

/// A tree as contracts speak of it.
pub enum JsonView {
    Null,
    Bool(bool),
    Number(NumberView),
    Text(Seq<char>),
    Array(Seq<JsonView>),
    Object(Seq<(Seq<char>, JsonView)>),
}

/// The tree that a JSON value stands for.
pub open spec fn tree_view(tree: Json) -> JsonView
    decreases tree,
{
    match tree {
        Json::Null => JsonView::Null,
        Json::Bool(b) => JsonView::Bool(b),
        Json::Number(n) => JsonView::Number(n@),
        Json::Text(t) => JsonView::Text(t@),
        Json::Array(items) => JsonView::Array(
            Seq::new(
                items.len() as nat,
                |i: int|
                    if 0 <= i < items.len() {
                        tree_view(items[i])
                    } else {
                        JsonView::Null
                    },
            ),
        ),
        Json::Object(members) => JsonView::Object(
            Seq::new(
                members.len() as nat,
                |i: int|
                    if 0 <= i < members.len() {
                        (members[i].key@, tree_view(members[i].value))
                    } else {
                        (Seq::empty(), JsonView::Null)
                    },
            ),
        ),
    }
}

impl View for Json {
    type V = JsonView;

    open spec fn view(&self) -> JsonView {
        tree_view(*self)
    }
}

/// The tree that `serde_json` reads from a text, or `None` where it rejects the text.
/// Nothing is stated of it but that it depends on the text alone.
pub uninterp spec fn parsed_json(text: Seq<u8>) -> Option<JsonView>;

/// The tree that a `serde_json::Value` holds: its variants one for one, the members of
/// an object in the order in which the value hands them out, and each number in the form
/// in which the value keeps it.
pub uninterp spec fn value_tree(value: serde_json::Value) -> JsonView;

/// `serde_json::Value`, which is only carried from the reader to `tree_of_value`.
#[verifier::external_type_specification]
#[verifier::external_body]
pub struct ExValue(serde_json::Value);

/// `serde_json::Error`, of which nothing is read.
#[verifier::external_type_specification]
#[verifier::external_body]
pub struct ExJsonError(serde_json::Error);

/// Calls `serde_json::from_slice` for a `serde_json::Value`. Not proved: that the call
/// succeeds exactly on the texts for which `parsed_json` names a tree, and that the value
/// then holds that tree.
#[verifier::external_body]
fn read_value(text: &[u8]) -> (r: Result<serde_json::Value, serde_json::Error>)
    ensures
        r is Ok <==> parsed_json(text@) is Some,
        r matches Ok(v) ==> parsed_json(text@) == Some(value_tree(v)),
{
    serde_json::from_slice::<serde_json::Value>(text)
}

/// Takes a `serde_json::Value` apart, variant by variant. A number is asked with
/// `Number::as_u64` and `Number::as_i64` whether it is an integer; what is none is kept as
/// the text that the number's `to_string` gives. Not proved: that the tree made this way
/// is the one that `value_tree` names.
#[verifier::external_body]
fn tree_of_value(value: serde_json::Value) -> (j: Json)
    ensures
        j@ == value_tree(value),
{
    match value {
        serde_json::Value::Null => Json::Null,
        serde_json::Value::Bool(b) => Json::Bool(b),
        serde_json::Value::Number(n) => Json::Number(match (n.as_u64(), n.as_i64()) {
            (Some(u), _) => Number::Unsigned(u),
            (_, Some(i)) => Number::Negative(i),
            _ => Number::Real(n.to_string()),
        }),
        serde_json::Value::String(s) => Json::Text(s),
        serde_json::Value::Array(a) => Json::Array(a.into_iter().map(tree_of_value).collect()),
        serde_json::Value::Object(o) => Json::Object(
            o.into_iter().map(|(k, v)| Member { key: k, value: tree_of_value(v) }).collect(),
        ),
    }
}

/// Compares two strings with `==` of `str`. Not proved: that the result says whether the
/// two hold the same characters, as std documents it.
#[verifier::external_body]
pub(crate) fn text_eq(a: &str, b: &str) -> (r: bool)
    ensures
        r == (a@ == b@),
{
    a == b
}

/// The views of the items of a sequence, in order.
pub open spec fn views<T: View>(items: Seq<T>) -> Seq<T::V> {
    Seq::new(items.len(), |i: int| items[i]@)
}

/// The members of an object, each as a pair of views.
pub open spec fn member_views(members: Seq<Member>) -> Seq<(Seq<char>, JsonView)> {
    Seq::new(members.len(), |i: int| (members[i].key@, members[i].value@))
}

impl JsonView {
    /// The value of the first member named `key`, where `self` is an object that has one.
    pub open spec fn field(self, key: Seq<char>) -> Option<JsonView> {
        match self {
            JsonView::Object(members) => named(members, key),
            _ => None,
        }
    }

    pub open spec fn as_text(self) -> Option<Seq<char>> {
        match self {
            JsonView::Text(t) => Some(t),
            _ => None,
        }
    }

    pub open spec fn as_number(self) -> Option<NumberView> {
        match self {
            JsonView::Number(n) => Some(n),
            _ => None,
        }
    }

    /// The value of a non-negative integer.
    pub open spec fn as_unsigned(self) -> Option<u64> {
        match self {
            JsonView::Number(NumberView::Unsigned(u)) => Some(u),
            _ => None,
        }
    }

    /// The value of an integer between `i64::MIN` and `i64::MAX`.
    pub open spec fn as_signed(self) -> Option<i64> {
        match self {
            JsonView::Number(NumberView::Unsigned(u)) => if u <= i64::MAX {
                Some(u as i64)
            } else {
                None
            },
            JsonView::Number(NumberView::Negative(i)) => Some(i),
            _ => None,
        }
    }

    pub open spec fn as_array(self) -> Option<Seq<JsonView>> {
        match self {
            JsonView::Array(items) => Some(items),
            _ => None,
        }
    }
}

/// The first member named `key` is the one that `field` gives.
pub proof fn lemma_field_at(members: Seq<(Seq<char>, JsonView)>, key: Seq<char>, i: int)
    requires
        first_named(members, key, i),
    ensures
        JsonView::Object(members).field(key) == Some(members[i].1),
{
    lemma_named_at(members, key, i);
}

/// An object with no member named `key` has no such field.
pub proof fn lemma_field_absent(members: Seq<(Seq<char>, JsonView)>, key: Seq<char>)
    requires
        forall|j: int| 0 <= j < members.len() ==> (#[trigger] members[j]).0 != key,
    ensures
        JsonView::Object(members).field(key) is None,
{
    lemma_named_absent(members, key);
}

/// Two texts that differ in one place are different texts.
pub proof fn lemma_differ_at(a: Seq<char>, b: Seq<char>, i: int)
    requires
        a[i] != b[i],
    ensures
        a != b,
{
}

/// The view of an array or an object is made of the views of what it holds.
pub proof fn lemma_view_parts(tree: Json)
    ensures
        tree matches Json::Array(items) ==> tree@ == JsonView::Array(views(items@)),
        tree matches Json::Object(members) ==> tree@ == JsonView::Object(member_views(members@)),
{
    reveal_with_fuel(tree_view, 2);
    match tree {
        Json::Array(items) => {
            assert(tree@->Array_0 =~= views(items@));
        },
        Json::Object(members) => {
            assert(tree@->Object_0 =~= member_views(members@));
        },
        _ => {},
    }
}

impl Json {
    /// The value of the first member named `key`.
    pub fn get(&self, key: &str) -> (r: Option<&Json>)
        ensures
            r is Some <==> self@.field(key@) is Some,
            r matches Some(v) ==> self@.field(key@) == Some(v@),
    {
        match self {
            Json::Object(members) => {
                proof {
                    lemma_view_parts(*self);
                }
                let ghost pairs = member_views(members@);
                let mut i: usize = 0;
                while i < members.len()
                    invariant
                        i <= members.len(),
                        pairs == member_views(members@),
                        self@ == JsonView::Object(pairs),
                        forall|j: int| 0 <= j < i ==> (#[trigger] pairs[j]).0 != key@,
                    decreases members.len() - i,
                {
                    if text_eq(members[i].key.as_str(), key) {
                        proof {
                            lemma_field_at(pairs, key@, i as int);
                        }
                        return Some(&members[i].value);
                    }
                    i += 1;
                }
                proof {
                    lemma_field_absent(pairs, key@);
                }
                None
            },
            _ => None,
        }
    }

    pub fn as_text(&self) -> (r: Option<&String>)
        ensures
            r is Some <==> self@.as_text() is Some,
            r matches Some(t) ==> self@.as_text() == Some(t@),
    {
        match self {
            Json::Text(t) => Some(t),
            _ => None,
        }
    }

    pub fn as_number(&self) -> (r: Option<&Number>)
        ensures
            r is Some <==> self@.as_number() is Some,
            r matches Some(n) ==> self@.as_number() == Some(n@),
    {
        match self {
            Json::Number(n) => Some(n),
            _ => None,
        }
    }

    pub fn as_unsigned(&self) -> (r: Option<u64>)
        ensures
            r == self@.as_unsigned(),
    {
        match self {
            Json::Number(Number::Unsigned(u)) => Some(*u),
            _ => None,
        }
    }

    pub fn as_signed(&self) -> (r: Option<i64>)
        ensures
            r == self@.as_signed(),
    {
        match self {
            Json::Number(Number::Unsigned(u)) => if *u <= 0x7fff_ffff_ffff_ffff {
                Some(*u as i64)
            } else {
                None
            },
            Json::Number(Number::Negative(i)) => Some(*i),
            _ => None,
        }
    }

    pub fn as_array(&self) -> (r: Option<&Vec<Json>>)
        ensures
            r is Some <==> self@.as_array() is Some,
            r matches Some(items) ==> self@.as_array() == Some(views(items@)),
    {
        match self {
            Json::Array(items) => {
                proof {
                    lemma_view_parts(*self);
                }
                Some(items)
            },
            _ => None,
        }
    }

    /// Reads a JSON text into a tree.
    pub fn parse(text: &[u8]) -> (r: Option<Json>)
        ensures
            r is Some <==> parsed_json(text@) is Some,
            r matches Some(j) ==> parsed_json(text@) == Some(j@),
    {
        match read_value(text) {
            Ok(v) => Some(tree_of_value(v)),
            Err(_) => None,
        }
    }
}

} // verus!
