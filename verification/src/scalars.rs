use vstd::prelude::*;
use crate::json::{Json, JsonView, Number, NumberView};
use crate::schema::Record;
use crate::version::Revision;

verus! {

impl DeepView for Number {
    type V = NumberView;

    open spec fn deep_view(&self) -> NumberView {
        self@
    }
}

impl Number {
    /// A copy of the number.
    pub fn duplicate(&self) -> (r: Number)
        ensures
            r@ == self@,
    {
        match self {
            Number::Unsigned(u) => Number::Unsigned(*u),
            Number::Negative(i) => Number::Negative(*i),
            Number::Real(t) => Number::Real(t.clone()),
        }
    }
}

/// Any JSON number stands for itself: this is how times and durations are kept.
impl Record for Number {
    open spec fn reading(tree: JsonView, revision: Revision) -> Option<NumberView> {
        tree.as_number()
    }

    open spec fn writing(value: NumberView) -> JsonView {
        JsonView::Number(value)
    }

    open spec fn fits(value: NumberView, revision: Revision) -> bool {
        true
    }

    fn read(tree: &Json, revision: Revision) -> (r: Option<Number>) {
        match tree.as_number() {
            Some(n) => Some(n.duplicate()),
            None => None,
        }
    }

    fn write(&self) -> (tree: Json) {
        Json::Number(self.duplicate())
    }

    proof fn round_trip(value: NumberView, revision: Revision) {
    }

    proof fn read_fits(tree: JsonView, revision: Revision) {
    }
}

/// A JSON string stands for its text.
impl Record for String {
    open spec fn reading(tree: JsonView, revision: Revision) -> Option<Seq<char>> {
        tree.as_text()
    }

    open spec fn writing(value: Seq<char>) -> JsonView {
        JsonView::Text(value)
    }

    open spec fn fits(value: Seq<char>, revision: Revision) -> bool {
        true
    }

    fn read(tree: &Json, revision: Revision) -> (r: Option<String>) {
        match tree.as_text() {
            Some(t) => Some(t.clone()),
            None => None,
        }
    }

    fn write(&self) -> (tree: Json) {
        Json::Text(self.clone())
    }

    proof fn round_trip(value: Seq<char>, revision: Revision) {
    }

    proof fn read_fits(tree: JsonView, revision: Revision) {
    }
}

/// A non-negative integer up to 255 stands for a byte; nothing else does.
impl Record for u8 {
    open spec fn reading(tree: JsonView, revision: Revision) -> Option<u8> {
        match tree.as_unsigned() {
            Some(u) => if u <= u8::MAX {
                Some(u as u8)
            } else {
                None
            },
            None => None,
        }
    }

    open spec fn writing(value: u8) -> JsonView {
        JsonView::Number(NumberView::Unsigned(value as u64))
    }

    open spec fn fits(value: u8, revision: Revision) -> bool {
        true
    }

    fn read(tree: &Json, revision: Revision) -> (r: Option<u8>) {
        match tree.as_unsigned() {
            Some(u) => if u <= 255 {
                Some(u as u8)
            } else {
                None
            },
            None => None,
        }
    }

    fn write(&self) -> (tree: Json) {
        Json::Number(Number::Unsigned(*self as u64))
    }

    proof fn round_trip(value: u8, revision: Revision) {
    }

    proof fn read_fits(tree: JsonView, revision: Revision) {
    }
}

/// A non-negative integer up to `u32::MAX` stands for itself; nothing else does.
impl Record for u32 {
    open spec fn reading(tree: JsonView, revision: Revision) -> Option<u32> {
        match tree.as_unsigned() {
            Some(u) => if u <= u32::MAX {
                Some(u as u32)
            } else {
                None
            },
            None => None,
        }
    }

    open spec fn writing(value: u32) -> JsonView {
        JsonView::Number(NumberView::Unsigned(value as u64))
    }

    open spec fn fits(value: u32, revision: Revision) -> bool {
        true
    }

    fn read(tree: &Json, revision: Revision) -> (r: Option<u32>) {
        match tree.as_unsigned() {
            Some(u) => if u <= 0xffff_ffff {
                Some(u as u32)
            } else {
                None
            },
            None => None,
        }
    }

    fn write(&self) -> (tree: Json) {
        Json::Number(Number::Unsigned(*self as u64))
    }

    proof fn round_trip(value: u32, revision: Revision) {
    }

    proof fn read_fits(tree: JsonView, revision: Revision) {
    }
}

/// The tree that stands for a signed integer: negative ones are written as such.
pub open spec fn writing_signed(value: i64) -> JsonView {
    if value < 0 {
        JsonView::Number(NumberView::Negative(value))
    } else {
        JsonView::Number(NumberView::Unsigned(value as u64))
    }
}

/// An integer between `i32::MIN` and `i32::MAX` stands for itself; nothing else does.
impl Record for i32 {
    open spec fn reading(tree: JsonView, revision: Revision) -> Option<i32> {
        match tree.as_signed() {
            Some(i) => if i32::MIN <= i <= i32::MAX {
                Some(i as i32)
            } else {
                None
            },
            None => None,
        }
    }

    open spec fn writing(value: i32) -> JsonView {
        writing_signed(value as i64)
    }

    open spec fn fits(value: i32, revision: Revision) -> bool {
        true
    }

    fn read(tree: &Json, revision: Revision) -> (r: Option<i32>) {
        match tree.as_signed() {
            Some(i) => if -0x8000_0000 <= i && i <= 0x7fff_ffff {
                Some(i as i32)
            } else {
                None
            },
            None => None,
        }
    }

    fn write(&self) -> (tree: Json) {
        if *self < 0 {
            Json::Number(Number::Negative(*self as i64))
        } else {
            Json::Number(Number::Unsigned(*self as u64))
        }
    }

    proof fn round_trip(value: i32, revision: Revision) {
    }

    proof fn read_fits(tree: JsonView, revision: Revision) {
    }
}

} // verus!
