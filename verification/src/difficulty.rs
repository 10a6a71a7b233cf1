use vstd::prelude::*;
use crate::document::{heading, read_heading, DecodeError};
use crate::json::{Json, JsonView, Member, Number, NumberView};
use crate::json::{lemma_differ_at, lemma_field_at, lemma_view_parts, member_views, parsed_json};
use crate::schema::{at, member, read_at, Record};
use crate::version::{revision_of, Revision, Version, VersionView};

verus! {

/// A change of tempo.
#[derive(Clone, Debug, PartialEq)]
pub struct BPMChange {
    /// The new tempo, in beats per minute.
    pub bpm: Number,
    /// Time of the change, in beats.
    pub time: Number,
    pub beats_per_bar: u32,
    pub metronome_offset: u32,
}

/// `BPMChange` as contracts speak of it.
pub struct BPMChangeView {
    pub bpm: NumberView,
    pub time: NumberView,
    pub beats_per_bar: u32,
    pub metronome_offset: u32,
}

impl DeepView for BPMChange {
    type V = BPMChangeView;

    open spec fn deep_view(&self) -> BPMChangeView {
        BPMChangeView {
            bpm: self.bpm.deep_view(),
            time: self.time.deep_view(),
            beats_per_bar: self.beats_per_bar.deep_view(),
            metronome_offset: self.metronome_offset.deep_view(),
        }
    }
}

impl Record for BPMChange {
    open spec fn reading(tree: JsonView, revision: Revision) -> Option<BPMChangeView> {
        if {
            &&& at::<Number>(tree, "_BPM"@, revision) is Some
            &&& at::<Number>(tree, "_time"@, revision) is Some
            &&& at::<u32>(tree, "_beatsPerBar"@, revision) is Some
            &&& at::<u32>(tree, "_metronomeOffset"@, revision) is Some
        } {
            Some(
                BPMChangeView {
                    bpm: at::<Number>(tree, "_BPM"@, revision)->Some_0,
                    time: at::<Number>(tree, "_time"@, revision)->Some_0,
                    beats_per_bar: at::<u32>(tree, "_beatsPerBar"@, revision)->Some_0,
                    metronome_offset: at::<u32>(tree, "_metronomeOffset"@, revision)->Some_0,
                },
            )
        } else {
            None
        }
    }

    open spec fn writing(value: BPMChangeView) -> JsonView {
        JsonView::Object(
            seq![
                ("_BPM"@, Number::writing(value.bpm)),
                ("_time"@, Number::writing(value.time)),
                ("_beatsPerBar"@, u32::writing(value.beats_per_bar)),
                ("_metronomeOffset"@, u32::writing(value.metronome_offset)),
            ],
        )
    }

    open spec fn fits(value: BPMChangeView, revision: Revision) -> bool {
        true
    }

    fn read(tree: &Json, revision: Revision) -> (r: Option<BPMChange>) {
        let bpm = match read_at::<Number>(tree, "_BPM", revision) {
            Some(v) => v,
            None => return None,
        };
        let time = match read_at::<Number>(tree, "_time", revision) {
            Some(v) => v,
            None => return None,
        };
        let beats_per_bar = match read_at::<u32>(tree, "_beatsPerBar", revision) {
            Some(v) => v,
            None => return None,
        };
        let metronome_offset = match read_at::<u32>(tree, "_metronomeOffset", revision) {
            Some(v) => v,
            None => return None,
        };
        Some(BPMChange { bpm, time, beats_per_bar, metronome_offset })
    }

    fn write(&self) -> (tree: Json) {
        let mut members: Vec<Member> = Vec::new();
        members.push(member("_BPM", self.bpm.write()));
        members.push(member("_time", self.time.write()));
        members.push(member("_beatsPerBar", self.beats_per_bar.write()));
        members.push(member("_metronomeOffset", self.metronome_offset.write()));
        let tree = Json::Object(members);
        proof {
            lemma_view_parts(tree);
            assert(member_views(members@) =~= Self::writing(self.deep_view())->Object_0);
        }
        tree
    }

    proof fn round_trip(value: BPMChangeView, revision: Revision) {
        Self::keys_differ();
        let members = Self::writing(value)->Object_0;
        lemma_field_at(members, "_BPM"@, 0);
        Number::round_trip(value.bpm, revision);
        lemma_field_at(members, "_time"@, 1);
        Number::round_trip(value.time, revision);
        lemma_field_at(members, "_beatsPerBar"@, 2);
        u32::round_trip(value.beats_per_bar, revision);
        lemma_field_at(members, "_metronomeOffset"@, 3);
        u32::round_trip(value.metronome_offset, revision);
    }

    proof fn read_fits(tree: JsonView, revision: Revision) {
    }
}

impl BPMChange {
    /// The names of the members are pairwise different.
    pub proof fn keys_differ()
        ensures
            "_BPM"@ != "_time"@,
            "_BPM"@ != "_beatsPerBar"@,
            "_time"@ != "_beatsPerBar"@,
            "_BPM"@ != "_metronomeOffset"@,
            "_time"@ != "_metronomeOffset"@,
            "_beatsPerBar"@ != "_metronomeOffset"@,
    {
        reveal_strlit("_BPM");
        reveal_strlit("_time");
        reveal_strlit("_beatsPerBar");
        reveal_strlit("_metronomeOffset");
        assert("_BPM"@.len() == 4);
        assert("_time"@.len() == 5);
        assert("_beatsPerBar"@.len() == 12);
        assert("_metronomeOffset"@.len() == 16);
    }
}
/// The values that an event of a revision can have: one byte in the first, any in the
/// second.
pub open spec fn value_allowed(value: u32, revision: Revision) -> bool {
    revision == Revision::First ==> value <= u8::MAX
}

/// A lighting event or another event of the map.
#[derive(Clone, Debug, PartialEq)]
pub struct Event {
    /// Time of the event, in beats.
    pub time: Number,
    pub event_type: u8,
    pub value: u32,
}

/// `Event` as contracts speak of it.
pub struct EventView {
    pub time: NumberView,
    pub event_type: u8,
    pub value: u32,
}

impl DeepView for Event {
    type V = EventView;

    open spec fn deep_view(&self) -> EventView {
        EventView {
            time: self.time.deep_view(),
            event_type: self.event_type.deep_view(),
            value: self.value.deep_view(),
        }
    }
}

impl Record for Event {
    open spec fn reading(tree: JsonView, revision: Revision) -> Option<EventView> {
        if {
            &&& at::<Number>(tree, "_time"@, revision) is Some
            &&& at::<u8>(tree, "_type"@, revision) is Some
            &&& at::<u32>(tree, "_value"@, revision) matches Some(value) && value_allowed(
                value,
                revision,
            )
        } {
            Some(
                EventView {
                    time: at::<Number>(tree, "_time"@, revision)->Some_0,
                    event_type: at::<u8>(tree, "_type"@, revision)->Some_0,
                    value: at::<u32>(tree, "_value"@, revision)->Some_0,
                },
            )
        } else {
            None
        }
    }

    open spec fn writing(value: EventView) -> JsonView {
        JsonView::Object(
            seq![
                ("_time"@, Number::writing(value.time)),
                ("_type"@, u8::writing(value.event_type)),
                ("_value"@, u32::writing(value.value)),
            ],
        )
    }

    open spec fn fits(value: EventView, revision: Revision) -> bool {
        value_allowed(value.value, revision)
    }

    fn read(tree: &Json, revision: Revision) -> (r: Option<Event>) {
        let time = match read_at::<Number>(tree, "_time", revision) {
            Some(v) => v,
            None => return None,
        };
        let event_type = match read_at::<u8>(tree, "_type", revision) {
            Some(v) => v,
            None => return None,
        };
        let value = match read_at::<u32>(tree, "_value", revision) {
            Some(v) => v,
            None => return None,
        };
        let allowed = match revision {
            Revision::First => value <= 255,
            Revision::Second => true,
        };
        if allowed {
            Some(Event { time, event_type, value })
        } else {
            None
        }
    }

    fn write(&self) -> (tree: Json) {
        let mut members: Vec<Member> = Vec::new();
        members.push(member("_time", self.time.write()));
        members.push(member("_type", self.event_type.write()));
        members.push(member("_value", self.value.write()));
        let tree = Json::Object(members);
        proof {
            lemma_view_parts(tree);
            assert(member_views(members@) =~= Self::writing(self.deep_view())->Object_0);
        }
        tree
    }

    proof fn round_trip(value: EventView, revision: Revision) {
        Self::keys_differ();
        let members = Self::writing(value)->Object_0;
        lemma_field_at(members, "_time"@, 0);
        lemma_field_at(members, "_type"@, 1);
        lemma_field_at(members, "_value"@, 2);
    }

    proof fn read_fits(tree: JsonView, revision: Revision) {
    }
}

impl Event {
    /// The names of the members are pairwise different.
    pub proof fn keys_differ()
        ensures
            "_time"@ != "_type"@,
            "_time"@ != "_value"@,
            "_type"@ != "_value"@,
    {
        reveal_strlit("_time");
        reveal_strlit("_type");
        reveal_strlit("_value");
        assert("_time"@.len() == 5);
        assert("_type"@.len() == 5);
        assert("_value"@.len() == 6);
        lemma_differ_at("_time"@, "_type"@, 2);
    }
}

/// The horizontal place of a note or an obstacle.
#[derive(Clone, Copy, PartialEq, Eq, PartialOrd, Ord, Structural, Debug)]
pub enum LineIndex {
    FarLeft,
    MidLeft,
    MidRight,
    FarRight,
}

impl DeepView for LineIndex {
    type V = LineIndex;

    open spec fn deep_view(&self) -> LineIndex {
        *self
    }
}

impl LineIndex {
    /// The number that documents write for the place.
    pub open spec fn code(self) -> u8 {
        match self {
            LineIndex::FarLeft => 0,
            LineIndex::MidLeft => 1,
            LineIndex::MidRight => 2,
            LineIndex::FarRight => 3,
        }
    }

    /// The place that a number stands for: only 0, 1, 2 and 3 stand for one.
    pub open spec fn of_code(code: u64) -> Option<LineIndex> {
        if code == 0 {
            Some(LineIndex::FarLeft)
        } else if code == 1 {
            Some(LineIndex::MidLeft)
        } else if code == 2 {
            Some(LineIndex::MidRight)
        } else if code == 3 {
            Some(LineIndex::FarRight)
        } else {
            None
        }
    }
}

impl Record for LineIndex {
    open spec fn reading(tree: JsonView, revision: Revision) -> Option<LineIndex> {
        match tree.as_unsigned() {
            Some(u) => LineIndex::of_code(u),
            None => None,
        }
    }

    open spec fn writing(value: LineIndex) -> JsonView {
        JsonView::Number(NumberView::Unsigned(value.code() as u64))
    }

    open spec fn fits(value: LineIndex, revision: Revision) -> bool {
        true
    }

    fn read(tree: &Json, revision: Revision) -> (r: Option<LineIndex>) {
        match tree.as_unsigned() {
            Some(0) => Some(LineIndex::FarLeft),
            Some(1) => Some(LineIndex::MidLeft),
            Some(2) => Some(LineIndex::MidRight),
            Some(3) => Some(LineIndex::FarRight),
            _ => None,
        }
    }

    fn write(&self) -> (tree: Json) {
        let code: u64 = match self {
            LineIndex::FarLeft => 0,
            LineIndex::MidLeft => 1,
            LineIndex::MidRight => 2,
            LineIndex::FarRight => 3,
        };
        Json::Number(Number::Unsigned(code))
    }

    proof fn round_trip(value: LineIndex, revision: Revision) {
    }

    proof fn read_fits(tree: JsonView, revision: Revision) {
    }
}
/// The vertical place of a note.
#[derive(Clone, Copy, PartialEq, Eq, PartialOrd, Ord, Structural, Debug)]
pub enum LineLayer {
    Bottom,
    Middle,
    Top,
}

impl DeepView for LineLayer {
    type V = LineLayer;

    open spec fn deep_view(&self) -> LineLayer {
        *self
    }
}

impl LineLayer {
    /// The number that documents write for the layer.
    pub open spec fn code(self) -> u8 {
        match self {
            LineLayer::Bottom => 0,
            LineLayer::Middle => 1,
            LineLayer::Top => 2,
        }
    }

    /// The layer that a number stands for: only 0, 1 and 2 stand for one.
    pub open spec fn of_code(code: u64) -> Option<LineLayer> {
        if code == 0 {
            Some(LineLayer::Bottom)
        } else if code == 1 {
            Some(LineLayer::Middle)
        } else if code == 2 {
            Some(LineLayer::Top)
        } else {
            None
        }
    }
}

impl Record for LineLayer {
    open spec fn reading(tree: JsonView, revision: Revision) -> Option<LineLayer> {
        match tree.as_unsigned() {
            Some(u) => LineLayer::of_code(u),
            None => None,
        }
    }

    open spec fn writing(value: LineLayer) -> JsonView {
        JsonView::Number(NumberView::Unsigned(value.code() as u64))
    }

    open spec fn fits(value: LineLayer, revision: Revision) -> bool {
        true
    }

    fn read(tree: &Json, revision: Revision) -> (r: Option<LineLayer>) {
        match tree.as_unsigned() {
            Some(0) => Some(LineLayer::Bottom),
            Some(1) => Some(LineLayer::Middle),
            Some(2) => Some(LineLayer::Top),
            _ => None,
        }
    }

    fn write(&self) -> (tree: Json) {
        let code: u64 = match self {
            LineLayer::Bottom => 0,
            LineLayer::Middle => 1,
            LineLayer::Top => 2,
        };
        Json::Number(Number::Unsigned(code))
    }

    proof fn round_trip(value: LineLayer, revision: Revision) {
    }

    proof fn read_fits(tree: JsonView, revision: Revision) {
    }
}
/// What a note is: a block of one of the two colours, or a bomb.
#[derive(Clone, Copy, PartialEq, Eq, Structural, Debug)]
pub enum NoteType {
    Red,
    Blue,
    Bomb,
}

impl DeepView for NoteType {
    type V = NoteType;

    open spec fn deep_view(&self) -> NoteType {
        *self
    }
}

impl NoteType {
    /// The number that documents write for the type.
    pub open spec fn code(self) -> u8 {
        match self {
            NoteType::Red => 0,
            NoteType::Blue => 1,
            NoteType::Bomb => 3,
        }
    }

    /// The type that a number stands for: only 0, 1 and 3 stand for one.
    pub open spec fn of_code(code: u64) -> Option<NoteType> {
        if code == 0 {
            Some(NoteType::Red)
        } else if code == 1 {
            Some(NoteType::Blue)
        } else if code == 3 {
            Some(NoteType::Bomb)
        } else {
            None
        }
    }
}

impl Record for NoteType {
    open spec fn reading(tree: JsonView, revision: Revision) -> Option<NoteType> {
        match tree.as_unsigned() {
            Some(u) => NoteType::of_code(u),
            None => None,
        }
    }

    open spec fn writing(value: NoteType) -> JsonView {
        JsonView::Number(NumberView::Unsigned(value.code() as u64))
    }

    open spec fn fits(value: NoteType, revision: Revision) -> bool {
        true
    }

    fn read(tree: &Json, revision: Revision) -> (r: Option<NoteType>) {
        match tree.as_unsigned() {
            Some(0) => Some(NoteType::Red),
            Some(1) => Some(NoteType::Blue),
            Some(3) => Some(NoteType::Bomb),
            _ => None,
        }
    }

    fn write(&self) -> (tree: Json) {
        let code: u64 = match self {
            NoteType::Red => 0,
            NoteType::Blue => 1,
            NoteType::Bomb => 3,
        };
        Json::Number(Number::Unsigned(code))
    }

    proof fn round_trip(value: NoteType, revision: Revision) {
    }

    proof fn read_fits(tree: JsonView, revision: Revision) {
    }
}
/// The direction in which a note is cut.
#[derive(Clone, Copy, PartialEq, Eq, Structural, Debug)]
pub enum CutDirection {
    Up,
    Down,
    Left,
    Right,
    UpLeft,
    UpRight,
    DownLeft,
    DownRight,
    Dot,
}

impl DeepView for CutDirection {
    type V = CutDirection;

    open spec fn deep_view(&self) -> CutDirection {
        *self
    }
}

impl CutDirection {
    /// The number that documents write for the direction.
    pub open spec fn code(self) -> u8 {
        match self {
            CutDirection::Up => 0,
            CutDirection::Down => 1,
            CutDirection::Left => 2,
            CutDirection::Right => 3,
            CutDirection::UpLeft => 4,
            CutDirection::UpRight => 5,
            CutDirection::DownLeft => 6,
            CutDirection::DownRight => 7,
            CutDirection::Dot => 8,
        }
    }

    /// The direction that a number stands for: only 0 to 8 stand for one.
    pub open spec fn of_code(code: u64) -> Option<CutDirection> {
        if code == 0 {
            Some(CutDirection::Up)
        } else if code == 1 {
            Some(CutDirection::Down)
        } else if code == 2 {
            Some(CutDirection::Left)
        } else if code == 3 {
            Some(CutDirection::Right)
        } else if code == 4 {
            Some(CutDirection::UpLeft)
        } else if code == 5 {
            Some(CutDirection::UpRight)
        } else if code == 6 {
            Some(CutDirection::DownLeft)
        } else if code == 7 {
            Some(CutDirection::DownRight)
        } else if code == 8 {
            Some(CutDirection::Dot)
        } else {
            None
        }
    }
}

impl Record for CutDirection {
    open spec fn reading(tree: JsonView, revision: Revision) -> Option<CutDirection> {
        match tree.as_unsigned() {
            Some(u) => CutDirection::of_code(u),
            None => None,
        }
    }

    open spec fn writing(value: CutDirection) -> JsonView {
        JsonView::Number(NumberView::Unsigned(value.code() as u64))
    }

    open spec fn fits(value: CutDirection, revision: Revision) -> bool {
        true
    }

    fn read(tree: &Json, revision: Revision) -> (r: Option<CutDirection>) {
        match tree.as_unsigned() {
            Some(0) => Some(CutDirection::Up),
            Some(1) => Some(CutDirection::Down),
            Some(2) => Some(CutDirection::Left),
            Some(3) => Some(CutDirection::Right),
            Some(4) => Some(CutDirection::UpLeft),
            Some(5) => Some(CutDirection::UpRight),
            Some(6) => Some(CutDirection::DownLeft),
            Some(7) => Some(CutDirection::DownRight),
            Some(8) => Some(CutDirection::Dot),
            _ => None,
        }
    }

    fn write(&self) -> (tree: Json) {
        let code: u64 = match self {
            CutDirection::Up => 0,
            CutDirection::Down => 1,
            CutDirection::Left => 2,
            CutDirection::Right => 3,
            CutDirection::UpLeft => 4,
            CutDirection::UpRight => 5,
            CutDirection::DownLeft => 6,
            CutDirection::DownRight => 7,
            CutDirection::Dot => 8,
        };
        Json::Number(Number::Unsigned(code))
    }

    proof fn round_trip(value: CutDirection, revision: Revision) {
    }

    proof fn read_fits(tree: JsonView, revision: Revision) {
    }
}
/// A note of the map.
#[derive(Clone, Debug, PartialEq)]
pub struct Note {
    /// Time of the note, in beats.
    pub time: Number,
    pub line_index: LineIndex,
    pub line_layer: LineLayer,
    pub note_type: NoteType,
    pub cut_direction: CutDirection,
}

/// `Note` as contracts speak of it.
pub struct NoteView {
    pub time: NumberView,
    pub line_index: LineIndex,
    pub line_layer: LineLayer,
    pub note_type: NoteType,
    pub cut_direction: CutDirection,
}

impl DeepView for Note {
    type V = NoteView;

    open spec fn deep_view(&self) -> NoteView {
        NoteView {
            time: self.time.deep_view(),
            line_index: self.line_index.deep_view(),
            line_layer: self.line_layer.deep_view(),
            note_type: self.note_type.deep_view(),
            cut_direction: self.cut_direction.deep_view(),
        }
    }
}

impl Record for Note {
    open spec fn reading(tree: JsonView, revision: Revision) -> Option<NoteView> {
        if {
            &&& at::<Number>(tree, "_time"@, revision) is Some
            &&& at::<LineIndex>(tree, "_lineIndex"@, revision) is Some
            &&& at::<LineLayer>(tree, "_lineLayer"@, revision) is Some
            &&& at::<NoteType>(tree, "_type"@, revision) is Some
            &&& at::<CutDirection>(tree, "_cutDirection"@, revision) is Some
        } {
            Some(
                NoteView {
                    time: at::<Number>(tree, "_time"@, revision)->Some_0,
                    line_index: at::<LineIndex>(tree, "_lineIndex"@, revision)->Some_0,
                    line_layer: at::<LineLayer>(tree, "_lineLayer"@, revision)->Some_0,
                    note_type: at::<NoteType>(tree, "_type"@, revision)->Some_0,
                    cut_direction: at::<CutDirection>(tree, "_cutDirection"@, revision)->Some_0,
                },
            )
        } else {
            None
        }
    }

    open spec fn writing(value: NoteView) -> JsonView {
        JsonView::Object(
            seq![
                ("_time"@, Number::writing(value.time)),
                ("_lineIndex"@, LineIndex::writing(value.line_index)),
                ("_lineLayer"@, LineLayer::writing(value.line_layer)),
                ("_type"@, NoteType::writing(value.note_type)),
                ("_cutDirection"@, CutDirection::writing(value.cut_direction)),
            ],
        )
    }

    open spec fn fits(value: NoteView, revision: Revision) -> bool {
        true
    }

    fn read(tree: &Json, revision: Revision) -> (r: Option<Note>) {
        let time = match read_at::<Number>(tree, "_time", revision) {
            Some(v) => v,
            None => return None,
        };
        let line_index = match read_at::<LineIndex>(tree, "_lineIndex", revision) {
            Some(v) => v,
            None => return None,
        };
        let line_layer = match read_at::<LineLayer>(tree, "_lineLayer", revision) {
            Some(v) => v,
            None => return None,
        };
        let note_type = match read_at::<NoteType>(tree, "_type", revision) {
            Some(v) => v,
            None => return None,
        };
        let cut_direction = match read_at::<CutDirection>(tree, "_cutDirection", revision) {
            Some(v) => v,
            None => return None,
        };
        Some(Note { time, line_index, line_layer, note_type, cut_direction })
    }

    fn write(&self) -> (tree: Json) {
        let mut members: Vec<Member> = Vec::new();
        members.push(member("_time", self.time.write()));
        members.push(member("_lineIndex", self.line_index.write()));
        members.push(member("_lineLayer", self.line_layer.write()));
        members.push(member("_type", self.note_type.write()));
        members.push(member("_cutDirection", self.cut_direction.write()));
        let tree = Json::Object(members);
        proof {
            lemma_view_parts(tree);
            assert(member_views(members@) =~= Self::writing(self.deep_view())->Object_0);
        }
        tree
    }

    proof fn round_trip(value: NoteView, revision: Revision) {
        Self::keys_differ();
        let members = Self::writing(value)->Object_0;
        lemma_field_at(members, "_time"@, 0);
        Number::round_trip(value.time, revision);
        lemma_field_at(members, "_lineIndex"@, 1);
        LineIndex::round_trip(value.line_index, revision);
        lemma_field_at(members, "_lineLayer"@, 2);
        LineLayer::round_trip(value.line_layer, revision);
        lemma_field_at(members, "_type"@, 3);
        NoteType::round_trip(value.note_type, revision);
        lemma_field_at(members, "_cutDirection"@, 4);
        CutDirection::round_trip(value.cut_direction, revision);
    }

    proof fn read_fits(tree: JsonView, revision: Revision) {
    }
}

impl Note {
    /// The names of the members are pairwise different.
    pub proof fn keys_differ()
        ensures
            "_time"@ != "_lineIndex"@,
            "_time"@ != "_lineLayer"@,
            "_lineIndex"@ != "_lineLayer"@,
            "_time"@ != "_type"@,
            "_lineIndex"@ != "_type"@,
            "_lineLayer"@ != "_type"@,
            "_time"@ != "_cutDirection"@,
            "_lineIndex"@ != "_cutDirection"@,
            "_lineLayer"@ != "_cutDirection"@,
            "_type"@ != "_cutDirection"@,
    {
        reveal_strlit("_time");
        reveal_strlit("_lineIndex");
        reveal_strlit("_lineLayer");
        reveal_strlit("_type");
        reveal_strlit("_cutDirection");
        assert("_time"@.len() == 5);
        assert("_lineIndex"@.len() == 10);
        assert("_lineLayer"@.len() == 10);
        assert("_type"@.len() == 5);
        assert("_cutDirection"@.len() == 13);
        lemma_differ_at("_lineIndex"@, "_lineLayer"@, 5);
        lemma_differ_at("_time"@, "_type"@, 2);
    }
}
/// What an obstacle is.
#[derive(Clone, Copy, PartialEq, Eq, Structural, Debug)]
pub enum ObstacleType {
    Wall,
    Ceiling,
}

impl DeepView for ObstacleType {
    type V = ObstacleType;

    open spec fn deep_view(&self) -> ObstacleType {
        *self
    }
}

impl ObstacleType {
    /// The number that documents write for the type.
    pub open spec fn code(self) -> u8 {
        match self {
            ObstacleType::Wall => 0,
            ObstacleType::Ceiling => 1,
        }
    }

    /// The type that a number stands for: only 0 and 1 stand for one.
    pub open spec fn of_code(code: u64) -> Option<ObstacleType> {
        if code == 0 {
            Some(ObstacleType::Wall)
        } else if code == 1 {
            Some(ObstacleType::Ceiling)
        } else {
            None
        }
    }
}

impl Record for ObstacleType {
    open spec fn reading(tree: JsonView, revision: Revision) -> Option<ObstacleType> {
        match tree.as_unsigned() {
            Some(u) => ObstacleType::of_code(u),
            None => None,
        }
    }

    open spec fn writing(value: ObstacleType) -> JsonView {
        JsonView::Number(NumberView::Unsigned(value.code() as u64))
    }

    open spec fn fits(value: ObstacleType, revision: Revision) -> bool {
        true
    }

    fn read(tree: &Json, revision: Revision) -> (r: Option<ObstacleType>) {
        match tree.as_unsigned() {
            Some(0) => Some(ObstacleType::Wall),
            Some(1) => Some(ObstacleType::Ceiling),
            _ => None,
        }
    }

    fn write(&self) -> (tree: Json) {
        let code: u64 = match self {
            ObstacleType::Wall => 0,
            ObstacleType::Ceiling => 1,
        };
        Json::Number(Number::Unsigned(code))
    }

    proof fn round_trip(value: ObstacleType, revision: Revision) {
    }

    proof fn read_fits(tree: JsonView, revision: Revision) {
    }
}
/// A wall or a ceiling.
#[derive(Clone, Debug, PartialEq)]
pub struct Obstacle {
    /// Time of the obstacle, in beats.
    pub time: Number,
    pub line_index: LineIndex,
    pub obstacle_type: ObstacleType,
    /// Length of the obstacle, in beats.
    pub duration: Number,
    /// Width of the obstacle in lines, extending to the right.
    pub width: u8,
}

/// `Obstacle` as contracts speak of it.
pub struct ObstacleView {
    pub time: NumberView,
    pub line_index: LineIndex,
    pub obstacle_type: ObstacleType,
    pub duration: NumberView,
    pub width: u8,
}

impl DeepView for Obstacle {
    type V = ObstacleView;

    open spec fn deep_view(&self) -> ObstacleView {
        ObstacleView {
            time: self.time.deep_view(),
            line_index: self.line_index.deep_view(),
            obstacle_type: self.obstacle_type.deep_view(),
            duration: self.duration.deep_view(),
            width: self.width.deep_view(),
        }
    }
}

impl Record for Obstacle {
    open spec fn reading(tree: JsonView, revision: Revision) -> Option<ObstacleView> {
        if {
            &&& at::<Number>(tree, "_time"@, revision) is Some
            &&& at::<LineIndex>(tree, "_lineIndex"@, revision) is Some
            &&& at::<ObstacleType>(tree, "_type"@, revision) is Some
            &&& at::<Number>(tree, "_duration"@, revision) is Some
            &&& at::<u8>(tree, "_width"@, revision) is Some
        } {
            Some(
                ObstacleView {
                    time: at::<Number>(tree, "_time"@, revision)->Some_0,
                    line_index: at::<LineIndex>(tree, "_lineIndex"@, revision)->Some_0,
                    obstacle_type: at::<ObstacleType>(tree, "_type"@, revision)->Some_0,
                    duration: at::<Number>(tree, "_duration"@, revision)->Some_0,
                    width: at::<u8>(tree, "_width"@, revision)->Some_0,
                },
            )
        } else {
            None
        }
    }

    open spec fn writing(value: ObstacleView) -> JsonView {
        JsonView::Object(
            seq![
                ("_time"@, Number::writing(value.time)),
                ("_lineIndex"@, LineIndex::writing(value.line_index)),
                ("_type"@, ObstacleType::writing(value.obstacle_type)),
                ("_duration"@, Number::writing(value.duration)),
                ("_width"@, u8::writing(value.width)),
            ],
        )
    }

    open spec fn fits(value: ObstacleView, revision: Revision) -> bool {
        true
    }

    fn read(tree: &Json, revision: Revision) -> (r: Option<Obstacle>) {
        let time = match read_at::<Number>(tree, "_time", revision) {
            Some(v) => v,
            None => return None,
        };
        let line_index = match read_at::<LineIndex>(tree, "_lineIndex", revision) {
            Some(v) => v,
            None => return None,
        };
        let obstacle_type = match read_at::<ObstacleType>(tree, "_type", revision) {
            Some(v) => v,
            None => return None,
        };
        let duration = match read_at::<Number>(tree, "_duration", revision) {
            Some(v) => v,
            None => return None,
        };
        let width = match read_at::<u8>(tree, "_width", revision) {
            Some(v) => v,
            None => return None,
        };
        Some(Obstacle { time, line_index, obstacle_type, duration, width })
    }

    fn write(&self) -> (tree: Json) {
        let mut members: Vec<Member> = Vec::new();
        members.push(member("_time", self.time.write()));
        members.push(member("_lineIndex", self.line_index.write()));
        members.push(member("_type", self.obstacle_type.write()));
        members.push(member("_duration", self.duration.write()));
        members.push(member("_width", self.width.write()));
        let tree = Json::Object(members);
        proof {
            lemma_view_parts(tree);
            assert(member_views(members@) =~= Self::writing(self.deep_view())->Object_0);
        }
        tree
    }

    proof fn round_trip(value: ObstacleView, revision: Revision) {
        Self::keys_differ();
        let members = Self::writing(value)->Object_0;
        lemma_field_at(members, "_time"@, 0);
        Number::round_trip(value.time, revision);
        lemma_field_at(members, "_lineIndex"@, 1);
        LineIndex::round_trip(value.line_index, revision);
        lemma_field_at(members, "_type"@, 2);
        ObstacleType::round_trip(value.obstacle_type, revision);
        lemma_field_at(members, "_duration"@, 3);
        Number::round_trip(value.duration, revision);
        lemma_field_at(members, "_width"@, 4);
        u8::round_trip(value.width, revision);
    }

    proof fn read_fits(tree: JsonView, revision: Revision) {
    }
}

impl Obstacle {
    /// The names of the members are pairwise different.
    pub proof fn keys_differ()
        ensures
            "_time"@ != "_lineIndex"@,
            "_time"@ != "_type"@,
            "_lineIndex"@ != "_type"@,
            "_time"@ != "_duration"@,
            "_lineIndex"@ != "_duration"@,
            "_type"@ != "_duration"@,
            "_time"@ != "_width"@,
            "_lineIndex"@ != "_width"@,
            "_type"@ != "_width"@,
            "_duration"@ != "_width"@,
    {
        reveal_strlit("_time");
        reveal_strlit("_lineIndex");
        reveal_strlit("_type");
        reveal_strlit("_duration");
        reveal_strlit("_width");
        assert("_time"@.len() == 5);
        assert("_lineIndex"@.len() == 10);
        assert("_type"@.len() == 5);
        assert("_duration"@.len() == 9);
        assert("_width"@.len() == 6);
        lemma_differ_at("_time"@, "_type"@, 2);
    }
}
/// A bookmark that an editor left at a time.
#[derive(Clone, Debug, PartialEq)]
pub struct Bookmark {
    pub time: Number,
    pub name: String,
}

/// `Bookmark` as contracts speak of it.
pub struct BookmarkView {
    pub time: NumberView,
    pub name: Seq<char>,
}

impl DeepView for Bookmark {
    type V = BookmarkView;

    open spec fn deep_view(&self) -> BookmarkView {
        BookmarkView {
            time: self.time.deep_view(),
            name: self.name.deep_view(),
        }
    }
}

impl Record for Bookmark {
    open spec fn reading(tree: JsonView, revision: Revision) -> Option<BookmarkView> {
        if {
            &&& at::<Number>(tree, "_time"@, revision) is Some
            &&& at::<String>(tree, "_name"@, revision) is Some
        } {
            Some(
                BookmarkView {
                    time: at::<Number>(tree, "_time"@, revision)->Some_0,
                    name: at::<String>(tree, "_name"@, revision)->Some_0,
                },
            )
        } else {
            None
        }
    }

    open spec fn writing(value: BookmarkView) -> JsonView {
        JsonView::Object(
            seq![
                ("_time"@, Number::writing(value.time)),
                ("_name"@, String::writing(value.name)),
            ],
        )
    }

    open spec fn fits(value: BookmarkView, revision: Revision) -> bool {
        true
    }

    fn read(tree: &Json, revision: Revision) -> (r: Option<Bookmark>) {
        let time = match read_at::<Number>(tree, "_time", revision) {
            Some(v) => v,
            None => return None,
        };
        let name = match read_at::<String>(tree, "_name", revision) {
            Some(v) => v,
            None => return None,
        };
        Some(Bookmark { time, name })
    }

    fn write(&self) -> (tree: Json) {
        let mut members: Vec<Member> = Vec::new();
        members.push(member("_time", self.time.write()));
        members.push(member("_name", self.name.write()));
        let tree = Json::Object(members);
        proof {
            lemma_view_parts(tree);
            assert(member_views(members@) =~= Self::writing(self.deep_view())->Object_0);
        }
        tree
    }

    proof fn round_trip(value: BookmarkView, revision: Revision) {
        Self::keys_differ();
        let members = Self::writing(value)->Object_0;
        lemma_field_at(members, "_time"@, 0);
        Number::round_trip(value.time, revision);
        lemma_field_at(members, "_name"@, 1);
        String::round_trip(value.name, revision);
    }

    proof fn read_fits(tree: JsonView, revision: Revision) {
    }
}

impl Bookmark {
    /// The names of the members are pairwise different.
    pub proof fn keys_differ()
        ensures
            "_time"@ != "_name"@,
    {
        reveal_strlit("_time");
        reveal_strlit("_name");
        assert("_time"@.len() == 5);
        assert("_name"@.len() == 5);
        lemma_differ_at("_time"@, "_name"@, 1);
    }
}
/// A difficulty document: what is played at one rank of one characteristic.
#[derive(Clone, Debug, PartialEq)]
pub struct Difficulty {
    /// Format version.
    pub version: Version,
    pub bpm_changes: Vec<BPMChange>,
    pub events: Vec<Event>,
    pub notes: Vec<Note>,
    pub obstacles: Vec<Obstacle>,
    /// Bookmarks, which only editors use.
    pub bookmarks: Vec<Bookmark>,
}

/// `Difficulty` as contracts speak of it.
pub struct DifficultyView {
    pub version: VersionView,
    pub bpm_changes: Seq<BPMChangeView>,
    pub events: Seq<EventView>,
    pub notes: Seq<NoteView>,
    pub obstacles: Seq<ObstacleView>,
    pub bookmarks: Seq<BookmarkView>,
}

impl DeepView for Difficulty {
    type V = DifficultyView;

    open spec fn deep_view(&self) -> DifficultyView {
        DifficultyView {
            version: self.version.deep_view(),
            bpm_changes: self.bpm_changes.deep_view(),
            events: self.events.deep_view(),
            notes: self.notes.deep_view(),
            obstacles: self.obstacles.deep_view(),
            bookmarks: self.bookmarks.deep_view(),
        }
    }
}

impl Record for Difficulty {
    open spec fn reading(tree: JsonView, revision: Revision) -> Option<DifficultyView> {
        if {
            &&& at::<Version>(tree, "_version"@, revision) is Some
            &&& at::<Vec<BPMChange>>(tree, "_BPMChanges"@, revision) is Some
            &&& at::<Vec<Event>>(tree, "_events"@, revision) is Some
            &&& at::<Vec<Note>>(tree, "_notes"@, revision) is Some
            &&& at::<Vec<Obstacle>>(tree, "_obstacles"@, revision) is Some
            &&& at::<Vec<Bookmark>>(tree, "_bookmarks"@, revision) is Some
        } {
            Some(
                DifficultyView {
                    version: at::<Version>(tree, "_version"@, revision)->Some_0,
                    bpm_changes: at::<Vec<BPMChange>>(tree, "_BPMChanges"@, revision)->Some_0,
                    events: at::<Vec<Event>>(tree, "_events"@, revision)->Some_0,
                    notes: at::<Vec<Note>>(tree, "_notes"@, revision)->Some_0,
                    obstacles: at::<Vec<Obstacle>>(tree, "_obstacles"@, revision)->Some_0,
                    bookmarks: at::<Vec<Bookmark>>(tree, "_bookmarks"@, revision)->Some_0,
                },
            )
        } else {
            None
        }
    }

    open spec fn writing(value: DifficultyView) -> JsonView {
        JsonView::Object(
            seq![
                ("_version"@, Version::writing(value.version)),
                ("_BPMChanges"@, Vec::<BPMChange>::writing(value.bpm_changes)),
                ("_events"@, Vec::<Event>::writing(value.events)),
                ("_notes"@, Vec::<Note>::writing(value.notes)),
                ("_obstacles"@, Vec::<Obstacle>::writing(value.obstacles)),
                ("_bookmarks"@, Vec::<Bookmark>::writing(value.bookmarks)),
            ],
        )
    }

    open spec fn fits(value: DifficultyView, revision: Revision) -> bool {
        &&& Version::fits(value.version, revision)
        &&& Vec::<Event>::fits(value.events, revision)
    }

    fn read(tree: &Json, revision: Revision) -> (r: Option<Difficulty>) {
        let version = match read_at::<Version>(tree, "_version", revision) {
            Some(v) => v,
            None => return None,
        };
        let bpm_changes = match read_at::<Vec<BPMChange>>(tree, "_BPMChanges", revision) {
            Some(v) => v,
            None => return None,
        };
        let events = match read_at::<Vec<Event>>(tree, "_events", revision) {
            Some(v) => v,
            None => return None,
        };
        let notes = match read_at::<Vec<Note>>(tree, "_notes", revision) {
            Some(v) => v,
            None => return None,
        };
        let obstacles = match read_at::<Vec<Obstacle>>(tree, "_obstacles", revision) {
            Some(v) => v,
            None => return None,
        };
        let bookmarks = match read_at::<Vec<Bookmark>>(tree, "_bookmarks", revision) {
            Some(v) => v,
            None => return None,
        };
        Some(Difficulty { version, bpm_changes, events, notes, obstacles, bookmarks })
    }

    fn write(&self) -> (tree: Json) {
        let mut members: Vec<Member> = Vec::new();
        members.push(member("_version", self.version.write()));
        members.push(member("_BPMChanges", self.bpm_changes.write()));
        members.push(member("_events", self.events.write()));
        members.push(member("_notes", self.notes.write()));
        members.push(member("_obstacles", self.obstacles.write()));
        members.push(member("_bookmarks", self.bookmarks.write()));
        let tree = Json::Object(members);
        proof {
            lemma_view_parts(tree);
            assert(member_views(members@) =~= Self::writing(self.deep_view())->Object_0);
        }
        tree
    }

    proof fn round_trip(value: DifficultyView, revision: Revision) {
        Self::keys_differ();
        let members = Self::writing(value)->Object_0;
        lemma_field_at(members, "_version"@, 0);
        Version::round_trip(value.version, revision);
        lemma_field_at(members, "_BPMChanges"@, 1);
        Vec::<BPMChange>::round_trip(value.bpm_changes, revision);
        lemma_field_at(members, "_events"@, 2);
        Vec::<Event>::round_trip(value.events, revision);
        lemma_field_at(members, "_notes"@, 3);
        Vec::<Note>::round_trip(value.notes, revision);
        lemma_field_at(members, "_obstacles"@, 4);
        Vec::<Obstacle>::round_trip(value.obstacles, revision);
        lemma_field_at(members, "_bookmarks"@, 5);
        Vec::<Bookmark>::round_trip(value.bookmarks, revision);
    }

    proof fn read_fits(tree: JsonView, revision: Revision) {
        if tree.field("_version"@) is Some {
            Version::read_fits(tree.field("_version"@)->Some_0, revision);
        }
        if tree.field("_events"@) is Some {
            Vec::<Event>::read_fits(tree.field("_events"@)->Some_0, revision);
        }
    }
}

impl Difficulty {
    /// The names of the members are pairwise different.
    pub proof fn keys_differ()
        ensures
            "_version"@ != "_BPMChanges"@,
            "_version"@ != "_events"@,
            "_BPMChanges"@ != "_events"@,
            "_version"@ != "_notes"@,
            "_BPMChanges"@ != "_notes"@,
            "_events"@ != "_notes"@,
            "_version"@ != "_obstacles"@,
            "_BPMChanges"@ != "_obstacles"@,
            "_events"@ != "_obstacles"@,
            "_notes"@ != "_obstacles"@,
            "_version"@ != "_bookmarks"@,
            "_BPMChanges"@ != "_bookmarks"@,
            "_events"@ != "_bookmarks"@,
            "_notes"@ != "_bookmarks"@,
            "_obstacles"@ != "_bookmarks"@,
    {
        reveal_strlit("_version");
        reveal_strlit("_BPMChanges");
        reveal_strlit("_events");
        reveal_strlit("_notes");
        reveal_strlit("_obstacles");
        reveal_strlit("_bookmarks");
        assert("_version"@.len() == 8);
        assert("_BPMChanges"@.len() == 11);
        assert("_events"@.len() == 7);
        assert("_notes"@.len() == 6);
        assert("_obstacles"@.len() == 10);
        assert("_bookmarks"@.len() == 10);
        lemma_differ_at("_obstacles"@, "_bookmarks"@, 1);
    }
}
impl DifficultyView {
    /// The document declares a known layout and holds only what that layout allows.
    pub open spec fn wf(self) -> bool {
        revision_of(self.version.major) matches Some(revision) && Difficulty::fits(self, revision)
    }

    /// The document that a tree stands for. The version is read first and selects the
    /// layout; a tree that does not follow the layout has a field error.
    pub open spec fn of_tree(tree: JsonView) -> Result<DifficultyView, DecodeError> {
        match heading(tree) {
            Ok((_, revision)) => match Difficulty::reading(tree, revision) {
                Some(document) => Ok(document),
                None => Err(DecodeError::Field),
            },
            Err(e) => Err(e),
        }
    }

    /// The document that a text stands for.
    pub open spec fn of_text(text: Seq<u8>) -> Result<DifficultyView, DecodeError> {
        match parsed_json(text) {
            Some(tree) => DifficultyView::of_tree(tree),
            None => Err(DecodeError::Syntax),
        }
    }

    /// The tree that stands for the document.
    pub open spec fn to_tree(self) -> JsonView {
        Difficulty::writing(self)
    }
}

impl Difficulty {
    /// Reads a difficulty document from its tree.
    pub fn from_tree(tree: &Json) -> (r: Result<Difficulty, DecodeError>)
        ensures
            r matches Ok(d) ==> DifficultyView::of_tree(tree@) == Ok::<DifficultyView, DecodeError>(
                d.deep_view(),
            ),
            r matches Err(e) ==> DifficultyView::of_tree(tree@) == Err::<DifficultyView, DecodeError>(
                e,
            ),
    {
        let revision = match read_heading(tree) {
            Ok(h) => h.1,
            Err(e) => return Err(e),
        };
        match Difficulty::read(tree, revision) {
            Some(document) => Ok(document),
            None => Err(DecodeError::Field),
        }
    }

    /// Reads a difficulty document from its JSON text.
    pub fn from_text(text: &[u8]) -> (r: Result<Difficulty, DecodeError>)
        ensures
            r matches Ok(d) ==> DifficultyView::of_text(text@) == Ok::<DifficultyView, DecodeError>(
                d.deep_view(),
            ),
            r matches Err(e) ==> DifficultyView::of_text(text@) == Err::<DifficultyView, DecodeError>(
                e,
            ),
    {
        match Json::parse(text) {
            Some(tree) => Difficulty::from_tree(&tree),
            None => Err(DecodeError::Syntax),
        }
    }

    /// Writes the document as a tree.
    pub fn to_tree(&self) -> (tree: Json)
        ensures
            tree@ == self.deep_view().to_tree(),
    {
        self.write()
    }
}

/// Reading the tree that was written for a well-formed difficulty document gives the
/// document back.
pub proof fn lemma_difficulty_round_trip(document: DifficultyView)
    requires
        document.wf(),
    ensures
        DifficultyView::of_tree(document.to_tree()) == Ok::<DifficultyView, DecodeError>(document),
{
    let revision = revision_of(document.version.major)->Some_0;
    let tree = document.to_tree();
    Difficulty::round_trip(document, revision);
    Difficulty::keys_differ();
    lemma_field_at(tree->Object_0, "_version"@, 0);
}

/// What is read from a tree is a well-formed difficulty document.
pub proof fn lemma_difficulty_read_wf(tree: JsonView)
    ensures
        DifficultyView::of_tree(tree) matches Ok(document) ==> document.wf(),
{
    match heading(tree) {
        Ok((version, revision)) => {
            Difficulty::read_fits(tree, revision);
        },
        Err(_) => {},
    }
}

} // verus!
