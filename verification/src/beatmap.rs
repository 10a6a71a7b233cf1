use vstd::prelude::*;
use crate::json::{text_eq, Json, JsonView, Member, Number, NumberView};
use crate::json::{lemma_differ_at, lemma_field_at, lemma_view_parts, member_views};
use crate::schema::{at, member, optional_at, read_at, read_optional_at, write_optional};
use crate::schema::{writing_optional, Record};
use crate::version::Revision;

verus! {

/// The way of playing that a set of difficulties is made for.
#[derive(Clone, Copy, PartialEq, Eq, Hash, Structural, Debug)]
pub enum BeatmapCharacteristic {
    Standard,
    NoArrows,
    OneSaber,
    Lawless,
    Lightshow,
}

impl DeepView for BeatmapCharacteristic {
    type V = BeatmapCharacteristic;

    open spec fn deep_view(&self) -> BeatmapCharacteristic {
        *self
    }
}

impl BeatmapCharacteristic {
    /// The name that documents write.
    pub open spec fn name(self) -> Seq<char> {
        match self {
            BeatmapCharacteristic::Standard => "Standard"@,
            BeatmapCharacteristic::NoArrows => "NoArrows"@,
            BeatmapCharacteristic::OneSaber => "OneSaber"@,
            BeatmapCharacteristic::Lawless => "Lawless"@,
            BeatmapCharacteristic::Lightshow => "Lightshow"@,
        }
    }

    /// The value that a name stands for: no other text stands for one.
    pub open spec fn of_name(text: Seq<char>) -> Option<BeatmapCharacteristic> {
        if text == "Standard"@ {
            Some(BeatmapCharacteristic::Standard)
        } else if text == "NoArrows"@ {
            Some(BeatmapCharacteristic::NoArrows)
        } else if text == "OneSaber"@ {
            Some(BeatmapCharacteristic::OneSaber)
        } else if text == "Lawless"@ {
            Some(BeatmapCharacteristic::Lawless)
        } else if text == "Lightshow"@ {
            Some(BeatmapCharacteristic::Lightshow)
        } else {
            None
        }
    }

    /// The names are pairwise different.
    pub proof fn names_differ()
        ensures
            "Standard"@ != "NoArrows"@,
            "Standard"@ != "OneSaber"@,
            "NoArrows"@ != "OneSaber"@,
            "Standard"@ != "Lawless"@,
            "NoArrows"@ != "Lawless"@,
            "OneSaber"@ != "Lawless"@,
            "Standard"@ != "Lightshow"@,
            "NoArrows"@ != "Lightshow"@,
            "OneSaber"@ != "Lightshow"@,
            "Lawless"@ != "Lightshow"@,
    {
        reveal_strlit("Standard");
        reveal_strlit("NoArrows");
        reveal_strlit("OneSaber");
        reveal_strlit("Lawless");
        reveal_strlit("Lightshow");
        assert("Standard"@.len() == 8);
        assert("NoArrows"@.len() == 8);
        assert("OneSaber"@.len() == 8);
        assert("Lawless"@.len() == 7);
        assert("Lightshow"@.len() == 9);
        lemma_differ_at("Standard"@, "NoArrows"@, 0);
        lemma_differ_at("Standard"@, "OneSaber"@, 0);
        lemma_differ_at("NoArrows"@, "OneSaber"@, 0);
    }
}

impl Record for BeatmapCharacteristic {
    open spec fn reading(tree: JsonView, revision: Revision) -> Option<BeatmapCharacteristic> {
        match tree.as_text() {
            Some(t) => BeatmapCharacteristic::of_name(t),
            None => None,
        }
    }

    open spec fn writing(value: BeatmapCharacteristic) -> JsonView {
        JsonView::Text(value.name())
    }

    open spec fn fits(value: BeatmapCharacteristic, revision: Revision) -> bool {
        true
    }

    fn read(tree: &Json, revision: Revision) -> (r: Option<BeatmapCharacteristic>) {
        let text = match tree.as_text() {
            Some(t) => t.as_str(),
            None => return None,
        };
        if text_eq(text, "Standard") {
            Some(BeatmapCharacteristic::Standard)
        } else if text_eq(text, "NoArrows") {
            Some(BeatmapCharacteristic::NoArrows)
        } else if text_eq(text, "OneSaber") {
            Some(BeatmapCharacteristic::OneSaber)
        } else if text_eq(text, "Lawless") {
            Some(BeatmapCharacteristic::Lawless)
        } else if text_eq(text, "Lightshow") {
            Some(BeatmapCharacteristic::Lightshow)
        } else {
            None
        }
    }

    fn write(&self) -> (tree: Json) {
        let name = match self {
            BeatmapCharacteristic::Standard => "Standard",
            BeatmapCharacteristic::NoArrows => "NoArrows",
            BeatmapCharacteristic::OneSaber => "OneSaber",
            BeatmapCharacteristic::Lawless => "Lawless",
            BeatmapCharacteristic::Lightshow => "Lightshow",
        };
        Json::Text(name.to_owned())
    }

    proof fn round_trip(value: BeatmapCharacteristic, revision: Revision) {
        Self::names_differ();
    }

    proof fn read_fits(tree: JsonView, revision: Revision) {
    }
}
/// The name of a difficulty.
#[derive(Clone, Copy, PartialEq, Eq, Structural, Debug)]
pub enum Difficulty {
    Easy,
    Normal,
    Hard,
    Expert,
    ExpertPlus,
}

impl DeepView for Difficulty {
    type V = Difficulty;

    open spec fn deep_view(&self) -> Difficulty {
        *self
    }
}

impl Difficulty {
    /// The name that documents write.
    pub open spec fn name(self) -> Seq<char> {
        match self {
            Difficulty::Easy => "Easy"@,
            Difficulty::Normal => "Normal"@,
            Difficulty::Hard => "Hard"@,
            Difficulty::Expert => "Expert"@,
            Difficulty::ExpertPlus => "ExpertPlus"@,
        }
    }

    /// The value that a name stands for: no other text stands for one.
    pub open spec fn of_name(text: Seq<char>) -> Option<Difficulty> {
        if text == "Easy"@ {
            Some(Difficulty::Easy)
        } else if text == "Normal"@ {
            Some(Difficulty::Normal)
        } else if text == "Hard"@ {
            Some(Difficulty::Hard)
        } else if text == "Expert"@ {
            Some(Difficulty::Expert)
        } else if text == "ExpertPlus"@ {
            Some(Difficulty::ExpertPlus)
        } else {
            None
        }
    }

    /// The names are pairwise different.
    pub proof fn names_differ()
        ensures
            "Easy"@ != "Normal"@,
            "Easy"@ != "Hard"@,
            "Normal"@ != "Hard"@,
            "Easy"@ != "Expert"@,
            "Normal"@ != "Expert"@,
            "Hard"@ != "Expert"@,
            "Easy"@ != "ExpertPlus"@,
            "Normal"@ != "ExpertPlus"@,
            "Hard"@ != "ExpertPlus"@,
            "Expert"@ != "ExpertPlus"@,
    {
        reveal_strlit("Easy");
        reveal_strlit("Normal");
        reveal_strlit("Hard");
        reveal_strlit("Expert");
        reveal_strlit("ExpertPlus");
        assert("Easy"@.len() == 4);
        assert("Normal"@.len() == 6);
        assert("Hard"@.len() == 4);
        assert("Expert"@.len() == 6);
        assert("ExpertPlus"@.len() == 10);
        lemma_differ_at("Easy"@, "Hard"@, 0);
        lemma_differ_at("Normal"@, "Expert"@, 0);
    }
}

impl Record for Difficulty {
    open spec fn reading(tree: JsonView, revision: Revision) -> Option<Difficulty> {
        match tree.as_text() {
            Some(t) => Difficulty::of_name(t),
            None => None,
        }
    }

    open spec fn writing(value: Difficulty) -> JsonView {
        JsonView::Text(value.name())
    }

    open spec fn fits(value: Difficulty, revision: Revision) -> bool {
        true
    }

    fn read(tree: &Json, revision: Revision) -> (r: Option<Difficulty>) {
        let text = match tree.as_text() {
            Some(t) => t.as_str(),
            None => return None,
        };
        if text_eq(text, "Easy") {
            Some(Difficulty::Easy)
        } else if text_eq(text, "Normal") {
            Some(Difficulty::Normal)
        } else if text_eq(text, "Hard") {
            Some(Difficulty::Hard)
        } else if text_eq(text, "Expert") {
            Some(Difficulty::Expert)
        } else if text_eq(text, "ExpertPlus") {
            Some(Difficulty::ExpertPlus)
        } else {
            None
        }
    }

    fn write(&self) -> (tree: Json) {
        let name = match self {
            Difficulty::Easy => "Easy",
            Difficulty::Normal => "Normal",
            Difficulty::Hard => "Hard",
            Difficulty::Expert => "Expert",
            Difficulty::ExpertPlus => "ExpertPlus",
        };
        Json::Text(name.to_owned())
    }

    proof fn round_trip(value: Difficulty, revision: Revision) {
        Self::names_differ();
    }

    proof fn read_fits(tree: JsonView, revision: Revision) {
    }
}
/// The five ranks of the second layout.
#[derive(Clone, Copy, PartialEq, Eq, PartialOrd, Ord, Hash, Structural, Debug)]
pub enum DifficultyRank {
    Easy,
    Normal,
    Hard,
    Expert,
    ExpertPlus,
}

impl DeepView for DifficultyRank {
    type V = DifficultyRank;

    open spec fn deep_view(&self) -> DifficultyRank {
        *self
    }
}

impl DifficultyRank {
    /// The number that documents write for the rank.
    pub open spec fn code(self) -> u8 {
        match self {
            DifficultyRank::Easy => 1,
            DifficultyRank::Normal => 3,
            DifficultyRank::Hard => 5,
            DifficultyRank::Expert => 7,
            DifficultyRank::ExpertPlus => 9,
        }
    }

    /// The rank that a number stands for: only 1, 3, 5, 7 and 9 stand for one.
    pub open spec fn of_code(code: u64) -> Option<DifficultyRank> {
        if code == 1 {
            Some(DifficultyRank::Easy)
        } else if code == 3 {
            Some(DifficultyRank::Normal)
        } else if code == 5 {
            Some(DifficultyRank::Hard)
        } else if code == 7 {
            Some(DifficultyRank::Expert)
        } else if code == 9 {
            Some(DifficultyRank::ExpertPlus)
        } else {
            None
        }
    }
}

impl Record for DifficultyRank {
    open spec fn reading(tree: JsonView, revision: Revision) -> Option<DifficultyRank> {
        match tree.as_unsigned() {
            Some(u) => DifficultyRank::of_code(u),
            None => None,
        }
    }

    open spec fn writing(value: DifficultyRank) -> JsonView {
        JsonView::Number(NumberView::Unsigned(value.code() as u64))
    }

    open spec fn fits(value: DifficultyRank, revision: Revision) -> bool {
        true
    }

    fn read(tree: &Json, revision: Revision) -> (r: Option<DifficultyRank>) {
        match tree.as_unsigned() {
            Some(1) => Some(DifficultyRank::Easy),
            Some(3) => Some(DifficultyRank::Normal),
            Some(5) => Some(DifficultyRank::Hard),
            Some(7) => Some(DifficultyRank::Expert),
            Some(9) => Some(DifficultyRank::ExpertPlus),
            _ => None,
        }
    }

    fn write(&self) -> (tree: Json) {
        let code: u64 = match self {
            DifficultyRank::Easy => 1,
            DifficultyRank::Normal => 3,
            DifficultyRank::Hard => 5,
            DifficultyRank::Expert => 7,
            DifficultyRank::ExpertPlus => 9,
        };
        Json::Number(Number::Unsigned(code))
    }

    proof fn round_trip(value: DifficultyRank, revision: Revision) {
    }

    proof fn read_fits(tree: JsonView, revision: Revision) {
    }
}
/// The rank of a difficulty within its characteristic, as the document's layout has it:
/// a free number in the first layout, one of five fixed ranks in the second.
#[derive(Clone, Copy, PartialEq, Eq, Hash, Structural, Debug)]
pub enum Rank {
    Free(u32),
    Fixed(DifficultyRank),
}

impl DeepView for Rank {
    type V = Rank;

    open spec fn deep_view(&self) -> Rank {
        *self
    }
}

impl Rank {
    /// The number that documents write for the rank.
    pub open spec fn number(self) -> u32 {
        match self {
            Rank::Free(n) => n,
            Rank::Fixed(r) => r.code() as u32,
        }
    }

    /// The number that documents write for the rank.
    pub fn to_number(&self) -> (n: u32)
        ensures
            n == self.number(),
    {
        match self {
            Rank::Free(n) => *n,
            Rank::Fixed(DifficultyRank::Easy) => 1,
            Rank::Fixed(DifficultyRank::Normal) => 3,
            Rank::Fixed(DifficultyRank::Hard) => 5,
            Rank::Fixed(DifficultyRank::Expert) => 7,
            Rank::Fixed(DifficultyRank::ExpertPlus) => 9,
        }
    }
}

impl Record for Rank {
    open spec fn reading(tree: JsonView, revision: Revision) -> Option<Rank> {
        match revision {
            Revision::First => match u32::reading(tree, revision) {
                Some(n) => Some(Rank::Free(n)),
                None => None,
            },
            Revision::Second => match DifficultyRank::reading(tree, revision) {
                Some(r) => Some(Rank::Fixed(r)),
                None => None,
            },
        }
    }

    open spec fn writing(value: Rank) -> JsonView {
        match value {
            Rank::Free(n) => u32::writing(n),
            Rank::Fixed(r) => DifficultyRank::writing(r),
        }
    }

    open spec fn fits(value: Rank, revision: Revision) -> bool {
        match revision {
            Revision::First => value is Free,
            Revision::Second => value is Fixed,
        }
    }

    fn read(tree: &Json, revision: Revision) -> (r: Option<Rank>) {
        match revision {
            Revision::First => match u32::read(tree, revision) {
                Some(n) => Some(Rank::Free(n)),
                None => None,
            },
            Revision::Second => match DifficultyRank::read(tree, revision) {
                Some(r) => Some(Rank::Fixed(r)),
                None => None,
            },
        }
    }

    fn write(&self) -> (tree: Json) {
        match self {
            Rank::Free(n) => n.write(),
            Rank::Fixed(r) => r.write(),
        }
    }

    proof fn round_trip(value: Rank, revision: Revision) {
    }

    proof fn read_fits(tree: JsonView, revision: Revision) {
    }
}

/// A colour, each part between 0 and 1.
#[derive(Clone, Debug, PartialEq)]
pub struct Color {
    /// Amount of red.
    pub r: Number,
    /// Amount of green.
    pub g: Number,
    /// Amount of blue.
    pub b: Number,
}

/// `Color` as contracts speak of it.
pub struct ColorView {
    pub r: NumberView,
    pub g: NumberView,
    pub b: NumberView,
}

impl DeepView for Color {
    type V = ColorView;

    open spec fn deep_view(&self) -> ColorView {
        ColorView {
            r: self.r.deep_view(),
            g: self.g.deep_view(),
            b: self.b.deep_view(),
        }
    }
}

impl Record for Color {
    open spec fn reading(tree: JsonView, revision: Revision) -> Option<ColorView> {
        if {
            &&& at::<Number>(tree, "r"@, revision) is Some
            &&& at::<Number>(tree, "g"@, revision) is Some
            &&& at::<Number>(tree, "b"@, revision) is Some
        } {
            Some(
                ColorView {
                    r: at::<Number>(tree, "r"@, revision)->Some_0,
                    g: at::<Number>(tree, "g"@, revision)->Some_0,
                    b: at::<Number>(tree, "b"@, revision)->Some_0,
                },
            )
        } else {
            None
        }
    }

    open spec fn writing(value: ColorView) -> JsonView {
        JsonView::Object(
            seq![
                ("r"@, Number::writing(value.r)),
                ("g"@, Number::writing(value.g)),
                ("b"@, Number::writing(value.b)),
            ],
        )
    }

    open spec fn fits(value: ColorView, revision: Revision) -> bool {
        true
    }

    fn read(tree: &Json, revision: Revision) -> (r: Option<Color>) {
        let r = match read_at::<Number>(tree, "r", revision) {
            Some(v) => v,
            None => return None,
        };
        let g = match read_at::<Number>(tree, "g", revision) {
            Some(v) => v,
            None => return None,
        };
        let b = match read_at::<Number>(tree, "b", revision) {
            Some(v) => v,
            None => return None,
        };
        Some(Color { r, g, b })
    }

    fn write(&self) -> (tree: Json) {
        let mut members: Vec<Member> = Vec::new();
        members.push(member("r", self.r.write()));
        members.push(member("g", self.g.write()));
        members.push(member("b", self.b.write()));
        let tree = Json::Object(members);
        proof {
            lemma_view_parts(tree);
            assert(member_views(members@) =~= Self::writing(self.deep_view())->Object_0);
        }
        tree
    }

    proof fn round_trip(value: ColorView, revision: Revision) {
        Self::keys_differ();
        let members = Self::writing(value)->Object_0;
        lemma_field_at(members, "r"@, 0);
        Number::round_trip(value.r, revision);
        lemma_field_at(members, "g"@, 1);
        Number::round_trip(value.g, revision);
        lemma_field_at(members, "b"@, 2);
        Number::round_trip(value.b, revision);
    }

    proof fn read_fits(tree: JsonView, revision: Revision) {
    }
}

impl Color {
    /// The names of the members are pairwise different.
    pub proof fn keys_differ()
        ensures
            "r"@ != "g"@,
            "r"@ != "b"@,
            "g"@ != "b"@,
    {
        reveal_strlit("r");
        reveal_strlit("g");
        reveal_strlit("b");
        assert("r"@.len() == 1);
        assert("g"@.len() == 1);
        assert("b"@.len() == 1);
        lemma_differ_at("r"@, "g"@, 0);
        lemma_differ_at("r"@, "b"@, 0);
        lemma_differ_at("g"@, "b"@, 0);
    }
}
/// What mods read of one difficulty of one characteristic.
#[derive(Clone, Debug, PartialEq)]
pub struct CustomData {
    /// The name to display for the difficulty.
    pub difficulty_label: String,
    pub editor_offset: i32,
    pub editor_old_offset: i32,
    /// Colour of the left side, where it is overridden.
    pub color_left: Option<Color>,
    /// Colour of the right side, where it is overridden.
    pub color_right: Option<Color>,
    /// What the player should be warned of.
    pub warning: Vec<String>,
    /// What the player should know.
    pub information: Vec<String>,
    /// Mods that the player is advised to use.
    pub suggestions: Vec<String>,
    /// Mods that the player must use.
    pub requirements: Vec<String>,
}

/// `CustomData` as contracts speak of it.
pub struct CustomDataView {
    pub difficulty_label: Seq<char>,
    pub editor_offset: i32,
    pub editor_old_offset: i32,
    pub color_left: Option<ColorView>,
    pub color_right: Option<ColorView>,
    pub warning: Seq<Seq<char>>,
    pub information: Seq<Seq<char>>,
    pub suggestions: Seq<Seq<char>>,
    pub requirements: Seq<Seq<char>>,
}

impl DeepView for CustomData {
    type V = CustomDataView;

    open spec fn deep_view(&self) -> CustomDataView {
        CustomDataView {
            difficulty_label: self.difficulty_label.deep_view(),
            editor_offset: self.editor_offset.deep_view(),
            editor_old_offset: self.editor_old_offset.deep_view(),
            color_left: self.color_left.deep_view(),
            color_right: self.color_right.deep_view(),
            warning: self.warning.deep_view(),
            information: self.information.deep_view(),
            suggestions: self.suggestions.deep_view(),
            requirements: self.requirements.deep_view(),
        }
    }
}

impl Record for CustomData {
    open spec fn reading(tree: JsonView, revision: Revision) -> Option<CustomDataView> {
        if {
            &&& at::<String>(tree, "_difficultyLabel"@, revision) is Some
            &&& at::<i32>(tree, "_editorOffset"@, revision) is Some
            &&& at::<i32>(tree, "_editorOldOffset"@, revision) is Some
            &&& optional_at::<Color>(tree, "_colorLeft"@, revision) is Some
            &&& optional_at::<Color>(tree, "_colorRight"@, revision) is Some
            &&& at::<Vec<String>>(tree, "_warnings"@, revision) is Some
            &&& at::<Vec<String>>(tree, "_information"@, revision) is Some
            &&& at::<Vec<String>>(tree, "_suggestions"@, revision) is Some
            &&& at::<Vec<String>>(tree, "_requirements"@, revision) is Some
        } {
            Some(
                CustomDataView {
                    difficulty_label: at::<String>(tree, "_difficultyLabel"@, revision)->Some_0,
                    editor_offset: at::<i32>(tree, "_editorOffset"@, revision)->Some_0,
                    editor_old_offset: at::<i32>(tree, "_editorOldOffset"@, revision)->Some_0,
                    color_left: optional_at::<Color>(tree, "_colorLeft"@, revision)->Some_0,
                    color_right: optional_at::<Color>(tree, "_colorRight"@, revision)->Some_0,
                    warning: at::<Vec<String>>(tree, "_warnings"@, revision)->Some_0,
                    information: at::<Vec<String>>(tree, "_information"@, revision)->Some_0,
                    suggestions: at::<Vec<String>>(tree, "_suggestions"@, revision)->Some_0,
                    requirements: at::<Vec<String>>(tree, "_requirements"@, revision)->Some_0,
                },
            )
        } else {
            None
        }
    }

    open spec fn writing(value: CustomDataView) -> JsonView {
        JsonView::Object(
            seq![
                ("_difficultyLabel"@, String::writing(value.difficulty_label)),
                ("_editorOffset"@, i32::writing(value.editor_offset)),
                ("_editorOldOffset"@, i32::writing(value.editor_old_offset)),
                ("_colorLeft"@, writing_optional::<Color>(value.color_left)),
                ("_colorRight"@, writing_optional::<Color>(value.color_right)),
                ("_warnings"@, Vec::<String>::writing(value.warning)),
                ("_information"@, Vec::<String>::writing(value.information)),
                ("_suggestions"@, Vec::<String>::writing(value.suggestions)),
                ("_requirements"@, Vec::<String>::writing(value.requirements)),
            ],
        )
    }

    open spec fn fits(value: CustomDataView, revision: Revision) -> bool {
        true
    }

    fn read(tree: &Json, revision: Revision) -> (r: Option<CustomData>) {
        let difficulty_label = match read_at::<String>(tree, "_difficultyLabel", revision) {
            Some(v) => v,
            None => return None,
        };
        let editor_offset = match read_at::<i32>(tree, "_editorOffset", revision) {
            Some(v) => v,
            None => return None,
        };
        let editor_old_offset = match read_at::<i32>(tree, "_editorOldOffset", revision) {
            Some(v) => v,
            None => return None,
        };
        let color_left = match read_optional_at::<Color>(tree, "_colorLeft", revision) {
            Some(v) => v,
            None => return None,
        };
        let color_right = match read_optional_at::<Color>(tree, "_colorRight", revision) {
            Some(v) => v,
            None => return None,
        };
        let warning = match read_at::<Vec<String>>(tree, "_warnings", revision) {
            Some(v) => v,
            None => return None,
        };
        let information = match read_at::<Vec<String>>(tree, "_information", revision) {
            Some(v) => v,
            None => return None,
        };
        let suggestions = match read_at::<Vec<String>>(tree, "_suggestions", revision) {
            Some(v) => v,
            None => return None,
        };
        let requirements = match read_at::<Vec<String>>(tree, "_requirements", revision) {
            Some(v) => v,
            None => return None,
        };
        Some(
            CustomData {
                difficulty_label,
                editor_offset,
                editor_old_offset,
                color_left,
                color_right,
                warning,
                information,
                suggestions,
                requirements,
            },
        )
    }

    fn write(&self) -> (tree: Json) {
        let mut members: Vec<Member> = Vec::new();
        members.push(member("_difficultyLabel", self.difficulty_label.write()));
        members.push(member("_editorOffset", self.editor_offset.write()));
        members.push(member("_editorOldOffset", self.editor_old_offset.write()));
        members.push(member("_colorLeft", write_optional::<Color>(&self.color_left)));
        members.push(member("_colorRight", write_optional::<Color>(&self.color_right)));
        members.push(member("_warnings", self.warning.write()));
        members.push(member("_information", self.information.write()));
        members.push(member("_suggestions", self.suggestions.write()));
        members.push(member("_requirements", self.requirements.write()));
        let tree = Json::Object(members);
        proof {
            lemma_view_parts(tree);
            assert(member_views(members@) =~= Self::writing(self.deep_view())->Object_0);
        }
        tree
    }

    proof fn round_trip(value: CustomDataView, revision: Revision) {
        Self::keys_differ();
        let members = Self::writing(value)->Object_0;
        lemma_field_at(members, "_difficultyLabel"@, 0);
        String::round_trip(value.difficulty_label, revision);
        lemma_field_at(members, "_editorOffset"@, 1);
        i32::round_trip(value.editor_offset, revision);
        lemma_field_at(members, "_editorOldOffset"@, 2);
        i32::round_trip(value.editor_old_offset, revision);
        lemma_field_at(members, "_colorLeft"@, 3);
        if value.color_left is Some {
            Color::round_trip(value.color_left->Some_0, revision);
        }
        lemma_field_at(members, "_colorRight"@, 4);
        if value.color_right is Some {
            Color::round_trip(value.color_right->Some_0, revision);
        }
        lemma_field_at(members, "_warnings"@, 5);
        Vec::<String>::round_trip(value.warning, revision);
        lemma_field_at(members, "_information"@, 6);
        Vec::<String>::round_trip(value.information, revision);
        lemma_field_at(members, "_suggestions"@, 7);
        Vec::<String>::round_trip(value.suggestions, revision);
        lemma_field_at(members, "_requirements"@, 8);
        Vec::<String>::round_trip(value.requirements, revision);
    }

    proof fn read_fits(tree: JsonView, revision: Revision) {
    }
}

impl CustomData {
    /// The names of the members are pairwise different.
    pub proof fn keys_differ()
        ensures
            "_difficultyLabel"@ != "_editorOffset"@,
            "_difficultyLabel"@ != "_editorOldOffset"@,
            "_editorOffset"@ != "_editorOldOffset"@,
            "_difficultyLabel"@ != "_colorLeft"@,
            "_editorOffset"@ != "_colorLeft"@,
            "_editorOldOffset"@ != "_colorLeft"@,
            "_difficultyLabel"@ != "_colorRight"@,
            "_editorOffset"@ != "_colorRight"@,
            "_editorOldOffset"@ != "_colorRight"@,
            "_colorLeft"@ != "_colorRight"@,
            "_difficultyLabel"@ != "_warnings"@,
            "_editorOffset"@ != "_warnings"@,
            "_editorOldOffset"@ != "_warnings"@,
            "_colorLeft"@ != "_warnings"@,
            "_colorRight"@ != "_warnings"@,
            "_difficultyLabel"@ != "_information"@,
            "_editorOffset"@ != "_information"@,
            "_editorOldOffset"@ != "_information"@,
            "_colorLeft"@ != "_information"@,
            "_colorRight"@ != "_information"@,
            "_warnings"@ != "_information"@,
            "_difficultyLabel"@ != "_suggestions"@,
            "_editorOffset"@ != "_suggestions"@,
            "_editorOldOffset"@ != "_suggestions"@,
            "_colorLeft"@ != "_suggestions"@,
            "_colorRight"@ != "_suggestions"@,
            "_warnings"@ != "_suggestions"@,
            "_information"@ != "_suggestions"@,
            "_difficultyLabel"@ != "_requirements"@,
            "_editorOffset"@ != "_requirements"@,
            "_editorOldOffset"@ != "_requirements"@,
            "_colorLeft"@ != "_requirements"@,
            "_colorRight"@ != "_requirements"@,
            "_warnings"@ != "_requirements"@,
            "_information"@ != "_requirements"@,
            "_suggestions"@ != "_requirements"@,
    {
        reveal_strlit("_difficultyLabel");
        reveal_strlit("_editorOffset");
        reveal_strlit("_editorOldOffset");
        reveal_strlit("_colorLeft");
        reveal_strlit("_colorRight");
        reveal_strlit("_warnings");
        reveal_strlit("_information");
        reveal_strlit("_suggestions");
        reveal_strlit("_requirements");
        assert("_difficultyLabel"@.len() == 16);
        assert("_editorOffset"@.len() == 13);
        assert("_editorOldOffset"@.len() == 16);
        assert("_colorLeft"@.len() == 10);
        assert("_colorRight"@.len() == 11);
        assert("_warnings"@.len() == 9);
        assert("_information"@.len() == 12);
        assert("_suggestions"@.len() == 12);
        assert("_requirements"@.len() == 13);
        lemma_differ_at("_difficultyLabel"@, "_editorOldOffset"@, 1);
        lemma_differ_at("_information"@, "_suggestions"@, 1);
        lemma_differ_at("_editorOffset"@, "_requirements"@, 1);
    }
}
/// One difficulty of a characteristic, and where its document is.
#[derive(Clone, Debug, PartialEq)]
pub struct DifficultyBeatmap {
    /// Name of the difficulty.
    pub difficulty: Difficulty,
    /// Rank of the difficulty; it should match the name.
    pub difficulty_rank: Rank,
    /// Name of the difficulty document.
    pub beatmap_filename: String,
    pub note_jump_movement_speed: Number,
    pub note_jump_start_beat_offset: Number,
    /// What mods read.
    pub custom_data: CustomData,
}

/// `DifficultyBeatmap` as contracts speak of it.
pub struct DifficultyBeatmapView {
    pub difficulty: Difficulty,
    pub difficulty_rank: Rank,
    pub beatmap_filename: Seq<char>,
    pub note_jump_movement_speed: NumberView,
    pub note_jump_start_beat_offset: NumberView,
    pub custom_data: CustomDataView,
}

impl DeepView for DifficultyBeatmap {
    type V = DifficultyBeatmapView;

    open spec fn deep_view(&self) -> DifficultyBeatmapView {
        DifficultyBeatmapView {
            difficulty: self.difficulty.deep_view(),
            difficulty_rank: self.difficulty_rank.deep_view(),
            beatmap_filename: self.beatmap_filename.deep_view(),
            note_jump_movement_speed: self.note_jump_movement_speed.deep_view(),
            note_jump_start_beat_offset: self.note_jump_start_beat_offset.deep_view(),
            custom_data: self.custom_data.deep_view(),
        }
    }
}

impl Record for DifficultyBeatmap {
    open spec fn reading(tree: JsonView, revision: Revision) -> Option<DifficultyBeatmapView> {
        if {
            &&& at::<Difficulty>(tree, "_difficulty"@, revision) is Some
            &&& at::<Rank>(tree, "_difficultyRank"@, revision) is Some
            &&& at::<String>(tree, "_beatmapFilename"@, revision) is Some
            &&& at::<Number>(tree, "_noteJumpMovementSpeed"@, revision) is Some
            &&& at::<Number>(tree, "_noteJumpStartBeatOffset"@, revision) is Some
            &&& at::<CustomData>(tree, "_customData"@, revision) is Some
        } {
            Some(
                DifficultyBeatmapView {
                    difficulty: at::<Difficulty>(tree, "_difficulty"@, revision)->Some_0,
                    difficulty_rank: at::<Rank>(tree, "_difficultyRank"@, revision)->Some_0,
                    beatmap_filename: at::<String>(tree, "_beatmapFilename"@, revision)->Some_0,
                    note_jump_movement_speed: at::<Number>(tree, "_noteJumpMovementSpeed"@, revision)->Some_0,
                    note_jump_start_beat_offset: at::<Number>(tree, "_noteJumpStartBeatOffset"@, revision)->Some_0,
                    custom_data: at::<CustomData>(tree, "_customData"@, revision)->Some_0,
                },
            )
        } else {
            None
        }
    }

    open spec fn writing(value: DifficultyBeatmapView) -> JsonView {
        JsonView::Object(
            seq![
                ("_difficulty"@, Difficulty::writing(value.difficulty)),
                ("_difficultyRank"@, Rank::writing(value.difficulty_rank)),
                ("_beatmapFilename"@, String::writing(value.beatmap_filename)),
                ("_noteJumpMovementSpeed"@, Number::writing(value.note_jump_movement_speed)),
                ("_noteJumpStartBeatOffset"@, Number::writing(value.note_jump_start_beat_offset)),
                ("_customData"@, CustomData::writing(value.custom_data)),
            ],
        )
    }

    open spec fn fits(value: DifficultyBeatmapView, revision: Revision) -> bool {
        &&& Rank::fits(value.difficulty_rank, revision)
    }

    fn read(tree: &Json, revision: Revision) -> (r: Option<DifficultyBeatmap>) {
        let difficulty = match read_at::<Difficulty>(tree, "_difficulty", revision) {
            Some(v) => v,
            None => return None,
        };
        let difficulty_rank = match read_at::<Rank>(tree, "_difficultyRank", revision) {
            Some(v) => v,
            None => return None,
        };
        let beatmap_filename = match read_at::<String>(tree, "_beatmapFilename", revision) {
            Some(v) => v,
            None => return None,
        };
        let note_jump_movement_speed = match read_at::<Number>(tree, "_noteJumpMovementSpeed", revision) {
            Some(v) => v,
            None => return None,
        };
        let note_jump_start_beat_offset = match read_at::<Number>(tree, "_noteJumpStartBeatOffset", revision) {
            Some(v) => v,
            None => return None,
        };
        let custom_data = match read_at::<CustomData>(tree, "_customData", revision) {
            Some(v) => v,
            None => return None,
        };
        Some(
            DifficultyBeatmap {
                difficulty,
                difficulty_rank,
                beatmap_filename,
                note_jump_movement_speed,
                note_jump_start_beat_offset,
                custom_data,
            },
        )
    }

    fn write(&self) -> (tree: Json) {
        let mut members: Vec<Member> = Vec::new();
        members.push(member("_difficulty", self.difficulty.write()));
        members.push(member("_difficultyRank", self.difficulty_rank.write()));
        members.push(member("_beatmapFilename", self.beatmap_filename.write()));
        members.push(member("_noteJumpMovementSpeed", self.note_jump_movement_speed.write()));
        members.push(member("_noteJumpStartBeatOffset", self.note_jump_start_beat_offset.write()));
        members.push(member("_customData", self.custom_data.write()));
        let tree = Json::Object(members);
        proof {
            lemma_view_parts(tree);
            assert(member_views(members@) =~= Self::writing(self.deep_view())->Object_0);
        }
        tree
    }

    proof fn round_trip(value: DifficultyBeatmapView, revision: Revision) {
        Self::keys_differ();
        let members = Self::writing(value)->Object_0;
        lemma_field_at(members, "_difficulty"@, 0);
        Difficulty::round_trip(value.difficulty, revision);
        lemma_field_at(members, "_difficultyRank"@, 1);
        Rank::round_trip(value.difficulty_rank, revision);
        lemma_field_at(members, "_beatmapFilename"@, 2);
        String::round_trip(value.beatmap_filename, revision);
        lemma_field_at(members, "_noteJumpMovementSpeed"@, 3);
        Number::round_trip(value.note_jump_movement_speed, revision);
        lemma_field_at(members, "_noteJumpStartBeatOffset"@, 4);
        Number::round_trip(value.note_jump_start_beat_offset, revision);
        lemma_field_at(members, "_customData"@, 5);
        CustomData::round_trip(value.custom_data, revision);
    }

    proof fn read_fits(tree: JsonView, revision: Revision) {
        if tree.field("_difficultyRank"@) is Some {
            Rank::read_fits(tree.field("_difficultyRank"@)->Some_0, revision);
        }
    }
}

impl DifficultyBeatmap {
    /// The names of the members are pairwise different.
    pub proof fn keys_differ()
        ensures
            "_difficulty"@ != "_difficultyRank"@,
            "_difficulty"@ != "_beatmapFilename"@,
            "_difficultyRank"@ != "_beatmapFilename"@,
            "_difficulty"@ != "_noteJumpMovementSpeed"@,
            "_difficultyRank"@ != "_noteJumpMovementSpeed"@,
            "_beatmapFilename"@ != "_noteJumpMovementSpeed"@,
            "_difficulty"@ != "_noteJumpStartBeatOffset"@,
            "_difficultyRank"@ != "_noteJumpStartBeatOffset"@,
            "_beatmapFilename"@ != "_noteJumpStartBeatOffset"@,
            "_noteJumpMovementSpeed"@ != "_noteJumpStartBeatOffset"@,
            "_difficulty"@ != "_customData"@,
            "_difficultyRank"@ != "_customData"@,
            "_beatmapFilename"@ != "_customData"@,
            "_noteJumpMovementSpeed"@ != "_customData"@,
            "_noteJumpStartBeatOffset"@ != "_customData"@,
    {
        reveal_strlit("_difficulty");
        reveal_strlit("_difficultyRank");
        reveal_strlit("_beatmapFilename");
        reveal_strlit("_noteJumpMovementSpeed");
        reveal_strlit("_noteJumpStartBeatOffset");
        reveal_strlit("_customData");
        assert("_difficulty"@.len() == 11);
        assert("_difficultyRank"@.len() == 15);
        assert("_beatmapFilename"@.len() == 16);
        assert("_noteJumpMovementSpeed"@.len() == 22);
        assert("_noteJumpStartBeatOffset"@.len() == 24);
        assert("_customData"@.len() == 11);
        lemma_differ_at("_difficulty"@, "_customData"@, 1);
    }
}
} // verus!
