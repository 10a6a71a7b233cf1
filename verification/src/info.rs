use vstd::prelude::*;
use crate::beatmap::{BeatmapCharacteristic, DifficultyBeatmap, DifficultyBeatmapView, Rank};
use crate::document::{heading, read_heading, DecodeError};
use crate::json::{text_eq, Json, JsonView, Member, Number, NumberView};
use crate::json::{lemma_differ_at, lemma_field_at, lemma_view_parts, member_views, parsed_json};
use crate::schema::{at, member, read_at, Record};
use crate::version::{revision_of, Revision, Version, VersionView};

verus! {

/// The surroundings in which a map is played.
#[derive(Clone, Copy, PartialEq, Eq, Structural, Debug)]
pub enum Environment {
    DefaultEnvironment,
    BigMirrorEnvironment,
    TriangleEnvironment,
    NiceEnvironment,
    KDAEnvironment,
    MonstercatEnvironment,
}

impl DeepView for Environment {
    type V = Environment;

    open spec fn deep_view(&self) -> Environment {
        *self
    }
}

impl Environment {
    /// The name that documents write.
    pub open spec fn name(self) -> Seq<char> {
        match self {
            Environment::DefaultEnvironment => "DefaultEnvironment"@,
            Environment::BigMirrorEnvironment => "BigMirrorEnvironment"@,
            Environment::TriangleEnvironment => "TriangleEnvironment"@,
            Environment::NiceEnvironment => "NiceEnvironment"@,
            Environment::KDAEnvironment => "KDAEnvironment"@,
            Environment::MonstercatEnvironment => "MonstercatEnvironment"@,
        }
    }

    /// The value that a name stands for: no other text stands for one.
    pub open spec fn of_name(text: Seq<char>) -> Option<Environment> {
        if text == "DefaultEnvironment"@ {
            Some(Environment::DefaultEnvironment)
        } else if text == "BigMirrorEnvironment"@ {
            Some(Environment::BigMirrorEnvironment)
        } else if text == "TriangleEnvironment"@ {
            Some(Environment::TriangleEnvironment)
        } else if text == "NiceEnvironment"@ {
            Some(Environment::NiceEnvironment)
        } else if text == "KDAEnvironment"@ {
            Some(Environment::KDAEnvironment)
        } else if text == "MonstercatEnvironment"@ {
            Some(Environment::MonstercatEnvironment)
        } else {
            None
        }
    }

    /// The names are pairwise different.
    pub proof fn names_differ()
        ensures
            "DefaultEnvironment"@ != "BigMirrorEnvironment"@,
            "DefaultEnvironment"@ != "TriangleEnvironment"@,
            "BigMirrorEnvironment"@ != "TriangleEnvironment"@,
            "DefaultEnvironment"@ != "NiceEnvironment"@,
            "BigMirrorEnvironment"@ != "NiceEnvironment"@,
            "TriangleEnvironment"@ != "NiceEnvironment"@,
            "DefaultEnvironment"@ != "KDAEnvironment"@,
            "BigMirrorEnvironment"@ != "KDAEnvironment"@,
            "TriangleEnvironment"@ != "KDAEnvironment"@,
            "NiceEnvironment"@ != "KDAEnvironment"@,
            "DefaultEnvironment"@ != "MonstercatEnvironment"@,
            "BigMirrorEnvironment"@ != "MonstercatEnvironment"@,
            "TriangleEnvironment"@ != "MonstercatEnvironment"@,
            "NiceEnvironment"@ != "MonstercatEnvironment"@,
            "KDAEnvironment"@ != "MonstercatEnvironment"@,
    {
        reveal_strlit("DefaultEnvironment");
        reveal_strlit("BigMirrorEnvironment");
        reveal_strlit("TriangleEnvironment");
        reveal_strlit("NiceEnvironment");
        reveal_strlit("KDAEnvironment");
        reveal_strlit("MonstercatEnvironment");
        assert("DefaultEnvironment"@.len() == 18);
        assert("BigMirrorEnvironment"@.len() == 20);
        assert("TriangleEnvironment"@.len() == 19);
        assert("NiceEnvironment"@.len() == 15);
        assert("KDAEnvironment"@.len() == 14);
        assert("MonstercatEnvironment"@.len() == 21);
    }
}

impl Record for Environment {
    open spec fn reading(tree: JsonView, revision: Revision) -> Option<Environment> {
        match tree.as_text() {
            Some(t) => Environment::of_name(t),
            None => None,
        }
    }

    open spec fn writing(value: Environment) -> JsonView {
        JsonView::Text(value.name())
    }

    open spec fn fits(value: Environment, revision: Revision) -> bool {
        true
    }

    fn read(tree: &Json, revision: Revision) -> (r: Option<Environment>) {
        let text = match tree.as_text() {
            Some(t) => t.as_str(),
            None => return None,
        };
        if text_eq(text, "DefaultEnvironment") {
            Some(Environment::DefaultEnvironment)
        } else if text_eq(text, "BigMirrorEnvironment") {
            Some(Environment::BigMirrorEnvironment)
        } else if text_eq(text, "TriangleEnvironment") {
            Some(Environment::TriangleEnvironment)
        } else if text_eq(text, "NiceEnvironment") {
            Some(Environment::NiceEnvironment)
        } else if text_eq(text, "KDAEnvironment") {
            Some(Environment::KDAEnvironment)
        } else if text_eq(text, "MonstercatEnvironment") {
            Some(Environment::MonstercatEnvironment)
        } else {
            None
        }
    }

    fn write(&self) -> (tree: Json) {
        let name = match self {
            Environment::DefaultEnvironment => "DefaultEnvironment",
            Environment::BigMirrorEnvironment => "BigMirrorEnvironment",
            Environment::TriangleEnvironment => "TriangleEnvironment",
            Environment::NiceEnvironment => "NiceEnvironment",
            Environment::KDAEnvironment => "KDAEnvironment",
            Environment::MonstercatEnvironment => "MonstercatEnvironment",
        };
        Json::Text(name.to_owned())
    }

    proof fn round_trip(value: Environment, revision: Revision) {
        Self::names_differ();
    }

    proof fn read_fits(tree: JsonView, revision: Revision) {
    }
}
/// Someone who worked on the map.
#[derive(Clone, Debug, PartialEq)]
pub struct Contributor {
    /// What the contributor did.
    pub role: String,
    pub name: String,
    /// Name of the file of the contributor's icon.
    pub icon_path: String,
}

/// `Contributor` as contracts speak of it.
pub struct ContributorView {
    pub role: Seq<char>,
    pub name: Seq<char>,
    pub icon_path: Seq<char>,
}

impl DeepView for Contributor {
    type V = ContributorView;

    open spec fn deep_view(&self) -> ContributorView {
        ContributorView {
            role: self.role.deep_view(),
            name: self.name.deep_view(),
            icon_path: self.icon_path.deep_view(),
        }
    }
}

impl Record for Contributor {
    open spec fn reading(tree: JsonView, revision: Revision) -> Option<ContributorView> {
        if {
            &&& at::<String>(tree, "_role"@, revision) is Some
            &&& at::<String>(tree, "_name"@, revision) is Some
            &&& at::<String>(tree, "_iconPath"@, revision) is Some
        } {
            Some(
                ContributorView {
                    role: at::<String>(tree, "_role"@, revision)->Some_0,
                    name: at::<String>(tree, "_name"@, revision)->Some_0,
                    icon_path: at::<String>(tree, "_iconPath"@, revision)->Some_0,
                },
            )
        } else {
            None
        }
    }

    open spec fn writing(value: ContributorView) -> JsonView {
        JsonView::Object(
            seq![
                ("_role"@, String::writing(value.role)),
                ("_name"@, String::writing(value.name)),
                ("_iconPath"@, String::writing(value.icon_path)),
            ],
        )
    }

    open spec fn fits(value: ContributorView, revision: Revision) -> bool {
        true
    }

    fn read(tree: &Json, revision: Revision) -> (r: Option<Contributor>) {
        let role = match read_at::<String>(tree, "_role", revision) {
            Some(v) => v,
            None => return None,
        };
        let name = match read_at::<String>(tree, "_name", revision) {
            Some(v) => v,
            None => return None,
        };
        let icon_path = match read_at::<String>(tree, "_iconPath", revision) {
            Some(v) => v,
            None => return None,
        };
        Some(Contributor { role, name, icon_path })
    }

    fn write(&self) -> (tree: Json) {
        let mut members: Vec<Member> = Vec::new();
        members.push(member("_role", self.role.write()));
        members.push(member("_name", self.name.write()));
        members.push(member("_iconPath", self.icon_path.write()));
        let tree = Json::Object(members);
        proof {
            lemma_view_parts(tree);
            assert(member_views(members@) =~= Self::writing(self.deep_view())->Object_0);
        }
        tree
    }

    proof fn round_trip(value: ContributorView, revision: Revision) {
        Self::keys_differ();
        let members = Self::writing(value)->Object_0;
        lemma_field_at(members, "_role"@, 0);
        String::round_trip(value.role, revision);
        lemma_field_at(members, "_name"@, 1);
        String::round_trip(value.name, revision);
        lemma_field_at(members, "_iconPath"@, 2);
        String::round_trip(value.icon_path, revision);
    }

    proof fn read_fits(tree: JsonView, revision: Revision) {
    }
}

impl Contributor {
    /// The names of the members are pairwise different.
    pub proof fn keys_differ()
        ensures
            "_role"@ != "_name"@,
            "_role"@ != "_iconPath"@,
            "_name"@ != "_iconPath"@,
    {
        reveal_strlit("_role");
        reveal_strlit("_name");
        reveal_strlit("_iconPath");
        assert("_role"@.len() == 5);
        assert("_name"@.len() == 5);
        assert("_iconPath"@.len() == 9);
        lemma_differ_at("_role"@, "_name"@, 1);
    }
}
/// What mods read of the whole map.
#[derive(Clone, Debug, PartialEq)]
pub struct CustomData {
    /// Those who worked on the map.
    pub contributors: Vec<Contributor>,
    /// A platform to use in place of the environment.
    pub custom_environment: String,
    /// The hash by which a missing platform is found.
    pub custom_environment_hash: String,
}

/// `CustomData` as contracts speak of it.
pub struct CustomDataView {
    pub contributors: Seq<ContributorView>,
    pub custom_environment: Seq<char>,
    pub custom_environment_hash: Seq<char>,
}

impl DeepView for CustomData {
    type V = CustomDataView;

    open spec fn deep_view(&self) -> CustomDataView {
        CustomDataView {
            contributors: self.contributors.deep_view(),
            custom_environment: self.custom_environment.deep_view(),
            custom_environment_hash: self.custom_environment_hash.deep_view(),
        }
    }
}

impl Record for CustomData {
    open spec fn reading(tree: JsonView, revision: Revision) -> Option<CustomDataView> {
        if {
            &&& at::<Vec<Contributor>>(tree, "_contributors"@, revision) is Some
            &&& at::<String>(tree, "_customEnvironment"@, revision) is Some
            &&& at::<String>(tree, "_customEnvironmentHash"@, revision) is Some
        } {
            Some(
                CustomDataView {
                    contributors: at::<Vec<Contributor>>(tree, "_contributors"@, revision)->Some_0,
                    custom_environment: at::<String>(tree, "_customEnvironment"@, revision)->Some_0,
                    custom_environment_hash: at::<String>(tree, "_customEnvironmentHash"@, revision)->Some_0,
                },
            )
        } else {
            None
        }
    }

    open spec fn writing(value: CustomDataView) -> JsonView {
        JsonView::Object(
            seq![
                ("_contributors"@, Vec::<Contributor>::writing(value.contributors)),
                ("_customEnvironment"@, String::writing(value.custom_environment)),
                ("_customEnvironmentHash"@, String::writing(value.custom_environment_hash)),
            ],
        )
    }

    open spec fn fits(value: CustomDataView, revision: Revision) -> bool {
        true
    }

    fn read(tree: &Json, revision: Revision) -> (r: Option<CustomData>) {
        let contributors = match read_at::<Vec<Contributor>>(tree, "_contributors", revision) {
            Some(v) => v,
            None => return None,
        };
        let custom_environment = match read_at::<String>(tree, "_customEnvironment", revision) {
            Some(v) => v,
            None => return None,
        };
        let custom_environment_hash = match read_at::<String>(tree, "_customEnvironmentHash", revision) {
            Some(v) => v,
            None => return None,
        };
        Some(CustomData { contributors, custom_environment, custom_environment_hash })
    }

    fn write(&self) -> (tree: Json) {
        let mut members: Vec<Member> = Vec::new();
        members.push(member("_contributors", self.contributors.write()));
        members.push(member("_customEnvironment", self.custom_environment.write()));
        members.push(member("_customEnvironmentHash", self.custom_environment_hash.write()));
        let tree = Json::Object(members);
        proof {
            lemma_view_parts(tree);
            assert(member_views(members@) =~= Self::writing(self.deep_view())->Object_0);
        }
        tree
    }

    proof fn round_trip(value: CustomDataView, revision: Revision) {
        Self::keys_differ();
        let members = Self::writing(value)->Object_0;
        lemma_field_at(members, "_contributors"@, 0);
        Vec::<Contributor>::round_trip(value.contributors, revision);
        lemma_field_at(members, "_customEnvironment"@, 1);
        String::round_trip(value.custom_environment, revision);
        lemma_field_at(members, "_customEnvironmentHash"@, 2);
        String::round_trip(value.custom_environment_hash, revision);
    }

    proof fn read_fits(tree: JsonView, revision: Revision) {
    }
}

impl CustomData {
    /// The names of the members are pairwise different.
    pub proof fn keys_differ()
        ensures
            "_contributors"@ != "_customEnvironment"@,
            "_contributors"@ != "_customEnvironmentHash"@,
            "_customEnvironment"@ != "_customEnvironmentHash"@,
    {
        reveal_strlit("_contributors");
        reveal_strlit("_customEnvironment");
        reveal_strlit("_customEnvironmentHash");
        assert("_contributors"@.len() == 13);
        assert("_customEnvironment"@.len() == 18);
        assert("_customEnvironmentHash"@.len() == 22);
    }
}
/// The difficulties of one characteristic.
#[derive(Clone, Debug, PartialEq)]
pub struct DifficultyBeatmapSet {
    pub beatmap_characteristic_name: BeatmapCharacteristic,
    pub difficulty_beatmaps: Vec<DifficultyBeatmap>,
}

/// `DifficultyBeatmapSet` as contracts speak of it.
pub struct DifficultyBeatmapSetView {
    pub beatmap_characteristic_name: BeatmapCharacteristic,
    pub difficulty_beatmaps: Seq<DifficultyBeatmapView>,
}

impl DeepView for DifficultyBeatmapSet {
    type V = DifficultyBeatmapSetView;

    open spec fn deep_view(&self) -> DifficultyBeatmapSetView {
        DifficultyBeatmapSetView {
            beatmap_characteristic_name: self.beatmap_characteristic_name.deep_view(),
            difficulty_beatmaps: self.difficulty_beatmaps.deep_view(),
        }
    }
}

impl Record for DifficultyBeatmapSet {
    open spec fn reading(tree: JsonView, revision: Revision) -> Option<DifficultyBeatmapSetView> {
        if {
            &&& at::<BeatmapCharacteristic>(tree, "_beatmapCharacteristicName"@, revision) is Some
            &&& at::<Vec<DifficultyBeatmap>>(tree, "_difficultyBeatmaps"@, revision) is Some
        } {
            Some(
                DifficultyBeatmapSetView {
                    beatmap_characteristic_name: at::<BeatmapCharacteristic>(tree, "_beatmapCharacteristicName"@, revision)->Some_0,
                    difficulty_beatmaps: at::<Vec<DifficultyBeatmap>>(tree, "_difficultyBeatmaps"@, revision)->Some_0,
                },
            )
        } else {
            None
        }
    }

    open spec fn writing(value: DifficultyBeatmapSetView) -> JsonView {
        JsonView::Object(
            seq![
                ("_beatmapCharacteristicName"@, BeatmapCharacteristic::writing(value.beatmap_characteristic_name)),
                ("_difficultyBeatmaps"@, Vec::<DifficultyBeatmap>::writing(value.difficulty_beatmaps)),
            ],
        )
    }

    open spec fn fits(value: DifficultyBeatmapSetView, revision: Revision) -> bool {
        &&& Vec::<DifficultyBeatmap>::fits(value.difficulty_beatmaps, revision)
    }

    fn read(tree: &Json, revision: Revision) -> (r: Option<DifficultyBeatmapSet>) {
        let beatmap_characteristic_name = match read_at::<BeatmapCharacteristic>(tree, "_beatmapCharacteristicName", revision) {
            Some(v) => v,
            None => return None,
        };
        let difficulty_beatmaps = match read_at::<Vec<DifficultyBeatmap>>(tree, "_difficultyBeatmaps", revision) {
            Some(v) => v,
            None => return None,
        };
        Some(DifficultyBeatmapSet { beatmap_characteristic_name, difficulty_beatmaps })
    }

    fn write(&self) -> (tree: Json) {
        let mut members: Vec<Member> = Vec::new();
        members.push(member("_beatmapCharacteristicName", self.beatmap_characteristic_name.write()));
        members.push(member("_difficultyBeatmaps", self.difficulty_beatmaps.write()));
        let tree = Json::Object(members);
        proof {
            lemma_view_parts(tree);
            assert(member_views(members@) =~= Self::writing(self.deep_view())->Object_0);
        }
        tree
    }

    proof fn round_trip(value: DifficultyBeatmapSetView, revision: Revision) {
        Self::keys_differ();
        let members = Self::writing(value)->Object_0;
        lemma_field_at(members, "_beatmapCharacteristicName"@, 0);
        BeatmapCharacteristic::round_trip(value.beatmap_characteristic_name, revision);
        lemma_field_at(members, "_difficultyBeatmaps"@, 1);
        Vec::<DifficultyBeatmap>::round_trip(value.difficulty_beatmaps, revision);
    }

    proof fn read_fits(tree: JsonView, revision: Revision) {
        if tree.field("_difficultyBeatmaps"@) is Some {
            Vec::<DifficultyBeatmap>::read_fits(tree.field("_difficultyBeatmaps"@)->Some_0, revision);
        }
    }
}

impl DifficultyBeatmapSet {
    /// The names of the members are pairwise different.
    pub proof fn keys_differ()
        ensures
            "_beatmapCharacteristicName"@ != "_difficultyBeatmaps"@,
    {
        reveal_strlit("_beatmapCharacteristicName");
        reveal_strlit("_difficultyBeatmaps");
        assert("_beatmapCharacteristicName"@.len() == 26);
        assert("_difficultyBeatmaps"@.len() == 19);
    }
}
/// The info document: what a map is, and which difficulties it has.
#[derive(Clone, Debug, PartialEq)]
pub struct Info {
    /// Format version.
    pub version: Version,
    pub song_name: String,
    /// Text shown in smaller letters beside the name.
    pub song_sub_name: String,
    pub song_author_name: String,
    /// Who made the map.
    pub level_author_name: String,
    pub beats_per_minute: Number,
    /// Offset of the audio, in seconds.
    pub song_time_offset: Number,
    pub shuffle: Number,
    pub shuffle_period: Number,
    /// Where the preview starts, in seconds.
    pub preview_start_time: Number,
    /// How long the preview is, in seconds.
    pub preview_duration: Number,
    /// Name of the audio file.
    pub song_filename: String,
    /// Name of the cover file.
    pub cover_image_filename: String,
    pub environment_name: Environment,
    /// What mods read.
    pub custom_data: CustomData,
    /// The difficulties, one set for each characteristic.
    pub difficulty_beatmap_sets: Vec<DifficultyBeatmapSet>,
}

/// `Info` as contracts speak of it.
pub struct InfoView {
    pub version: VersionView,
    pub song_name: Seq<char>,
    pub song_sub_name: Seq<char>,
    pub song_author_name: Seq<char>,
    pub level_author_name: Seq<char>,
    pub beats_per_minute: NumberView,
    pub song_time_offset: NumberView,
    pub shuffle: NumberView,
    pub shuffle_period: NumberView,
    pub preview_start_time: NumberView,
    pub preview_duration: NumberView,
    pub song_filename: Seq<char>,
    pub cover_image_filename: Seq<char>,
    pub environment_name: Environment,
    pub custom_data: CustomDataView,
    pub difficulty_beatmap_sets: Seq<DifficultyBeatmapSetView>,
}

impl DeepView for Info {
    type V = InfoView;

    open spec fn deep_view(&self) -> InfoView {
        InfoView {
            version: self.version.deep_view(),
            song_name: self.song_name.deep_view(),
            song_sub_name: self.song_sub_name.deep_view(),
            song_author_name: self.song_author_name.deep_view(),
            level_author_name: self.level_author_name.deep_view(),
            beats_per_minute: self.beats_per_minute.deep_view(),
            song_time_offset: self.song_time_offset.deep_view(),
            shuffle: self.shuffle.deep_view(),
            shuffle_period: self.shuffle_period.deep_view(),
            preview_start_time: self.preview_start_time.deep_view(),
            preview_duration: self.preview_duration.deep_view(),
            song_filename: self.song_filename.deep_view(),
            cover_image_filename: self.cover_image_filename.deep_view(),
            environment_name: self.environment_name.deep_view(),
            custom_data: self.custom_data.deep_view(),
            difficulty_beatmap_sets: self.difficulty_beatmap_sets.deep_view(),
        }
    }
}

impl Record for Info {
    open spec fn reading(tree: JsonView, revision: Revision) -> Option<InfoView> {
        if {
            &&& at::<Version>(tree, "_version"@, revision) is Some
            &&& at::<String>(tree, "_songName"@, revision) is Some
            &&& at::<String>(tree, "_songSubName"@, revision) is Some
            &&& at::<String>(tree, "_songAuthorName"@, revision) is Some
            &&& at::<String>(tree, "_levelAuthorName"@, revision) is Some
            &&& at::<Number>(tree, "_beatsPerMinute"@, revision) is Some
            &&& at::<Number>(tree, "_songTimeOffset"@, revision) is Some
            &&& at::<Number>(tree, "_shuffle"@, revision) is Some
            &&& at::<Number>(tree, "_shufflePeriod"@, revision) is Some
            &&& at::<Number>(tree, "_previewStartTime"@, revision) is Some
            &&& at::<Number>(tree, "_previewDuration"@, revision) is Some
            &&& at::<String>(tree, "_songFilename"@, revision) is Some
            &&& at::<String>(tree, "_coverImageFilename"@, revision) is Some
            &&& at::<Environment>(tree, "_environmentName"@, revision) is Some
            &&& at::<CustomData>(tree, "_customData"@, revision) is Some
            &&& at::<Vec<DifficultyBeatmapSet>>(tree, "_difficultyBeatmapSets"@, revision) is Some
        } {
            Some(
                InfoView {
                    version: at::<Version>(tree, "_version"@, revision)->Some_0,
                    song_name: at::<String>(tree, "_songName"@, revision)->Some_0,
                    song_sub_name: at::<String>(tree, "_songSubName"@, revision)->Some_0,
                    song_author_name: at::<String>(tree, "_songAuthorName"@, revision)->Some_0,
                    level_author_name: at::<String>(tree, "_levelAuthorName"@, revision)->Some_0,
                    beats_per_minute: at::<Number>(tree, "_beatsPerMinute"@, revision)->Some_0,
                    song_time_offset: at::<Number>(tree, "_songTimeOffset"@, revision)->Some_0,
                    shuffle: at::<Number>(tree, "_shuffle"@, revision)->Some_0,
                    shuffle_period: at::<Number>(tree, "_shufflePeriod"@, revision)->Some_0,
                    preview_start_time: at::<Number>(tree, "_previewStartTime"@, revision)->Some_0,
                    preview_duration: at::<Number>(tree, "_previewDuration"@, revision)->Some_0,
                    song_filename: at::<String>(tree, "_songFilename"@, revision)->Some_0,
                    cover_image_filename: at::<String>(tree, "_coverImageFilename"@, revision)->Some_0,
                    environment_name: at::<Environment>(tree, "_environmentName"@, revision)->Some_0,
                    custom_data: at::<CustomData>(tree, "_customData"@, revision)->Some_0,
                    difficulty_beatmap_sets: at::<Vec<DifficultyBeatmapSet>>(tree, "_difficultyBeatmapSets"@, revision)->Some_0,
                },
            )
        } else {
            None
        }
    }

    open spec fn writing(value: InfoView) -> JsonView {
        JsonView::Object(
            seq![
                ("_version"@, Version::writing(value.version)),
                ("_songName"@, String::writing(value.song_name)),
                ("_songSubName"@, String::writing(value.song_sub_name)),
                ("_songAuthorName"@, String::writing(value.song_author_name)),
                ("_levelAuthorName"@, String::writing(value.level_author_name)),
                ("_beatsPerMinute"@, Number::writing(value.beats_per_minute)),
                ("_songTimeOffset"@, Number::writing(value.song_time_offset)),
                ("_shuffle"@, Number::writing(value.shuffle)),
                ("_shufflePeriod"@, Number::writing(value.shuffle_period)),
                ("_previewStartTime"@, Number::writing(value.preview_start_time)),
                ("_previewDuration"@, Number::writing(value.preview_duration)),
                ("_songFilename"@, String::writing(value.song_filename)),
                ("_coverImageFilename"@, String::writing(value.cover_image_filename)),
                ("_environmentName"@, Environment::writing(value.environment_name)),
                ("_customData"@, CustomData::writing(value.custom_data)),
                ("_difficultyBeatmapSets"@, Vec::<DifficultyBeatmapSet>::writing(value.difficulty_beatmap_sets)),
            ],
        )
    }

    open spec fn fits(value: InfoView, revision: Revision) -> bool {
        &&& Version::fits(value.version, revision)
        &&& Vec::<DifficultyBeatmapSet>::fits(value.difficulty_beatmap_sets, revision)
    }

    fn read(tree: &Json, revision: Revision) -> (r: Option<Info>) {
        let version = match read_at::<Version>(tree, "_version", revision) {
            Some(v) => v,
            None => return None,
        };
        let song_name = match read_at::<String>(tree, "_songName", revision) {
            Some(v) => v,
            None => return None,
        };
        let song_sub_name = match read_at::<String>(tree, "_songSubName", revision) {
            Some(v) => v,
            None => return None,
        };
        let song_author_name = match read_at::<String>(tree, "_songAuthorName", revision) {
            Some(v) => v,
            None => return None,
        };
        let level_author_name = match read_at::<String>(tree, "_levelAuthorName", revision) {
            Some(v) => v,
            None => return None,
        };
        let beats_per_minute = match read_at::<Number>(tree, "_beatsPerMinute", revision) {
            Some(v) => v,
            None => return None,
        };
        let song_time_offset = match read_at::<Number>(tree, "_songTimeOffset", revision) {
            Some(v) => v,
            None => return None,
        };
        let shuffle = match read_at::<Number>(tree, "_shuffle", revision) {
            Some(v) => v,
            None => return None,
        };
        let shuffle_period = match read_at::<Number>(tree, "_shufflePeriod", revision) {
            Some(v) => v,
            None => return None,
        };
        let preview_start_time = match read_at::<Number>(tree, "_previewStartTime", revision) {
            Some(v) => v,
            None => return None,
        };
        let preview_duration = match read_at::<Number>(tree, "_previewDuration", revision) {
            Some(v) => v,
            None => return None,
        };
        let song_filename = match read_at::<String>(tree, "_songFilename", revision) {
            Some(v) => v,
            None => return None,
        };
        let cover_image_filename = match read_at::<String>(tree, "_coverImageFilename", revision) {
            Some(v) => v,
            None => return None,
        };
        let environment_name = match read_at::<Environment>(tree, "_environmentName", revision) {
            Some(v) => v,
            None => return None,
        };
        let custom_data = match read_at::<CustomData>(tree, "_customData", revision) {
            Some(v) => v,
            None => return None,
        };
        let difficulty_beatmap_sets = match read_at::<Vec<DifficultyBeatmapSet>>(tree, "_difficultyBeatmapSets", revision) {
            Some(v) => v,
            None => return None,
        };
        Some(
            Info {
                version,
                song_name,
                song_sub_name,
                song_author_name,
                level_author_name,
                beats_per_minute,
                song_time_offset,
                shuffle,
                shuffle_period,
                preview_start_time,
                preview_duration,
                song_filename,
                cover_image_filename,
                environment_name,
                custom_data,
                difficulty_beatmap_sets,
            },
        )
    }

    fn write(&self) -> (tree: Json) {
        let mut members: Vec<Member> = Vec::new();
        members.push(member("_version", self.version.write()));
        members.push(member("_songName", self.song_name.write()));
        members.push(member("_songSubName", self.song_sub_name.write()));
        members.push(member("_songAuthorName", self.song_author_name.write()));
        members.push(member("_levelAuthorName", self.level_author_name.write()));
        members.push(member("_beatsPerMinute", self.beats_per_minute.write()));
        members.push(member("_songTimeOffset", self.song_time_offset.write()));
        members.push(member("_shuffle", self.shuffle.write()));
        members.push(member("_shufflePeriod", self.shuffle_period.write()));
        members.push(member("_previewStartTime", self.preview_start_time.write()));
        members.push(member("_previewDuration", self.preview_duration.write()));
        members.push(member("_songFilename", self.song_filename.write()));
        members.push(member("_coverImageFilename", self.cover_image_filename.write()));
        members.push(member("_environmentName", self.environment_name.write()));
        members.push(member("_customData", self.custom_data.write()));
        members.push(member("_difficultyBeatmapSets", self.difficulty_beatmap_sets.write()));
        let tree = Json::Object(members);
        proof {
            lemma_view_parts(tree);
            assert(member_views(members@) =~= Self::writing(self.deep_view())->Object_0);
        }
        tree
    }

    proof fn round_trip(value: InfoView, revision: Revision) {
        Self::keys_differ();
        let members = Self::writing(value)->Object_0;
        lemma_field_at(members, "_version"@, 0);
        Version::round_trip(value.version, revision);
        lemma_field_at(members, "_songName"@, 1);
        String::round_trip(value.song_name, revision);
        lemma_field_at(members, "_songSubName"@, 2);
        String::round_trip(value.song_sub_name, revision);
        lemma_field_at(members, "_songAuthorName"@, 3);
        String::round_trip(value.song_author_name, revision);
        lemma_field_at(members, "_levelAuthorName"@, 4);
        String::round_trip(value.level_author_name, revision);
        lemma_field_at(members, "_beatsPerMinute"@, 5);
        Number::round_trip(value.beats_per_minute, revision);
        lemma_field_at(members, "_songTimeOffset"@, 6);
        Number::round_trip(value.song_time_offset, revision);
        lemma_field_at(members, "_shuffle"@, 7);
        Number::round_trip(value.shuffle, revision);
        lemma_field_at(members, "_shufflePeriod"@, 8);
        Number::round_trip(value.shuffle_period, revision);
        lemma_field_at(members, "_previewStartTime"@, 9);
        Number::round_trip(value.preview_start_time, revision);
        lemma_field_at(members, "_previewDuration"@, 10);
        Number::round_trip(value.preview_duration, revision);
        lemma_field_at(members, "_songFilename"@, 11);
        String::round_trip(value.song_filename, revision);
        lemma_field_at(members, "_coverImageFilename"@, 12);
        String::round_trip(value.cover_image_filename, revision);
        lemma_field_at(members, "_environmentName"@, 13);
        Environment::round_trip(value.environment_name, revision);
        lemma_field_at(members, "_customData"@, 14);
        CustomData::round_trip(value.custom_data, revision);
        lemma_field_at(members, "_difficultyBeatmapSets"@, 15);
        Vec::<DifficultyBeatmapSet>::round_trip(value.difficulty_beatmap_sets, revision);
    }

    proof fn read_fits(tree: JsonView, revision: Revision) {
        if tree.field("_version"@) is Some {
            Version::read_fits(tree.field("_version"@)->Some_0, revision);
        }
        if tree.field("_difficultyBeatmapSets"@) is Some {
            Vec::<DifficultyBeatmapSet>::read_fits(tree.field("_difficultyBeatmapSets"@)->Some_0, revision);
        }
    }
}

impl Info {
    /// The names of the members are pairwise different.
    pub proof fn keys_differ()
        ensures
            "_version"@ != "_songName"@,
            "_version"@ != "_songSubName"@,
            "_songName"@ != "_songSubName"@,
            "_version"@ != "_songAuthorName"@,
            "_songName"@ != "_songAuthorName"@,
            "_songSubName"@ != "_songAuthorName"@,
            "_version"@ != "_levelAuthorName"@,
            "_songName"@ != "_levelAuthorName"@,
            "_songSubName"@ != "_levelAuthorName"@,
            "_songAuthorName"@ != "_levelAuthorName"@,
            "_version"@ != "_beatsPerMinute"@,
            "_songName"@ != "_beatsPerMinute"@,
            "_songSubName"@ != "_beatsPerMinute"@,
            "_songAuthorName"@ != "_beatsPerMinute"@,
            "_levelAuthorName"@ != "_beatsPerMinute"@,
            "_version"@ != "_songTimeOffset"@,
            "_songName"@ != "_songTimeOffset"@,
            "_songSubName"@ != "_songTimeOffset"@,
            "_songAuthorName"@ != "_songTimeOffset"@,
            "_levelAuthorName"@ != "_songTimeOffset"@,
            "_beatsPerMinute"@ != "_songTimeOffset"@,
            "_version"@ != "_shuffle"@,
            "_songName"@ != "_shuffle"@,
            "_songSubName"@ != "_shuffle"@,
            "_songAuthorName"@ != "_shuffle"@,
            "_levelAuthorName"@ != "_shuffle"@,
            "_beatsPerMinute"@ != "_shuffle"@,
            "_songTimeOffset"@ != "_shuffle"@,
            "_version"@ != "_shufflePeriod"@,
            "_songName"@ != "_shufflePeriod"@,
            "_songSubName"@ != "_shufflePeriod"@,
            "_songAuthorName"@ != "_shufflePeriod"@,
            "_levelAuthorName"@ != "_shufflePeriod"@,
            "_beatsPerMinute"@ != "_shufflePeriod"@,
            "_songTimeOffset"@ != "_shufflePeriod"@,
            "_shuffle"@ != "_shufflePeriod"@,
            "_version"@ != "_previewStartTime"@,
            "_songName"@ != "_previewStartTime"@,
            "_songSubName"@ != "_previewStartTime"@,
            "_songAuthorName"@ != "_previewStartTime"@,
            "_levelAuthorName"@ != "_previewStartTime"@,
            "_beatsPerMinute"@ != "_previewStartTime"@,
            "_songTimeOffset"@ != "_previewStartTime"@,
            "_shuffle"@ != "_previewStartTime"@,
            "_shufflePeriod"@ != "_previewStartTime"@,
            "_version"@ != "_previewDuration"@,
            "_songName"@ != "_previewDuration"@,
            "_songSubName"@ != "_previewDuration"@,
            "_songAuthorName"@ != "_previewDuration"@,
            "_levelAuthorName"@ != "_previewDuration"@,
            "_beatsPerMinute"@ != "_previewDuration"@,
            "_songTimeOffset"@ != "_previewDuration"@,
            "_shuffle"@ != "_previewDuration"@,
            "_shufflePeriod"@ != "_previewDuration"@,
            "_previewStartTime"@ != "_previewDuration"@,
            "_version"@ != "_songFilename"@,
            "_songName"@ != "_songFilename"@,
            "_songSubName"@ != "_songFilename"@,
            "_songAuthorName"@ != "_songFilename"@,
            "_levelAuthorName"@ != "_songFilename"@,
            "_beatsPerMinute"@ != "_songFilename"@,
            "_songTimeOffset"@ != "_songFilename"@,
            "_shuffle"@ != "_songFilename"@,
            "_shufflePeriod"@ != "_songFilename"@,
            "_previewStartTime"@ != "_songFilename"@,
            "_previewDuration"@ != "_songFilename"@,
            "_version"@ != "_coverImageFilename"@,
            "_songName"@ != "_coverImageFilename"@,
            "_songSubName"@ != "_coverImageFilename"@,
            "_songAuthorName"@ != "_coverImageFilename"@,
            "_levelAuthorName"@ != "_coverImageFilename"@,
            "_beatsPerMinute"@ != "_coverImageFilename"@,
            "_songTimeOffset"@ != "_coverImageFilename"@,
            "_shuffle"@ != "_coverImageFilename"@,
            "_shufflePeriod"@ != "_coverImageFilename"@,
            "_previewStartTime"@ != "_coverImageFilename"@,
            "_previewDuration"@ != "_coverImageFilename"@,
            "_songFilename"@ != "_coverImageFilename"@,
            "_version"@ != "_environmentName"@,
            "_songName"@ != "_environmentName"@,
            "_songSubName"@ != "_environmentName"@,
            "_songAuthorName"@ != "_environmentName"@,
            "_levelAuthorName"@ != "_environmentName"@,
            "_beatsPerMinute"@ != "_environmentName"@,
            "_songTimeOffset"@ != "_environmentName"@,
            "_shuffle"@ != "_environmentName"@,
            "_shufflePeriod"@ != "_environmentName"@,
            "_previewStartTime"@ != "_environmentName"@,
            "_previewDuration"@ != "_environmentName"@,
            "_songFilename"@ != "_environmentName"@,
            "_coverImageFilename"@ != "_environmentName"@,
            "_version"@ != "_customData"@,
            "_songName"@ != "_customData"@,
            "_songSubName"@ != "_customData"@,
            "_songAuthorName"@ != "_customData"@,
            "_levelAuthorName"@ != "_customData"@,
            "_beatsPerMinute"@ != "_customData"@,
            "_songTimeOffset"@ != "_customData"@,
            "_shuffle"@ != "_customData"@,
            "_shufflePeriod"@ != "_customData"@,
            "_previewStartTime"@ != "_customData"@,
            "_previewDuration"@ != "_customData"@,
            "_songFilename"@ != "_customData"@,
            "_coverImageFilename"@ != "_customData"@,
            "_environmentName"@ != "_customData"@,
            "_version"@ != "_difficultyBeatmapSets"@,
            "_songName"@ != "_difficultyBeatmapSets"@,
            "_songSubName"@ != "_difficultyBeatmapSets"@,
            "_songAuthorName"@ != "_difficultyBeatmapSets"@,
            "_levelAuthorName"@ != "_difficultyBeatmapSets"@,
            "_beatsPerMinute"@ != "_difficultyBeatmapSets"@,
            "_songTimeOffset"@ != "_difficultyBeatmapSets"@,
            "_shuffle"@ != "_difficultyBeatmapSets"@,
            "_shufflePeriod"@ != "_difficultyBeatmapSets"@,
            "_previewStartTime"@ != "_difficultyBeatmapSets"@,
            "_previewDuration"@ != "_difficultyBeatmapSets"@,
            "_songFilename"@ != "_difficultyBeatmapSets"@,
            "_coverImageFilename"@ != "_difficultyBeatmapSets"@,
            "_environmentName"@ != "_difficultyBeatmapSets"@,
            "_customData"@ != "_difficultyBeatmapSets"@,
    {
        reveal_strlit("_version");
        reveal_strlit("_songName");
        reveal_strlit("_songSubName");
        reveal_strlit("_songAuthorName");
        reveal_strlit("_levelAuthorName");
        reveal_strlit("_beatsPerMinute");
        reveal_strlit("_songTimeOffset");
        reveal_strlit("_shuffle");
        reveal_strlit("_shufflePeriod");
        reveal_strlit("_previewStartTime");
        reveal_strlit("_previewDuration");
        reveal_strlit("_songFilename");
        reveal_strlit("_coverImageFilename");
        reveal_strlit("_environmentName");
        reveal_strlit("_customData");
        reveal_strlit("_difficultyBeatmapSets");
        assert("_version"@.len() == 8);
        assert("_songName"@.len() == 9);
        assert("_songSubName"@.len() == 12);
        assert("_songAuthorName"@.len() == 15);
        assert("_levelAuthorName"@.len() == 16);
        assert("_beatsPerMinute"@.len() == 15);
        assert("_songTimeOffset"@.len() == 15);
        assert("_shuffle"@.len() == 8);
        assert("_shufflePeriod"@.len() == 14);
        assert("_previewStartTime"@.len() == 17);
        assert("_previewDuration"@.len() == 16);
        assert("_songFilename"@.len() == 13);
        assert("_coverImageFilename"@.len() == 19);
        assert("_environmentName"@.len() == 16);
        assert("_customData"@.len() == 11);
        assert("_difficultyBeatmapSets"@.len() == 22);
        lemma_differ_at("_songAuthorName"@, "_beatsPerMinute"@, 1);
        lemma_differ_at("_songAuthorName"@, "_songTimeOffset"@, 5);
        lemma_differ_at("_beatsPerMinute"@, "_songTimeOffset"@, 1);
        lemma_differ_at("_version"@, "_shuffle"@, 1);
        lemma_differ_at("_levelAuthorName"@, "_previewDuration"@, 1);
        lemma_differ_at("_levelAuthorName"@, "_environmentName"@, 1);
        lemma_differ_at("_previewDuration"@, "_environmentName"@, 1);
    }
}
impl InfoView {
    /// The document declares a known layout and holds only what that layout allows.
    pub open spec fn wf(self) -> bool {
        revision_of(self.version.major) matches Some(revision) && Info::fits(self, revision)
    }

    /// The document that a tree stands for. The version is read first and selects the
    /// layout; a tree that does not follow the layout has a field error.
    pub open spec fn of_tree(tree: JsonView) -> Result<InfoView, DecodeError> {
        match heading(tree) {
            Ok((_, revision)) => match Info::reading(tree, revision) {
                Some(document) => Ok(document),
                None => Err(DecodeError::Field),
            },
            Err(e) => Err(e),
        }
    }

    /// The document that a text stands for.
    pub open spec fn of_text(text: Seq<u8>) -> Result<InfoView, DecodeError> {
        match parsed_json(text) {
            Some(tree) => InfoView::of_tree(tree),
            None => Err(DecodeError::Syntax),
        }
    }

    /// The tree that stands for the document.
    pub open spec fn to_tree(self) -> JsonView {
        Info::writing(self)
    }
}

impl Info {
    /// Reads a info document from its tree.
    pub fn from_tree(tree: &Json) -> (r: Result<Info, DecodeError>)
        ensures
            r matches Ok(d) ==> InfoView::of_tree(tree@) == Ok::<InfoView, DecodeError>(
                d.deep_view(),
            ),
            r matches Err(e) ==> InfoView::of_tree(tree@) == Err::<InfoView, DecodeError>(
                e,
            ),
    {
        let revision = match read_heading(tree) {
            Ok(h) => h.1,
            Err(e) => return Err(e),
        };
        match Info::read(tree, revision) {
            Some(document) => Ok(document),
            None => Err(DecodeError::Field),
        }
    }

    /// Reads a info document from its JSON text.
    pub fn from_text(text: &[u8]) -> (r: Result<Info, DecodeError>)
        ensures
            r matches Ok(d) ==> InfoView::of_text(text@) == Ok::<InfoView, DecodeError>(
                d.deep_view(),
            ),
            r matches Err(e) ==> InfoView::of_text(text@) == Err::<InfoView, DecodeError>(
                e,
            ),
    {
        match Json::parse(text) {
            Some(tree) => Info::from_tree(&tree),
            None => Err(DecodeError::Syntax),
        }
    }

    /// Writes the document as a tree.
    pub fn to_tree(&self) -> (tree: Json)
        ensures
            tree@ == self.deep_view().to_tree(),
    {
        self.write()
    }
}

/// Reading the tree that was written for a well-formed info document gives the
/// document back.
pub proof fn lemma_info_round_trip(document: InfoView)
    requires
        document.wf(),
    ensures
        InfoView::of_tree(document.to_tree()) == Ok::<InfoView, DecodeError>(document),
{
    let revision = revision_of(document.version.major)->Some_0;
    let tree = document.to_tree();
    Info::round_trip(document, revision);
    Info::keys_differ();
    lemma_field_at(tree->Object_0, "_version"@, 0);
}

/// What is read from a tree is a well-formed info document.
pub proof fn lemma_info_read_wf(tree: JsonView)
    ensures
        InfoView::of_tree(tree) matches Ok(document) ==> document.wf(),
{
    match heading(tree) {
        Ok((version, revision)) => {
            Info::read_fits(tree, revision);
        },
        Err(_) => {},
    }
}

/// One difficulty that an info document declares: where it belongs and where its
/// document is.
#[derive(Clone, Debug, PartialEq)]
pub struct Declaration {
    pub characteristic: BeatmapCharacteristic,
    pub rank: Rank,
    pub filename: String,
}

/// `Declaration` as contracts speak of it.
pub struct DeclarationView {
    pub characteristic: BeatmapCharacteristic,
    pub rank: Rank,
    pub filename: Seq<char>,
}

impl DeepView for Declaration {
    type V = DeclarationView;

    open spec fn deep_view(&self) -> DeclarationView {
        DeclarationView {
            characteristic: self.characteristic,
            rank: self.rank,
            filename: self.filename@,
        }
    }
}

/// What one entry of a set declares.
pub open spec fn declared_at(set: DifficultyBeatmapSetView, b: int) -> DeclarationView {
    DeclarationView {
        characteristic: set.beatmap_characteristic_name,
        rank: set.difficulty_beatmaps[b].difficulty_rank,
        filename: set.difficulty_beatmaps[b].beatmap_filename,
    }
}

/// What a set declares, in the order of its entries.
pub open spec fn declared_by(set: DifficultyBeatmapSetView) -> Seq<DeclarationView> {
    Seq::new(set.difficulty_beatmaps.len(), |b: int| declared_at(set, b))
}

/// What the sets declare, set after set.
pub open spec fn declared_in(sets: Seq<DifficultyBeatmapSetView>) -> Seq<DeclarationView>
    decreases sets.len(),
{
    if sets.len() == 0 {
        Seq::empty()
    } else {
        declared_in(sets.drop_last()) + declared_by(sets.last())
    }
}

impl InfoView {
    /// The difficulties that the document declares, in document order.
    pub open spec fn declarations(self) -> Seq<DeclarationView> {
        declared_in(self.difficulty_beatmap_sets)
    }
}

impl Info {
    /// The difficulties that the document declares, in document order.
    pub fn declarations(&self) -> (r: Vec<Declaration>)
        ensures
            r.deep_view() == self.deep_view().declarations(),
    {
        let ghost sets = self.difficulty_beatmap_sets.deep_view();
        let mut out: Vec<Declaration> = Vec::new();
        let mut s: usize = 0;
        assert(sets.take(0) =~= Seq::empty());
        assert(out.deep_view() =~= declared_in(sets.take(0)));
        while s < self.difficulty_beatmap_sets.len()
            invariant
                s <= self.difficulty_beatmap_sets.len(),
                sets == self.difficulty_beatmap_sets.deep_view(),
                out.deep_view() == declared_in(sets.take(s as int)),
            decreases self.difficulty_beatmap_sets.len() - s,
        {
            let set = &self.difficulty_beatmap_sets[s];
            let ghost before = out.deep_view();
            assert(set.deep_view() == sets[s as int]);
            let mut b: usize = 0;
            assert(out.deep_view() =~= before + declared_by(sets[s as int]).take(0));
            while b < set.difficulty_beatmaps.len()
                invariant
                    b <= set.difficulty_beatmaps.len(),
                    s < sets.len(),
                    set.deep_view() == sets[s as int],
                    out.deep_view() == before + declared_by(sets[s as int]).take(b as int),
                decreases set.difficulty_beatmaps.len() - b,
            {
                let entry = &set.difficulty_beatmaps[b];
                let declaration = Declaration {
                    characteristic: set.beatmap_characteristic_name,
                    rank: entry.difficulty_rank,
                    filename: entry.beatmap_filename.clone(),
                };
                let ghost so_far = out.deep_view();
                out.push(declaration);
                proof {
                    let all = declared_by(sets[s as int]);
                    assert(entry.deep_view() == sets[s as int].difficulty_beatmaps[b as int]);
                    assert(out.deep_view() =~= so_far.push(declared_at(sets[s as int], b as int)));
                    assert(all.take(b + 1) =~= all.take(b as int).push(all[b as int]));
                    assert(out.deep_view() =~= before + all.take(b + 1));
                }
                b += 1;
            }
            proof {
                let upto = sets.take(s + 1);
                assert(upto.drop_last() =~= sets.take(s as int));
                assert(upto.last() == sets[s as int]);
                assert(declared_by(sets[s as int]).take(b as int) =~= declared_by(sets[s as int]));
            }
            s += 1;
        }
        assert(sets.take(s as int) =~= sets);
        out
    }
}

} // verus!
