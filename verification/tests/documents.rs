use beatsaber_map::beatmap::{BeatmapCharacteristic, Difficulty as DifficultyName, DifficultyRank, Rank};
use beatsaber_map::difficulty::{
    CutDirection, Difficulty, LineIndex, LineLayer, NoteType, ObstacleType,
};
use beatsaber_map::document::DecodeError;
use beatsaber_map::info::{Environment, Info};
use beatsaber_map::json::{Json, Number};

fn difficulty_text(version: &str, notes: &str, events: &str, obstacles: &str) -> String {
    format!(
        "{{\"_version\":\"{}\",\"_BPMChanges\":[{{\"_BPM\":120.5,\"_time\":4,\"_beatsPerBar\":4,\"_metronomeOffset\":2}}],\"_events\":[{}],\"_notes\":[{}],\"_obstacles\":[{}],\"_bookmarks\":[{{\"_time\":1.25,\"_name\":\"drop\"}}]}}",
        version, events, notes, obstacles
    )
}

fn note_text(line_index: &str, note_type: &str) -> String {
    format!(
        "{{\"_time\":8.5,\"_lineIndex\":{},\"_lineLayer\":2,\"_type\":{},\"_cutDirection\":8}}",
        line_index, note_type
    )
}

fn beatmap_text(difficulty: &str, rank: &str, filename: &str) -> String {
    format!(
        "{{\"_difficulty\":\"{}\",\"_difficultyRank\":{},\"_beatmapFilename\":\"{}\",\"_noteJumpMovementSpeed\":10,\"_noteJumpStartBeatOffset\":-0.5,\"_customData\":{{\"_difficultyLabel\":\"label\",\"_editorOffset\":-3,\"_editorOldOffset\":7,\"_colorLeft\":{{\"r\":0.5,\"g\":0,\"b\":1}},\"_colorRight\":null,\"_warnings\":[\"w1\",\"w2\"],\"_information\":[],\"_suggestions\":[\"s\"],\"_requirements\":[]}}}}",
        difficulty, rank, filename
    )
}

fn info_text(version: &str, sets: &str) -> String {
    format!(
        "{{\"_version\":\"{}\",\"_songName\":\"Song\",\"_songSubName\":\"Sub\",\"_songAuthorName\":\"Author\",\"_levelAuthorName\":\"Mapper\",\"_beatsPerMinute\":128,\"_songTimeOffset\":0,\"_shuffle\":0,\"_shufflePeriod\":0.5,\"_previewStartTime\":12,\"_previewDuration\":10,\"_songFilename\":\"song.ogg\",\"_coverImageFilename\":\"cover.jpg\",\"_environmentName\":\"NiceEnvironment\",\"_customData\":{{\"_contributors\":[{{\"_role\":\"Mapper\",\"_name\":\"Someone\",\"_iconPath\":\"icon.png\"}}],\"_customEnvironment\":\"\",\"_customEnvironmentHash\":\"\"}},\"_difficultyBeatmapSets\":[{}]}}",
        version, sets
    )
}

#[test]
fn difficulty_is_read_field_for_field() {
    let text = difficulty_text(
        "2.0.0",
        &note_text("3", "1"),
        "{\"_time\":2,\"_type\":4,\"_value\":70000}",
        "{\"_time\":16,\"_lineIndex\":0,\"_type\":1,\"_duration\":2.5,\"_width\":3}",
    );
    let d = Difficulty::from_text(text.as_bytes()).unwrap();
    assert_eq!(d.version.text, "2.0.0");
    assert_eq!((d.version.major, d.version.minor, d.version.patch), (2, 0, 0));
    assert_eq!(d.bpm_changes.len(), 1);
    assert_eq!(d.bpm_changes[0].bpm, Number::Real("120.5".to_string()));
    assert_eq!(d.bpm_changes[0].time, Number::Unsigned(4));
    assert_eq!(d.bpm_changes[0].beats_per_bar, 4);
    assert_eq!(d.bpm_changes[0].metronome_offset, 2);
    assert_eq!(d.events.len(), 1);
    assert_eq!(d.events[0].event_type, 4);
    assert_eq!(d.events[0].value, 70000);
    assert_eq!(d.notes.len(), 1);
    assert_eq!(d.notes[0].time, Number::Real("8.5".to_string()));
    assert_eq!(d.notes[0].line_index, LineIndex::FarRight);
    assert_eq!(d.notes[0].line_layer, LineLayer::Top);
    assert_eq!(d.notes[0].note_type, NoteType::Blue);
    assert_eq!(d.notes[0].cut_direction, CutDirection::Dot);
    assert_eq!(d.obstacles.len(), 1);
    assert_eq!(d.obstacles[0].line_index, LineIndex::FarLeft);
    assert_eq!(d.obstacles[0].obstacle_type, ObstacleType::Ceiling);
    assert_eq!(d.obstacles[0].duration, Number::Real("2.5".to_string()));
    assert_eq!(d.obstacles[0].width, 3);
    assert_eq!(d.bookmarks.len(), 1);
    assert_eq!(d.bookmarks[0].name, "drop");
}

#[test]
fn line_index_outside_enumeration_is_refused() {
    for bad in ["4", "255", "-1", "1.0", "\"1\"", "null"] {
        let text = difficulty_text("2.0.0", &note_text(bad, "0"), "", "");
        assert_eq!(Difficulty::from_text(text.as_bytes()), Err(DecodeError::Field), "{}", bad);
    }
    for good in ["0", "1", "2", "3"] {
        let text = difficulty_text("2.0.0", &note_text(good, "0"), "", "");
        assert!(Difficulty::from_text(text.as_bytes()).is_ok(), "{}", good);
    }
    let obstacle = "{\"_time\":16,\"_lineIndex\":4,\"_type\":1,\"_duration\":2.5,\"_width\":3}";
    let text = difficulty_text("2.0.0", "", "", obstacle);
    assert_eq!(Difficulty::from_text(text.as_bytes()), Err(DecodeError::Field));
}

#[test]
fn note_type_outside_enumeration_is_refused() {
    for bad in ["2", "4", "256", "-1"] {
        let text = difficulty_text("2.0.0", &note_text("0", bad), "", "");
        assert_eq!(Difficulty::from_text(text.as_bytes()), Err(DecodeError::Field), "{}", bad);
    }
    let text = difficulty_text("2.0.0", &note_text("0", "3"), "", "");
    let d = Difficulty::from_text(text.as_bytes()).unwrap();
    assert_eq!(d.notes[0].note_type, NoteType::Bomb);
}

#[test]
fn version_that_is_no_version_is_refused() {
    for bad in ["2.0", "2", "two", "", "2.0.0.0", "02.0.0", "3.0.0", "0.9.0"] {
        let text = difficulty_text(bad, "", "", "");
        assert_eq!(
            Difficulty::from_text(text.as_bytes()),
            Err(DecodeError::SchemaVersion),
            "{}",
            bad
        );
        let text = info_text(bad, "");
        assert_eq!(Info::from_text(text.as_bytes()), Err(DecodeError::SchemaVersion), "{}", bad);
    }
}

#[test]
fn version_error_comes_before_field_errors() {
    let text = difficulty_text("2.0", &note_text("9", "9"), "", "");
    assert_eq!(Difficulty::from_text(text.as_bytes()), Err(DecodeError::SchemaVersion));
}

#[test]
fn missing_version_is_a_field_error() {
    assert_eq!(Difficulty::from_text(b"{}"), Err(DecodeError::Field));
    assert_eq!(Difficulty::from_text(b"{\"_version\":2}"), Err(DecodeError::Field));
    assert_eq!(Difficulty::from_text(b"[]"), Err(DecodeError::Field));
    assert_eq!(Info::from_text(b"{}"), Err(DecodeError::Field));
}

#[test]
fn text_that_is_no_json_is_a_syntax_error() {
    assert_eq!(Difficulty::from_text(b"{\"_version\":"), Err(DecodeError::Syntax));
    assert_eq!(Difficulty::from_text(b""), Err(DecodeError::Syntax));
    assert_eq!(Info::from_text(b"not json"), Err(DecodeError::Syntax));
}

#[test]
fn missing_member_is_a_field_error() {
    let text = "{\"_version\":\"2.0.0\",\"_BPMChanges\":[],\"_events\":[],\"_notes\":[],\"_obstacles\":[]}";
    assert_eq!(Difficulty::from_text(text.as_bytes()), Err(DecodeError::Field));
    let text = "{\"_version\":\"2.0.0\",\"_BPMChanges\":[],\"_events\":[],\"_notes\":[],\"_obstacles\":[],\"_bookmarks\":[]}";
    assert!(Difficulty::from_text(text.as_bytes()).is_ok());
}

#[test]
fn event_values_follow_the_revision() {
    let wide = "{\"_time\":2,\"_type\":4,\"_value\":256}";
    let narrow = "{\"_time\":2,\"_type\":4,\"_value\":255}";
    let too_wide = "{\"_time\":2,\"_type\":4,\"_value\":4294967296}";
    assert_eq!(
        Difficulty::from_text(difficulty_text("1.5.0", "", wide, "").as_bytes()),
        Err(DecodeError::Field)
    );
    let d = Difficulty::from_text(difficulty_text("1.5.0", "", narrow, "").as_bytes()).unwrap();
    assert_eq!(d.events[0].value, 255);
    let d = Difficulty::from_text(difficulty_text("2.0.0", "", wide, "").as_bytes()).unwrap();
    assert_eq!(d.events[0].value, 256);
    assert_eq!(
        Difficulty::from_text(difficulty_text("2.0.0", "", too_wide, "").as_bytes()),
        Err(DecodeError::Field)
    );
}

#[test]
fn unsigned_members_are_not_clamped() {
    let obstacle = "{\"_time\":16,\"_lineIndex\":0,\"_type\":1,\"_duration\":2.5,\"_width\":256}";
    let text = difficulty_text("2.0.0", "", "", obstacle);
    assert_eq!(Difficulty::from_text(text.as_bytes()), Err(DecodeError::Field));
    let obstacle = "{\"_time\":16,\"_lineIndex\":0,\"_type\":1,\"_duration\":2.5,\"_width\":-1}";
    let text = difficulty_text("2.0.0", "", "", obstacle);
    assert_eq!(Difficulty::from_text(text.as_bytes()), Err(DecodeError::Field));
    let obstacle = "{\"_time\":16,\"_lineIndex\":0,\"_type\":1,\"_duration\":2.5,\"_width\":255}";
    let text = difficulty_text("2.0.0", "", "", obstacle);
    assert_eq!(Difficulty::from_text(text.as_bytes()).unwrap().obstacles[0].width, 255);
}

#[test]
fn info_is_read_field_for_field() {
    let set = format!(
        "{{\"_beatmapCharacteristicName\":\"OneSaber\",\"_difficultyBeatmaps\":[{}]}}",
        beatmap_text("Expert", "7", "Expert.dat")
    );
    let info = Info::from_text(info_text("2.0.0", &set).as_bytes()).unwrap();
    assert_eq!(info.song_name, "Song");
    assert_eq!(info.song_sub_name, "Sub");
    assert_eq!(info.song_author_name, "Author");
    assert_eq!(info.level_author_name, "Mapper");
    assert_eq!(info.beats_per_minute, Number::Unsigned(128));
    assert_eq!(info.shuffle_period, Number::Real("0.5".to_string()));
    assert_eq!(info.song_filename, "song.ogg");
    assert_eq!(info.cover_image_filename, "cover.jpg");
    assert_eq!(info.environment_name, Environment::NiceEnvironment);
    assert_eq!(info.custom_data.contributors.len(), 1);
    assert_eq!(info.custom_data.contributors[0].icon_path, "icon.png");
    assert_eq!(info.difficulty_beatmap_sets.len(), 1);
    let set = &info.difficulty_beatmap_sets[0];
    assert_eq!(set.beatmap_characteristic_name, BeatmapCharacteristic::OneSaber);
    let entry = &set.difficulty_beatmaps[0];
    assert_eq!(entry.difficulty, DifficultyName::Expert);
    assert_eq!(entry.difficulty_rank, Rank::Fixed(DifficultyRank::Expert));
    assert_eq!(entry.difficulty_rank.to_number(), 7);
    assert_eq!(entry.beatmap_filename, "Expert.dat");
    assert_eq!(entry.note_jump_movement_speed, Number::Unsigned(10));
    assert_eq!(entry.note_jump_start_beat_offset, Number::Real("-0.5".to_string()));
    assert_eq!(entry.custom_data.editor_offset, -3);
    assert_eq!(entry.custom_data.editor_old_offset, 7);
    let left = entry.custom_data.color_left.as_ref().unwrap();
    assert_eq!(left.r, Number::Real("0.5".to_string()));
    assert_eq!(left.g, Number::Unsigned(0));
    assert!(entry.custom_data.color_right.is_none());
    assert_eq!(entry.custom_data.warning, vec!["w1".to_string(), "w2".to_string()]);
    assert_eq!(entry.custom_data.suggestions, vec!["s".to_string()]);
}

#[test]
fn ranks_follow_the_revision() {
    let set = |rank: &str| {
        format!(
            "{{\"_beatmapCharacteristicName\":\"Standard\",\"_difficultyBeatmaps\":[{}]}}",
            beatmap_text("Easy", rank, "Easy.dat")
        )
    };
    let old = Info::from_text(info_text("1.0.0", &set("4")).as_bytes()).unwrap();
    let rank = old.difficulty_beatmap_sets[0].difficulty_beatmaps[0].difficulty_rank;
    assert_eq!(rank, Rank::Free(4));
    assert_eq!(rank.to_number(), 4);
    assert_eq!(Info::from_text(info_text("2.0.0", &set("4")).as_bytes()), Err(DecodeError::Field));
    for (text, rank) in [
        ("1", DifficultyRank::Easy),
        ("3", DifficultyRank::Normal),
        ("5", DifficultyRank::Hard),
        ("7", DifficultyRank::Expert),
        ("9", DifficultyRank::ExpertPlus),
    ] {
        let new = Info::from_text(info_text("2.1.0", &set(text)).as_bytes()).unwrap();
        assert_eq!(
            new.difficulty_beatmap_sets[0].difficulty_beatmaps[0].difficulty_rank,
            Rank::Fixed(rank)
        );
    }
}

#[test]
fn unknown_names_are_refused() {
    let set = "{\"_beatmapCharacteristicName\":\"TwoSabers\",\"_difficultyBeatmaps\":[]}";
    assert_eq!(Info::from_text(info_text("2.0.0", set).as_bytes()), Err(DecodeError::Field));
    let set = "{\"_beatmapCharacteristicName\":\"standard\",\"_difficultyBeatmaps\":[]}";
    assert_eq!(Info::from_text(info_text("2.0.0", set).as_bytes()), Err(DecodeError::Field));
    let set = "{\"_beatmapCharacteristicName\":\"Lightshow\",\"_difficultyBeatmaps\":[]}";
    assert!(Info::from_text(info_text("2.0.0", set).as_bytes()).is_ok());
}

#[test]
fn difficulty_round_trip() {
    for version in ["1.0.0", "2.0.0", "2.3.1-beta+7"] {
        let text = difficulty_text(
            version,
            &format!("{},{}", note_text("3", "1"), note_text("0", "3")),
            "{\"_time\":2,\"_type\":4,\"_value\":7}",
            "{\"_time\":16,\"_lineIndex\":0,\"_type\":1,\"_duration\":2.5,\"_width\":3}",
        );
        let d = Difficulty::from_text(text.as_bytes()).unwrap();
        let tree = d.to_tree();
        assert_eq!(Difficulty::from_tree(&tree), Ok(d.clone()));
        let again = Json::parse(text.as_bytes()).unwrap();
        assert_eq!(Difficulty::from_tree(&again), Ok(d));
    }
}

#[test]
fn info_round_trip() {
    for (version, rank) in [("1.2.0", "12"), ("2.0.0", "9")] {
        let sets = format!(
            "{{\"_beatmapCharacteristicName\":\"Standard\",\"_difficultyBeatmaps\":[{},{}]}},{{\"_beatmapCharacteristicName\":\"Lawless\",\"_difficultyBeatmaps\":[]}}",
            beatmap_text("Easy", rank, "a.dat"),
            beatmap_text("ExpertPlus", rank, "b.dat")
        );
        let info = Info::from_text(info_text(version, &sets).as_bytes()).unwrap();
        let tree = info.to_tree();
        assert_eq!(Info::from_tree(&tree), Ok(info.clone()));
    }
}

#[test]
fn declarations_come_in_document_order() {
    let sets = format!(
        "{{\"_beatmapCharacteristicName\":\"Standard\",\"_difficultyBeatmaps\":[{},{}]}},{{\"_beatmapCharacteristicName\":\"Lawless\",\"_difficultyBeatmaps\":[]}},{{\"_beatmapCharacteristicName\":\"OneSaber\",\"_difficultyBeatmaps\":[{}]}}",
        beatmap_text("Easy", "1", "a.dat"),
        beatmap_text("Hard", "5", "b.dat"),
        beatmap_text("Easy", "1", "c.dat")
    );
    let info = Info::from_text(info_text("2.0.0", &sets).as_bytes()).unwrap();
    let declared = info.declarations();
    let seen: Vec<(BeatmapCharacteristic, u32, &str)> = declared
        .iter()
        .map(|d| (d.characteristic, d.rank.to_number(), d.filename.as_str()))
        .collect();
    assert_eq!(
        seen,
        vec![
            (BeatmapCharacteristic::Standard, 1, "a.dat"),
            (BeatmapCharacteristic::Standard, 5, "b.dat"),
            (BeatmapCharacteristic::OneSaber, 1, "c.dat"),
        ]
    );
}
