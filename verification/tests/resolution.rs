use beatsaber_map::audio::{first_vorbis, AudioFormat, VorbisStream};
use beatsaber_map::beatmap::{BeatmapCharacteristic, DifficultyRank, Rank};
use beatsaber_map::bundle::{fetch, Beatmap, Failure, LoadError, ResolutionError};
use beatsaber_map::difficulty::Difficulty;
use beatsaber_map::document::DecodeError;
use beatsaber_map::info::Info;
use beatsaber_map::json::Number;
use beatsaber_map::source::DocumentSource;

fn difficulty_text(time: u32) -> String {
    format!(
        "{{\"_version\":\"2.0.0\",\"_BPMChanges\":[],\"_events\":[],\"_notes\":[{{\"_time\":{},\"_lineIndex\":1,\"_lineLayer\":0,\"_type\":0,\"_cutDirection\":1}}],\"_obstacles\":[],\"_bookmarks\":[]}}",
        time
    )
}

fn entry_text(difficulty: &str, rank: u32, filename: &str) -> String {
    format!(
        "{{\"_difficulty\":\"{}\",\"_difficultyRank\":{},\"_beatmapFilename\":\"{}\",\"_noteJumpMovementSpeed\":10,\"_noteJumpStartBeatOffset\":0,\"_customData\":{{\"_difficultyLabel\":\"\",\"_editorOffset\":0,\"_editorOldOffset\":0,\"_colorLeft\":null,\"_colorRight\":null,\"_warnings\":[],\"_information\":[],\"_suggestions\":[],\"_requirements\":[]}}}}",
        difficulty, rank, filename
    )
}

fn set_text(characteristic: &str, entries: &[String]) -> String {
    format!(
        "{{\"_beatmapCharacteristicName\":\"{}\",\"_difficultyBeatmaps\":[{}]}}",
        characteristic,
        entries.join(",")
    )
}

fn info_text(sets: &[String]) -> String {
    format!(
        "{{\"_version\":\"2.0.0\",\"_songName\":\"Song\",\"_songSubName\":\"\",\"_songAuthorName\":\"\",\"_levelAuthorName\":\"\",\"_beatsPerMinute\":128,\"_songTimeOffset\":0,\"_shuffle\":0,\"_shufflePeriod\":0.5,\"_previewStartTime\":12,\"_previewDuration\":10,\"_songFilename\":\"song.ogg\",\"_coverImageFilename\":\"cover.jpg\",\"_environmentName\":\"DefaultEnvironment\",\"_customData\":{{\"_contributors\":[],\"_customEnvironment\":\"\",\"_customEnvironmentHash\":\"\"}},\"_difficultyBeatmapSets\":[{}]}}",
        sets.join(",")
    )
}

fn source_of(files: &[(&str, String)]) -> DocumentSource {
    let mut source = DocumentSource::new();
    for (name, text) in files {
        source.add(name.to_string(), text.clone().into_bytes());
    }
    source
}

fn info_of(sets: &[String]) -> Info {
    Info::from_text(info_text(sets).as_bytes()).unwrap()
}

fn holds_each_once<T: PartialEq + std::fmt::Debug>(found: Vec<T>, expected: Vec<T>) {
    assert_eq!(found.len(), expected.len(), "{:?}", found);
    for item in &expected {
        assert!(found.contains(item), "{:?} lacks {:?}", found, item);
    }
}

const EASY: Rank = Rank::Fixed(DifficultyRank::Easy);
const EXPERT: Rank = Rank::Fixed(DifficultyRank::Expert);

#[test]
fn two_sets_of_two_ranks_resolve_to_two_keys_of_two_entries() {
    let sets = [
        set_text(
            "Standard",
            &[entry_text("Easy", 1, "EasyStandard.dat"), entry_text("Expert", 7, "ExpertStandard.dat")],
        ),
        set_text(
            "OneSaber",
            &[entry_text("Easy", 1, "EasyOneSaber.dat"), entry_text("Expert", 7, "ExpertOneSaber.dat")],
        ),
    ];
    let files = [
        ("EasyStandard.dat", difficulty_text(1)),
        ("ExpertStandard.dat", difficulty_text(2)),
        ("EasyOneSaber.dat", difficulty_text(3)),
        ("ExpertOneSaber.dat", difficulty_text(4)),
    ];
    let source = source_of(&files);
    let info = info_of(&sets);
    let bundle = Beatmap::resolve(info.clone(), &source).unwrap();
    assert_eq!(bundle.info, info);
    assert_eq!(bundle.key, None);
    assert_eq!(bundle.audio, None);
    holds_each_once(
        bundle.difficulties.characteristics(),
        vec![BeatmapCharacteristic::Standard, BeatmapCharacteristic::OneSaber],
    );
    for c in [BeatmapCharacteristic::Standard, BeatmapCharacteristic::OneSaber] {
        holds_each_once(bundle.difficulties.ranks(c), vec![EASY, EXPERT]);
    }
    let expect = |text: &String| Difficulty::from_text(text.as_bytes()).unwrap();
    assert_eq!(bundle.difficulties.get(BeatmapCharacteristic::Standard, EASY), Some(&expect(&files[0].1)));
    assert_eq!(bundle.difficulties.get(BeatmapCharacteristic::Standard, EXPERT), Some(&expect(&files[1].1)));
    assert_eq!(bundle.difficulties.get(BeatmapCharacteristic::OneSaber, EASY), Some(&expect(&files[2].1)));
    assert_eq!(bundle.difficulties.get(BeatmapCharacteristic::OneSaber, EXPERT), Some(&expect(&files[3].1)));
    assert_eq!(bundle.difficulties.get(BeatmapCharacteristic::NoArrows, EASY), None);
    assert_eq!(
        bundle.difficulties.get(BeatmapCharacteristic::Standard, Rank::Fixed(DifficultyRank::Hard)),
        None
    );
    assert!(bundle.difficulties.ranks(BeatmapCharacteristic::Lawless).is_empty());
}

#[test]
fn the_last_of_two_equal_ranks_stays() {
    let sets = [set_text(
        "Standard",
        &[
            entry_text("Easy", 1, "first.dat"),
            entry_text("Hard", 5, "other.dat"),
            entry_text("Easy", 1, "last.dat"),
        ],
    )];
    let source = source_of(&[
        ("first.dat", difficulty_text(10)),
        ("other.dat", difficulty_text(20)),
        ("last.dat", difficulty_text(30)),
    ]);
    let bundle = Beatmap::resolve(info_of(&sets), &source).unwrap();
    let easy = bundle.difficulties.get(BeatmapCharacteristic::Standard, EASY).unwrap();
    assert_eq!(easy.notes[0].time, Number::Unsigned(30));
    holds_each_once(
        bundle.difficulties.ranks(BeatmapCharacteristic::Standard),
        vec![EASY, Rank::Fixed(DifficultyRank::Hard)],
    );
}

#[test]
fn sets_of_one_characteristic_fill_one_key() {
    let sets = [
        set_text("Standard", &[entry_text("Easy", 1, "a.dat"), entry_text("Expert", 7, "b.dat")]),
        set_text("Standard", &[entry_text("Easy", 1, "c.dat")]),
        set_text("Lightshow", &[]),
    ];
    let source = source_of(&[
        ("a.dat", difficulty_text(1)),
        ("b.dat", difficulty_text(2)),
        ("c.dat", difficulty_text(3)),
    ]);
    let bundle = Beatmap::resolve(info_of(&sets), &source).unwrap();
    holds_each_once(
        bundle.difficulties.characteristics(),
        vec![BeatmapCharacteristic::Standard, BeatmapCharacteristic::Lightshow],
    );
    assert!(bundle.difficulties.has(BeatmapCharacteristic::Lightshow));
    assert!(!bundle.difficulties.has(BeatmapCharacteristic::OneSaber));
    assert!(bundle.difficulties.ranks(BeatmapCharacteristic::Lightshow).is_empty());
    let easy = bundle.difficulties.get(BeatmapCharacteristic::Standard, EASY).unwrap();
    assert_eq!(easy.notes[0].time, Number::Unsigned(3));
    let expert = bundle.difficulties.get(BeatmapCharacteristic::Standard, EXPERT).unwrap();
    assert_eq!(expert.notes[0].time, Number::Unsigned(2));
}

#[test]
fn a_missing_third_of_five_files_fails_the_whole() {
    let sets = [
        set_text("Standard", &[entry_text("Easy", 1, "1.dat"), entry_text("Normal", 3, "2.dat")]),
        set_text(
            "OneSaber",
            &[
                entry_text("Easy", 1, "3.dat"),
                entry_text("Normal", 3, "4.dat"),
                entry_text("Hard", 5, "5.dat"),
            ],
        ),
    ];
    let source = source_of(&[
        ("1.dat", difficulty_text(1)),
        ("2.dat", difficulty_text(2)),
        ("4.dat", difficulty_text(4)),
        ("5.dat", difficulty_text(5)),
    ]);
    assert_eq!(
        Beatmap::resolve(info_of(&sets), &source),
        Err(ResolutionError { entry: 2, cause: Failure::NotFound })
    );
}

#[test]
fn the_first_failure_is_the_one_reported() {
    let sets = [set_text(
        "Standard",
        &[
            entry_text("Easy", 1, "good.dat"),
            entry_text("Normal", 3, "broken.dat"),
            entry_text("Hard", 5, "missing.dat"),
            entry_text("Expert", 7, "old.dat"),
        ],
    )];
    let source = source_of(&[
        ("good.dat", difficulty_text(1)),
        ("broken.dat", "{\"_version\":\"2.0.0\"}".to_string()),
        ("old.dat", "{\"_version\":\"x\"}".to_string()),
    ]);
    assert_eq!(
        Beatmap::resolve(info_of(&sets), &source),
        Err(ResolutionError { entry: 1, cause: Failure::Decode(DecodeError::Field) })
    );
    let sets = [set_text("Standard", &[entry_text("Expert", 7, "old.dat")])];
    assert_eq!(
        Beatmap::resolve(info_of(&sets), &source),
        Err(ResolutionError { entry: 0, cause: Failure::Decode(DecodeError::SchemaVersion) })
    );
    let sets = [set_text("Standard", &[entry_text("Expert", 7, "bad.dat")])];
    let source = source_of(&[("bad.dat", "{".to_string())]);
    assert_eq!(
        Beatmap::resolve(info_of(&sets), &source),
        Err(ResolutionError { entry: 0, cause: Failure::Decode(DecodeError::Syntax) })
    );
}

#[test]
fn names_are_matched_exactly() {
    let sets = [set_text("Standard", &[entry_text("Easy", 1, "Easy.dat")])];
    let source = source_of(&[("easy.dat", difficulty_text(1)), ("Easy.dat ", difficulty_text(2))]);
    assert_eq!(
        Beatmap::resolve(info_of(&sets), &source),
        Err(ResolutionError { entry: 0, cause: Failure::NotFound })
    );
    assert!(source.open("easy.dat").is_some());
    assert!(source.open("Easy.dat").is_none());
    assert!(source.open("EASY.DAT").is_none());
    assert!(source.open("").is_none());
}

#[test]
fn the_first_entry_of_a_name_is_opened() {
    let mut source = DocumentSource::new();
    assert!(source.open("a").is_none());
    source.add("a".to_string(), vec![1]);
    source.add("b".to_string(), vec![2]);
    source.add("a".to_string(), vec![3]);
    assert_eq!(source.open("a"), Some(&vec![1]));
    assert_eq!(source.open("b"), Some(&vec![2]));
    assert_eq!(source.open("c"), None);
}

#[test]
fn an_info_without_sets_resolves_to_an_empty_map() {
    let bundle = Beatmap::resolve(info_of(&[]), &DocumentSource::new()).unwrap();
    assert!(bundle.difficulties.characteristics().is_empty());
    assert_eq!(bundle.difficulties.get(BeatmapCharacteristic::Standard, EASY), None);
}

#[test]
fn a_map_is_loaded_from_a_source() {
    let sets = [set_text("NoArrows", &[entry_text("Easy", 1, "Easy.dat")])];
    let source = source_of(&[("info.dat", info_text(&sets)), ("Easy.dat", difficulty_text(9))]);
    let bundle = Beatmap::from_source(&source, "info.dat").unwrap();
    assert_eq!(bundle.info.song_name, "Song");
    assert_eq!(
        bundle.difficulties.get(BeatmapCharacteristic::NoArrows, EASY).unwrap().notes[0].time,
        Number::Unsigned(9)
    );
    assert_eq!(Beatmap::from_source(&source, "Info.dat"), Err(LoadError::Io));
    assert_eq!(
        Beatmap::from_source(&source, "Easy.dat"),
        Err(LoadError::Decode(DecodeError::Field))
    );
    let source = source_of(&[("info.dat", info_text(&sets))]);
    assert_eq!(
        Beatmap::from_source(&source, "info.dat"),
        Err(LoadError::Resolution(ResolutionError { entry: 0, cause: Failure::NotFound }))
    );
    let source = source_of(&[("info.dat", "{\"_version\":\"7.0.0\"}".to_string())]);
    assert_eq!(
        Beatmap::from_source(&source, "info.dat"),
        Err(LoadError::Decode(DecodeError::SchemaVersion))
    );
    let source = source_of(&[("info.dat", "".to_string())]);
    assert_eq!(
        Beatmap::from_source(&source, "info.dat"),
        Err(LoadError::Decode(DecodeError::Syntax))
    );
}

#[test]
fn one_declaration_is_fetched_and_read() {
    let sets = [set_text("Standard", &[entry_text("Easy", 1, "Easy.dat")])];
    let info = info_of(&sets);
    let declared = info.declarations();
    let source = source_of(&[("Easy.dat", difficulty_text(5))]);
    assert_eq!(fetch(&declared[0], &source).unwrap().notes[0].time, Number::Unsigned(5));
    assert_eq!(fetch(&declared[0], &DocumentSource::new()), Err(Failure::NotFound));
}

#[test]
fn key_and_audio_are_added_to_a_map() {
    let bundle = Beatmap::resolve(info_of(&[]), &DocumentSource::new()).unwrap();
    let stream = VorbisStream { channels: 2, sample_rate: 44100, length_in_samples: Some(441000) };
    let other = VorbisStream { channels: 1, sample_rate: 8000, length_in_samples: None };
    let formats =
        vec![AudioFormat::Skeleton, AudioFormat::Vorbis(stream), AudioFormat::Vorbis(other)];
    let bundle = bundle.with_key("3cf5".to_string()).with_audio(&formats);
    assert_eq!(bundle.key, Some("3cf5".to_string()));
    assert_eq!(bundle.audio, Some(stream));
    assert_eq!(bundle.audio.unwrap().sample_count(), 441000);
    assert_eq!(other.sample_count(), 1);
    let bundle = bundle.with_audio(&vec![AudioFormat::Opus, AudioFormat::Unknown]);
    assert_eq!(bundle.audio, None);
    assert_eq!(bundle.key, Some("3cf5".to_string()));
    assert_eq!(first_vorbis(&vec![]), None);
    assert_eq!(first_vorbis(&vec![AudioFormat::Theora, AudioFormat::Speex]), None);
}

#[test]
fn from_file_dat() {
    let sets = [
        set_text("Standard", &[entry_text("Easy", 1, "Easy.dat"), entry_text("Expert", 7, "Expert.dat")]),
        set_text("OneSaber", &[entry_text("Hard", 5, "OneSaberHard.dat")]),
    ];
    let source = source_of(&[
        ("info.dat", info_text(&sets)),
        ("Easy.dat", difficulty_text(1)),
        ("Expert.dat", difficulty_text(2)),
        ("OneSaberHard.dat", difficulty_text(3)),
    ]);
    let result = Beatmap::from_source(&source, "info.dat").unwrap();
    println!("{:#?}", result);
    assert_eq!(result.key, None);
    holds_each_once(
        result.difficulties.characteristics(),
        vec![BeatmapCharacteristic::Standard, BeatmapCharacteristic::OneSaber],
    );
}

#[test]
fn from_beatsaver_key() {
    let sets = [set_text("Standard", &[entry_text("Easy", 1, "Easy.dat")])];
    let source = source_of(&[("info.dat", info_text(&sets)), ("Easy.dat", difficulty_text(1))]);
    let result = Beatmap::from_source(&source, "info.dat").unwrap().with_key(String::from("3cf5"));
    println!("{:#?}", result);
    assert_eq!(result.key, Some("3cf5".to_string()));
    assert!(result.difficulties.get(BeatmapCharacteristic::Standard, EASY).is_some());
}
