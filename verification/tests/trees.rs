use beatsaber_map::beatmap::{BeatmapCharacteristic, DifficultyRank, Rank};
use beatsaber_map::difficulty::{Difficulty, LineIndex, NoteType};
use beatsaber_map::json::{Json, Member, Number};
use beatsaber_map::schema::Record;
use beatsaber_map::table::{DifficultyTable, Slot};
use beatsaber_map::version::{select_revision, Revision, Version};

#[test]
fn numbers_are_read_in_three_forms() {
    assert_eq!(Json::parse(b"0"), Some(Json::Number(Number::Unsigned(0))));
    assert_eq!(
        Json::parse(b"18446744073709551615"),
        Some(Json::Number(Number::Unsigned(u64::MAX)))
    );
    assert_eq!(Json::parse(b"-1"), Some(Json::Number(Number::Negative(-1))));
    assert_eq!(
        Json::parse(b"-9223372036854775808"),
        Some(Json::Number(Number::Negative(i64::MIN)))
    );
    assert_eq!(Json::parse(b"1.5"), Some(Json::Number(Number::Real("1.5".to_string()))));
    assert_eq!(Json::parse(b"1.0"), Some(Json::Number(Number::Real("1.0".to_string()))));
    assert_eq!(Json::parse(b"-0.25"), Some(Json::Number(Number::Real("-0.25".to_string()))));
}

#[test]
fn trees_are_read_from_text() {
    let tree = Json::parse(b" {\"b\": [true, null, \"x\"], \"a\": {\"n\": -2}} ").unwrap();
    assert_eq!(
        tree.get("b"),
        Some(&Json::Array(vec![Json::Bool(true), Json::Null, Json::Text("x".to_string())]))
    );
    assert_eq!(tree.get("a").unwrap().get("n").unwrap().as_signed(), Some(-2));
    assert_eq!(tree.get("c"), None);
    assert_eq!(tree.get("B"), None);
    assert_eq!(tree.get(""), None);
    assert_eq!(tree.get("b").unwrap().as_array().unwrap().len(), 3);
    assert_eq!(tree.get("b").unwrap().get("a"), None);
    assert_eq!(Json::parse(b"{\"a\":1,}"), None);
    assert_eq!(Json::parse(b"[1 2]"), None);
    assert_eq!(Json::parse(b""), None);
}

#[test]
fn the_first_member_of_a_name_is_the_field() {
    let tree = Json::Object(vec![
        Member { key: "a".to_string(), value: Json::Bool(false) },
        Member { key: "b".to_string(), value: Json::Null },
        Member { key: "a".to_string(), value: Json::Bool(true) },
    ]);
    assert_eq!(tree.get("a"), Some(&Json::Bool(false)));
    assert_eq!(tree.get("b"), Some(&Json::Null));
}

#[test]
fn accessors_tell_the_shapes_apart() {
    let text = Json::Text("t".to_string());
    assert_eq!(text.as_text(), Some(&"t".to_string()));
    assert_eq!(text.as_number(), None);
    assert_eq!(text.as_unsigned(), None);
    assert!(text.as_array().is_none());
    let big = Json::Number(Number::Unsigned(1 << 63));
    assert_eq!(big.as_unsigned(), Some(1 << 63));
    assert_eq!(big.as_signed(), None);
    assert_eq!(Json::Number(Number::Unsigned(i64::MAX as u64)).as_signed(), Some(i64::MAX));
    assert_eq!(Json::Number(Number::Negative(-7)).as_unsigned(), None);
    assert_eq!(Json::Number(Number::Real("1.0".to_string())).as_unsigned(), None);
    assert_eq!(Json::Number(Number::Real("1.0".to_string())).as_signed(), None);
}

#[test]
fn scalars_are_read_within_their_range() {
    let r = Revision::Second;
    assert_eq!(u8::read(&Json::Number(Number::Unsigned(255)), r), Some(255));
    assert_eq!(u8::read(&Json::Number(Number::Unsigned(256)), r), None);
    assert_eq!(u32::read(&Json::Number(Number::Unsigned(4294967295)), r), Some(u32::MAX));
    assert_eq!(u32::read(&Json::Number(Number::Unsigned(4294967296)), r), None);
    assert_eq!(i32::read(&Json::Number(Number::Unsigned(2147483647)), r), Some(i32::MAX));
    assert_eq!(i32::read(&Json::Number(Number::Unsigned(2147483648)), r), None);
    assert_eq!(i32::read(&Json::Number(Number::Negative(-2147483648)), r), Some(i32::MIN));
    assert_eq!(i32::read(&Json::Number(Number::Negative(-2147483649)), r), None);
    assert_eq!(i32::read(&Json::Number(Number::Real("1.0".to_string())), r), None);
    assert_eq!((-5i32).write(), Json::Number(Number::Negative(-5)));
    assert_eq!(5i32.write(), Json::Number(Number::Unsigned(5)));
    assert_eq!(7u8.write(), Json::Number(Number::Unsigned(7)));
    assert_eq!("x".to_string().write(), Json::Text("x".to_string()));
    assert_eq!(String::read(&Json::Null, r), None);
    assert_eq!(
        Vec::<u8>::read(&Json::parse(b"[1,2,3]").unwrap(), r),
        Some(vec![1, 2, 3])
    );
    assert_eq!(Vec::<u8>::read(&Json::parse(b"[1,256,3]").unwrap(), r), None);
    assert_eq!(Vec::<u8>::read(&Json::parse(b"{}").unwrap(), r), None);
    assert_eq!(vec![1u8, 2].write(), Json::parse(b"[1,2]").unwrap());
}

#[test]
fn enumerations_are_written_as_their_numbers() {
    assert_eq!(LineIndex::FarRight.write(), Json::Number(Number::Unsigned(3)));
    assert_eq!(NoteType::Bomb.write(), Json::Number(Number::Unsigned(3)));
    assert_eq!(NoteType::Blue.write(), Json::Number(Number::Unsigned(1)));
    assert_eq!(DifficultyRank::ExpertPlus.write(), Json::Number(Number::Unsigned(9)));
    assert_eq!(Rank::Free(12).write(), Json::Number(Number::Unsigned(12)));
    assert_eq!(Rank::Fixed(DifficultyRank::Hard).write(), Json::Number(Number::Unsigned(5)));
    assert_eq!(BeatmapCharacteristic::NoArrows.write(), Json::Text("NoArrows".to_string()));
    assert_eq!(
        BeatmapCharacteristic::read(&Json::Text("Lawless".to_string()), Revision::First),
        Some(BeatmapCharacteristic::Lawless)
    );
    assert_eq!(
        Rank::read(&Json::Number(Number::Unsigned(5)), Revision::First),
        Some(Rank::Free(5))
    );
    assert_eq!(
        Rank::read(&Json::Number(Number::Unsigned(5)), Revision::Second),
        Some(Rank::Fixed(DifficultyRank::Hard))
    );
    assert_eq!(Rank::read(&Json::Number(Number::Unsigned(6)), Revision::Second), None);
}

#[test]
fn versions_are_read_as_three_numbers() {
    let v = Version::parse("2.10.3").unwrap();
    assert_eq!((v.major, v.minor, v.patch), (2, 10, 3));
    assert_eq!(v.text, "2.10.3");
    let v = Version::parse("1.2.3-alpha.1+build").unwrap();
    assert_eq!((v.major, v.minor, v.patch), (1, 2, 3));
    assert_eq!(v.text, "1.2.3-alpha.1+build");
    for bad in ["1.0", "1", "", "a.b.c", "1.0.0 ", "01.0.0", "1.0.0-"] {
        assert!(Version::parse(bad).is_none(), "{}", bad);
    }
    assert_eq!(v.write(), Json::Text("1.2.3-alpha.1+build".to_string()));
}

#[test]
fn revisions_are_selected_by_major_number() {
    assert_eq!(select_revision(1), Some(Revision::First));
    assert_eq!(select_revision(2), Some(Revision::Second));
    assert_eq!(select_revision(0), None);
    assert_eq!(select_revision(3), None);
    assert_eq!(select_revision(u64::MAX), None);
}

fn has_each_once<T: PartialEq + std::fmt::Debug>(found: Vec<T>, expected: Vec<T>) {
    assert_eq!(found.len(), expected.len(), "{:?}", found);
    for item in &expected {
        assert!(found.contains(item), "{:?} lacks {:?}", found, item);
    }
}

fn document(time: u32) -> Difficulty {
    let text = format!(
        "{{\"_version\":\"2.0.0\",\"_BPMChanges\":[],\"_events\":[],\"_notes\":[{{\"_time\":{},\"_lineIndex\":1,\"_lineLayer\":0,\"_type\":0,\"_cutDirection\":1}}],\"_obstacles\":[],\"_bookmarks\":[]}}",
        time
    );
    Difficulty::from_text(text.as_bytes()).unwrap()
}

#[test]
fn a_table_keeps_the_last_document_of_a_slot() {
    let easy = Rank::Fixed(DifficultyRank::Easy);
    let hard = Rank::Fixed(DifficultyRank::Hard);
    let standard = BeatmapCharacteristic::Standard;
    let lawless = BeatmapCharacteristic::Lawless;
    let mut table = DifficultyTable::new();
    assert!(table.characteristics().is_empty());
    assert_eq!(table.get(standard, easy), None);
    table.insert(Slot { characteristic: standard, rank: easy }, document(1));
    table.insert(Slot { characteristic: standard, rank: hard }, document(2));
    table.insert(Slot { characteristic: lawless, rank: easy }, document(3));
    table.insert(Slot { characteristic: standard, rank: easy }, document(4));
    table.declare(BeatmapCharacteristic::OneSaber);
    table.declare(standard);
    assert_eq!(table.get(standard, easy), Some(&document(4)));
    assert_eq!(table.get(standard, hard), Some(&document(2)));
    assert_eq!(table.get(lawless, easy), Some(&document(3)));
    assert_eq!(table.get(lawless, hard), None);
    assert_eq!(table.get(standard, Rank::Free(1)), None);
    has_each_once(table.characteristics(), vec![standard, lawless, BeatmapCharacteristic::OneSaber]);
    has_each_once(table.ranks(standard), vec![easy, hard]);
    has_each_once(table.ranks(lawless), vec![easy]);
    assert!(table.ranks(BeatmapCharacteristic::OneSaber).is_empty());
    assert!(table.has(BeatmapCharacteristic::OneSaber));
    assert!(!table.has(BeatmapCharacteristic::NoArrows));
}
