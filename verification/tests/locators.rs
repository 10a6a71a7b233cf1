use beatsaber_map::bundle::LoadError;
use beatsaber_map::locator::{download_location, extract_key};

#[test]
fn keys_are_taken_from_page_locators() {
    assert_eq!(extract_key("https://example.com/beatmap/570"), Ok("570".to_string()));
    assert_eq!(extract_key("https://example.com/beatmap/570/"), Ok("570".to_string()));
    assert_eq!(extract_key("https://beatsaver.com/beatmap/1fef"), Ok("1fef".to_string()));
    assert_eq!(extract_key("https://example.com/beatmap/570///"), Ok("570".to_string()));
    assert_eq!(extract_key("https://example.com/beatmap/a/b"), Ok("b".to_string()));
}

#[test]
fn keys_are_taken_from_download_locators() {
    assert_eq!(
        extract_key("https://beatsaver.com/api/download/key/3cf5"),
        Ok("3cf5".to_string())
    );
    assert_eq!(extract_key("https://h/api/download/key/3cf5/"), Ok("3cf5".to_string()));
}

#[test]
fn keys_are_taken_from_scheme_locators() {
    assert_eq!(extract_key("beatsaver://3cf5"), Ok("3cf5".to_string()));
    assert_eq!(extract_key("beatsaver://3cf5/"), Ok("3cf5".to_string()));
    assert_eq!(extract_key("x://\u{e9}t\u{e9}"), Ok("\u{e9}t\u{e9}".to_string()));
}

#[test]
fn other_locators_are_refused() {
    for bad in [
        "ftp://example.com/beatmap/570",
        "http://example.com/beatmap/570",
        "https://example.com/beatmap/",
        "https://example.com/beatmap",
        "https://example.com/api/download/key/",
        "https://example.com/api/download/570",
        "https://example.com/other/570",
        "https:///beatmap/570",
        "beatsaver://",
        "beatsaver:///",
        "beatsaver:/3cf5",
        "://3cf5",
        "/a://3cf5",
        "3cf5",
        "",
        "beatsaver://a/b",
    ] {
        assert_eq!(extract_key(bad), Err(LoadError::InvalidReference), "{}", bad);
    }
}

#[test]
fn an_archive_is_fetched_from_its_key() {
    assert_eq!(download_location("3cf5"), "https://beatsaver.com/api/download/key/3cf5");
    assert_eq!(extract_key(&download_location("3cf5")), Ok("3cf5".to_string()));
}

#[test]
fn from_beatsaver_url() {
    let result = extract_key("https://beatsaver.com/beatmap/1fef").unwrap();
    println!("{:#?}", result);
    assert_eq!(download_location(&result), "https://beatsaver.com/api/download/key/1fef");
}
