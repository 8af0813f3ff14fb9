use pokebot::text::{file_extension, join_error_chain, str_contains};
use pokebot::youtube_dl::{should_retry, AudioMetadata};

#[test]
fn error_chain_on_one_line() {
    assert_eq!(join_error_chain(&vec![String::from("outer")]), "outer");
    assert_eq!(
        join_error_chain(&vec![
            String::from("Failed to insert album"),
            String::from("database is locked"),
            String::from("busy"),
        ]),
        "Failed to insert album: database is locked: busy"
    );
}

#[test]
fn substring_search() {
    assert!(str_contains("hello world", "lo w"));
    assert!(str_contains("hello", ""));
    assert!(str_contains("abc", "abc"));
    assert!(!str_contains("abc", "abcd"));
    assert!(!str_contains("aab", "ba"));
    assert!(str_contains("grüße", "üß"));
}

#[test]
fn extensions() {
    assert_eq!(file_extension("song.mp3"), "mp3");
    assert_eq!(file_extension("archive.tar.gz"), "gz");
    assert_eq!(file_extension("README"), "README");
    assert_eq!(file_extension("trailing."), "");
    assert_eq!(file_extension(""), "");
    assert_eq!(file_extension(".hidden"), "hidden");
}

#[test]
fn retry_only_flaky_failures() {
    assert!(should_retry("ERROR: [youtube] abc: Unable to extract video data; please report"));
    assert!(!should_retry("ERROR: Video unavailable"));
    assert!(!should_retry(""));
}

fn metadata(album: Option<&str>) -> AudioMetadata {
    AudioMetadata {
        id: 1,
        uri: String::from("https://example.org/a.webm"),
        webpage_url: None,
        title: String::from("Title"),
        artist: None,
        album: album.map(String::from),
        thumbnail: None,
        duration: None,
        added_by: String::from("user"),
    }
}

#[test]
fn full_titles() {
    assert_eq!(metadata(None).full_title(), "Title");
    assert_eq!(metadata(Some("Album")).full_title(), "Title - Album");
}
