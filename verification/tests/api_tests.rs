use pokebot::api::{
    added_entry, file_url, visible_playlist, AuthorizationRejection, Error, JsonRejection,
    JsonRejectionKind, PutState, StateCommand,
};
use pokebot::db_util::Duration;
use pokebot::youtube_dl::AudioMetadata;

fn entry(id: i64) -> AudioMetadata {
    AudioMetadata {
        id,
        uri: format!("file:///music/{id}.mp3"),
        webpage_url: None,
        title: format!("Song {id}"),
        artist: None,
        album: None,
        thumbnail: Some(String::from("https://example.org/t.jpg")),
        duration: Some(Duration::from_millis(1000)),
        added_by: String::from("user"),
    }
}

#[test]
fn error_statuses() {
    assert_eq!(Error::NotFound.status(), 404);
    assert_eq!(Error::RequiredField(String::from("file")).status(), 400);
    assert_eq!(Error::Internal(vec![String::from("boom")]).status(), 500);
    let rej = JsonRejection {
        kind: JsonRejectionKind::Other,
        display: String::from("Expected request with `Content-Type: application/json`"),
        source: None,
    };
    assert_eq!(Error::JsonRejection(rej).status(), 400);
}

#[test]
fn error_messages() {
    assert_eq!(Error::NotFound.message(), "Not Found");
    assert_eq!(Error::RequiredField(String::from("file")).message(), "Field 'file' is missing");
    let internal = Error::Internal(vec![String::from("Failed to get songs"), String::from("no such table")]);
    assert_eq!(internal.message(), "Failed to get songs");
    assert_eq!(
        internal.log_line(),
        Some(String::from("API encountered error: Failed to get songs: no such table"))
    );
    assert_eq!(Error::NotFound.log_line(), None);
    let data = JsonRejection {
        kind: JsonRejectionKind::DataError,
        display: String::from("Failed to deserialize the JSON body into the target type"),
        source: Some(String::from("missing field `id` at line 1 column 2")),
    };
    assert_eq!(Error::JsonRejection(data.clone()).message(), "missing field `id` at line 1 column 2");
    assert_eq!(
        Error::JsonRejection(data).display(),
        "Failed to deserialize the JSON body into the target type"
    );
    let other = JsonRejection {
        kind: JsonRejectionKind::Other,
        display: String::from("Expected request with `Content-Type: application/json`"),
        source: None,
    };
    assert_eq!(
        Error::JsonRejection(other).message(),
        "Expected request with `Content-Type: application/json`"
    );
}

#[test]
fn authorization_rejections() {
    assert_eq!(AuthorizationRejection::Extension(String::from("x")).status(), 500);
    assert_eq!(AuthorizationRejection::Generic(String::from("x")).status(), 500);
    assert_eq!(AuthorizationRejection::Headers(String::from("Header of type `authorization` was missing")).status(), 401);
    assert_eq!(AuthorizationRejection::InvalidToken.status(), 401);
    assert_eq!(AuthorizationRejection::Unauthorized.status(), 401);
    assert_eq!(AuthorizationRejection::ExpiredToken.status(), 401);
    assert_eq!(AuthorizationRejection::InvalidToken.message(), "Invalid session, please login again");
    assert_eq!(AuthorizationRejection::Unauthorized.message(), "Unauthorized");
    assert_eq!(
        AuthorizationRejection::ExpiredToken.message(),
        "Your session has expired, please login again"
    );
    assert_eq!(AuthorizationRejection::Generic(String::from("oops")).message(), "oops");
}

#[test]
fn state_changes_become_commands_in_order() {
    let all = PutState { playing: Some(true), volume: Some(0.3), seek: Some(Duration::from_millis(5000)), next: true };
    assert_eq!(
        all.commands(),
        vec![
            StateCommand::Play,
            StateCommand::Volume(0.3),
            StateCommand::SeekTo(Duration::from_millis(5000)),
            StateCommand::Next
        ]
    );
    let pause = PutState::<f64> { playing: Some(false), volume: None, seek: None, next: false };
    assert_eq!(pause.commands(), vec![StateCommand::Pause]);
    let nothing = PutState::<f64> { playing: None, volume: None, seek: None, next: false };
    assert!(nothing.commands().is_empty());
}

#[test]
fn playlist_without_thumbnails() {
    assert!(matches!(visible_playlist(None), Err(Error::NotFound)));
    let shown = visible_playlist(Some(vec![entry(1), entry(2)])).unwrap();
    assert_eq!(shown.len(), 2);
    assert_eq!(shown[0].id, 1);
    assert_eq!(shown[1].id, 2);
    assert!(shown.iter().all(|m| m.thumbnail.is_none()));
    assert_eq!(shown[1].title, "Song 2");
}

#[test]
fn added_entry_is_last_of_playlist_or_current() {
    assert_eq!(added_entry(vec![entry(1), entry(2)], Some(entry(9))).id, 2);
    assert_eq!(added_entry(Vec::new(), Some(entry(9))).id, 9);
}

#[test]
fn file_urls() {
    assert_eq!(file_url("/music/a.mp3"), "file:///music/a.mp3");
}
