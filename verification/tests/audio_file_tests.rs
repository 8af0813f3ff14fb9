use pokebot::audio_file::{
    generate_cover_path, generate_file_path, read_song_tags, scanned_song_metadata, song_tags,
    PictureInfo, SongMetadata, TagFields,
};
use pokebot::api::Error;
use pokebot::db_util::Duration;

fn is_uuid_v4(s: &str) -> bool {
    s.len() == 36
        && s.chars().enumerate().all(|(i, c)| {
            if [8, 13, 18, 23].contains(&i) {
                c == '-'
            } else {
                c.is_ascii_digit() || ('a'..='f').contains(&c)
            }
        })
        && s.as_bytes()[14] == b'4'
        && [b'8', b'9', b'a', b'b'].contains(&s.as_bytes()[19])
}

#[test]
fn file_paths() {
    let p = generate_file_path("flac");
    assert_eq!(p.len(), 41);
    assert!(is_uuid_v4(&p[..36]));
    assert_eq!(&p[36..], ".flac");
    assert_ne!(generate_file_path("flac"), p);
}

#[test]
fn cover_paths() {
    let p = generate_cover_path();
    assert!(p.starts_with("covers/"));
    assert!(p.ends_with(".jpg"));
    assert!(is_uuid_v4(&p[7..43]));
}

fn meta(title: Option<&str>, artist: Option<&str>) -> SongMetadata {
    SongMetadata {
        track: Some(3),
        title: title.map(String::from),
        artist: artist.map(String::from),
        album: Some(String::from("Album")),
        cover_path: Some(String::from("covers/x.jpg")),
        duration: Duration::from_millis(1000),
    }
}

#[test]
fn scanned_files_need_title_artist_and_new_file() {
    let (id, put) = scanned_song_metadata(meta(Some("T"), Some("A")), Some(7)).unwrap();
    assert_eq!(id, 7);
    assert_eq!(put.title, "T");
    assert_eq!(put.artist, "A");
    assert_eq!(put.track, Some(3));
    assert_eq!(put.album, Some(String::from("Album")));
    assert_eq!(put.cover_path, Some(String::from("covers/x.jpg")));
    assert_eq!(put.disc_number, None);
    assert!(scanned_song_metadata(meta(None, Some("A")), Some(7)).is_none());
    assert!(scanned_song_metadata(meta(Some("T"), None), Some(7)).is_none());
    assert!(scanned_song_metadata(meta(Some("T"), Some("A")), None).is_none());
}

#[test]
fn tags_pick_last_front_cover() {
    let fields = TagFields {
        track: Some(5),
        title: Some(String::from("T")),
        artist: None,
        album: Some(String::from("Al")),
        pictures: vec![
            PictureInfo { kind: 3, data: vec![1] },
            PictureInfo { kind: 4, data: vec![2] },
            PictureInfo { kind: 3, data: vec![3] },
            PictureInfo { kind: 0, data: vec![4] },
        ],
    };
    let tags = song_tags(Some(fields), Duration::from_millis(2500));
    assert_eq!(tags.track, Some(5));
    assert_eq!(tags.title, Some(String::from("T")));
    assert_eq!(tags.artist, None);
    assert_eq!(tags.album, Some(String::from("Al")));
    assert_eq!(tags.cover, Some(vec![3]));
    assert_eq!(tags.duration, Duration::from_millis(2500));
    let m = tags.into_metadata(Some(String::from("covers/c.jpg")));
    assert_eq!(m.cover_path, Some(String::from("covers/c.jpg")));
    assert_eq!(m.track, Some(5));
}

#[test]
fn tags_without_tag() {
    let tags = song_tags(None, Duration::from_millis(10));
    assert!(tags.track.is_none() && tags.title.is_none() && tags.artist.is_none());
    assert!(tags.album.is_none() && tags.cover.is_none());
}

fn wav(seconds: u32) -> Vec<u8> {
    let rate: u32 = 8000;
    let data_len = rate * seconds;
    let mut v = Vec::new();
    v.extend_from_slice(b"RIFF");
    v.extend_from_slice(&(36 + data_len).to_le_bytes());
    v.extend_from_slice(b"WAVE");
    v.extend_from_slice(b"fmt ");
    v.extend_from_slice(&16u32.to_le_bytes());
    v.extend_from_slice(&1u16.to_le_bytes());
    v.extend_from_slice(&1u16.to_le_bytes());
    v.extend_from_slice(&rate.to_le_bytes());
    v.extend_from_slice(&rate.to_le_bytes());
    v.extend_from_slice(&1u16.to_le_bytes());
    v.extend_from_slice(&8u16.to_le_bytes());
    v.extend_from_slice(b"data");
    v.extend_from_slice(&data_len.to_le_bytes());
    v.extend(std::iter::repeat(128u8).take(data_len as usize));
    v
}

#[test]
fn reads_untagged_wav() {
    let tags = read_song_tags(&wav(2)).unwrap();
    assert!(tags.title.is_none());
    assert!(tags.cover.is_none());
    assert_eq!(tags.duration.secs, 2);
}

#[test]
fn unreadable_bytes_are_an_internal_error() {
    match read_song_tags(b"definitely not audio") {
        Err(Error::Internal(chain)) => {
            assert_eq!(chain.len(), 2);
            assert!(chain[0] == "Failed to read song for tags" || chain[0] == "Failed to guess file type");
        },
        other => panic!("unexpected {:?}", other.map(|t| t.duration)),
    }
}

#[test]
fn empty_bytes_are_an_internal_error() {
    match read_song_tags(&[]) {
        Err(Error::Internal(chain)) => {
            assert_eq!(chain.len(), 2);
            assert_eq!(chain[0], "Failed to read song for tags");
        },
        other => panic!("unexpected {:?}", other.map(|t| t.duration)),
    }
}
