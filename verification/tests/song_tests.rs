use pokebot::album::{assemble_albums, AlbumMetadata};
use pokebot::song::{sort_by_track, DbSongMetadata, PutSongMetadata, Song};
use std::cmp::Ordering;

fn song(id: i64, track: Option<i64>) -> Song {
    Song {
        id,
        track,
        title: format!("Song {id}"),
        artist: String::from("Artist"),
        album: Some(String::from("Album")),
        disc_number: None,
        file_id: id,
        favourite_count: 0,
        created_at: 0,
    }
}

fn ids(songs: &[Song]) -> Vec<i64> {
    songs.iter().map(|s| s.id).collect()
}

#[test]
fn songs_are_equal_by_id() {
    assert!(song(1, Some(1)) == song(1, Some(5)));
    assert!(song(1, Some(1)) != song(2, Some(1)));
}

#[test]
fn songs_are_ordered_by_track() {
    assert_eq!(song(1, None).partial_cmp(&song(2, Some(1))), Some(Ordering::Less));
    assert_eq!(song(1, Some(3)).partial_cmp(&song(2, Some(1))), Some(Ordering::Greater));
    assert_eq!(song(1, Some(3)).partial_cmp(&song(2, Some(3))), Some(Ordering::Equal));
    assert_eq!(song(1, None).partial_cmp(&song(2, None)), Some(Ordering::Equal));
}

#[test]
fn sort_orders_by_track_and_is_stable() {
    let songs = vec![
        song(1, Some(3)),
        song(2, None),
        song(3, Some(1)),
        song(4, Some(3)),
        song(5, None),
        song(6, Some(2)),
    ];
    let sorted = sort_by_track(songs);
    assert_eq!(ids(&sorted), vec![2, 5, 3, 6, 1, 4]);
}

#[test]
fn sorting_sorted_songs_changes_nothing() {
    let songs = vec![song(1, None), song(2, Some(1)), song(3, Some(1)), song(4, Some(7))];
    let sorted = sort_by_track(songs);
    assert_eq!(ids(&sorted), vec![1, 2, 3, 4]);
    let again = sort_by_track(sorted);
    assert_eq!(ids(&again), vec![1, 2, 3, 4]);
}

#[test]
fn sort_of_nothing() {
    assert!(sort_by_track(Vec::new()).is_empty());
}

#[test]
fn song_row_from_user_metadata() {
    let put = PutSongMetadata {
        track: Some(4),
        title: String::from("Title"),
        artist: String::from("Artist"),
        album: Some(String::from("Album")),
        disc_number: Some(2),
        cover_path: None,
    };
    let row = DbSongMetadata::new(put, 11, Some(12), 13, 1_700_000_000, "uid");
    assert_eq!(row.track, Some(4));
    assert_eq!(row.title, "Title");
    assert_eq!(row.artist_id, 11);
    assert_eq!(row.album_id, Some(12));
    assert_eq!(row.disc_number, Some(2));
    assert_eq!(row.file_id, 13);
    assert_eq!(row.created_at, 1_700_000_000);
    assert_eq!(row.created_by, "uid");
}

fn album(id: i64) -> AlbumMetadata {
    AlbumMetadata {
        id,
        title: format!("Album {id}"),
        artist: String::from("Artist"),
        cover: None,
        created_at: 10,
    }
}

#[test]
fn albums_with_sorted_songs_and_no_album_entry() {
    let entries = vec![
        (album(1), vec![song(1, Some(2)), song(2, Some(1))]),
        (album(2), vec![song(3, None)]),
    ];
    let albumless = vec![song(5, Some(9)), song(4, Some(1))];
    let albums = assemble_albums(entries, albumless);
    assert_eq!(albums.len(), 3);
    assert_eq!(albums[0].metadata.id, 1);
    assert_eq!(ids(&albums[0].songs), vec![2, 1]);
    assert_eq!(albums[1].metadata.id, 2);
    assert_eq!(ids(&albums[1].songs), vec![3]);
    let last = &albums[2];
    assert_eq!(last.metadata.id, -1);
    assert_eq!(last.metadata.title, "No Album");
    assert_eq!(last.metadata.artist, "Unknown Artist");
    assert_eq!(last.metadata.cover, None);
    assert_eq!(last.metadata.created_at, 0);
    // The songs without an album keep the order they came in.
    assert_eq!(ids(&last.songs), vec![5, 4]);
}

#[test]
fn no_album_entry_only_when_needed() {
    let albums = assemble_albums(vec![(album(1), vec![song(1, None)])], Vec::new());
    assert_eq!(albums.len(), 1);
    assert!(assemble_albums(Vec::new(), Vec::new()).is_empty());
}
