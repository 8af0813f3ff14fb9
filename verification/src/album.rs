use vstd::prelude::*;

use crate::song::{sort_by_track, sorted_by_track, stable_arrangement, Song};

verus! {

/// The artist shown for songs that belong to no album.
pub const DEFAULT_ARTIST: &'static str = "Unknown Artist";

/// The description of an album.
#[derive(Debug, Clone)]
pub struct AlbumMetadata {
    pub id: i64,
    pub title: String,
    pub artist: String,
    pub cover: Option<String>,
    /// A unix timestamp of when the album was added.
    pub created_at: i64,
}

/// An album with its songs.
#[derive(Debug, Clone)]
pub struct Album {
    pub metadata: AlbumMetadata,
    pub songs: Vec<Song>,
}

/// Which songs a catalogue query asks for.
#[derive(Debug, Clone, Copy, PartialEq, Eq)]
pub enum AlbumFilter {
    /// The songs of the album with this id.
    Id(i64),
    /// The songs that belong to no album.
    Albumless,
    /// All songs.
    Any,
}

/// The entry that collects the songs without an album.
pub open spec fn is_no_album_entry(album: Album, songs: Seq<Song>) -> bool {
    &&& album.metadata.id == -1
    &&& album.metadata.title@ == "No Album"@
    &&& album.metadata.artist@ == "Unknown Artist"@
    &&& album.metadata.cover is None
    &&& album.metadata.created_at == 0
    &&& album.songs@ == songs
}

/// The album list of the catalogue: each album with its songs in album
/// order, in the order the albums came, followed, when there are songs
/// without an album, by an entry "No Album" that holds them as they came.
pub fn assemble_albums(entries: Vec<(AlbumMetadata, Vec<Song>)>, albumless: Vec<Song>) -> (albums:
    Vec<Album>)
    ensures
        albums@.len() == entries@.len() + if albumless@.len() > 0 {
            1int
        } else {
            0int
        },
        forall|i: int|
            0 <= i < entries@.len() ==> {
                &&& (#[trigger] albums@[i]).metadata == entries@[i].0
                &&& sorted_by_track(albums@[i].songs@)
                &&& albums@[i].songs@.to_multiset() == entries@[i].1@.to_multiset()
                &&& exists|p: Seq<int>| stable_arrangement(entries@[i].1@, albums@[i].songs@, p)
            },
        albumless@.len() > 0 ==> is_no_album_entry(albums@[entries@.len() as int], albumless@),
{
    let ghost orig = entries@;
    let n: usize = entries.len();
    let mut rest = entries;
    let mut albums: Vec<Album> = Vec::new();
    let mut i: usize = 0;
    while i < n
        invariant
            n == orig.len(),
            i <= n,
            rest@ == orig.subrange(i as int, n as int),
            albums@.len() == i,
            forall|k: int|
                0 <= k < i ==> {
                    &&& (#[trigger] albums@[k]).metadata == orig[k].0
                    &&& sorted_by_track(albums@[k].songs@)
                    &&& albums@[k].songs@.to_multiset() == orig[k].1@.to_multiset()
                    &&& exists|p: Seq<int>| stable_arrangement(orig[k].1@, albums@[k].songs@, p)
                },
        decreases n - i,
    {
        let (metadata, songs) = rest.remove(0);
        assert((metadata, songs) == orig[i as int]);
        let ghost unsorted = songs@;
        let songs = sort_by_track(songs);
        let ghost before = albums@;
        let ghost p = choose|p: Seq<int>| stable_arrangement(unsorted, songs@, p);
        albums.push(Album { songs, metadata });
        proof {
            assert(stable_arrangement(orig[i as int].1@, albums@[i as int].songs@, p));
            assert forall|k: int| 0 <= k < i + 1 implies {
                &&& (#[trigger] albums@[k]).metadata == orig[k].0
                &&& sorted_by_track(albums@[k].songs@)
                &&& albums@[k].songs@.to_multiset() == orig[k].1@.to_multiset()
                &&& exists|p: Seq<int>| stable_arrangement(orig[k].1@, albums@[k].songs@, p)
            } by {
                if k < i {
                    assert(albums@[k] == before[k]);
                }
            }
        }
        i = i + 1;
    }
    if albumless.len() > 0 {
        albums.push(
            Album {
                metadata: AlbumMetadata {
                    id: -1,
                    title: String::from_str("No Album"),
                    artist: String::from_str(DEFAULT_ARTIST),
                    cover: None,
                    created_at: 0,
                },
                songs: albumless,
            },
        );
    }
    albums
}

} // verus!
