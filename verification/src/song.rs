use std::cmp::Ordering;

use vstd::prelude::*;
use vstd::std_specs::cmp::PartialEqSpecImpl;
use vstd::std_specs::cmp::PartialOrdSpec;
use vstd::std_specs::cmp::PartialOrdSpecImpl;

verus! {

/// A song of the catalogue.
#[derive(Debug, Clone)]
pub struct Song {
    pub id: i64,
    /// The position of the song within its album.
    pub track: Option<i64>,
    pub title: String,
    pub artist: String,
    pub album: Option<String>,
    /// The disc of the album the song is on.
    pub disc_number: Option<i64>,
    pub file_id: i64,
    pub favourite_count: i64,
    /// A unix timestamp of when the song was added.
    pub created_at: i64,
}

/// Whether track position `a` comes no later than `b`: a song without a
/// position comes first, positions compare as numbers.
pub open spec fn track_le(a: Option<i64>, b: Option<i64>) -> bool {
    match (a, b) {
        (None, _) => true,
        (Some(_), None) => false,
        (Some(x), Some(y)) => x <= y,
    }
}

/// How two track positions compare.
pub open spec fn track_order(a: Option<i64>, b: Option<i64>) -> Ordering {
    match (a, b) {
        (None, None) => Ordering::Equal,
        (None, Some(_)) => Ordering::Less,
        (Some(_), None) => Ordering::Greater,
        (Some(x), Some(y)) => if x < y {
            Ordering::Less
        } else if x == y {
            Ordering::Equal
        } else {
            Ordering::Greater
        },
    }
}

impl PartialEq for Song {
    /// Two songs are the same song when they have the same id.
    fn eq(&self, other: &Self) -> (r: bool) {
        self.id == other.id
    }
}

impl PartialEqSpecImpl for Song {
    open spec fn obeys_eq_spec() -> bool {
        true
    }

    open spec fn eq_spec(&self, other: &Song) -> bool {
        self.id == other.id
    }
}

impl PartialOrd for Song {
    /// Songs are ordered by their position within the album.
    fn partial_cmp(&self, other: &Self) -> (r: Option<Ordering>) {
        match (&self.track, &other.track) {
            (None, None) => Some(Ordering::Equal),
            (None, Some(_)) => Some(Ordering::Less),
            (Some(_), None) => Some(Ordering::Greater),
            (Some(x), Some(y)) => {
                if *x < *y {
                    Some(Ordering::Less)
                } else if *x == *y {
                    Some(Ordering::Equal)
                } else {
                    Some(Ordering::Greater)
                }
            },
        }
    }
}

impl PartialOrdSpecImpl for Song {
    open spec fn obeys_partial_cmp_spec() -> bool {
        true
    }

    open spec fn partial_cmp_spec(&self, other: &Song) -> Option<Ordering> {
        Some(track_order(self.track, other.track))
    }
}

/// Whether the songs are in album order: no song's track position comes
/// before that of a song ahead of it.
pub open spec fn sorted_by_track(songs: Seq<Song>) -> bool {
    forall|i: int, j: int| 0 <= i < j < songs.len() ==> track_le(songs[i].track, songs[j].track)
}

/// `arranged` holds the songs of `songs` rearranged: `p` gives, for each
/// position of `arranged`, the position in `songs` its song came from; every
/// song is used once, and songs with the same track position keep their
/// order.
pub open spec fn stable_arrangement(songs: Seq<Song>, arranged: Seq<Song>, p: Seq<int>) -> bool {
    &&& p.len() == songs.len()
    &&& arranged.len() == songs.len()
    &&& forall|k: int| 0 <= k < p.len() ==> 0 <= #[trigger] p[k] < songs.len()
    &&& forall|k: int| 0 <= k < p.len() ==> arranged[k] == songs[#[trigger] p[k]]
    &&& forall|a: int, b: int| 0 <= a < b < p.len() ==> #[trigger] p[a] != #[trigger] p[b]
    &&& forall|a: int, b: int|
        0 <= a < b < p.len() && arranged[a].track == arranged[b].track ==> #[trigger] p[a]
            < #[trigger] p[b]
}

/// Whether track position `a` comes no later than `b`.
fn track_at_most(a: Option<i64>, b: Option<i64>) -> (r: bool)
    ensures
        r == track_le(a, b),
{
    match (a, b) {
        (None, _) => true,
        (Some(_), None) => false,
        (Some(x), Some(y)) => x <= y,
    }
}

/// The songs of an album in album order: sorted by track position, songs
/// without a position first, songs with the same position in the order
/// they came.
pub fn sort_by_track(songs: Vec<Song>) -> (sorted: Vec<Song>)
    ensures
        sorted_by_track(sorted@),
        forall|i: int, j: int|
            0 <= i < j < sorted@.len() ==> (#[trigger] sorted@[i].track) is Some && (
            #[trigger] sorted@[j].track) is Some ==> sorted@[i].track->0 <= sorted@[j].track->0,
        forall|i: int, j: int|
            0 <= i < j < sorted@.len() && (#[trigger] sorted@[i].track) is Some ==> (
            #[trigger] sorted@[j].track) is Some,
        sorted@.to_multiset() == songs@.to_multiset(),
        exists|p: Seq<int>| stable_arrangement(songs@, sorted@, p),
{
    broadcast use vstd::seq_lib::group_to_multiset_ensures;

    let ghost orig = songs@;
    let n: usize = songs.len();
    let mut rest = songs;
    let mut sorted: Vec<Song> = Vec::new();
    let ghost mut p: Seq<int> = Seq::empty();
    let mut i: usize = 0;
    while i < n
        invariant
            n == orig.len(),
            i <= n,
            rest@ == orig.subrange(i as int, n as int),
            sorted@.len() == i,
            sorted@.to_multiset() == orig.take(i as int).to_multiset(),
            p.len() == i,
            sorted_by_track(sorted@),
            forall|k: int| 0 <= k < i ==> 0 <= #[trigger] p[k] < i,
            forall|k: int| 0 <= k < i ==> sorted@[k] == orig[#[trigger] p[k]],
            forall|a: int, b: int| 0 <= a < b < i ==> #[trigger] p[a] != #[trigger] p[b],
            forall|a: int, b: int|
                0 <= a < b < i && sorted@[a].track == sorted@[b].track ==> #[trigger] p[a]
                    < #[trigger] p[b],
        decreases n - i,
    {
        let song = rest.remove(0);
        assert(song == orig[i as int]);
        let mut pos: usize = 0;
        while pos < sorted.len() && track_at_most(sorted[pos].track, song.track)
            invariant
                pos <= sorted@.len(),
                forall|k: int| 0 <= k < pos ==> track_le(#[trigger] sorted@[k].track, song.track),
            decreases sorted@.len() - pos,
        {
            pos = pos + 1;
        }
        let ghost before = sorted@;
        proof {
            assert forall|k: int| pos <= k < before.len() implies !track_le(
                #[trigger] before[k].track,
                song.track,
            ) by {
                assert(!track_le(before[pos as int].track, song.track));
                assert(track_le(before[pos as int].track, before[k].track) || k == pos);
            }
        }
        sorted.insert(pos, song);
        proof {
            assert(orig.take(i + 1) =~= orig.take(i as int).push(song));
            assert(sorted@ == before.insert(pos as int, song));
            vstd::seq_lib::to_multiset_insert(before, pos as int, song);
            vstd::seq_lib::to_multiset_build(orig.take(i as int), song);
            assert(sorted@.to_multiset() == orig.take(i + 1).to_multiset());
            let old_p = p;
            p = p.insert(pos as int, i as int);
            assert forall|a: int, b: int| 0 <= a < b < sorted@.len() implies track_le(
                sorted@[a].track,
                sorted@[b].track,
            ) by {
                if b < pos {
                } else if b == pos {
                    assert(sorted@[a] == before[a]);
                } else if a < pos {
                    assert(sorted@[b] == before[b - 1]);
                    assert(!track_le(before[b - 1].track, song.track));
                } else if a == pos {
                    assert(sorted@[b] == before[b - 1]);
                    assert(!track_le(before[b - 1].track, song.track));
                } else {
                    assert(sorted@[a] == before[a - 1]);
                    assert(sorted@[b] == before[b - 1]);
                }
            }
            assert forall|k: int| 0 <= k < i + 1 implies 0 <= #[trigger] p[k] < i + 1 by {
                if k < pos {
                    assert(p[k] == old_p[k]);
                } else if k > pos {
                    assert(p[k] == old_p[k - 1]);
                }
            }
            assert forall|k: int| 0 <= k < i + 1 implies sorted@[k] == orig[#[trigger] p[k]] by {
                if k < pos {
                    assert(p[k] == old_p[k]);
                } else if k > pos {
                    assert(p[k] == old_p[k - 1]);
                }
            }
            assert forall|a: int, b: int| 0 <= a < b < i + 1 implies #[trigger] p[a]
                != #[trigger] p[b] by {
                if a < pos && b < pos {
                    assert(p[a] == old_p[a] && p[b] == old_p[b]);
                } else if a < pos && b == pos {
                    assert(p[a] == old_p[a]);
                } else if a < pos {
                    assert(p[a] == old_p[a] && p[b] == old_p[b - 1]);
                } else if a == pos {
                    assert(p[b] == old_p[b - 1]);
                } else {
                    assert(p[a] == old_p[a - 1] && p[b] == old_p[b - 1]);
                }
            }
            assert forall|a: int, b: int|
                0 <= a < b < i + 1 && sorted@[a].track == sorted@[b].track implies #[trigger] p[a]
                < #[trigger] p[b] by {
                if a < pos && b < pos {
                    assert(p[a] == old_p[a] && p[b] == old_p[b]);
                } else if a < pos && b == pos {
                    assert(p[a] == old_p[a]);
                } else if a < pos {
                    assert(sorted@[b] == before[b - 1]);
                    assert(!track_le(before[b - 1].track, song.track));
                    assert(track_le(before[a].track, song.track));
                } else if a == pos {
                    assert(sorted@[b] == before[b - 1]);
                    assert(!track_le(before[b - 1].track, song.track));
                } else {
                    assert(p[a] == old_p[a - 1] && p[b] == old_p[b - 1]);
                    assert(sorted@[a] == before[a - 1]);
                    assert(sorted@[b] == before[b - 1]);
                }
            }
        }
        i = i + 1;
    }
    assert(stable_arrangement(orig, sorted@, p));
    assert(orig.take(n as int) =~= orig);
    proof {
        lemma_album_order_is_numeric(sorted@);
    }
    sorted
}

/// Songs in album order have their track positions in numeric order, and
/// every song without a position comes before every song with one.
pub proof fn lemma_album_order_is_numeric(songs: Seq<Song>)
    requires
        sorted_by_track(songs),
    ensures
        forall|i: int, j: int|
            0 <= i < j < songs.len() ==> (#[trigger] songs[i].track) is Some && (
            #[trigger] songs[j].track) is Some ==> songs[i].track->0 <= songs[j].track->0,
        forall|i: int, j: int|
            0 <= i < j < songs.len() && (#[trigger] songs[i].track) is Some ==> (
            #[trigger] songs[j].track) is Some,
{
    assert forall|i: int, j: int| 0 <= i < j < songs.len() && (
        #[trigger] songs[i].track) is Some && (#[trigger] songs[j].track) is Some implies songs[i].track->0
        <= songs[j].track->0 by {
        assert(track_le(songs[i].track, songs[j].track));
    }
    assert forall|i: int, j: int|
        0 <= i < j < songs.len() && (#[trigger] songs[i].track) is Some implies (
        #[trigger] songs[j].track) is Some by {
        assert(track_le(songs[i].track, songs[j].track));
    }
}

/// Songs compare as their track positions do as numbers, a song without a
/// position before one with a position, and the order is antisymmetric.
pub proof fn lemma_song_order_is_track_order(a: Song, b: Song)
    ensures
        a.track is Some && b.track is Some ==> (PartialOrdSpec::partial_cmp_spec(&a, &b)
            == Some(Ordering::Less) <==> a.track->0 < b.track->0) && (PartialOrdSpec::partial_cmp_spec(&a, &b) == Some(
            Ordering::Equal,
        ) <==> a.track->0 == b.track->0) && (PartialOrdSpec::partial_cmp_spec(&a, &b) == Some(Ordering::Greater) <==> a.track->0 > b.track->0),
        a.track is None && b.track is Some ==> PartialOrdSpec::partial_cmp_spec(&a, &b) == Some(Ordering::Less),
        a.track is Some && b.track is None ==> PartialOrdSpec::partial_cmp_spec(&a, &b) == Some(Ordering::Greater),
        a.track is None && b.track is None ==> PartialOrdSpec::partial_cmp_spec(&a, &b) == Some(Ordering::Equal),
        PartialOrdSpec::partial_cmp_spec(&a, &b) == Some(Ordering::Greater) <==> PartialOrdSpec::partial_cmp_spec(&b, &a) == Some(
            Ordering::Less,
        ),
        PartialOrdSpec::partial_cmp_spec(&a, &b) == Some(Ordering::Equal) <==> PartialOrdSpec::partial_cmp_spec(&b, &a) == Some(
            Ordering::Equal,
        ),
{
}

/// Sorting songs that are already in album order leaves them as they are:
/// a stable arrangement of sorted songs that is itself sorted is the
/// original sequence.
pub proof fn lemma_sorting_sorted_songs_keeps_them(songs: Seq<Song>, arranged: Seq<Song>, p: Seq<int>)
    requires
        sorted_by_track(songs),
        sorted_by_track(arranged),
        stable_arrangement(songs, arranged, p),
    ensures
        arranged == songs,
{
    let n: int = songs.len() as int;
    assert forall|a: int, b: int| 0 <= a < b < n implies p[a] < p[b] by {
        if arranged[a].track != arranged[b].track {
            if p[a] > p[b] {
                assert(track_le(songs[p[b]].track, songs[p[a]].track));
                assert(arranged[a] == songs[p[a]]);
                assert(arranged[b] == songs[p[b]]);
                assert(track_le(arranged[a].track, arranged[b].track));
            }
            assert(p[a] != p[b]);
        }
    }
    assert forall|k: int| 0 <= k < n implies p[k] >= k by {
        lemma_increasing_at_least(p, n, k);
    }
    assert forall|k: int| 0 <= k < n implies p[k] <= k by {
        lemma_increasing_at_most(p, n, k);
    }
    assert forall|k: int| 0 <= k < n implies arranged[k] == songs[k] by {
        assert(p[k] == k);
        assert(arranged[k] == songs[p[k]]);
    }
    assert(arranged =~= songs);
}

/// A strictly increasing sequence of naturals has at least `k` at `k`.
proof fn lemma_increasing_at_least(p: Seq<int>, n: int, k: int)
    requires
        p.len() == n,
        0 <= k < n,
        forall|i: int| 0 <= i < n ==> 0 <= #[trigger] p[i] < n,
        forall|a: int, b: int| 0 <= a < b < n ==> p[a] < p[b],
    ensures
        p[k] >= k,
    decreases k,
{
    if k > 0 {
        lemma_increasing_at_least(p, n, k - 1);
        assert(p[k - 1] < p[k]);
    } else {
        assert(p[0] >= 0);
    }
}

/// A strictly increasing sequence of `n` values below `n` has at most `k`
/// at `k`.
proof fn lemma_increasing_at_most(p: Seq<int>, n: int, k: int)
    requires
        p.len() == n,
        0 <= k < n,
        forall|i: int| 0 <= i < n ==> 0 <= #[trigger] p[i] < n,
        forall|a: int, b: int| 0 <= a < b < n ==> p[a] < p[b],
    ensures
        p[k] <= k,
    decreases n - k,
{
    if k < n - 1 {
        lemma_increasing_at_most(p, n, k + 1);
        assert(p[k] < p[k + 1]);
    } else {
        assert(p[k] < n);
    }
}

/// A song a user marked as a favourite.
#[derive(Debug, Clone, Copy, PartialEq, Eq)]
pub struct Favourite {
    pub id: i64,
    /// The song marked.
    pub song_id: i64,
    /// A unix timestamp of when the mark was set.
    pub created_at: i64,
}

/// The metadata a user sets for an audio file.
#[derive(Debug, Clone)]
pub struct PutSongMetadata {
    pub track: Option<i64>,
    pub title: String,
    pub artist: String,
    pub album: Option<String>,
    pub disc_number: Option<i64>,
    pub cover_path: Option<String>,
}

/// A song row as it is written to the database.
#[derive(Debug, Clone)]
pub struct DbSongMetadata {
    pub track: Option<i64>,
    pub title: String,
    pub artist_id: i64,
    pub album_id: Option<i64>,
    pub disc_number: Option<i64>,
    pub file_id: i64,
    pub created_at: i64,
    pub created_by: String,
}

impl DbSongMetadata {
    /// The row for the audio file `file_id` with the metadata a user set,
    /// once its artist and album have their ids; the row is recorded as
    /// created at `created_at` by the user `uid`.
    pub fn new(
        metadata: PutSongMetadata,
        artist_id: i64,
        album_id: Option<i64>,
        file_id: i64,
        created_at: i64,
        uid: &str,
    ) -> (row: DbSongMetadata)
        ensures
            row.track == metadata.track,
            row.title == metadata.title,
            row.artist_id == artist_id,
            row.album_id == album_id,
            row.disc_number == metadata.disc_number,
            row.file_id == file_id,
            row.created_at == created_at,
            row.created_by@ == uid@,
    {
        DbSongMetadata {
            track: metadata.track,
            title: metadata.title,
            artist_id,
            album_id,
            disc_number: metadata.disc_number,
            file_id,
            created_at,
            created_by: uid.to_owned(),
        }
    }
}

} // verus!
