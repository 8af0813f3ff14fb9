use std::io::Cursor;

use lofty::file::{AudioFile as _, TaggedFileExt as _};
use lofty::probe::Probe;
use lofty::tag::Accessor as _;
use vstd::prelude::*;

use crate::api::Error;
use crate::db_util::{Duration, NANOS_PER_SEC};
use crate::song::PutSongMetadata;

verus! {

/// An audio file of the library.
#[derive(Debug, Clone)]
pub struct AudioFile {
    pub id: i64,
    pub file_name: String,
    pub file_path: String,
    pub duration: Duration,
    /// A unix timestamp of when the file was added.
    pub created_at: i64,
}

/// What the tags of an audio file say about the song in it.
#[derive(Debug, Clone)]
pub struct SongMetadata {
    pub track: Option<i64>,
    pub title: Option<String>,
    pub artist: Option<String>,
    pub album: Option<String>,
    /// Where the front cover found in the tags was stored.
    pub cover_path: Option<String>,
    pub duration: Duration,
}

/// The answer to an upload: the id of the new audio file and what its tags
/// say.
#[derive(Debug, Clone)]
pub struct UploadResponse {
    pub file_id: i64,
    pub metadata: SongMetadata,
}

/// Whether `s` is a version 4 UUID written in lowercase hexadecimal digits in
/// groups of 8, 4, 4, 4 and 12 separated by `-`: the version digit is `4`
/// and the variant digit one of `8`, `9`, `a`, `b`.
pub open spec fn is_v4_uuid_text(s: Seq<char>) -> bool {
    &&& s.len() == 36
    &&& forall|i: int|
        0 <= i < 36 ==> if i == 8 || i == 13 || i == 18 || i == 23 {
            s[i] == '-'
        } else {
            ('0' <= #[trigger] s[i] <= '9') || ('a' <= s[i] <= 'f')
        }
    &&& s[14] == '4'
    &&& (s[19] == '8' || s[19] == '9' || s[19] == 'a' || s[19] == 'b')
}

/// Calls `uuid::Uuid::new_v4` and writes the UUID as text. Its source sets
/// the version bits to 4 and the variant bits to `10`, and the text form is
/// the hyphenated lowercase one; the other digits are random.
#[verifier::external_body]
fn random_uuid() -> (s: String)
    ensures
        is_v4_uuid_text(s@),
{
    uuid::Uuid::new_v4().to_string()
}

/// A fresh relative path for an uploaded file with extension `extension`: a
/// random UUID, a dot and the extension.
pub fn generate_file_path(extension: &str) -> (path: String)
    ensures
        path@.len() == 37 + extension@.len(),
        is_v4_uuid_text(path@.subrange(0, 36)),
        path@[36] == '.',
        path@.subrange(37, path@.len() as int) == extension@,
{
    let mut path = random_uuid();
    let ghost id = path@;
    path.append(".");
    path.append(extension);
    proof {
        reveal_strlit(".");
    }
    assert(path@.subrange(0, 36) =~= id);
    assert(path@.subrange(37, path@.len() as int) =~= extension@);
    path
}

/// A fresh path for a cover image: a random UUID with extension `jpg` in the
/// directory `covers`.
pub fn generate_cover_path() -> (path: String)
    ensures
        path@.len() == 47,
        path@.subrange(0, 7) == "covers/"@,
        is_v4_uuid_text(path@.subrange(7, 43)),
        path@.subrange(43, 47) == ".jpg"@,
{
    let mut path = String::from_str("covers/");
    let id = random_uuid();
    path.append(id.as_str());
    path.append(".jpg");
    proof {
        reveal_strlit("covers/");
        reveal_strlit(".jpg");
    }
    assert(path@.subrange(0, 7) =~= "covers/"@);
    assert(path@.subrange(7, 43) =~= id@);
    assert(path@.subrange(43, 47) =~= ".jpg"@);
    path
}

/// The metadata to record for a file found when scanning the music
/// directory: only a file newly added to the library (`file_id`) whose tags
/// name a title and an artist gets any. The tags read carry no disc number.
pub fn scanned_song_metadata(metadata: SongMetadata, file_id: Option<i64>) -> (r: Option<
    (i64, PutSongMetadata),
>)
    ensures
        r is Some <==> metadata.title is Some && metadata.artist is Some && file_id is Some,
        r matches Some((id, put)) ==> {
            &&& Some(id) == file_id
            &&& put.track == metadata.track
            &&& Some(put.title) == metadata.title
            &&& Some(put.artist) == metadata.artist
            &&& put.album == metadata.album
            &&& put.cover_path == metadata.cover_path
            &&& put.disc_number is None
        },
{
    match (metadata.title, metadata.artist, file_id) {
        (Some(title), Some(artist), Some(id)) => Some(
            (
                id,
                PutSongMetadata {
                    track: metadata.track,
                    title,
                    artist,
                    album: metadata.album,
                    cover_path: metadata.cover_path,
                    disc_number: None,
                },
            ),
        ),
        _ => None,
    }
}

/// A picture in the tags of an audio file: its ID3v2 picture type and its
/// bytes.
#[derive(Debug, Clone)]
pub struct PictureInfo {
    pub kind: u8,
    pub data: Vec<u8>,
}

/// The ID3v2 picture type of a front cover.
pub const FRONT_COVER: u8 = 3;

/// What the primary tag of an audio file holds.
#[derive(Debug, Clone)]
pub struct TagFields {
    pub track: Option<u32>,
    pub title: Option<String>,
    pub artist: Option<String>,
    pub album: Option<String>,
    pub pictures: Vec<PictureInfo>,
}

/// What the tags of an audio file say about its song, with the bytes of its
/// front cover, before the cover is stored.
#[derive(Debug, Clone)]
pub struct SongTags {
    pub track: Option<i64>,
    pub title: Option<String>,
    pub artist: Option<String>,
    pub album: Option<String>,
    pub cover: Option<Vec<u8>>,
    pub duration: Duration,
}

/// What the primary tag of a file holds, as plain values: track number,
/// title, artist, album, and each picture's type number and bytes.
pub type TagView = (Option<u32>, Option<Seq<char>>, Option<Seq<char>>, Option<Seq<char>>, Seq<(u8, Seq<u8>)>);

/// A piece of text, if there is one, as characters.
pub open spec fn text_view(t: Option<String>) -> Option<Seq<char>> {
    match t {
        Some(s) => Some(s@),
        None => None,
    }
}

/// The pictures of a tag as type numbers and bytes.
pub open spec fn pictures_view(pictures: Seq<PictureInfo>) -> Seq<(u8, Seq<u8>)> {
    pictures.map_values(|p: PictureInfo| (p.kind, p.data@))
}

/// What a tag's fields hold, as plain values.
pub open spec fn tag_view(f: TagFields) -> TagView {
    (f.track, text_view(f.title), text_view(f.artist), text_view(f.album), pictures_view(f.pictures@))
}

/// What a file's primary tag holds, if it has one, as plain values.
pub open spec fn fields_view(fields: Option<TagFields>) -> Option<TagView> {
    match fields {
        Some(f) => Some(tag_view(f)),
        None => None,
    }
}

/// The bytes of the last front cover among the pictures, if there is one.
pub open spec fn last_front_cover(pictures: Seq<(u8, Seq<u8>)>) -> Option<Seq<u8>>
    decreases pictures.len(),
{
    if pictures.len() == 0 {
        None
    } else if pictures.last().0 == FRONT_COVER {
        Some(pictures.last().1)
    } else {
        last_front_cover(pictures.drop_last())
    }
}

/// `tags` is what the tags of a file say about its song, given what its
/// primary tag holds (`None` when it has none) and how long it plays: the
/// track position, the title, artist and album as they are, and the last
/// front cover.
pub open spec fn describes(tags: SongTags, fields: Option<TagView>, duration: Duration) -> bool {
    &&& tags.duration == duration
    &&& match fields {
        None => tags.track is None && tags.title is None && tags.artist is None && tags.album is None
            && tags.cover is None,
        Some(f) => {
            &&& tags.track == match f.0 {
                Some(t) => Some(t as i64),
                None => None::<i64>,
            }
            &&& text_view(tags.title) == f.1
            &&& text_view(tags.artist) == f.2
            &&& text_view(tags.album) == f.3
            &&& match last_front_cover(f.4) {
                Some(c) => tags.cover matches Some(v) && v@ == c,
                None => tags.cover is None,
            }
        },
    }
}

/// Tags that describe what a primary tag holds carry its title as the title,
/// its artist as the artist, its album as the album and its track number as
/// the track position; with no primary tag they carry none of these and no
/// cover. The duration is the one given.
pub proof fn lemma_described_fields_in_place(tags: SongTags, fields: Option<TagView>, duration: Duration)
    requires
        describes(tags, fields, duration),
    ensures
        tags.duration == duration,
        fields matches Some(f) ==> text_view(tags.title) == f.1 && text_view(tags.artist) == f.2
            && text_view(tags.album) == f.3,
        fields matches Some(f) ==> (tags.track is Some <==> f.0 is Some),
        fields matches Some(f) ==> (f.0 matches Some(t) ==> tags.track == Some(t as i64)),
        fields is None ==> tags.track is None && tags.title is None && tags.artist is None
            && tags.album is None && tags.cover is None,
{
}

/// The cover is the last front cover among the pictures: a front cover
/// among them with no front cover after it, and none at all when no picture
/// is a front cover.
pub proof fn lemma_last_front_cover_is_last(pictures: Seq<(u8, Seq<u8>)>)
    ensures
        last_front_cover(pictures) matches Some(c) ==> exists|i: int|
            0 <= i < pictures.len() && #[trigger] pictures[i] == (FRONT_COVER, c) && forall|j: int|
                i < j < pictures.len() ==> (#[trigger] pictures[j]).0 != FRONT_COVER,
        last_front_cover(pictures) is None ==> forall|j: int|
            0 <= j < pictures.len() ==> (#[trigger] pictures[j]).0 != FRONT_COVER,
    decreases pictures.len(),
{
    if pictures.len() > 0 {
        let rest = pictures.drop_last();
        lemma_last_front_cover_is_last(rest);
        let n = pictures.len() - 1;
        if pictures.last().0 == FRONT_COVER {
            assert(pictures[n] == (FRONT_COVER, pictures.last().1));
        } else {
            assert forall|j: int| 0 <= j < n implies pictures[j] == #[trigger] rest[j] by {}
            if let Some(c) = last_front_cover(pictures) {
                let i = choose|i: int|
                    0 <= i < rest.len() && #[trigger] rest[i] == (FRONT_COVER, c) && forall|j: int|
                        i < j < rest.len() ==> (#[trigger] rest[j]).0 != FRONT_COVER;
                assert(pictures[i] == rest[i]);
                assert forall|j: int| i < j < pictures.len() implies (#[trigger] pictures[j]).0
                    != FRONT_COVER by {
                    if j < n {
                        assert(pictures[j] == rest[j]);
                    }
                }
            } else {
                assert forall|j: int| 0 <= j < pictures.len() implies (#[trigger] pictures[j]).0
                    != FRONT_COVER by {
                    if j < n {
                        assert(pictures[j] == rest[j]);
                    }
                }
            }
        }
    }
}

/// What a file's tags say about its song, given what its primary tag holds
/// (`None` when it has none) and how long it plays: the track position, the
/// title, artist and album as they are, and the last front cover.
pub fn song_tags(fields: Option<TagFields>, duration: Duration) -> (tags: SongTags)
    ensures
        describes(tags, fields_view(fields), duration),
        tags.duration == duration,
        fields matches Some(f) ==> tags.title == f.title && tags.artist == f.artist && tags.album
            == f.album,
        fields matches Some(f) ==> (tags.track is Some <==> f.track is Some),
        fields matches Some(f) ==> (f.track matches Some(t) ==> tags.track == Some(t as i64)),
        fields is None ==> tags.track is None && tags.title is None && tags.artist is None
            && tags.album is None && tags.cover is None,
{
    match fields {
        None => SongTags {
            track: None,
            title: None,
            artist: None,
            album: None,
            cover: None,
            duration,
        },
        Some(f) => {
            let ghost pics = pictures_view(f.pictures@);
            let mut cover: Option<Vec<u8>> = None;
            let n: usize = f.pictures.len();
            let mut i: usize = 0;
            while i < n
                invariant
                    n == f.pictures@.len(),
                    pics == pictures_view(f.pictures@),
                    i <= n,
                    match last_front_cover(pics.take(i as int)) {
                        Some(c) => cover matches Some(v) && v@ == c,
                        None => cover is None,
                    },
                decreases n - i,
            {
                assert(pics.take(i + 1).drop_last() =~= pics.take(i as int));
                assert(pics.take(i + 1).last() == (f.pictures@[i as int].kind, f.pictures@[i as int].data@));
                if f.pictures[i].kind == FRONT_COVER {
                    cover = Some(vstd::slice::slice_to_vec(f.pictures[i].data.as_slice()));
                }
                i = i + 1;
            }
            assert(pics.take(n as int) =~= pics);
            let track = match f.track {
                Some(t) => Some(t as i64),
                None => None,
            };
            SongTags { track, title: f.title, artist: f.artist, album: f.album, cover, duration }
        },
    }
}

impl SongTags {
    /// The metadata of the song once its cover, if it had one, is stored at
    /// `cover_path`.
    pub fn into_metadata(self, cover_path: Option<String>) -> (m: SongMetadata)
        ensures
            m.track == self.track,
            m.title == self.title,
            m.artist == self.artist,
            m.album == self.album,
            m.cover_path == cover_path,
            m.duration == self.duration,
    {
        SongMetadata {
            track: self.track,
            title: self.title,
            artist: self.artist,
            album: self.album,
            cover_path,
            duration: self.duration,
        }
    }
}

/// An error of the tag library.
#[verifier::external_type_specification]
#[verifier::external_body]
pub struct ExLoftyError(lofty::error::LoftyError);

/// An I/O error of the standard library.
#[verifier::external_type_specification]
#[verifier::external_body]
pub struct ExIoError(std::io::Error);

/// Why the tag library could not read a file: the format could not be told
/// from its first bytes, or the file could not be parsed in that format.
pub enum ProbeFailure {
    Guess(std::io::Error),
    Read(lofty::error::LoftyError),
}

/// What the primary tag of a file holds, as the tag library gives it: track
/// number, title, artist, album, and each picture's type number and bytes.
pub type RawTag = (Option<u32>, Option<String>, Option<String>, Option<String>, Vec<(u8, Vec<u8>)>);

/// A raw tag as plain values.
pub open spec fn raw_tag_view(t: RawTag) -> TagView {
    (t.0, text_view(t.1), text_view(t.2), text_view(t.3), t.4@.map_values(|p: (u8, Vec<u8>)| (p.0, p.1@)))
}

/// A raw tag, if there is one, as plain values.
pub open spec fn raw_tag_view_opt(t: Option<RawTag>) -> Option<TagView> {
    match t {
        Some(r) => Some(raw_tag_view(r)),
        None => None,
    }
}

/// The step of the tag library's reading that failed: telling the format
/// from the first bytes (which fails only when those bytes cannot be read),
/// or parsing the file in the format told (which also fails when no format
/// was recognised).
#[derive(Debug, Clone, Copy, PartialEq, Eq, Structural)]
pub enum ReadStep {
    GuessFileType,
    Read,
}

/// What the tag library reads from the bytes of an audio file: the step that
/// failed, or what the file's primary tag holds (if it has one) and the whole
/// seconds and the nanoseconds beyond them that the audio plays.
pub uninterp spec fn lofty_read(data: Seq<u8>) -> Result<(Option<TagView>, u64, u32), ReadStep>;

/// Reads the bytes of a file with the tag library: `Probe::guess_file_type`
/// on them, `Probe::read` on the probe, then the primary tag's track, title,
/// artist, album and pictures (`pic_type().as_u8()`, `data()`) and the
/// duration of the file's properties (`as_secs`, `subsec_nanos`, the latter
/// below one billion). The reading depends on the bytes alone, so its result
/// is named; the error of the step that failed comes back as is.
#[verifier::external_body]
fn lofty_read_bytes(data: &[u8]) -> (r: Result<(Option<RawTag>, u64, u32), ProbeFailure>)
    ensures
        r matches Err(ProbeFailure::Guess(_)) <==> lofty_read(data@) matches Err(
            ReadStep::GuessFileType,
        ),
        r matches Err(ProbeFailure::Read(_)) <==> lofty_read(data@) matches Err(ReadStep::Read),
        r matches Ok((tag, secs, nanos)) ==> lofty_read(data@) matches Ok(read) && read == (
            raw_tag_view_opt(tag),
            secs,
            nanos,
        ) && nanos < NANOS_PER_SEC,
{
    let file = match Probe::new(Cursor::new(data)).guess_file_type() {
        Ok(probe) => probe.read().map_err(ProbeFailure::Read)?,
        Err(e) => return Err(ProbeFailure::Guess(e)),
    };
    let tag = file.primary_tag().map(|t| (t.track(), t.title().map(Into::into),
        t.artist().map(Into::into), t.album().map(Into::into),
        t.pictures().iter().map(|p| (p.pic_type().as_u8(), p.data().to_vec())).collect()));
    let d = file.properties().duration();
    Ok((tag, d.as_secs(), d.subsec_nanos()))
}

/// Calls `ToString::to_string` on an I/O error: how it describes itself.
#[verifier::external_body]
fn describe_io_error(e: &std::io::Error) -> (m: String) {
    e.to_string()
}

/// Calls `ToString::to_string` on a tag reading error: how it describes
/// itself.
#[verifier::external_body]
fn describe_lofty_error(e: &lofty::error::LoftyError) -> (m: String) {
    e.to_string()
}

/// The context an internal error gives for a failed step of the tag library.
pub open spec fn failure_context(step: ReadStep) -> Seq<char> {
    match step {
        ReadStep::GuessFileType => "Failed to guess file type"@,
        ReadStep::Read => "Failed to read song for tags"@,
    }
}

/// An internal error with a context message over the message of its cause.
fn internal_error(context: &str, cause: String) -> (e: Error)
    ensures
        e matches Error::Internal(chain) && chain@.len() == 2 && chain@[0]@ == context@
            && chain@[1] == cause,
{
    let mut chain: Vec<String> = Vec::new();
    chain.push(String::from_str(context));
    chain.push(cause);
    Error::Internal(chain)
}

/// The fields of a tag read by the tag library, in the library's form.
fn tag_fields(raw: RawTag) -> (f: TagFields)
    ensures
        tag_view(f) == raw_tag_view(raw),
{
    let ghost pics = raw.4@;
    let (track, title, artist, album, pictures) = raw;
    let mut rest = pictures;
    let mut infos: Vec<PictureInfo> = Vec::new();
    let n: usize = rest.len();
    let mut i: usize = 0;
    while i < n
        invariant
            n == pics.len(),
            i <= n,
            rest@ == pics.subrange(i as int, n as int),
            infos@.len() == i,
            forall|k: int|
                0 <= k < i ==> (#[trigger] infos@[k]).kind == pics[k].0 && infos@[k].data@
                    == pics[k].1@,
        decreases n - i,
    {
        let (kind, data) = rest.remove(0);
        infos.push(PictureInfo { kind, data });
        i = i + 1;
    }
    let f = TagFields { track, title, artist, album, pictures: infos };
    assert(pictures_view(f.pictures@) =~= pics.map_values(|p: (u8, Vec<u8>)| (p.0, p.1@)));
    f
}

/// Reads the tags of an audio file held in memory. It fails exactly when the
/// tag library cannot read the bytes, with an internal error "Failed to guess
/// file type" when telling the format failed and "Failed to read song for
/// tags" when parsing the file failed; otherwise the song is described by
/// what the library read.
pub fn read_song_tags(data: &[u8]) -> (r: Result<SongTags, Error>)
    ensures
        r is Err <==> lofty_read(data@) is Err,
        r matches Ok(tags) ==> lofty_read(data@) matches Ok(read) && tags.duration.wf()
            && describes(tags, read.0, Duration { secs: read.1, nanos: read.2 }),
        lofty_read(data@) matches Err(step) ==> r matches Err(Error::Internal(chain))
            && chain@.len() == 2 && chain@[0]@ == failure_context(step),
{
    let (raw, secs, nanos) = match lofty_read_bytes(data) {
        Ok(read) => read,
        Err(ProbeFailure::Guess(e)) => {
            let cause = describe_io_error(&e);
            return Err(internal_error("Failed to guess file type", cause));
        },
        Err(ProbeFailure::Read(e)) => {
            let cause = describe_lofty_error(&e);
            return Err(internal_error("Failed to read song for tags", cause));
        },
    };
    let fields = match raw {
        Some(t) => Some(tag_fields(t)),
        None => None,
    };
    Ok(song_tags(fields, Duration::new(secs, nanos)))
}

} // verus!
