use vstd::prelude::*;

use crate::db_util::Duration;
use crate::text::{contains_text, str_contains};

verus! {

/// What is known of a piece of audio in a playlist.
#[derive(Debug, Clone)]
pub struct AudioMetadata {
    pub id: i64,
    pub uri: String,
    pub webpage_url: Option<String>,
    pub title: String,
    pub artist: Option<String>,
    pub album: Option<String>,
    pub thumbnail: Option<String>,
    pub duration: Option<Duration>,
    pub added_by: String,
}

/// The title shown for a piece of audio: its title, followed by ` - ` and
/// the album when it has one.
pub open spec fn full_title_spec(title: Seq<char>, album: Option<String>) -> Seq<char> {
    match album {
        Some(a) => title + " - "@ + a@,
        None => title,
    }
}

impl AudioMetadata {
    /// The title shown for this piece of audio.
    pub fn full_title(&self) -> (t: String)
        ensures
            t@ == full_title_spec(self.title@, self.album),
    {
        let mut t = self.title.clone();
        match &self.album {
            Some(a) => {
                t.append(" - ");
                t.append(a.as_str());
            },
            None => {},
        }
        t
    }
}

/// The message with which the downloader reports a failure that a second
/// attempt often gets past.
pub open spec fn flaky_failure_marker() -> Seq<char> {
    "Unable to extract video data"@
}

/// Whether a failed download is worth one more attempt: the downloader
/// sometimes fails to extract the video data and succeeds on a second try.
pub fn should_retry(error: &str) -> (retry: bool)
    ensures
        retry == contains_text(error@, flaky_failure_marker()),
{
    str_contains(error, "Unable to extract video data")
}

} // verus!
