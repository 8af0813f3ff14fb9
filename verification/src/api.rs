use vstd::prelude::*;

use crate::db_util::Duration;
use crate::text::{join_error_chain, joined_chain};
use crate::youtube_dl::AudioMetadata;

verus! {

/// Which kind of failure rejected the JSON body of a request.
#[derive(Debug, Clone, Copy, PartialEq, Eq)]
pub enum JsonRejectionKind {
    /// The body is JSON but does not fit the expected shape.
    DataError,
    /// The body is not JSON.
    SyntaxError,
    /// Anything else (a missing content type, an unreadable body).
    Other,
}

/// A rejected JSON body: its kind, how the rejection describes itself, and
/// how its underlying cause does, if it has one.
#[derive(Debug, Clone)]
pub struct JsonRejection {
    pub kind: JsonRejectionKind,
    pub display: String,
    pub source: Option<String>,
}

/// An error of the web API.
#[derive(Debug, Clone)]
pub enum Error {
    NotFound,
    /// A required field of the request is missing.
    RequiredField(String),
    /// An internal failure: the messages of the error and its causes,
    /// outermost first.
    Internal(Vec<String>),
    /// The JSON body of the request was rejected.
    JsonRejection(JsonRejection),
}

impl Error {
    /// Whether the error can be answered: an internal error carries at
    /// least its own message, and a rejection of a body that is not JSON
    /// or not of the expected shape carries its cause.
    pub open spec fn wf(&self) -> bool {
        match self {
            Error::Internal(chain) => chain@.len() > 0,
            Error::JsonRejection(rej) => rej.kind != JsonRejectionKind::Other ==> rej.source is Some,
            _ => true,
        }
    }

    /// The HTTP status the error is answered with.
    pub open spec fn status_spec(&self) -> u16 {
        match self {
            Error::NotFound => 404,
            Error::RequiredField(_) => 400,
            Error::JsonRejection(_) => 400,
            Error::Internal(_) => 500,
        }
    }

    /// How the error describes itself.
    pub open spec fn display_spec(&self) -> Seq<char> {
        match self {
            Error::NotFound => "Not Found"@,
            Error::RequiredField(f) => "Field '"@ + f@ + "' is missing"@,
            Error::Internal(chain) => chain@[0]@,
            Error::JsonRejection(rej) => rej.display@,
        }
    }

    /// The message in the body of the answer: for a body that is not JSON
    /// or not of the expected shape the cause of the rejection, otherwise
    /// how the error describes itself.
    pub open spec fn message_spec(&self) -> Seq<char> {
        match self {
            Error::JsonRejection(rej) => match rej.kind {
                JsonRejectionKind::Other => rej.display@,
                _ => rej.source->0@,
            },
            _ => self.display_spec(),
        }
    }

    /// The HTTP status the error is answered with.
    pub fn status(&self) -> (code: u16)
        ensures
            code == self.status_spec(),
    {
        match self {
            Error::NotFound => 404,
            Error::RequiredField(_) | Error::JsonRejection(_) => 400,
            Error::Internal(_) => 500,
        }
    }

    /// How the error describes itself.
    pub fn display(&self) -> (d: String)
        requires
            self.wf(),
        ensures
            d@ == self.display_spec(),
    {
        match self {
            Error::NotFound => String::from_str("Not Found"),
            Error::RequiredField(f) => {
                let mut d = String::from_str("Field '");
                d.append(f.as_str());
                d.append("' is missing");
                d
            },
            Error::Internal(chain) => chain[0].clone(),
            Error::JsonRejection(rej) => rej.display.clone(),
        }
    }

    /// The message in the body of the answer.
    pub fn message(&self) -> (m: String)
        requires
            self.wf(),
        ensures
            m@ == self.message_spec(),
    {
        match self {
            Error::JsonRejection(rej) => match rej.kind {
                JsonRejectionKind::Other => rej.display.clone(),
                _ => match &rej.source {
                    Some(s) => s.clone(),
                    None => String::new(),
                },
            },
            _ => self.display(),
        }
    }

    /// The line logged for an internal error: its messages and those of its
    /// causes; nothing is logged for the other errors.
    pub fn log_line(&self) -> (line: Option<String>)
        requires
            self.wf(),
        ensures
            match self {
                Error::Internal(chain) => line matches Some(l) && l@ == "API encountered error: "@
                    + joined_chain(chain@.map_values(|m: String| m@)),
                _ => line is None,
            },
    {
        match self {
            Error::Internal(chain) => {
                let mut l = String::from_str("API encountered error: ");
                let joined = join_error_chain(chain);
                l.append(joined.as_str());
                Some(l)
            },
            _ => None,
        }
    }
}

/// Why a request was refused before it reached its handler.
#[derive(Debug, Clone)]
pub enum AuthorizationRejection {
    /// A server-side extension was missing; it describes itself so.
    Extension(String),
    /// The authorization header was missing or malformed; it describes
    /// itself so.
    Headers(String),
    InvalidToken,
    Unauthorized,
    ExpiredToken,
    /// Any other failure; it describes itself so.
    Generic(String),
}

impl AuthorizationRejection {
    /// The HTTP status the rejection is answered with.
    pub open spec fn status_spec(&self) -> u16 {
        match self {
            AuthorizationRejection::Extension(_) => 500,
            AuthorizationRejection::Generic(_) => 500,
            _ => 401,
        }
    }

    /// How the rejection describes itself.
    pub open spec fn message_spec(&self) -> Seq<char> {
        match self {
            AuthorizationRejection::Extension(m) => m@,
            AuthorizationRejection::Headers(m) => m@,
            AuthorizationRejection::InvalidToken => "Invalid session, please login again"@,
            AuthorizationRejection::Unauthorized => "Unauthorized"@,
            AuthorizationRejection::ExpiredToken => "Your session has expired, please login again"@,
            AuthorizationRejection::Generic(m) => m@,
        }
    }

    /// The HTTP status the rejection is answered with.
    pub fn status(&self) -> (code: u16)
        ensures
            code == self.status_spec(),
    {
        match self {
            AuthorizationRejection::Extension(_) => 500,
            AuthorizationRejection::Generic(_) => 500,
            AuthorizationRejection::Headers(_)
            | AuthorizationRejection::InvalidToken
            | AuthorizationRejection::Unauthorized
            | AuthorizationRejection::ExpiredToken => 401,
        }
    }

    /// How the rejection describes itself; the answer carries it as its
    /// `message`.
    pub fn message(&self) -> (m: String)
        ensures
            m@ == self.message_spec(),
    {
        match self {
            AuthorizationRejection::Extension(m) => m.clone(),
            AuthorizationRejection::Headers(m) => m.clone(),
            AuthorizationRejection::InvalidToken => String::from_str(
                "Invalid session, please login again",
            ),
            AuthorizationRejection::Unauthorized => String::from_str("Unauthorized"),
            AuthorizationRejection::ExpiredToken => String::from_str(
                "Your session has expired, please login again",
            ),
            AuthorizationRejection::Generic(m) => m.clone(),
        }
    }
}

/// A change of playback a user asks for; `V` is the type of a volume.
#[derive(Debug, Clone)]
pub struct PutState<V> {
    pub playing: Option<bool>,
    pub volume: Option<V>,
    pub seek: Option<Duration>,
    pub next: bool,
}

/// A command for the music bot; `V` is the type of a volume.
#[derive(Debug, Clone, PartialEq)]
pub enum StateCommand<V> {
    Play,
    Pause,
    /// Set the volume to this value.
    Volume(V),
    /// Jump to this position in the current piece.
    SeekTo(Duration),
    /// Skip to the next piece.
    Next,
}

/// The commands a change of playback turns into, in the order they are
/// sent: play or pause, volume, position, skip, each only when asked for.
pub open spec fn state_commands<V>(state: PutState<V>) -> Seq<StateCommand<V>> {
    (match state.playing {
        Some(true) => seq![StateCommand::Play],
        Some(false) => seq![StateCommand::Pause],
        None => Seq::empty(),
    }) + (match state.volume {
        Some(v) => seq![StateCommand::Volume(v)],
        None => Seq::empty(),
    }) + (match state.seek {
        Some(d) => seq![StateCommand::SeekTo(d)],
        None => Seq::empty(),
    }) + (if state.next {
        seq![StateCommand::Next]
    } else {
        Seq::empty()
    })
}

/// The place of a command in the order commands are sent: play or pause,
/// then volume, then position, then skip.
pub open spec fn command_rank<V>(c: StateCommand<V>) -> int {
    match c {
        StateCommand::Play => 0,
        StateCommand::Pause => 0,
        StateCommand::Volume(_) => 1,
        StateCommand::SeekTo(_) => 2,
        StateCommand::Next => 3,
    }
}

/// Each field of a change of playback yields its own command, whatever the
/// others hold: play or pause when asked, the volume asked for, the position
/// asked for, and a skip when asked; nothing else, each at most once, in the
/// order play or pause, volume, position, skip.
pub proof fn lemma_each_field_its_command<V>(state: PutState<V>)
    ensures
        state_commands(state).len() == (if state.playing is Some {{ 1int }} else {{ 0int }}) + (if state.volume is Some {{
            1int
        }} else {{
            0int
        }}) + (if state.seek is Some {{ 1int }} else {{ 0int }}) + (if state.next {{ 1int }} else {{ 0int }}),
        state_commands(state).contains(StateCommand::Play) <==> state.playing == Some(true),
        state_commands(state).contains(StateCommand::Pause) <==> state.playing == Some(false),
        state.volume matches Some(v) ==> state_commands(state).contains(StateCommand::Volume(v)),
        state.seek matches Some(d) ==> state_commands(state).contains(StateCommand::SeekTo(d)),
        state_commands(state).contains(StateCommand::Next) <==> state.next,
        forall|i: int| 0 <= i < state_commands(state).len() && #[trigger] state_commands(state)[i] is Volume ==> state.volume == Some(state_commands(state)[i]->Volume_0),
        forall|i: int| 0 <= i < state_commands(state).len() && #[trigger] state_commands(state)[i] is SeekTo ==> state.seek == Some(state_commands(state)[i]->SeekTo_0),
        forall|i: int, j: int|
            0 <= i < j < state_commands(state).len() ==> command_rank(#[trigger] state_commands(state)[i]) < command_rank(
                #[trigger] state_commands(state)[j],
            ),
{
    let cmds = state_commands(state);
    let p: Seq<StateCommand<V>> = match state.playing {
        Some(true) => seq![StateCommand::Play],
        Some(false) => seq![StateCommand::Pause],
        None => Seq::empty(),
    };
    let vo: Seq<StateCommand<V>> = match state.volume {
        Some(v) => seq![StateCommand::Volume(v)],
        None => Seq::empty(),
    };
    let se: Seq<StateCommand<V>> = match state.seek {
        Some(d) => seq![StateCommand::SeekTo(d)],
        None => Seq::empty(),
    };
    let ne: Seq<StateCommand<V>> = if state.next {
        seq![StateCommand::Next]
    } else {
        Seq::empty()
    };
    assert(cmds == p + vo + se + ne);
    let k1 = p.len() as int;
    let k2 = k1 + vo.len();
    let k3 = k2 + se.len();
    assert forall|i: int| 0 <= i < cmds.len() implies (i < k1 ==> cmds[i] == p[i]) && (k1 <= i
        < k2 ==> cmds[i] == vo[i - k1]) && (k2 <= i < k3 ==> cmds[i] == se[i - k2]) && (k3 <= i
        ==> cmds[i] == ne[i - k3]) && command_rank(cmds[i]) == (if i < k1 {
        0int
    } else if i < k2 {
        1int
    } else if i < k3 {
        2int
    } else {
        3int
    }) by {}
    if state.playing == Some(true) {
        assert(cmds[0] == StateCommand::<V>::Play);
    }
    if state.playing == Some(false) {
        assert(cmds[0] == StateCommand::<V>::Pause);
    }
    if let Some(v) = state.volume {
        assert(cmds[k1] == StateCommand::Volume(v));
    }
    if let Some(d) = state.seek {
        assert(cmds[k2] == StateCommand::<V>::SeekTo(d));
    }
    if state.next {
        assert(cmds[k3] == StateCommand::<V>::Next);
    }
}

impl<V> PutState<V> {
    /// The commands this change of playback turns into, in the order they
    /// are sent.
    pub fn commands(self) -> (cmds: Vec<StateCommand<V>>)
        ensures
            cmds@ == state_commands(self),
        cmds@.len() == (if self.playing is Some {{ 1int }} else {{ 0int }}) + (if self.volume is Some {{
            1int
        }} else {{
            0int
        }}) + (if self.seek is Some {{ 1int }} else {{ 0int }}) + (if self.next {{ 1int }} else {{ 0int }}),
        cmds@.contains(StateCommand::Play) <==> self.playing == Some(true),
        cmds@.contains(StateCommand::Pause) <==> self.playing == Some(false),
        self.volume matches Some(v) ==> cmds@.contains(StateCommand::Volume(v)),
        self.seek matches Some(d) ==> cmds@.contains(StateCommand::SeekTo(d)),
        cmds@.contains(StateCommand::Next) <==> self.next,
        forall|i: int| 0 <= i < cmds@.len() && #[trigger] cmds@[i] is Volume ==> self.volume == Some(cmds@[i]->Volume_0),
        forall|i: int| 0 <= i < cmds@.len() && #[trigger] cmds@[i] is SeekTo ==> self.seek == Some(cmds@[i]->SeekTo_0),
        forall|i: int, j: int|
            0 <= i < j < cmds@.len() ==> command_rank(#[trigger] cmds@[i]) < command_rank(
                #[trigger] cmds@[j],
            ),
    {
        let ghost state = self;
        let mut cmds: Vec<StateCommand<V>> = Vec::new();
        match self.playing {
            Some(true) => cmds.push(StateCommand::Play),
            Some(false) => cmds.push(StateCommand::Pause),
            None => {},
        }
        match self.volume {
            Some(v) => cmds.push(StateCommand::Volume(v)),
            None => {},
        }
        match self.seek {
            Some(d) => cmds.push(StateCommand::SeekTo(d)),
            None => {},
        }
        if self.next {
            cmds.push(StateCommand::Next);
        }
        assert(cmds@ =~= state_commands(state));
        proof {
            lemma_each_field_its_command(state);
        }
        cmds
    }
}

/// The playlist a user sees of the bot in their channel: as the bot has it,
/// without thumbnails; `NotFound` when there is no such bot.
pub fn visible_playlist(playlist: Option<Vec<AudioMetadata>>) -> (r: Result<Vec<AudioMetadata>, Error>)
    ensures
        match playlist {
            None => r matches Err(Error::NotFound),
            Some(p) => r matches Ok(v) && v@.len() == p@.len() && forall|i: int|
                0 <= i < p@.len() ==> (#[trigger] v@[i]) == (AudioMetadata {
                    thumbnail: None,
                    ..p@[i]
                }),
        },
{
    match playlist {
        None => Err(Error::NotFound),
        Some(p) => {
            let ghost orig = p@;
            let mut rest = p;
            let mut out: Vec<AudioMetadata> = Vec::new();
            let n: usize = rest.len();
            let mut i: usize = 0;
            while i < n
                invariant
                    n == orig.len(),
                    i <= n,
                    rest@ == orig.subrange(i as int, n as int),
                    out@.len() == i,
                    forall|k: int|
                        0 <= k < i ==> (#[trigger] out@[k]) == (AudioMetadata {
                            thumbnail: None,
                            ..orig[k]
                        }),
                decreases n - i,
            {
                let mut m = rest.remove(0);
                m.thumbnail = None;
                out.push(m);
                i = i + 1;
            }
            Ok(out)
        },
    }
}

/// What the API answers after a song was added to the playlist: the last
/// entry of the playlist, or the piece playing when the playlist is empty.
/// The piece playing is needed either way.
pub fn added_entry(playlist: Vec<AudioMetadata>, currently_playing: Option<AudioMetadata>) -> (entry:
    AudioMetadata)
    requires
        currently_playing is Some,
    ensures
        entry == if playlist@.len() > 0 {
            playlist@.last()
        } else {
            currently_playing->0
        },
{
    let mut playlist = playlist;
    let current = currently_playing.unwrap();
    match playlist.pop() {
        Some(last) => last,
        None => current,
    }
}

/// The address under which the music bot fetches a file of the library.
pub fn file_url(absolute_path: &str) -> (url: String)
    ensures
        url@ == "file://"@ + absolute_path@,
{
    let mut url = String::from_str("file://");
    url.append(absolute_path);
    url
}

} // verus!
