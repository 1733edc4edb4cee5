//! Plain data shared by the queue, the request list and the playback worker.

use vstd::prelude::*;
use vstd::string::StringExecFns;

verus! {

/// State of the playback worker, as last published.
#[derive(Debug, PartialEq, Eq, Clone, Copy, Structural)]
pub enum PlaybackState {
    /// Starting value, before anything is known.
    Unknown,
    /// No authenticated session.
    NoAuth,
    /// Authenticated, but no device is selected.
    NoDevice,
    /// Nothing is playing and nothing is loaded.
    NeedsSong,
    /// Currently making noise.
    Playing,
    /// Paused mid-song.
    Paused,
    /// Was in `NeedsSong`, and a song has been handed to the remote service.
    EnqueuedAndWaiting,
}

/// Identifier for a task, used to match a response to the command that asked for it.
#[derive(Debug, PartialEq, Eq, Clone, Copy, Structural)]
pub struct TaskID {
    pub id: u64,
}

/// What is kept of a track.
#[derive(Debug, PartialEq)]
pub struct BasicSongInfo {
    /// Track identifier.
    pub spotify_uri: String,
    /// Song title.
    pub title: String,
    /// Artist names, joined by `", "`.
    pub artist: String,
    /// Song duration in milliseconds.
    pub duration_ms: u32,
    /// Album artwork.
    pub album_image_url: Option<String>,
}

impl Clone for BasicSongInfo {
    fn clone(&self) -> (res: Self)
        ensures
            res == *self,
    {
        let album_image_url = match &self.album_image_url {
            Some(url) => Some(url.clone()),
            None => None,
        };
        BasicSongInfo {
            spotify_uri: self.spotify_uri.clone(),
            title: self.title.clone(),
            artist: self.artist.clone(),
            duration_ms: self.duration_ms,
            album_image_url,
        }
    }
}

/// A track as the remote service reports it: what is read of its full record.
#[derive(Debug, PartialEq)]
pub struct TrackRecord {
    pub uri: String,
    pub name: String,
    /// Names of the artists, in the order reported.
    pub artists: Vec<String>,
    pub duration_ms: u32,
    /// URLs of the album's images, in the order reported.
    pub album_images: Vec<String>,
}

/// The views of the strings in `names`, in order.
pub open spec fn views_of(names: Seq<String>) -> Seq<Seq<char>> {
    names.map_values(|name: String| name@)
}

/// `parts` written one after another with `sep` between neighbours.
pub open spec fn joined(parts: Seq<Seq<char>>, sep: Seq<char>) -> Seq<char>
    decreases parts.len(),
{
    if parts.len() == 0 {
        Seq::empty()
    } else if parts.len() == 1 {
        parts[0]
    } else {
        joined(parts.drop_last(), sep) + sep + parts.last()
    }
}

/// The artist names of a track as one string, separated by `", "`.
pub fn join_artists(names: &Vec<String>) -> (out: String)
    ensures
        out@ == joined(views_of(names@), ", "@),
{
    let mut out = String::new();
    let mut i: usize = 0;
    while i < names.len()
        invariant
            i <= names.len(),
            out@ == joined(views_of(names@).take(i as int), ", "@),
        decreases names.len() - i,
    {
        let ghost before = views_of(names@).take(i as int);
        let ghost after = views_of(names@).take(i + 1);
        proof {
            assert(after.drop_last() == before);
            assert(after.last() == names@[i as int]@);
        }
        if i > 0 {
            out.append(", ");
        }
        out.append(names[i].as_str());
        i += 1;
    }
    proof {
        assert(views_of(names@).take(names.len() as int) == views_of(names@));
    }
    out
}

/// Whether `info` is what is kept of the track `ft`: its identifier, title and
/// duration, its artists' names joined, and its first album image if it has one.
pub open spec fn describes(info: BasicSongInfo, ft: TrackRecord) -> bool {
    &&& info.spotify_uri == ft.uri
    &&& info.title == ft.name
    &&& info.artist@ == joined(views_of(ft.artists@), ", "@)
    &&& info.duration_ms == ft.duration_ms
    &&& ft.album_images@.len() == 0 ==> info.album_image_url is None
    &&& ft.album_images@.len() > 0 ==> info.album_image_url == Some(ft.album_images@[0])
}

// The result holds a string that is built here, which no spec term can name:
// `from` states what it is, and `from_spec` is left unused.
impl vstd::std_specs::convert::FromSpecImpl<TrackRecord> for BasicSongInfo {
    open spec fn obeys_from_spec() -> bool {
        false
    }

    open spec fn from_spec(ft: TrackRecord) -> BasicSongInfo {
        arbitrary()
    }
}

impl From<TrackRecord> for BasicSongInfo {
    fn from(ft: TrackRecord) -> (info: BasicSongInfo)
        ensures
            describes(info, ft),
    {
        let artist = join_artists(&ft.artists);
        let album_image_url = if ft.album_images.len() > 0 {
            Some(ft.album_images[0].clone())
        } else {
            None
        };
        BasicSongInfo {
            spotify_uri: ft.uri,
            title: ft.name,
            artist,
            duration_ms: ft.duration_ms,
            album_image_url,
        }
    }
}

/// What is currently playing.
#[derive(Debug, PartialEq)]
pub struct PlaybackStatus {
    pub state: PlaybackState,
    /// The song that is loaded, if any.
    pub song: Option<BasicSongInfo>,
    /// How far into the song playback is, in milliseconds.
    pub progress_ms: Option<u32>,
}

impl Clone for PlaybackStatus {
    fn clone(&self) -> (res: Self)
        ensures
            res == *self,
    {
        let song = match &self.song {
            Some(song) => Some(song.clone()),
            None => None,
        };
        PlaybackStatus { state: self.state, song, progress_ms: self.progress_ms }
    }
}

impl Default for PlaybackStatus {
    fn default() -> (status: Self)
        ensures
            status == (PlaybackStatus { state: PlaybackState::Unknown, song: None, progress_ms: None }),
    {
        PlaybackStatus { state: PlaybackState::Unknown, song: None, progress_ms: None }
    }
}

/// What the remote service reports of its playback, when it reports anything.
#[derive(Debug, PartialEq)]
pub struct PlaybackContext {
    pub is_playing: bool,
    pub progress_ms: Option<u32>,
    pub current_track: Option<BasicSongInfo>,
}

/// Track identifier carried by a request or a downvote.
#[derive(Debug, PartialEq)]
pub struct SongRequestInfo {
    pub track_id: String,
}

#[derive(Debug, PartialEq)]
pub struct SearchParams {
    pub title: String,
    pub tid: TaskID,
}

#[derive(Debug, PartialEq)]
pub struct SearchResult {
    pub items: Vec<BasicSongInfo>,
}

/// A playback device known to the remote service.
#[derive(Debug, PartialEq)]
pub struct Device {
    pub name: String,
    pub id: String,
}

#[derive(Debug, PartialEq)]
pub struct DeviceListParams {
    pub tid: TaskID,
}

#[derive(Debug, PartialEq)]
pub struct DeviceListResult {
    pub items: Vec<Device>,
}

/// The credentials of an authenticated session.
#[derive(Debug, PartialEq)]
pub struct AuthToken {
    pub access_token: String,
    pub token_type: String,
    pub expires_in: u32,
    pub expires_at: Option<i64>,
    /// What a new access token is exchanged for, if the service gave one.
    pub refresh_token: Option<String>,
    pub scope: String,
}

impl Clone for AuthToken {
    fn clone(&self) -> (res: Self)
        ensures
            res == *self,
    {
        let refresh_token = match &self.refresh_token {
            Some(token) => Some(token.clone()),
            None => None,
        };
        AuthToken {
            access_token: self.access_token.clone(),
            token_type: self.token_type.clone(),
            expires_in: self.expires_in,
            expires_at: self.expires_at,
            refresh_token,
            scope: self.scope.clone(),
        }
    }
}

/// Things a producer can ask the playback worker to do.
#[derive(Debug, PartialEq)]
pub enum SpotifyCommand {
    Resume,
    Pause,
    Skip,
    Request(SongRequestInfo),
    Downvote(SongRequestInfo),
    Search(SearchParams),
    ListDevices(DeviceListParams),
    SetActiveDevice(String),
    ClearDevice,
    SetAuthToken(AuthToken),
    ClearAuth,
}

/// What the worker can answer a command with.
#[derive(Debug, PartialEq)]
pub enum CommandResponseDataType {
    Search(SearchResult),
    DeviceList(DeviceListResult),
    Error(String),
}

/// The answer to the command that carried `tid`.
#[derive(Debug, PartialEq)]
pub struct CommandResponse {
    pub tid: TaskID,
    pub value: CommandResponseDataType,
}

/// Why the worker could not carry out a step.
#[derive(Debug, PartialEq)]
pub enum ClientError {
    /// There is no authenticated session.
    Auth,
    /// No device is selected.
    Device,
    /// The remote service or the network failed, with its message.
    Transport(String),
    /// A producer waited for its answer longer than it is willing to.
    Timeout,
}

pub type ClientResult<T> = Result<T, ClientError>;

impl ClientError {
    /// The text of the error, as it is logged and sent to producers.
    pub open spec fn spec_message(self) -> Seq<char> {
        match self {
            ClientError::Auth => "Client not authenticated"@,
            ClientError::Device => "No active device"@,
            ClientError::Transport(text) => text@,
            ClientError::Timeout => "timed out"@,
        }
    }

    pub fn message(&self) -> (text: String)
        ensures
            text@ == self.spec_message(),
    {
        match self {
            ClientError::Auth => "Client not authenticated".to_owned(),
            ClientError::Device => "No active device".to_owned(),
            ClientError::Transport(text) => text.clone(),
            ClientError::Timeout => "timed out".to_owned(),
        }
    }
}

} // verus!
