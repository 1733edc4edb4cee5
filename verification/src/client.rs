//! The playback worker: what it decides on each command, on each answer of
//! the remote service, and in its routine step.

use crate::commands::{after_pop, next_command, TaskQueue};
use crate::common::{
    describes, AuthToken, BasicSongInfo, ClientError, ClientResult, CommandResponse,
    CommandResponseDataType, Device, DeviceListParams, DeviceListResult, PlaybackContext,
    PlaybackState, PlaybackStatus, SearchParams, SearchResult, SpotifyCommand, TaskID,
    TrackRecord,
};
use crate::list::{after_add, after_downvote, picks, SongEntry, TheList};
use vstd::prelude::*;
use vstd::string::StrSliceExecFns;

verus! {

/// How often the worker polls the remote playback status, in milliseconds.
pub const STATUS_CHECK_INTERVAL_MS: u32 = 1000;

/// How often the worker renews its access token, in milliseconds.
pub const TOKEN_REFRESH_INTERVAL_MS: u32 = 300000;

/// How long the worker sleeps when it finds no command pending, before it
/// takes its routine step, in milliseconds.
pub const IDLE_SLEEP_MS: u64 = 50;

/// How many tracks a search asks the remote service for.
pub const SEARCH_LIMIT: u32 = 40;

/// Which of the tracks that match a search is the first to be asked for.
pub const SEARCH_OFFSET: u32 = 0;

/// A call to the remote service that the worker has decided on. Whoever runs
/// the worker makes the call and hands the outcome to the method named here.
#[derive(Debug, PartialEq)]
pub enum RemoteCall {
    /// Resume playback on the device; nothing to hand back.
    Resume(String),
    /// Pause playback on the device; nothing to hand back.
    Pause(String),
    /// Skip to the next track on the device; nothing to hand back.
    Skip(String),
    /// Look the track up; its record goes to `Client::request`.
    Track(String),
    /// Search for tracks by title, `limit` of them from the one at `offset`;
    /// what is found goes to `Client::search`.
    SearchTrack { params: SearchParams, limit: u32, offset: u32 },
    /// List the devices; they go to `Client::list_devices`.
    Devices(DeviceListParams),
    /// Start playing the track on the device; nothing to hand back.
    StartPlayback { device: String, track_id: String },
    /// Ask what is playing; the answer goes to `Client::check_status`.
    PlaybackContext,
    /// Exchange the refresh token for a new access token; it goes to
    /// `Client::refresh_auth_token`.
    RefreshToken(String),
}

/// The calls that the worker's routine step has found due.
#[derive(Debug, PartialEq)]
pub struct Routine {
    /// `RemoteCall::PlaybackContext`, where the status is due and can be asked for.
    pub status: Option<RemoteCall>,
    /// `RemoteCall::RefreshToken`, where the token is due and can be renewed.
    pub refresh: Option<RemoteCall>,
}

/// Whether a timer that fired last at `last` is due at `now_ms`: it never
/// fired, or more than `interval_ms` have passed since.
pub open spec fn is_due(last: Option<u64>, now_ms: u64, interval_ms: u32) -> bool {
    match last {
        None => true,
        Some(at) => now_ms >= at && now_ms - at > interval_ms,
    }
}

/// The state that a poll of the remote service puts the worker in.
pub open spec fn polled_state(
    has_session: bool,
    has_device: bool,
    context: Option<PlaybackContext>,
) -> PlaybackState {
    if !has_session {
        PlaybackState::NoAuth
    } else if !has_device {
        PlaybackState::NoDevice
    } else {
        match context {
            Some(c) => {
                if c.is_playing {
                    PlaybackState::Playing
                } else if c.progress_ms is Some && c.progress_ms.unwrap() > 0 {
                    PlaybackState::Paused
                } else {
                    PlaybackState::NeedsSong
                }
            },
            None => PlaybackState::NeedsSong,
        }
    }
}

/// The status that a poll of the remote service leaves: the polled state,
/// with the song and the progress that the service reports while a song is
/// playing or paused.
pub open spec fn polled_status(
    has_session: bool,
    has_device: bool,
    context: Option<PlaybackContext>,
) -> PlaybackStatus {
    let state = polled_state(has_session, has_device, context);
    if state == PlaybackState::Playing || state == PlaybackState::Paused {
        PlaybackStatus {
            state,
            song: context.unwrap().current_track,
            progress_ms: context.unwrap().progress_ms,
        }
    } else {
        PlaybackStatus { state, song: None, progress_ms: None }
    }
}

/// A poll never leaves the worker in its starting state, nor in the state of
/// waiting for a song that it has handed over: the first is there only before
/// the first poll, the second only by the worker's own doing.
pub proof fn lemma_polled_state(has_session: bool, has_device: bool, context: Option<PlaybackContext>)
    ensures
        polled_state(has_session, has_device, context) != PlaybackState::Unknown,
        polled_state(has_session, has_device, context) != PlaybackState::EnqueuedAndWaiting,
        polled_status(has_session, has_device, context).state == polled_state(
            has_session,
            has_device,
            context,
        ),
        !has_session ==> polled_state(has_session, has_device, context) == PlaybackState::NoAuth,
        has_session && !has_device ==> polled_state(has_session, has_device, context)
            == PlaybackState::NoDevice,
{
}

/// Whether `after` is `before` with one response more, at the end.
pub open spec fn published(before: Seq<CommandResponse>, after: Seq<CommandResponse>) -> bool {
    after.len() == before.len() + 1 && after.drop_last() == before
}

/// Whether `r` tells the producer of task `tid` that its command failed, with
/// the message `text`.
pub open spec fn answers_with_error(r: CommandResponse, tid: TaskID, text: Seq<char>) -> bool {
    &&& r.tid == tid
    &&& r.value matches CommandResponseDataType::Error(message)
    &&& message@ == text
}

/// Whether `r` answers the search of task `tid` with what is kept of each
/// track of `found`, in order.
pub open spec fn answers_search(r: CommandResponse, tid: TaskID, found: Seq<TrackRecord>) -> bool {
    &&& r.tid == tid
    &&& r.value matches CommandResponseDataType::Search(result)
    &&& result.items@.len() == found.len()
    &&& forall|i: int| 0 <= i < found.len() ==> describes(#[trigger] result.items@[i], found[i])
}

/// Whether `r` answers the device list of task `tid` with `devices`.
pub open spec fn answers_devices(r: CommandResponse, tid: TaskID, devices: Vec<Device>) -> bool {
    r == (CommandResponse {
        tid,
        value: CommandResponseDataType::DeviceList(DeviceListResult { items: devices }),
    })
}

/// Whether the worker needs a session to carry out `c`.
pub open spec fn needs_session(c: SpotifyCommand) -> bool {
    c is Resume || c is Pause || c is Skip || c is Request || c is Search || c is ListDevices
}

/// Whether the worker needs a selected device to carry out `c`.
pub open spec fn needs_device(c: SpotifyCommand) -> bool {
    c is Resume || c is Pause || c is Skip
}

/// The task whose producer waits for an answer to `c`, if any does.
pub open spec fn awaited(c: SpotifyCommand) -> Option<TaskID> {
    match c {
        SpotifyCommand::Search(params) => Some(params.tid),
        SpotifyCommand::ListDevices(params) => Some(params.tid),
        _ => None,
    }
}

/// What carrying out `c` comes to for a worker in the state `client`: the
/// error that stops it, or the remote call that it asks for, if it needs one.
pub open spec fn planned(client: Client, c: SpotifyCommand) -> ClientResult<Option<RemoteCall>> {
    if needs_session(c) && client.session is None {
        Err(ClientError::Auth)
    } else if needs_device(c) && client.device is None {
        Err(ClientError::Device)
    } else {
        Ok(
            match c {
                SpotifyCommand::Resume => Some(RemoteCall::Resume(client.device.unwrap())),
                SpotifyCommand::Pause => Some(RemoteCall::Pause(client.device.unwrap())),
                SpotifyCommand::Skip => Some(RemoteCall::Skip(client.device.unwrap())),
                SpotifyCommand::Request(request) => Some(RemoteCall::Track(request.track_id)),
                SpotifyCommand::Search(params) => Some(
                    RemoteCall::SearchTrack { params, limit: SEARCH_LIMIT, offset: SEARCH_OFFSET },
                ),
                SpotifyCommand::ListDevices(params) => Some(RemoteCall::Devices(params)),
                _ => None,
            },
        )
    }
}

/// The worker's state once it has carried out `c`.
pub open spec fn client_after(client: Client, c: SpotifyCommand) -> Client {
    match c {
        SpotifyCommand::SetActiveDevice(id) => Client { device: Some(id), ..client },
        SpotifyCommand::ClearDevice => Client { device: None, ..client },
        SpotifyCommand::SetAuthToken(token) => Client { session: Some(token), ..client },
        SpotifyCommand::ClearAuth => Client { session: None, ..client },
        _ => client,
    }
}

/// The list once the worker has carried out `c`.
pub open spec fn list_after(m: Map<Seq<char>, SongEntry>, c: SpotifyCommand) -> Map<
    Seq<char>,
    SongEntry,
> {
    match c {
        SpotifyCommand::Downvote(request) => after_downvote(m, request.track_id@),
        _ => m,
    }
}

/// A command that fails changes neither the worker nor the list.
pub proof fn lemma_failed_command_changes_nothing(
    client: Client,
    c: SpotifyCommand,
    m: Map<Seq<char>, SongEntry>,
)
    requires
        planned(client, c) is Err,
    ensures
        client_after(client, c) == client,
        list_after(m, c) == m,
        planned(client, c) == Err::<Option<RemoteCall>, ClientError>(ClientError::Auth)
            <==> client.session is None,
        planned(client, c) == Err::<Option<RemoteCall>, ClientError>(ClientError::Device)
            <==> client.session is Some,
{
}

/// Whether `after` are the responses that carrying out `c` leaves of
/// `before`: a producer that waits for an answer is told so at once where
/// there is no session to ask the remote service through.
pub open spec fn responses_after(
    client: Client,
    c: SpotifyCommand,
    before: Seq<CommandResponse>,
    after: Seq<CommandResponse>,
) -> bool {
    if awaited(c) is Some && client.session is None {
        &&& published(before, after)
        &&& answers_with_error(after.last(), awaited(c).unwrap(), ClientError::Auth.spec_message())
    } else {
        after == before
    }
}

/// The calls that the routine step of a worker in the state `client` finds
/// due at `now_ms`.
pub open spec fn routine_due(client: Client, now_ms: u64) -> Routine {
    Routine {
        status: if is_due(client.last_status_check, now_ms, client.status_check_interval_ms)
            && client.session is Some && client.device is Some {
            Some(RemoteCall::PlaybackContext)
        } else {
            None
        },
        refresh: if is_due(client.last_token_refresh, now_ms, client.token_refresh_interval_ms)
            && client.session is Some && client.session.unwrap().refresh_token is Some {
            Some(RemoteCall::RefreshToken(client.session.unwrap().refresh_token.unwrap()))
        } else {
            None
        },
    }
}

/// The worker's state after its routine step at `now_ms`. A status check that
/// is due is marked as done; where there is no session or no device, it sets
/// the status at once. A token renewal that is due and cannot be attempted,
/// for want of a session or of a refresh token, is marked as done; one that
/// can be attempted is marked when the new token arrives.
pub open spec fn after_routine(client: Client, now_ms: u64) -> Client {
    let status_due = is_due(client.last_status_check, now_ms, client.status_check_interval_ms);
    let refresh_due = is_due(client.last_token_refresh, now_ms, client.token_refresh_interval_ms);
    let ready = client.session is Some && client.device is Some;
    let renewable = client.session is Some && client.session.unwrap().refresh_token is Some;
    Client {
        status: if status_due && !ready {
            polled_status(client.session is Some, client.device is Some, None)
        } else {
            client.status
        },
        last_status_check: if status_due {
            Some(now_ms)
        } else {
            client.last_status_check
        },
        last_token_refresh: if refresh_due && !renewable {
            Some(now_ms)
        } else {
            client.last_token_refresh
        },
        ..client
    }
}

/// The text `text` in lower case, as `str::to_lowercase` gives it.
pub uninterp spec fn lowercased(text: Seq<char>) -> Seq<char>;

/// `str::to_lowercase`: the text with each character replaced by its lower
/// case as Unicode defines it, which depends on the text alone.
#[verifier::external_body]
fn to_lowercase(text: &str) -> (lowered: String)
    ensures
        lowered@ == lowercased(text@),
{
    text.to_lowercase()
}

/// Whether `needle` stands in `hay` from place `i` on.
pub open spec fn stands_at(hay: Seq<char>, needle: Seq<char>, i: int) -> bool {
    &&& 0 <= i
    &&& i + needle.len() <= hay.len()
    &&& hay.subrange(i, i + needle.len()) == needle
}

/// Whether `needle` stands somewhere in `hay`.
pub open spec fn holds_text(hay: Seq<char>, needle: Seq<char>) -> bool {
    exists|i: int| #[trigger] stands_at(hay, needle, i)
}

/// Whether a title that reads `lowered` in lower case is one that the worker
/// does not take requests for.
pub open spec fn refused_text(lowered: Seq<char>) -> bool {
    holds_text(lowered, "scatman"@) || holds_text(lowered, "freestyler"@)
}

/// Whether `title` is one that the worker does not take requests for,
/// however it is capitalized.
pub open spec fn refused_title(title: Seq<char>) -> bool {
    refused_text(lowercased(title))
}

/// The characters of `text`.
fn chars_of(text: &str) -> (chars: Vec<char>)
    ensures
        chars@ == text@,
{
    let n = text.unicode_len();
    let mut chars: Vec<char> = Vec::new();
    while chars.len() < n
        invariant
            n == text@.len(),
            chars@.len() <= n,
            forall|i: int| 0 <= i < chars@.len() ==> chars@[i] == text@[i],
        decreases n - chars@.len(),
    {
        chars.push(text.get_char(chars.len()));
    }
    proof {
        assert(chars@ =~= text@);
    }
    chars
}

/// Whether `needle` stands somewhere in `hay`.
pub fn contains_text(hay: &str, needle: &str) -> (found: bool)
    ensures
        found == holds_text(hay@, needle@),
{
    let h = chars_of(hay);
    let n = chars_of(needle);
    if n.len() > h.len() {
        return false;
    }
    let size = h.len();
    let last = size - n.len();
    let mut i: usize = 0;
    loop
        invariant
            h@ == hay@,
            n@ == needle@,
            size == h@.len(),
            n@.len() <= h@.len(),
            last == h@.len() - n@.len(),
            i <= last,
            forall|j: int| 0 <= j < i ==> !stands_at(hay@, needle@, j),
        decreases last - i,
    {
        let mut k: usize = 0;
        while k < n.len() && h[i + k] == n[k]
            invariant
                i + n@.len() <= h@.len(),
                size == h@.len(),
                k <= n@.len(),
                forall|m: int| 0 <= m < k ==> h@[i + m] == n@[m],
            decreases n@.len() - k,
        {
            k += 1;
        }
        if k == n.len() {
            proof {
                assert(h@.subrange(i as int, i + n@.len()) =~= n@);
                assert(stands_at(hay@, needle@, i as int));
            }
            return true;
        }
        proof {
            assert(h@.subrange(i as int, i + n@.len())[k as int] == h@[i + k]);
            assert(!stands_at(hay@, needle@, i as int));
        }
        if i == last {
            return false;
        }
        i += 1;
    }
}

/// Whether a title that reads `lowered` in lower case is one that the worker
/// does not take requests for.
pub fn is_refused(lowered: &str) -> (refused: bool)
    ensures
        refused == refused_text(lowered@),
{
    contains_text(lowered, "scatman") || contains_text(lowered, "freestyler")
}

/// A duration of whole seconds and a rest in milliseconds, in milliseconds.
pub fn duration_as_millis(secs: u64, subsec_millis: u32) -> (ms: u64)
    requires
        secs * 1000 + subsec_millis <= u64::MAX,
    ensures
        ms == secs * 1000 + subsec_millis,
{
    secs * 1000 + subsec_millis as u64
}

/// The playback worker: what it knows of its session with the remote service,
/// and the status that it publishes.
#[derive(Debug, PartialEq)]
pub struct Client {
    /// The credentials of the session, while there is one.
    pub session: Option<AuthToken>,
    /// The device that playback is directed to, while one is selected.
    pub device: Option<String>,
    /// The playback status as last established.
    pub status: PlaybackStatus,
    /// When the status was last checked.
    pub last_status_check: Option<u64>,
    /// When the access token was last renewed.
    pub last_token_refresh: Option<u64>,
    pub status_check_interval_ms: u32,
    pub token_refresh_interval_ms: u32,
}

impl Client {
    pub fn new() -> (client: Client)
        ensures
            client == (Client {
                session: None,
                device: None,
                status: PlaybackStatus { state: PlaybackState::Unknown, song: None, progress_ms: None },
                last_status_check: None,
                last_token_refresh: None,
                status_check_interval_ms: STATUS_CHECK_INTERVAL_MS,
                token_refresh_interval_ms: TOKEN_REFRESH_INTERVAL_MS,
            }),
    {
        Client {
            session: None,
            device: None,
            status: PlaybackStatus::default(),
            last_status_check: None,
            last_token_refresh: None,
            status_check_interval_ms: STATUS_CHECK_INTERVAL_MS,
            token_refresh_interval_ms: TOKEN_REFRESH_INTERVAL_MS,
        }
    }

    /// Ends the session with the remote service.
    pub fn clear_auth(&mut self)
        ensures
            *final(self) == (Client { session: None, ..*old(self) }),
    {
        self.session = None;
    }

    /// Starts a session with the given credentials, in place of any earlier one.
    pub fn set_auth_token(&mut self, token: &AuthToken)
        ensures
            *final(self) == (Client { session: Some(*token), ..*old(self) }),
    {
        self.session = Some(token.clone());
    }

    /// The credentials of the session.
    pub fn get_spotify(&self) -> (session: ClientResult<&AuthToken>)
        ensures
            self.session is None ==> session == Err::<&AuthToken, ClientError>(ClientError::Auth),
            self.session is Some ==> session == Ok::<&AuthToken, ClientError>(
                &self.session.unwrap(),
            ),
    {
        match &self.session {
            None => Err(ClientError::Auth),
            Some(c) => Ok(c),
        }
    }

    /// The device that playback is directed to.
    pub fn get_device(&self) -> (device: ClientResult<&String>)
        ensures
            self.device is None ==> device == Err::<&String, ClientError>(ClientError::Device),
            self.device is Some ==> device == Ok::<&String, ClientError>(&self.device.unwrap()),
    {
        match &self.device {
            None => Err(ClientError::Device),
            Some(d) => Ok(d),
        }
    }

    /// Directs playback to the device `id`.
    pub fn set_active_device(&mut self, id: String)
        ensures
            *final(self) == (Client { device: Some(id), ..*old(self) }),
    {
        self.device = Some(id);
    }

    /// Directs playback to no device.
    pub fn clear_active_device(&mut self)
        ensures
            *final(self) == (Client { device: None, ..*old(self) }),
    {
        self.device = None;
    }

    /// Re-evaluates the playback state from what the remote service reports.
    /// Without a session or without a device the state follows from that
    /// alone, and `context` is not looked at.
    pub fn update_status(&mut self, context: Option<PlaybackContext>) -> (state: PlaybackState)
        ensures
            state == polled_state(old(self).session is Some, old(self).device is Some, context),
            *final(self) == (Client {
                status: polled_status(
                    old(self).session is Some,
                    old(self).device is Some,
                    context,
                ),
                ..*old(self)
            }),
    {
        let mut status = PlaybackStatus { state: PlaybackState::NeedsSong, song: None, progress_ms: None };
        if self.session.is_none() {
            status.state = PlaybackState::NoAuth;
        } else if self.device.is_none() {
            status.state = PlaybackState::NoDevice;
        } else {
            match context {
                Some(c) => {
                    let paused = match c.progress_ms {
                        Some(progress) => progress > 0,
                        None => false,
                    };
                    if c.is_playing {
                        status = PlaybackStatus {
                            state: PlaybackState::Playing,
                            song: c.current_track,
                            progress_ms: c.progress_ms,
                        };
                    } else if paused {
                        status = PlaybackStatus {
                            state: PlaybackState::Paused,
                            song: c.current_track,
                            progress_ms: c.progress_ms,
                        };
                    }
                },
                None => {},
            }
        }
        let state = status.state;
        self.status = status;
        state
    }
    fn due(last: Option<u64>, now_ms: u64, interval_ms: u32) -> (due: bool)
        ensures
            due == is_due(last, now_ms, interval_ms),
    {
        match last {
            None => true,
            Some(at) => now_ms >= at && now_ms - at > interval_ms as u64,
        }
    }

    /// The worker's routine step, which it takes when no command is pending:
    /// two timers decide, each for itself, whether the playback status is to
    /// be checked and whether the access token is to be renewed.
    pub fn routine(&mut self, now_ms: u64) -> (due: Routine)
        ensures
            due == routine_due(*old(self), now_ms),
            *final(self) == after_routine(*old(self), now_ms),
    {
        let mut due = Routine { status: None, refresh: None };
        if Self::due(self.last_status_check, now_ms, self.status_check_interval_ms) {
            if self.session.is_some() && self.device.is_some() {
                due.status = Some(RemoteCall::PlaybackContext);
            } else {
                self.update_status(None);
            }
            self.last_status_check = Some(now_ms);
        }
        if Self::due(self.last_token_refresh, now_ms, self.token_refresh_interval_ms) {
            let refresh_token = match &self.session {
                Some(session) => match &session.refresh_token {
                    Some(token) => Some(token.clone()),
                    None => None,
                },
                None => None,
            };
            match refresh_token {
                Some(token) => {
                    due.refresh = Some(RemoteCall::RefreshToken(token));
                },
                None => {
                    self.last_token_refresh = Some(now_ms);
                },
            }
        }
        due
    }

    /// Takes in what the remote service reports of its playback: the state is
    /// re-evaluated, and where that leaves the worker in need of a song, the
    /// next one is taken off the list at once and its playback asked for.
    pub fn check_status(&mut self, context: Option<PlaybackContext>, list: &mut TheList) -> (call:
        Option<RemoteCall>)
        ensures
            ({
                let polled = polled_status(
                    old(self).session is Some,
                    old(self).device is Some,
                    context,
                );
                if polled.state == PlaybackState::NeedsSong && old(list)@.dom().len() > 0 {
                    &&& final(self).status.state == PlaybackState::EnqueuedAndWaiting
                    &&& final(self).status.song is Some
                    &&& final(self).status.progress_ms is None
                    &&& picks(old(list)@, final(self).status.song, final(list)@)
                    &&& final(list)@.dom().len() == old(list)@.dom().len() - 1
                    &&& call == Some(
                        RemoteCall::StartPlayback {
                            device: old(self).device.unwrap(),
                            track_id: final(self).status.song.unwrap().spotify_uri,
                        },
                    )
                } else {
                    &&& final(self).status == polled
                    &&& final(list)@ == old(list)@
                    &&& call is None
                }
            }),
            *final(self) == (Client { status: final(self).status, ..*old(self) }),
    {
        let state = self.update_status(context);
        if state == PlaybackState::NeedsSong {
            let device = match &self.device {
                Some(device) => device.clone(),
                None => {
                    return None;
                },
            };
            match list.nextup() {
                Some(song) => {
                    let track_id = song.spotify_uri.clone();
                    self.status = PlaybackStatus {
                        state: PlaybackState::EnqueuedAndWaiting,
                        song: Some(song),
                        progress_ms: None,
                    };
                    Some(RemoteCall::StartPlayback { device, track_id })
                },
                None => None,
            }
        } else {
            None
        }
    }
    /// Tells the producer of task `tid` that its command failed.
    fn fail(queue: &mut TaskQueue, tid: TaskID, error: &ClientError)
        ensures
            published(old(queue).responses(), final(queue).responses()),
            answers_with_error(final(queue).responses().last(), tid, error.spec_message()),
            final(queue).pending() == old(queue).pending(),
            final(queue).issued() == old(queue).issued(),
    {
        let response = CommandResponse { tid, value: CommandResponseDataType::Error(error.message()) };
        queue.respond(response);
        proof {
            assert(final(queue).responses().drop_last() == old(queue).responses());
        }
    }

    /// Carries out a command as far as the worker can by itself, and says
    /// which remote call is needed to finish it, if one is.
    pub fn execute(&mut self, c: SpotifyCommand, list: &mut TheList, queue: &mut TaskQueue) -> (call:
        ClientResult<Option<RemoteCall>>)
        ensures
            call == planned(*old(self), c),
            *final(self) == client_after(*old(self), c),
            final(list)@ == list_after(old(list)@, c),
            responses_after(*old(self), c, old(queue).responses(), final(queue).responses()),
            final(queue).pending() == old(queue).pending(),
            final(queue).issued() == old(queue).issued(),
    {
        match c {
            SpotifyCommand::Resume => {
                self.get_spotify()?;
                let device = self.get_device()?;
                Ok(Some(RemoteCall::Resume(device.clone())))
            },
            SpotifyCommand::Pause => {
                self.get_spotify()?;
                let device = self.get_device()?;
                Ok(Some(RemoteCall::Pause(device.clone())))
            },
            SpotifyCommand::Skip => {
                self.get_spotify()?;
                let device = self.get_device()?;
                Ok(Some(RemoteCall::Skip(device.clone())))
            },
            SpotifyCommand::Request(request) => {
                self.get_spotify()?;
                Ok(Some(RemoteCall::Track(request.track_id)))
            },
            SpotifyCommand::Downvote(request) => {
                list.downvote(&request.track_id);
                Ok(None)
            },
            SpotifyCommand::Search(params) => {
                if self.session.is_none() {
                    Self::fail(queue, params.tid, &ClientError::Auth);
                    return Err(ClientError::Auth);
                }
                Ok(Some(RemoteCall::SearchTrack { params, limit: SEARCH_LIMIT, offset: SEARCH_OFFSET }))
            },
            SpotifyCommand::ListDevices(params) => {
                if self.session.is_none() {
                    Self::fail(queue, params.tid, &ClientError::Auth);
                    return Err(ClientError::Auth);
                }
                Ok(Some(RemoteCall::Devices(params)))
            },
            SpotifyCommand::SetActiveDevice(id) => {
                self.set_active_device(id);
                Ok(None)
            },
            SpotifyCommand::ClearDevice => {
                self.clear_active_device();
                Ok(None)
            },
            SpotifyCommand::SetAuthToken(token) => {
                self.session = Some(token);
                Ok(None)
            },
            SpotifyCommand::ClearAuth => {
                self.clear_auth();
                Ok(None)
            },
        }
    }

    /// One turn of the worker: it takes the oldest pending command, if there
    /// is one, and carries it out. `None` says that nothing was pending, which
    /// is when the routine step is due.
    pub fn step(&mut self, queue: &mut TaskQueue, list: &mut TheList) -> (ran: Option<
        ClientResult<Option<RemoteCall>>,
    >)
        ensures
            match next_command(old(queue).pending()) {
                Some(c) => {
                    &&& ran == Some(planned(*old(self), c))
                    &&& *final(self) == client_after(*old(self), c)
                    &&& final(list)@ == list_after(old(list)@, c)
                    &&& responses_after(
                        *old(self),
                        c,
                        old(queue).responses(),
                        final(queue).responses(),
                    )
                },
                None => {
                    &&& ran is None
                    &&& *final(self) == *old(self)
                    &&& final(list)@ == old(list)@
                    &&& final(queue).responses() == old(queue).responses()
                },
            },
            final(queue).pending() == after_pop(old(queue).pending()),
            final(queue).issued() == old(queue).issued(),
    {
        match queue.pop() {
            Some(c) => Some(self.execute(c, list, queue)),
            None => None,
        }
    }

    /// Finishes a request for a song with what the remote service knows of the
    /// track: the song enters the list, or gets one more vote. A track with a
    /// refused title is passed over: the request succeeds and changes nothing.
    pub fn request(&self, found: Result<TrackRecord, String>, list: &mut TheList) -> (done:
        ClientResult<()>)
        requires
            self.session is Some && found is Ok && old(list)@.contains_key(found.unwrap().uri@)
                ==> old(list)@[found.unwrap().uri@].votes < i64::MAX,
        ensures
            self.session is None ==> done == Err::<(), ClientError>(ClientError::Auth),
            self.session is Some && found is Err ==> done == Err::<(), ClientError>(
                ClientError::Transport(found->Err_0),
            ),
            self.session is Some && found is Ok ==> done is Ok,
            done is Err ==> final(list)@ == old(list)@,
            done is Ok && refused_title(found.unwrap().name@) ==> final(list)@ == old(list)@,
            done is Ok && !refused_title(found.unwrap().name@) ==> {
                let k = found.unwrap().uri@;
                &&& final(list)@.contains_key(k)
                &&& final(list)@[k].info.spotify_uri@ == k
                &&& final(list)@ == after_add(old(list)@, final(list)@[k].info)
                &&& !old(list)@.contains_key(k) ==> describes(final(list)@[k].info, found.unwrap())
            },
    {
        self.get_spotify()?;
        match found {
            Ok(track) => {
                let x: BasicSongInfo = BasicSongInfo::from(track);
                let lowered = to_lowercase(x.title.as_str());
                if is_refused(lowered.as_str()) {
                    return Ok(());
                }
                list.add(x);
                Ok(())
            },
            Err(message) => Err(ClientError::Transport(message)),
        }
    }

    /// Finishes a search with what the remote service found: the producer
    /// that waits for it gets the tracks, or the reason why there are none.
    pub fn search(
        &self,
        params: &SearchParams,
        found: Result<Vec<TrackRecord>, String>,
        queue: &mut TaskQueue,
    ) -> (done: ClientResult<()>)
        ensures
            published(old(queue).responses(), final(queue).responses()),
            final(queue).pending() == old(queue).pending(),
            final(queue).issued() == old(queue).issued(),
            self.session is None ==> done == Err::<(), ClientError>(ClientError::Auth),
            self.session is Some && found is Err ==> done == Err::<(), ClientError>(
                ClientError::Transport(found->Err_0),
            ),
            self.session is Some && found is Ok ==> done is Ok,
            done is Err ==> answers_with_error(
                final(queue).responses().last(),
                params.tid,
                done->Err_0.spec_message(),
            ),
            done is Ok ==> answers_search(final(queue).responses().last(), params.tid, found.unwrap()@),
    {
        if self.session.is_none() {
            Self::fail(queue, params.tid, &ClientError::Auth);
            return Err(ClientError::Auth);
        }
        match found {
            Ok(tracks) => {
                let ghost all = tracks@;
                let mut items: Vec<BasicSongInfo> = Vec::new();
                for s in it: tracks
                    invariant
                        it.seq() == all,
                        items@.len() == it.index(),
                        forall|i: int| 0 <= i < items@.len() ==> describes(#[trigger] items@[i], all[i]),
                {
                    items.push(BasicSongInfo::from(s));
                }
                let response = CommandResponse {
                    tid: params.tid,
                    value: CommandResponseDataType::Search(SearchResult { items }),
                };
                queue.respond(response);
                proof {
                    assert(final(queue).responses().drop_last() == old(queue).responses());
                }
                Ok(())
            },
            Err(message) => {
                let error = ClientError::Transport(message);
                Self::fail(queue, params.tid, &error);
                Err(error)
            },
        }
    }

    /// Finishes a device listing with what the remote service reported: the
    /// producer that waits for it gets the devices, or the reason why there
    /// are none.
    pub fn list_devices(
        &self,
        params: &DeviceListParams,
        found: Result<Vec<Device>, String>,
        queue: &mut TaskQueue,
    ) -> (done: ClientResult<()>)
        ensures
            published(old(queue).responses(), final(queue).responses()),
            final(queue).pending() == old(queue).pending(),
            final(queue).issued() == old(queue).issued(),
            self.session is None ==> done == Err::<(), ClientError>(ClientError::Auth),
            self.session is Some && found is Err ==> done == Err::<(), ClientError>(
                ClientError::Transport(found->Err_0),
            ),
            self.session is Some && found is Ok ==> done is Ok,
            done is Err ==> answers_with_error(
                final(queue).responses().last(),
                params.tid,
                done->Err_0.spec_message(),
            ),
            done is Ok ==> answers_devices(final(queue).responses().last(), params.tid, found.unwrap()),
    {
        if self.session.is_none() {
            Self::fail(queue, params.tid, &ClientError::Auth);
            return Err(ClientError::Auth);
        }
        match found {
            Ok(items) => {
                let response = CommandResponse {
                    tid: params.tid,
                    value: CommandResponseDataType::DeviceList(DeviceListResult { items }),
                };
                queue.respond(response);
                proof {
                    assert(final(queue).responses().drop_last() == old(queue).responses());
                }
                Ok(())
            },
            Err(message) => {
                let error = ClientError::Transport(message);
                Self::fail(queue, params.tid, &error);
                Err(error)
            },
        }
    }

    /// Finishes a renewal of the access token, which expires every hour or
    /// so: the new credentials take the place of the old ones, and the
    /// renewal is marked as done at `now_ms`.
    pub fn refresh_auth_token(&mut self, fresh: Result<AuthToken, String>, now_ms: u64) -> (done:
        ClientResult<()>)
        ensures
            old(self).session is None ==> done == Err::<(), ClientError>(ClientError::Auth),
            old(self).session is Some && fresh is Err ==> done == Err::<(), ClientError>(
                ClientError::Transport(fresh->Err_0),
            ),
            old(self).session is Some && fresh is Ok ==> done is Ok,
            done is Err ==> *final(self) == *old(self),
            done is Ok ==> *final(self) == (Client {
                session: Some(fresh.unwrap()),
                last_token_refresh: Some(now_ms),
                ..*old(self)
            }),
    {
        self.get_spotify()?;
        match fresh {
            Ok(newtoken) => {
                self.session = Some(newtoken);
                self.last_token_refresh = Some(now_ms);
                Ok(())
            },
            Err(message) => Err(ClientError::Transport(message)),
        }
    }
}

} // verus!
