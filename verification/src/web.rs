//! The producers' side: what each request of the web interface asks of the
//! worker, and how a producer waits for the answer to its command.

use crate::client::answers_with_error;
use crate::list::TheList;
use crate::commands::{after_queue, after_wait, taken, TaskQueue};
use crate::common::{
    AuthToken, ClientError, CommandResponse, CommandResponseDataType, DeviceListParams,
    DeviceListResult,
    PlaybackStatus, SearchParams, SearchResult, SongRequestInfo, SpotifyCommand, TaskID,
};
use rand::distributions::Alphanumeric;
use rand::Rng;
use vstd::prelude::*;

verus! {

/// How long a producer waits for the answer to its command, in milliseconds.
pub const WAIT_TIMEOUT_MS: u64 = 15000;

/// How long a producer sleeps between two looks at the responses, in
/// milliseconds.
pub const WAIT_STEP_MS: u64 = 100;

/// What the web interface answers.
#[derive(Debug, PartialEq)]
pub enum WebResponse<'a> {
    Success,
    Status(PlaybackStatus),
    Search(SearchResult),
    Queue(&'a TheList),
    DeviceList(DeviceListResult),
    Error(String),
}

/// A producer that waits for the answer to the task `tid`.
#[derive(Debug, PartialEq, Eq, Clone, Copy, Structural)]
pub struct Wait {
    pub tid: TaskID,
    /// How many more times the producer looks before it gives up.
    pub polls_left: u64,
    /// How long it sleeps after a look that found nothing, in milliseconds.
    pub step_ms: u64,
}

/// What a look at the responses tells the producer to do.
#[derive(Debug, PartialEq)]
pub enum Polled {
    /// The wait is over, with this response.
    Ready(CommandResponse),
    /// Nothing yet: sleep for so many milliseconds, then look again.
    Sleep(u64),
}

/// Whether a look by the producer `before`, which finds `found` among the
/// responses, may tell it `told` and leave it as `after`. A producer that has
/// no looks left gives up with an error of its own making; else it takes what
/// it found, or sleeps and has one look less.
pub open spec fn polls(before: Wait, found: Option<CommandResponse>, told: Polled, after: Wait) -> bool {
    if before.polls_left == 0 {
        &&& told matches Polled::Ready(r)
        &&& answers_with_error(r, before.tid, ClientError::Timeout.spec_message())
        &&& after == before
    } else {
        match found {
            Some(r) => told == Polled::Ready(r) && after == before,
            None => told == Polled::Sleep(before.step_ms) && after == (Wait {
                polls_left: (before.polls_left - 1) as u64,
                ..before
            }),
        }
    }
}

impl Wait {
    /// A wait for the task `tid` that gives up once it has slept for
    /// `timeout_ms` in steps of `step_ms`.
    pub fn new(tid: TaskID, timeout_ms: u64, step_ms: u64) -> (wait: Wait)
        requires
            step_ms > 0,
        ensures
            wait == (Wait { tid, polls_left: timeout_ms / step_ms, step_ms }),
    {
        Wait { tid, polls_left: timeout_ms / step_ms, step_ms }
    }
}

/// One look of a waiting producer at the responses. Whoever runs the producer
/// sleeps as told between two looks, and holds the queue only for the look.
pub fn wait_for_task(queue: &mut TaskQueue, wait: &mut Wait) -> (told: Polled)
    ensures
        polls(
            *old(wait),
            if old(wait).polls_left == 0 {
                None
            } else {
                taken(old(queue).responses(), old(wait).tid)
            },
            told,
            *final(wait),
        ),
        final(queue).responses() == if old(wait).polls_left == 0 {
            old(queue).responses()
        } else {
            after_wait(old(queue).responses(), old(wait).tid)
        },
        final(queue).pending() == old(queue).pending(),
        final(queue).issued() == old(queue).issued(),
{
    if wait.polls_left == 0 {
        // Waited too long
        return Polled::Ready(
            CommandResponse {
                tid: wait.tid,
                value: CommandResponseDataType::Error(ClientError::Timeout.message()),
            },
        );
    }
    match queue.wait(wait.tid) {
        Some(r) => Polled::Ready(r),
        None => {
            wait.polls_left = wait.polls_left - 1;
            Polled::Sleep(wait.step_ms)
        },
    }
}

/// Whether look number `i` (from 0) in a run of looks is a possible one for a
/// producer whose task is not answered: `waits` holds the producer before
/// each look and after the last, `told` what each look told it.
pub open spec fn looks_in_vain(waits: Seq<Wait>, told: Seq<Polled>, i: int) -> bool {
    polls(waits[i], None, told[i], waits[i + 1])
}

/// A producer whose task is never answered does not wait for ever, nor does
/// it give up early: each of its remaining looks tells it to sleep for one
/// step, and the look after them ends the wait with the timeout error.
pub proof fn lemma_wait_times_out(waits: Seq<Wait>, told: Seq<Polled>, i: int)
    requires
        waits.len() == told.len() + 1,
        told.len() == waits[0].polls_left + 1,
        forall|j: int| 0 <= j < told.len() ==> #[trigger] looks_in_vain(waits, told, j),
        0 <= i < told.len(),
    ensures
        waits[i].polls_left == waits[0].polls_left - i,
        waits[i].tid == waits[0].tid,
        waits[i].step_ms == waits[0].step_ms,
        i < waits[0].polls_left ==> told[i] == Polled::Sleep(waits[0].step_ms),
        i == waits[0].polls_left ==> told[i] is Ready && answers_with_error(
            told[i]->Ready_0,
            waits[0].tid,
            ClientError::Timeout.spec_message(),
        ),
    decreases i,
{
    if i > 0 {
        lemma_wait_times_out(waits, told, i - 1);
        assert(looks_in_vain(waits, told, i - 1));
    }
    assert(looks_in_vain(waits, told, i));
}

/// The time that a producer has slept when it gives up is the timeout it was
/// given, cut down to whole steps.
pub proof fn lemma_wait_length(timeout_ms: u64, step_ms: u64)
    requires
        step_ms > 0,
    ensures
        timeout_ms - step_ms < (timeout_ms / step_ms) * step_ms <= timeout_ms,
        timeout_ms % step_ms == 0 ==> (timeout_ms / step_ms) * step_ms == timeout_ms,
{
    let t = timeout_ms as int;
    let s = step_ms as int;
    assert(t == s * (t / s) + t % s && 0 <= t % s && t % s < s) by (nonlinear_arith)
        requires
            s > 0,
    ;
    assert((t / s) * s == s * (t / s)) by (nonlinear_arith);
}

/// Whether `c` is a letter of the English alphabet or a digit.
pub open spec fn is_alphanumeric(c: char) -> bool {
    ('0' <= c && c <= '9') || ('A' <= c && c <= 'Z') || ('a' <= c && c <= 'z')
}

/// `rand::Rng::sample` with `rand::distributions::Alphanumeric`, on the
/// thread's generator: a letter of the English alphabet or a digit, whichever
/// the generator picks.
#[verifier::external_body]
fn sample_alphanumeric() -> (c: char)
    ensures
        is_alphanumeric(c),
{
    let mut rng = rand::thread_rng();
    rng.sample(Alphanumeric)
}

/// `length` random letters and digits, for a text that nobody can guess.
pub fn generate_random_string(length: usize) -> (text: Vec<char>)
    ensures
        text@.len() == length,
        forall|i: int| 0 <= i < length ==> is_alphanumeric(#[trigger] text@[i]),
{
    let mut text: Vec<char> = Vec::new();
    while text.len() < length
        invariant
            text@.len() <= length,
            forall|i: int| 0 <= i < text@.len() ==> is_alphanumeric(#[trigger] text@[i]),
        decreases length - text@.len(),
    {
        text.push(sample_alphanumeric());
    }
    text
}

/// A request to the web interface, once its route has been told.
#[derive(Debug, PartialEq)]
pub enum ApiRequest {
    Resume,
    Pause,
    Skip,
    /// Request the track with this identifier.
    Request(String),
    /// Vote the track with this identifier down.
    Downvote(String),
    Status,
    DeviceList,
    /// Direct playback to the device with this identifier.
    DeviceSet(String),
    DeviceClear,
    /// Search for tracks by this title.
    SearchTrack(String),
    /// The return from the authorization page, with the credentials that the
    /// code was exchanged for, if it came with one that could be.
    PostAuth(Option<AuthToken>),
    AuthDestroy,
}

/// Which answer a producer waits for.
#[derive(Debug, PartialEq, Eq, Clone, Copy, Structural)]
pub enum Awaited {
    Search,
    DeviceList,
}

/// What the web interface does about a request.
#[derive(Debug, PartialEq)]
pub enum Handled<'a> {
    /// Answer with this.
    Reply(WebResponse<'a>),
    /// Answer that the command was taken.
    Accepted,
    /// Wait for the worker's answer, then answer with what `finish_response`
    /// makes of it.
    Await(Awaited, Wait),
    /// Send the caller back to the index page.
    Redirect,
    /// Answer that the authorization code is missing.
    MissingCode,
}

/// The command that a request submits to the worker, if it submits one; `tid`
/// is the task that the request is given where it waits for an answer.
pub open spec fn command_of(request: ApiRequest, tid: TaskID) -> Option<SpotifyCommand> {
    match request {
        ApiRequest::Resume => Some(SpotifyCommand::Resume),
        ApiRequest::Pause => Some(SpotifyCommand::Pause),
        ApiRequest::Skip => Some(SpotifyCommand::Skip),
        ApiRequest::Request(track_id) => Some(
            SpotifyCommand::Request(SongRequestInfo { track_id }),
        ),
        ApiRequest::Downvote(track_id) => Some(
            SpotifyCommand::Downvote(SongRequestInfo { track_id }),
        ),
        ApiRequest::Status => None,
        ApiRequest::DeviceList => Some(SpotifyCommand::ListDevices(DeviceListParams { tid })),
        ApiRequest::DeviceSet(id) => Some(SpotifyCommand::SetActiveDevice(id)),
        ApiRequest::DeviceClear => Some(SpotifyCommand::ClearDevice),
        ApiRequest::SearchTrack(title) => Some(SpotifyCommand::Search(SearchParams { title, tid })),
        ApiRequest::PostAuth(Some(token)) => Some(SpotifyCommand::SetAuthToken(token)),
        ApiRequest::PostAuth(None) => None,
        ApiRequest::AuthDestroy => Some(SpotifyCommand::ClearAuth),
    }
}

/// Whether a request waits for the worker's answer, and for which.
pub open spec fn awaits(request: ApiRequest) -> Option<Awaited> {
    match request {
        ApiRequest::DeviceList => Some(Awaited::DeviceList),
        ApiRequest::SearchTrack(_) => Some(Awaited::Search),
        _ => None,
    }
}

/// What the web interface does about `request` when the status is `status`
/// and the request's task, where it has one, is `tid`.
pub open spec fn handled<'a>(request: ApiRequest, status: PlaybackStatus, tid: TaskID) -> Handled<
    'a,
> {
    match request {
        ApiRequest::Resume | ApiRequest::Pause | ApiRequest::Skip | ApiRequest::Request(_)
        | ApiRequest::Downvote(_) => Handled::Reply(WebResponse::Success),
        ApiRequest::Status => Handled::Reply(WebResponse::Status(status)),
        ApiRequest::DeviceList => Handled::Await(
            Awaited::DeviceList,
            Wait { tid, polls_left: WAIT_TIMEOUT_MS / WAIT_STEP_MS, step_ms: WAIT_STEP_MS },
        ),
        ApiRequest::SearchTrack(_) => Handled::Await(
            Awaited::Search,
            Wait { tid, polls_left: WAIT_TIMEOUT_MS / WAIT_STEP_MS, step_ms: WAIT_STEP_MS },
        ),
        ApiRequest::DeviceSet(_) | ApiRequest::DeviceClear => Handled::Accepted,
        ApiRequest::PostAuth(Some(_)) | ApiRequest::AuthDestroy => Handled::Redirect,
        ApiRequest::PostAuth(None) => Handled::MissingCode,
    }
}

/// Takes a request in: submits the command that it stands for, with a fresh
/// task where the request waits for an answer, and says what to do next.
pub fn handle_response<'a>(
    request: ApiRequest,
    queue: &mut TaskQueue,
    global_status: &PlaybackStatus,
) -> (next: Handled<'a>)
    requires
        awaits(request) is Some ==> old(queue).issued() < u64::MAX,
    ensures
        final(queue).responses() == old(queue).responses(),
        awaits(request) is None ==> final(queue).issued() == old(queue).issued(),
        awaits(request) is Some ==> final(queue).issued() == old(queue).issued() + 1,
        next == handled::<'a>(request, *global_status, TaskID { id: final(queue).issued() }),
        final(queue).pending() == match command_of(request, TaskID { id: final(queue).issued() }) {
            Some(c) => after_queue(old(queue).pending(), c),
            None => old(queue).pending(),
        },
{
    match request {
        ApiRequest::Resume => {
            queue.queue(SpotifyCommand::Resume);
            Handled::Reply(WebResponse::Success)
        },
        ApiRequest::Pause => {
            queue.queue(SpotifyCommand::Pause);
            Handled::Reply(WebResponse::Success)
        },
        ApiRequest::Skip => {
            queue.queue(SpotifyCommand::Skip);
            Handled::Reply(WebResponse::Success)
        },
        ApiRequest::Request(track_id) => {
            queue.queue(SpotifyCommand::Request(SongRequestInfo { track_id }));
            Handled::Reply(WebResponse::Success)
        },
        ApiRequest::Downvote(track_id) => {
            queue.queue(SpotifyCommand::Downvote(SongRequestInfo { track_id }));
            Handled::Reply(WebResponse::Success)
        },
        ApiRequest::Status => Handled::Reply(WebResponse::Status(global_status.clone())),
        ApiRequest::DeviceList => {
            let tid = queue.get_task_id();
            queue.queue(SpotifyCommand::ListDevices(DeviceListParams { tid }));
            Handled::Await(Awaited::DeviceList, Wait::new(tid, WAIT_TIMEOUT_MS, WAIT_STEP_MS))
        },
        ApiRequest::DeviceSet(id) => {
            queue.queue(SpotifyCommand::SetActiveDevice(id));
            Handled::Accepted
        },
        ApiRequest::DeviceClear => {
            queue.queue(SpotifyCommand::ClearDevice);
            Handled::Accepted
        },
        ApiRequest::SearchTrack(title) => {
            let tid = queue.get_task_id();
            queue.queue(SpotifyCommand::Search(SearchParams { title, tid }));
            Handled::Await(Awaited::Search, Wait::new(tid, WAIT_TIMEOUT_MS, WAIT_STEP_MS))
        },
        ApiRequest::PostAuth(Some(token)) => {
            queue.queue(SpotifyCommand::SetAuthToken(token));
            Handled::Redirect
        },
        ApiRequest::PostAuth(None) => Handled::MissingCode,
        ApiRequest::AuthDestroy => {
            queue.queue(SpotifyCommand::ClearAuth);
            Handled::Redirect
        },
    }
}

/// What the producer of a search or of a device listing answers once its
/// wait is over: what it asked for, or that the request failed. A worker's
/// error and a wait that timed out come to the same.
pub fn finish_response<'a>(awaited: Awaited, r: CommandResponse) -> (answer: WebResponse<'a>)
    ensures
        match (awaited, r.value) {
            (Awaited::Search, CommandResponseDataType::Search(d)) => answer == WebResponse::<
                'a,
            >::Search(d),
            (Awaited::DeviceList, CommandResponseDataType::DeviceList(d)) => answer
                == WebResponse::<'a>::DeviceList(d),
            (Awaited::Search, _) => answer matches WebResponse::Error(text) && text@
                == "Unexpected response from command in /search/track/..."@,
            (Awaited::DeviceList, _) => answer matches WebResponse::Error(text) && text@
                == "Unexpected response from command in /api/device/list"@,
        },
{
    match awaited {
        Awaited::Search => match r.value {
            CommandResponseDataType::Search(d) => WebResponse::Search(d),
            _ => WebResponse::Error(
                "Unexpected response from command in /search/track/...".to_owned(),
            ),
        },
        Awaited::DeviceList => match r.value {
            CommandResponseDataType::DeviceList(d) => WebResponse::DeviceList(d),
            _ => WebResponse::Error(
                "Unexpected response from command in /api/device/list".to_owned(),
            ),
        },
    }
}

/// What a text message on the web socket is answered with: the status for
/// "status", the list for "queue", and nothing for any other text, which is
/// an unknown command.
pub fn websocket_reply<'a>(
    txt: &String,
    global_status: &PlaybackStatus,
    global_queue: &'a TheList,
) -> (info: Option<WebResponse<'a>>)
    ensures
        txt@ == "status"@ ==> info == Some(WebResponse::Status(*global_status)),
        txt@ != "status"@ && txt@ == "queue"@ ==> info == Some(WebResponse::Queue(global_queue)),
        txt@ != "status"@ && txt@ != "queue"@ ==> info is None,
{
    if *txt == "status".to_owned() {
        Some(WebResponse::Status(global_status.clone()))
    } else if *txt == "queue".to_owned() {
        Some(WebResponse::Queue(global_queue))
    } else {
        None
    }
}

} // verus!
