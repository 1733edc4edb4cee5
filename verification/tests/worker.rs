use juke::client::{
    contains_text, duration_as_millis, is_refused, Client, RemoteCall, Routine, IDLE_SLEEP_MS, SEARCH_LIMIT, SEARCH_OFFSET,
    STATUS_CHECK_INTERVAL_MS, TOKEN_REFRESH_INTERVAL_MS,
};
use juke::list::{SongEntry, TheList};
use juke::commands::TaskQueue;
use juke::common::{
    join_artists, AuthToken, BasicSongInfo, ClientError, CommandResponse,
    CommandResponseDataType, Device, DeviceListParams, DeviceListResult, PlaybackContext,
    PlaybackState, PlaybackStatus, SearchParams, SearchResult, SongRequestInfo, SpotifyCommand,
    TaskID, TrackRecord,
};

fn token(refresh: Option<&str>) -> AuthToken {
    AuthToken {
        access_token: "access".to_string(),
        token_type: "Bearer".to_string(),
        expires_in: 3600,
        expires_at: Some(1234),
        refresh_token: refresh.map(|r| r.to_string()),
        scope: "user-read-playback-state user-modify-playback-state".to_string(),
    }
}

fn song(uri: &str) -> BasicSongInfo {
    BasicSongInfo {
        spotify_uri: uri.to_string(),
        title: "Title".to_string(),
        artist: "Artist".to_string(),
        duration_ms: 1000,
        album_image_url: Some("http://img".to_string()),
    }
}

fn record(uri: &str, name: &str, artists: &[&str], images: &[&str]) -> TrackRecord {
    TrackRecord {
        uri: uri.to_string(),
        name: name.to_string(),
        artists: artists.iter().map(|a| a.to_string()).collect(),
        duration_ms: 215000,
        album_images: images.iter().map(|a| a.to_string()).collect(),
    }
}

fn context(is_playing: bool, progress_ms: Option<u32>, track: Option<&str>) -> PlaybackContext {
    PlaybackContext { is_playing, progress_ms, current_track: track.map(song) }
}

fn ready_client() -> Client {
    let mut c = Client::new();
    c.set_auth_token(&token(Some("refresh")));
    c.set_active_device("dev".to_string());
    c
}

fn idle(state: PlaybackState) -> PlaybackStatus {
    PlaybackStatus { state, song: None, progress_ms: None }
}

#[test]
fn new_client_knows_nothing() {
    let c = Client::new();
    assert_eq!(c.session, None);
    assert_eq!(c.device, None);
    assert_eq!(c.status, idle(PlaybackState::Unknown));
    assert_eq!(c.status, PlaybackStatus::default());
    assert_eq!(c.last_status_check, None);
    assert_eq!(c.last_token_refresh, None);
    assert_eq!(c.status_check_interval_ms, 1000);
    assert_eq!(c.token_refresh_interval_ms, 1000 * 60 * 5);
    assert_eq!(STATUS_CHECK_INTERVAL_MS, 1000);
    assert_eq!(TOKEN_REFRESH_INTERVAL_MS, 300000);
    assert_eq!(SEARCH_LIMIT, 40);
    assert_eq!(SEARCH_OFFSET, 0);
    assert_eq!(IDLE_SLEEP_MS, 50);
}

#[test]
fn session_is_set_and_cleared() {
    let mut c = Client::new();
    assert_eq!(c.get_spotify(), Err(ClientError::Auth));
    c.set_auth_token(&token(None));
    assert_eq!(c.get_spotify(), Ok(&token(None)));
    c.set_auth_token(&token(Some("r")));
    assert_eq!(c.session, Some(token(Some("r"))));
    c.clear_auth();
    assert_eq!(c.get_spotify(), Err(ClientError::Auth));
    assert_eq!(c.status, idle(PlaybackState::Unknown));
}

#[test]
fn device_is_set_and_cleared() {
    let mut c = Client::new();
    assert_eq!(c.get_device(), Err(ClientError::Device));
    c.set_active_device("kitchen".to_string());
    assert_eq!(c.get_device(), Ok(&"kitchen".to_string()));
    c.clear_active_device();
    assert_eq!(c.get_device(), Err(ClientError::Device));
}

#[test]
fn error_messages() {
    assert_eq!(ClientError::Auth.message(), "Client not authenticated");
    assert_eq!(ClientError::Device.message(), "No active device");
    assert_eq!(ClientError::Transport("connection reset".to_string()).message(), "connection reset");
    assert_eq!(ClientError::Timeout.message(), "timed out");
}

#[test]
fn status_without_session_is_no_auth() {
    let mut c = Client::new();
    assert_eq!(c.update_status(None), PlaybackState::NoAuth);
    assert_eq!(c.status, idle(PlaybackState::NoAuth));
    c.set_active_device("dev".to_string());
    assert_eq!(c.update_status(Some(context(true, Some(5), Some("a")))), PlaybackState::NoAuth);
    assert_eq!(c.status, idle(PlaybackState::NoAuth));
}

#[test]
fn status_without_device_is_no_device() {
    let mut c = Client::new();
    c.set_auth_token(&token(None));
    assert_eq!(c.update_status(Some(context(true, Some(5), Some("a")))), PlaybackState::NoDevice);
    assert_eq!(c.status, idle(PlaybackState::NoDevice));
}

#[test]
fn status_playing_carries_song_and_progress() {
    let mut c = ready_client();
    assert_eq!(c.update_status(Some(context(true, Some(42), Some("a")))), PlaybackState::Playing);
    assert_eq!(
        c.status,
        PlaybackStatus { state: PlaybackState::Playing, song: Some(song("a")), progress_ms: Some(42) }
    );
    assert_eq!(c.update_status(Some(context(true, None, None))), PlaybackState::Playing);
    assert_eq!(c.status, idle(PlaybackState::Playing));
    assert_eq!(c.update_status(Some(context(true, Some(0), None))), PlaybackState::Playing);
}

#[test]
fn status_paused_when_stopped_mid_track() {
    let mut c = ready_client();
    assert_eq!(c.update_status(Some(context(false, Some(500), Some("a")))), PlaybackState::Paused);
    assert_eq!(
        c.status,
        PlaybackStatus { state: PlaybackState::Paused, song: Some(song("a")), progress_ms: Some(500) }
    );
    assert_eq!(c.update_status(Some(context(false, Some(1), None))), PlaybackState::Paused);
}

#[test]
fn status_needs_song_when_stopped_at_start() {
    let mut c = ready_client();
    assert_eq!(c.update_status(Some(context(false, Some(0), Some("a")))), PlaybackState::NeedsSong);
    assert_eq!(c.status, idle(PlaybackState::NeedsSong));
    assert_eq!(c.update_status(Some(context(false, None, Some("a")))), PlaybackState::NeedsSong);
    assert_eq!(c.status, idle(PlaybackState::NeedsSong));
    assert_eq!(c.update_status(None), PlaybackState::NeedsSong);
    assert_eq!(c.status, idle(PlaybackState::NeedsSong));
}

#[test]
fn state_depends_on_the_latest_poll_only() {
    let mut c = ready_client();
    c.update_status(Some(context(true, Some(9), Some("a"))));
    c.update_status(Some(context(false, Some(9), Some("a"))));
    assert_eq!(c.status.state, PlaybackState::Paused);
    c.clear_active_device();
    assert_eq!(c.update_status(Some(context(true, Some(9), Some("a")))), PlaybackState::NoDevice);
    c.clear_auth();
    assert_eq!(c.update_status(Some(context(true, Some(9), Some("a")))), PlaybackState::NoAuth);
}

#[test]
fn state_machine_scenario() {
    let mut c = Client::new();
    let mut list = TheList::new();
    list.add(song("a"));
    list.add(song("b"));
    assert_eq!(c.check_status(None, &mut list), None);
    assert_eq!(c.status.state, PlaybackState::NoAuth);
    c.set_auth_token(&token(None));
    assert_eq!(c.check_status(None, &mut list), None);
    assert_eq!(c.status.state, PlaybackState::NoDevice);
    c.set_active_device("dev".to_string());
    assert_eq!(c.check_status(Some(context(true, Some(3), Some("x"))), &mut list), None);
    assert_eq!(c.status.state, PlaybackState::Playing);
    assert_eq!(c.check_status(Some(context(false, Some(500), Some("x"))), &mut list), None);
    assert_eq!(c.status.state, PlaybackState::Paused);
    assert_eq!(list.len(), 2);
    let call = c.check_status(Some(context(false, Some(0), None)), &mut list);
    assert_eq!(c.status.state, PlaybackState::EnqueuedAndWaiting);
    assert_eq!(list.len(), 1);
    let played = c.status.song.clone().expect("the song that was taken");
    assert!(played == song("a") || played == song("b"));
    assert_eq!(list.votes(&played.spotify_uri), None);
    assert_eq!(c.status.progress_ms, None);
    assert_eq!(
        call,
        Some(RemoteCall::StartPlayback { device: "dev".to_string(), track_id: played.spotify_uri })
    );
    assert_eq!(c.check_status(Some(context(true, Some(10), Some("a"))), &mut list), None);
    assert_eq!(c.status.state, PlaybackState::Playing);
    assert_eq!(list.len(), 1);
}

#[test]
fn needs_song_with_empty_list_stays_needs_song() {
    let mut c = ready_client();
    let mut list = TheList::new();
    assert_eq!(c.check_status(Some(context(false, Some(0), None)), &mut list), None);
    assert_eq!(c.status, idle(PlaybackState::NeedsSong));
    assert!(list.is_empty());
}

#[test]
fn check_status_leaves_session_device_and_timers() {
    let mut c = ready_client();
    c.routine(10);
    let mut list = TheList::new();
    list.add(song("a"));
    c.check_status(None, &mut list);
    assert_eq!(c.session, Some(token(Some("refresh"))));
    assert_eq!(c.device, Some("dev".to_string()));
    assert_eq!(c.last_status_check, Some(10));
    assert_eq!(c.last_token_refresh, None);
}

#[test]
fn routine_without_session_sets_no_auth_and_marks_both_timers() {
    let mut c = Client::new();
    assert_eq!(c.routine(5), Routine { status: None, refresh: None });
    assert_eq!(c.status, idle(PlaybackState::NoAuth));
    assert_eq!(c.last_status_check, Some(5));
    assert_eq!(c.last_token_refresh, Some(5));
}

#[test]
fn routine_without_device_sets_no_device() {
    let mut c = Client::new();
    c.set_auth_token(&token(None));
    assert_eq!(c.routine(0), Routine { status: None, refresh: None });
    assert_eq!(c.status, idle(PlaybackState::NoDevice));
    assert_eq!(c.last_status_check, Some(0));
    assert_eq!(c.last_token_refresh, Some(0));
}

#[test]
fn routine_status_timer_fires_after_more_than_a_second() {
    let mut c = ready_client();
    let first = c.routine(100);
    assert_eq!(first.status, Some(RemoteCall::PlaybackContext));
    assert_eq!(c.last_status_check, Some(100));
    assert_eq!(c.status, idle(PlaybackState::Unknown));
    assert_eq!(c.routine(150).status, None);
    assert_eq!(c.routine(1100).status, None);
    assert_eq!(c.last_status_check, Some(100));
    assert_eq!(c.routine(1101).status, Some(RemoteCall::PlaybackContext));
    assert_eq!(c.last_status_check, Some(1101));
    assert_eq!(c.routine(2101).status, None);
    assert_eq!(c.routine(2102).status, Some(RemoteCall::PlaybackContext));
}

#[test]
fn routine_refresh_is_asked_for_until_it_is_done() {
    let mut c = ready_client();
    assert_eq!(c.routine(0).refresh, Some(RemoteCall::RefreshToken("refresh".to_string())));
    assert_eq!(c.last_token_refresh, None);
    assert_eq!(c.routine(50).refresh, Some(RemoteCall::RefreshToken("refresh".to_string())));
    assert_eq!(c.refresh_auth_token(Err("offline".to_string()), 60), Err(ClientError::Transport("offline".to_string())));
    assert_eq!(c.last_token_refresh, None);
    assert_eq!(c.session, Some(token(Some("refresh"))));
    assert_eq!(c.routine(100).refresh, Some(RemoteCall::RefreshToken("refresh".to_string())));
    assert_eq!(c.refresh_auth_token(Ok(token(Some("next"))), 120), Ok(()));
    assert_eq!(c.session, Some(token(Some("next"))));
    assert_eq!(c.last_token_refresh, Some(120));
    assert_eq!(c.routine(300120).refresh, None);
    assert_eq!(c.routine(300121).refresh, Some(RemoteCall::RefreshToken("next".to_string())));
    assert_eq!(c.last_token_refresh, Some(120));
}

#[test]
fn routine_timers_are_independent() {
    let mut c = ready_client();
    c.routine(0);
    c.refresh_auth_token(Ok(token(Some("r2"))), 0).unwrap();
    let due = c.routine(200000);
    assert_eq!(due, Routine { status: Some(RemoteCall::PlaybackContext), refresh: None });
    let due = c.routine(300001);
    assert_eq!(
        due,
        Routine {
            status: Some(RemoteCall::PlaybackContext),
            refresh: Some(RemoteCall::RefreshToken("r2".to_string())),
        }
    );
    let due = c.routine(300002);
    assert_eq!(due, Routine { status: None, refresh: Some(RemoteCall::RefreshToken("r2".to_string())) });
}

#[test]
fn routine_without_refresh_token_marks_the_renewal() {
    let mut c = Client::new();
    c.set_auth_token(&token(None));
    c.set_active_device("dev".to_string());
    assert_eq!(c.routine(7), Routine { status: Some(RemoteCall::PlaybackContext), refresh: None });
    assert_eq!(c.last_token_refresh, Some(7));
}

#[test]
fn routine_with_clock_set_back_finds_nothing_due() {
    let mut c = Client::new();
    c.routine(5000);
    assert_eq!(c.routine(10), Routine { status: None, refresh: None });
    assert_eq!(c.last_status_check, Some(5000));
    assert_eq!(c.last_token_refresh, Some(5000));
}

#[test]
fn refresh_without_session_is_an_auth_error() {
    let mut c = Client::new();
    assert_eq!(c.refresh_auth_token(Ok(token(None)), 1), Err(ClientError::Auth));
    assert_eq!(c.session, None);
    assert_eq!(c.last_token_refresh, None);
}

#[test]
fn transport_commands_need_session_then_device() {
    let mut q = TaskQueue::new();
    let mut list = TheList::new();
    let mut c = Client::new();
    assert_eq!(c.execute(SpotifyCommand::Resume, &mut list, &mut q), Err(ClientError::Auth));
    assert_eq!(c.execute(SpotifyCommand::Pause, &mut list, &mut q), Err(ClientError::Auth));
    assert_eq!(c.execute(SpotifyCommand::Skip, &mut list, &mut q), Err(ClientError::Auth));
    c.set_active_device("dev".to_string());
    assert_eq!(c.execute(SpotifyCommand::Resume, &mut list, &mut q), Err(ClientError::Auth));
    c.clear_active_device();
    c.set_auth_token(&token(None));
    assert_eq!(c.execute(SpotifyCommand::Resume, &mut list, &mut q), Err(ClientError::Device));
    assert_eq!(c.execute(SpotifyCommand::Pause, &mut list, &mut q), Err(ClientError::Device));
    assert_eq!(c.execute(SpotifyCommand::Skip, &mut list, &mut q), Err(ClientError::Device));
    c.set_active_device("dev".to_string());
    assert_eq!(
        c.execute(SpotifyCommand::Resume, &mut list, &mut q),
        Ok(Some(RemoteCall::Resume("dev".to_string())))
    );
    assert_eq!(
        c.execute(SpotifyCommand::Pause, &mut list, &mut q),
        Ok(Some(RemoteCall::Pause("dev".to_string())))
    );
    assert_eq!(
        c.execute(SpotifyCommand::Skip, &mut list, &mut q),
        Ok(Some(RemoteCall::Skip("dev".to_string())))
    );
    assert_eq!(q.len(), 0);
    assert_eq!(q.wait(TaskID { id: 0 }), None);
}

#[test]
fn local_commands_change_the_worker_at_once() {
    let mut q = TaskQueue::new();
    let mut list = TheList::new();
    let mut c = Client::new();
    assert_eq!(c.execute(SpotifyCommand::SetAuthToken(token(Some("r"))), &mut list, &mut q), Ok(None));
    assert_eq!(c.session, Some(token(Some("r"))));
    assert_eq!(c.execute(SpotifyCommand::SetActiveDevice("d1".to_string()), &mut list, &mut q), Ok(None));
    assert_eq!(c.device, Some("d1".to_string()));
    assert_eq!(c.execute(SpotifyCommand::ClearDevice, &mut list, &mut q), Ok(None));
    assert_eq!(c.device, None);
    assert_eq!(c.execute(SpotifyCommand::ClearAuth, &mut list, &mut q), Ok(None));
    assert_eq!(c.session, None);
    assert_eq!(c.status, idle(PlaybackState::Unknown));
}

#[test]
fn request_command_asks_for_the_track() {
    let mut q = TaskQueue::new();
    let mut list = TheList::new();
    let mut c = Client::new();
    let cmd = || SpotifyCommand::Request(SongRequestInfo { track_id: "spotify:track:1".to_string() });
    assert_eq!(c.execute(cmd(), &mut list, &mut q), Err(ClientError::Auth));
    c.set_auth_token(&token(None));
    assert_eq!(
        c.execute(cmd(), &mut list, &mut q),
        Ok(Some(RemoteCall::Track("spotify:track:1".to_string())))
    );
    assert!(list.is_empty());
}

#[test]
fn downvote_command_needs_no_session() {
    let mut q = TaskQueue::new();
    let mut list = TheList::new();
    list.add(song("a"));
    let mut c = Client::new();
    let cmd = || SpotifyCommand::Downvote(SongRequestInfo { track_id: "a".to_string() });
    assert_eq!(c.execute(cmd(), &mut list, &mut q), Ok(None));
    assert_eq!(list.votes(&"a".to_string()), Some(0));
    assert_eq!(c.execute(cmd(), &mut list, &mut q), Ok(None));
    assert_eq!(c.execute(cmd(), &mut list, &mut q), Ok(None));
    assert!(list.is_empty());
    assert_eq!(c.execute(cmd(), &mut list, &mut q), Ok(None));
    assert!(list.is_empty());
}

#[test]
fn search_without_session_is_answered_with_an_error() {
    let mut q = TaskQueue::new();
    let mut list = TheList::new();
    let mut c = Client::new();
    let tid = q.get_task_id();
    let cmd = SpotifyCommand::Search(SearchParams { title: "abba".to_string(), tid });
    assert_eq!(c.execute(cmd, &mut list, &mut q), Err(ClientError::Auth));
    assert_eq!(
        q.wait(tid),
        Some(CommandResponse {
            tid,
            value: CommandResponseDataType::Error("Client not authenticated".to_string()),
        })
    );
    assert_eq!(q.wait(tid), None);
}

#[test]
fn list_devices_without_session_is_answered_with_an_error() {
    let mut q = TaskQueue::new();
    let mut list = TheList::new();
    let mut c = Client::new();
    let tid = TaskID { id: 77 };
    let cmd = SpotifyCommand::ListDevices(DeviceListParams { tid });
    assert_eq!(c.execute(cmd, &mut list, &mut q), Err(ClientError::Auth));
    assert_eq!(
        q.wait(tid),
        Some(CommandResponse {
            tid,
            value: CommandResponseDataType::Error("Client not authenticated".to_string()),
        })
    );
}

#[test]
fn search_and_list_devices_with_session_ask_for_the_call() {
    let mut q = TaskQueue::new();
    let mut list = TheList::new();
    let mut c = Client::new();
    c.set_auth_token(&token(None));
    let tid = TaskID { id: 3 };
    assert_eq!(
        c.execute(SpotifyCommand::Search(SearchParams { title: "abba".to_string(), tid }), &mut list, &mut q),
        Ok(Some(RemoteCall::SearchTrack {
            params: SearchParams { title: "abba".to_string(), tid },
            limit: 40,
            offset: 0,
        }))
    );
    assert_eq!(
        c.execute(SpotifyCommand::ListDevices(DeviceListParams { tid }), &mut list, &mut q),
        Ok(Some(RemoteCall::Devices(DeviceListParams { tid })))
    );
    assert_eq!(q.wait(tid), None);
}

#[test]
fn step_takes_commands_oldest_first_and_reports_idle() {
    let mut q = TaskQueue::new();
    let mut list = TheList::new();
    let mut c = Client::new();
    assert_eq!(c.step(&mut q, &mut list), None);
    q.queue(SpotifyCommand::SetActiveDevice("dev".to_string()));
    q.queue(SpotifyCommand::Resume);
    q.queue(SpotifyCommand::SetAuthToken(token(None)));
    q.queue(SpotifyCommand::Resume);
    assert_eq!(c.step(&mut q, &mut list), Some(Ok(None)));
    assert_eq!(c.step(&mut q, &mut list), Some(Err(ClientError::Auth)));
    assert_eq!(c.step(&mut q, &mut list), Some(Ok(None)));
    assert_eq!(c.step(&mut q, &mut list), Some(Ok(Some(RemoteCall::Resume("dev".to_string())))));
    assert_eq!(c.step(&mut q, &mut list), None);
    assert_eq!(q.len(), 0);
}

#[test]
fn a_failed_command_does_not_stop_the_worker() {
    let mut q = TaskQueue::new();
    let mut list = TheList::new();
    list.add(song("a"));
    let mut c = Client::new();
    q.queue(SpotifyCommand::Skip);
    q.queue(SpotifyCommand::Downvote(SongRequestInfo { track_id: "a".to_string() }));
    assert_eq!(c.step(&mut q, &mut list), Some(Err(ClientError::Auth)));
    assert_eq!(c.step(&mut q, &mut list), Some(Ok(None)));
    assert_eq!(list.votes(&"a".to_string()), Some(0));
}

#[test]
fn request_adds_the_found_track_to_the_list() {
    let mut list = TheList::new();
    let mut c = Client::new();
    c.set_auth_token(&token(None));
    let found = || Ok(record("spotify:track:1", "Waterloo", &["ABBA"], &["big", "small"]));
    assert_eq!(c.request(found(), &mut list), Ok(()));
    let expected = BasicSongInfo {
        spotify_uri: "spotify:track:1".to_string(),
        title: "Waterloo".to_string(),
        artist: "ABBA".to_string(),
        duration_ms: 215000,
        album_image_url: Some("big".to_string()),
    };
    assert_eq!(
        list.get(&"spotify:track:1".to_string()),
        Some(&SongEntry { info: expected.clone(), votes: 1 })
    );
    assert_eq!(c.request(Ok(record("spotify:track:1", "Other", &[], &[])), &mut list), Ok(()));
    assert_eq!(list.get(&"spotify:track:1".to_string()), Some(&SongEntry { info: expected, votes: 2 }));
    assert_eq!(list.len(), 1);
}

#[test]
fn request_fails_without_session_or_track() {
    let mut list = TheList::new();
    let mut c = Client::new();
    assert_eq!(c.request(Ok(record("u", "n", &[], &[])), &mut list), Err(ClientError::Auth));
    assert!(list.is_empty());
    c.set_auth_token(&token(None));
    assert_eq!(
        c.request(Err("404 not found".to_string()), &mut list),
        Err(ClientError::Transport("404 not found".to_string()))
    );
    assert!(list.is_empty());
}

#[test]
fn search_answers_with_what_was_found_in_order() {
    let mut q = TaskQueue::new();
    let mut c = Client::new();
    c.set_auth_token(&token(None));
    let params = SearchParams { title: "abba".to_string(), tid: TaskID { id: 9 } };
    let found = vec![
        record("u1", "One", &["A", "B"], &["i1"]),
        record("u2", "Two", &[], &[]),
        record("u3", "Three", &["C"], &[]),
    ];
    assert_eq!(c.search(&params, Ok(found), &mut q), Ok(()));
    let items = vec![
        BasicSongInfo {
            spotify_uri: "u1".to_string(),
            title: "One".to_string(),
            artist: "A, B".to_string(),
            duration_ms: 215000,
            album_image_url: Some("i1".to_string()),
        },
        BasicSongInfo {
            spotify_uri: "u2".to_string(),
            title: "Two".to_string(),
            artist: "".to_string(),
            duration_ms: 215000,
            album_image_url: None,
        },
        BasicSongInfo {
            spotify_uri: "u3".to_string(),
            title: "Three".to_string(),
            artist: "C".to_string(),
            duration_ms: 215000,
            album_image_url: None,
        },
    ];
    assert_eq!(
        q.wait(TaskID { id: 9 }),
        Some(CommandResponse {
            tid: TaskID { id: 9 },
            value: CommandResponseDataType::Search(SearchResult { items }),
        })
    );
    assert_eq!(q.wait(TaskID { id: 9 }), None);
}

#[test]
fn search_answers_with_the_error_when_it_fails() {
    let mut q = TaskQueue::new();
    let mut c = Client::new();
    let params = SearchParams { title: "abba".to_string(), tid: TaskID { id: 4 } };
    assert_eq!(c.search(&params, Ok(Vec::new()), &mut q), Err(ClientError::Auth));
    assert_eq!(
        q.wait(TaskID { id: 4 }),
        Some(CommandResponse {
            tid: TaskID { id: 4 },
            value: CommandResponseDataType::Error("Client not authenticated".to_string()),
        })
    );
    c.set_auth_token(&token(None));
    assert_eq!(
        c.search(&params, Err("timeout".to_string()), &mut q),
        Err(ClientError::Transport("timeout".to_string()))
    );
    assert_eq!(
        q.wait(TaskID { id: 4 }),
        Some(CommandResponse {
            tid: TaskID { id: 4 },
            value: CommandResponseDataType::Error("timeout".to_string()),
        })
    );
    assert_eq!(c.search(&params, Ok(Vec::new()), &mut q), Ok(()));
    assert_eq!(
        q.wait(TaskID { id: 4 }),
        Some(CommandResponse {
            tid: TaskID { id: 4 },
            value: CommandResponseDataType::Search(SearchResult { items: Vec::new() }),
        })
    );
}

#[test]
fn list_devices_answers_with_devices_or_error() {
    let mut q = TaskQueue::new();
    let mut c = Client::new();
    let params = DeviceListParams { tid: TaskID { id: 2 } };
    let devices = || {
        vec![
            Device { name: "Kitchen".to_string(), id: "d1".to_string() },
            Device { name: "Hall".to_string(), id: "d2".to_string() },
        ]
    };
    assert_eq!(c.list_devices(&params, Ok(devices()), &mut q), Err(ClientError::Auth));
    assert_eq!(
        q.wait(TaskID { id: 2 }),
        Some(CommandResponse {
            tid: TaskID { id: 2 },
            value: CommandResponseDataType::Error("Client not authenticated".to_string()),
        })
    );
    c.set_auth_token(&token(None));
    assert_eq!(c.list_devices(&params, Ok(devices()), &mut q), Ok(()));
    assert_eq!(
        q.wait(TaskID { id: 2 }),
        Some(CommandResponse {
            tid: TaskID { id: 2 },
            value: CommandResponseDataType::DeviceList(DeviceListResult { items: devices() }),
        })
    );
    assert_eq!(
        c.list_devices(&params, Err("boom".to_string()), &mut q),
        Err(ClientError::Transport("boom".to_string()))
    );
    assert_eq!(
        q.wait(TaskID { id: 2 }),
        Some(CommandResponse {
            tid: TaskID { id: 2 },
            value: CommandResponseDataType::Error("boom".to_string()),
        })
    );
}

#[test]
fn track_record_becomes_song_info() {
    let info = BasicSongInfo::from(record("u", "Name", &["X", "Y", "Z"], &["first", "second"]));
    assert_eq!(
        info,
        BasicSongInfo {
            spotify_uri: "u".to_string(),
            title: "Name".to_string(),
            artist: "X, Y, Z".to_string(),
            duration_ms: 215000,
            album_image_url: Some("first".to_string()),
        }
    );
    let bare: BasicSongInfo = record("u", "Name", &[], &[]).into();
    assert_eq!(bare.artist, "");
    assert_eq!(bare.album_image_url, None);
}

#[test]
fn artists_are_joined_with_comma_and_space() {
    assert_eq!(join_artists(&Vec::new()), "");
    assert_eq!(join_artists(&vec!["Solo".to_string()]), "Solo");
    assert_eq!(join_artists(&vec!["A".to_string(), "B".to_string()]), "A, B");
    assert_eq!(join_artists(&vec!["".to_string(), "".to_string(), "c".to_string()]), ", , c");
}

#[test]
fn duration_in_milliseconds() {
    assert_eq!(duration_as_millis(0, 0), 0);
    assert_eq!(duration_as_millis(1, 500), 1500);
    assert_eq!(duration_as_millis(300, 999), 300999);
    assert_eq!(duration_as_millis(18446744073709551, 615), u64::MAX);
}

#[test]
fn text_stands_somewhere_in_text() {
    assert!(contains_text("abcd", "bc"));
    assert!(contains_text("abcd", "abcd"));
    assert!(contains_text("abcd", "a"));
    assert!(contains_text("abcd", "d"));
    assert!(contains_text("abcd", "cd"));
    assert!(contains_text("abcd", ""));
    assert!(contains_text("", ""));
    assert!(contains_text("aaab", "aab"));
    assert!(contains_text("ab\u{e9}cd", "\u{e9}c"));
    assert!(!contains_text("abcd", "abcde"));
    assert!(!contains_text("", "a"));
    assert!(!contains_text("abcd", "ca"));
    assert!(!contains_text("abcd", "bd"));
    assert!(!contains_text("abcd", "B"));
    assert!(!contains_text("aaa", "aab"));
}

#[test]
fn refused_titles_in_lower_case() {
    assert!(is_refused("scatman"));
    assert!(is_refused("freestyler"));
    assert!(is_refused("scatman (ski-ba-bop-ba-dop-bop)"));
    assert!(is_refused("i'm the scatman"));
    assert!(is_refused("bomfunk mc's - freestyler (radio edit)"));
    assert!(!is_refused(""));
    assert!(!is_refused("scat man"));
    assert!(!is_refused("freestyle"));
    assert!(!is_refused("Scatman"));
    assert!(!is_refused("waterloo"));
}

#[test]
fn request_passes_over_refused_titles() {
    let mut list = TheList::new();
    let mut c = Client::new();
    c.set_auth_token(&token(None));
    for title in ["Scatman (Ski-Ba-Bop-Ba-Dop-Bop)", "scatman's world", "FREESTYLER", "The Freestyler Mix"] {
        assert_eq!(c.request(Ok(record("spotify:track:x", title, &["Somebody"], &[])), &mut list), Ok(()));
        assert!(list.is_empty());
    }
    assert_eq!(c.request(Ok(record("spotify:track:y", "Scat Man", &[], &[])), &mut list), Ok(()));
    assert_eq!(list.votes(&"spotify:track:y".to_string()), Some(1));
    assert_eq!(c.request(Ok(record("spotify:track:z", "Freestyle", &[], &[])), &mut list), Ok(()));
    assert_eq!(list.len(), 2);
}

#[test]
fn refused_title_adds_no_vote_to_a_listed_track() {
    let mut list = TheList::new();
    let mut c = Client::new();
    c.set_auth_token(&token(None));
    assert_eq!(c.request(Ok(record("u", "Fine", &[], &[])), &mut list), Ok(()));
    assert_eq!(c.request(Ok(record("u", "Scatman", &[], &[])), &mut list), Ok(()));
    assert_eq!(list.votes(&"u".to_string()), Some(1));
}

#[test]
fn refused_title_without_session_is_an_auth_error() {
    let mut list = TheList::new();
    let c = Client::new();
    assert_eq!(c.request(Ok(record("u", "Scatman", &[], &[])), &mut list), Err(ClientError::Auth));
    assert!(list.is_empty());
}
