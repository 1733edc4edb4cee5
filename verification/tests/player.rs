use juke::list::TheList;
use juke::common::{BasicSongInfo, PlaybackState, PlaybackStatus};
use juke::player::{next_song, song_ended, IDLE_SLEEP_MS};

fn song(uri: &str) -> BasicSongInfo {
    BasicSongInfo {
        spotify_uri: uri.to_string(),
        title: "Title".to_string(),
        artist: "Artist".to_string(),
        duration_ms: 1000,
        album_image_url: None,
    }
}

#[test]
fn player_sleeps_a_tenth_of_a_second() {
    assert_eq!(IDLE_SLEEP_MS, 100);
}

#[test]
fn next_song_on_empty_list_changes_nothing() {
    let mut list = TheList::new();
    let mut status = PlaybackStatus { state: PlaybackState::NoAuth, song: None, progress_ms: Some(3) };
    assert_eq!(next_song(&mut list, &mut status), None);
    assert_eq!(status, PlaybackStatus { state: PlaybackState::NoAuth, song: None, progress_ms: Some(3) });
}

#[test]
fn next_song_is_published_as_playing() {
    let mut list = TheList::new();
    list.add(song("a"));
    let mut status = PlaybackStatus { state: PlaybackState::NeedsSong, song: None, progress_ms: Some(3) };
    assert_eq!(next_song(&mut list, &mut status), Some(song("a")));
    assert_eq!(
        status,
        PlaybackStatus { state: PlaybackState::Playing, song: Some(song("a")), progress_ms: None }
    );
    assert!(list.is_empty());
}

#[test]
fn ended_song_leaves_the_player_in_need_of_one() {
    let mut status =
        PlaybackStatus { state: PlaybackState::Playing, song: Some(song("a")), progress_ms: Some(9) };
    song_ended(&mut status);
    assert_eq!(status, PlaybackStatus { state: PlaybackState::NeedsSong, song: None, progress_ms: None });
}
