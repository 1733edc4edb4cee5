//! The decisions of a local player, which plays the listed songs itself, one
//! after another.

use crate::list::{picks, TheList};
use crate::common::{BasicSongInfo, PlaybackState, PlaybackStatus};
use vstd::prelude::*;

verus! {

/// How long the player sleeps when the list is empty, in milliseconds.
pub const IDLE_SLEEP_MS: u64 = 100;

/// Takes the next song off the list to play it, and publishes that it is
/// playing. With an empty list nothing changes, and the player sleeps.
pub fn next_song(queue: &mut TheList, global_status: &mut PlaybackStatus) -> (song: Option<
    BasicSongInfo,
>)
    ensures
        picks(old(queue)@, song, final(queue)@),
        song is None <==> old(queue)@.dom().len() == 0,
        song is None ==> *final(global_status) == *old(global_status),
        song is Some ==> *final(global_status) == (PlaybackStatus {
            state: PlaybackState::Playing,
            song,
            progress_ms: None,
        }),
{
    match queue.nextup() {
        Some(s) => {
            *global_status =
            PlaybackStatus { state: PlaybackState::Playing, song: Some(s.clone()), progress_ms: None };
            Some(s)
        },
        None => None,
    }
}

/// Publishes that the song has come to its end.
pub fn song_ended(global_status: &mut PlaybackStatus)
    ensures
        *final(global_status) == (PlaybackStatus {
            state: PlaybackState::NeedsSong,
            song: None,
            progress_ms: None,
        }),
{
    *global_status = PlaybackStatus { state: PlaybackState::NeedsSong, song: None, progress_ms: None };
}

} // verus!
