//! Jukebox controller core: the request list, the command/response queue that
//! connects request producers to the single playback worker, and the worker's
//! playback state machine.

pub mod client;
pub mod commands;
pub mod common;
pub mod list;
pub mod player;
pub mod web;
