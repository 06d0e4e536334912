//! The decisions of a digital signage player.
//!
//! The player checks in with a server, keeps a playlist of downloaded videos and shows them through
//! mpv. This library holds everything that is decided on the way: when to update, what to
//! acknowledge, how often to poll, how to rotate, which request to send next. It performs no input
//! or output; [`daemon::Daemon`] names the action to perform and takes its outcome.

pub mod course;
pub mod daemon;
pub mod data;
pub mod health;
pub mod laws;
pub mod model;
pub mod player;
pub mod playlist;
pub mod playlist_id;
pub mod request;
pub mod schedule;
pub mod text;
pub mod time;
