//! Core of an interactive terminal music player: the playback-session state
//! machine and its coordination with a background worker.
//!
//! The library models elapsed-time accounting ([`status::Status`]), the owner
//! of the audio sink ([`player::Player`]), the cyclic track selection
//! ([`selection::DisplayedTracks`]), the per-tick session snapshot
//! ([`session::AppState`]), the bounded request queue between the interactive
//! role and the worker role ([`dispatch::Dispatcher`]), and the top-level
//! orchestration ([`app::App`]). Wall-clock instants enter as plain
//! millisecond values, and the surrounding process performs all terminal,
//! network, and audio-device work, handing the results back as plain values
//! and mirroring the transitions the core commands.

pub mod actions;
pub mod app;
pub mod dispatch;
pub mod player;
pub mod selection;
pub mod session;
pub mod status;
pub mod track;
