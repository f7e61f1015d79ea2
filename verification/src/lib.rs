//! Control logic of a single media-playback session.
//!
//! The crate decides; the surrounding application acts. Every component is a
//! small state machine or a pure function over plain values: the application
//! performs the player, backend and windowing calls and hands their results
//! back as events.

pub mod chrome;
mod clock;
pub mod inhibitor;
pub mod media;
pub mod menu;
pub mod monitor;
pub mod player;
pub mod poller;
pub mod quality;
pub mod seek;
pub mod session;
pub mod text;
pub mod time;
pub mod tracks;
