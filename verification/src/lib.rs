//! The decisions of a transit bot. At its centre stands the alert watcher:
//! it normalises the alert feed, reconciles it with the alerts already
//! announced, and fans new alerts out to subscribers. Around it stand the
//! records of the rail and bus trackers and what the bot's commands decide.
//! The library fetches nothing and sends nothing: whoever runs it does.

pub mod arrivaldisplay;
pub mod civil;
pub mod commands;
pub mod cta;
pub mod cycle;
pub mod db;
pub mod raw;
pub mod scheduler;
pub mod text;
pub mod util;
pub mod watcher;
