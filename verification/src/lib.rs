//! A terminal client for YouTube: the verified core.
//!
//! The menu state machine, the text formats of the history and watch-later
//! files, the extraction of videos and channels from the JSON that YouTube
//! serves, the merging of freshly fetched uploads into the stored ones, and
//! the decisions that the interface takes on each key press.

pub mod menu;
pub mod text;
pub mod video;
pub mod history;
pub mod unique;
pub mod json;
pub mod feeds;
pub mod channel;
pub mod friendly_panic;
pub mod config_reader;
pub mod api;
pub mod scrape;
pub mod commands;
pub mod cache;
pub mod ui;
