//! A small library for a "saint of the day" viewer.
//!
//! It models the calendar date shown to the user, the textual forms of that
//! date, the records fetched from the remote feed, the cards rendered from
//! them, and the fetch state machine that ties date navigation to the feed.

pub mod date;
pub mod date_text;
pub mod feed;
pub mod record;
pub mod render;
pub mod state;
