//! Presentation material for live display: song lyrics and Scripture
//! passages, addressed through a canonical book/chapter/verse order and
//! kept in an ordered playlist with an explicit save-state lifecycle.
//!
//! The library holds the data model and the rules: the versification
//! table, validated verse addresses with their total order, passage range
//! resolution, the song model with its invariants, and the playlist
//! persistence state machine. Storage access itself (an SQLite database,
//! reached asynchronously) stays outside; the library plans every write
//! and checks every read.

pub mod bible;
pub mod book_parse;
pub mod clock;
pub mod config;
pub mod error;
pub mod passage;
pub mod picker;
pub mod playlist;
pub mod slides;
pub mod song;
pub mod text;
pub mod verse_index;
pub mod versification;

use vstd::prelude::*;

verus! {

} // verus!
