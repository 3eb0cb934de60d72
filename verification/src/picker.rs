//! The list entries the choosers display, and the two top-level
//! sections a user switches between.

use vstd::prelude::*;

verus! {

/// One translation a user can pick: its id and its display name.
#[derive(Debug, Clone)]
pub struct TranslationPickerItem {
    id: i64,
    name: String,
}

impl TranslationPickerItem {
    /// An entry for the translation stored under `id`, named `name`.
    pub fn new(id: i64, name: String) -> (r: Self)
        ensures
            r.spec_id() == id,
            r.spec_name() == name@,
    {
        TranslationPickerItem { id, name }
    }

    /// The translation's id.
    pub fn get_id(&self) -> (r: i64)
        ensures
            r == self.spec_id(),
    {
        self.id
    }

    /// The translation's display name.
    pub fn name(&self) -> (r: &str)
        ensures
            r@ == self.spec_name(),
    {
        self.name.as_str()
    }

    /// The id, as contracts see it.
    pub closed spec fn spec_id(&self) -> i64 {
        self.id
    }

    /// The name, as contracts see it.
    pub closed spec fn spec_name(&self) -> Seq<char> {
        self.name@
    }
}

/// One song a user can pick: its id and its display name.
#[derive(Debug, Clone)]
pub struct SongPickerItem {
    id: i64,
    name: String,
}

impl SongPickerItem {
    /// An entry for the song stored under `id`, named `name`.
    pub fn new(id: i64, name: String) -> (r: Self)
        ensures
            r.spec_id() == id,
            r.spec_name() == name@,
    {
        SongPickerItem { id, name }
    }

    /// The song's id.
    pub fn get_id(&self) -> (r: i64)
        ensures
            r == self.spec_id(),
    {
        self.id
    }

    /// The song's display name.
    pub fn name(&self) -> (r: &str)
        ensures
            r@ == self.spec_name(),
    {
        self.name.as_str()
    }

    /// The id, as contracts see it.
    pub closed spec fn spec_id(&self) -> i64 {
        self.id
    }

    /// The name, as contracts see it.
    pub closed spec fn spec_name(&self) -> Seq<char> {
        self.name@
    }
}

/// One playlist a user can pick: its id and its display name.
#[derive(Debug, Clone)]
pub struct PlaylistPickerItem {
    /// The playlist's id.
    pub id: i64,
    /// The playlist's display name.
    pub name: String,
}

/// What pressing one of the two top buttons asks for.
#[derive(Debug, Clone, Copy, PartialEq, Eq, Structural)]
pub enum TopButtonsMessage {
    /// Switch to the playlists section.
    Playlists,
    /// Switch to the songs section.
    Songs,
}

/// Which of the two top-level sections is on show.
#[derive(Debug, Clone, Copy, PartialEq, Eq, Structural)]
pub enum TopButtonsPickedSection {
    /// The songs section is on show.
    Songs,
    /// The playlists section is on show.
    Playlists,
}

/// Which top buttons may be pressed: the button of the section already
/// on show is disabled, the other enabled.
pub fn top_buttons_enabled(picked: TopButtonsPickedSection) -> (r: (bool, bool))
    ensures
        r.0 == (picked != TopButtonsPickedSection::Songs),
        r.1 == (picked != TopButtonsPickedSection::Playlists),
{
    match picked {
        TopButtonsPickedSection::Songs => (false, true),
        TopButtonsPickedSection::Playlists => (true, false),
    }
}

} // verus!
