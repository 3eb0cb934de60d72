//! The playlist model and its persistence state machine.
//!
//! A playlist in memory is a name, a creation time and an ordered
//! sequence of items, each item a song reference or a Scripture passage
//! reference. Its `status` tracks the relation to storage: `Transient`
//! (never saved), `Clean(id)` (saved under `id` and unchanged since), or
//! `Dirty(id)` (saved under `id` but changed since). Every content or
//! name mutation demotes `Clean` to `Dirty` and leaves the other two
//! states alone.
//!
//! The library itself never talks to storage. Saving is split in two:
//! [`PlaylistMetadata::save_plan`] says exactly which writes a save needs
//! — none when `Clean`, a fresh insert when `Transient`, a rewrite of the
//! item rows when `Dirty` (the delete-all-then-reinsert strategy: simple,
//! and position order is recomputed from scratch on every save) — and
//! [`PlaylistMetadata::mark_clean`] records that the caller committed
//! those writes. The caller runs the plan inside one transaction, so a
//! failed save changes neither storage nor the in-memory status.

use vstd::prelude::*;
use vstd::pervasive::VecAdditionalExecFns;
use crate::clock::now_unix_seconds;
use crate::error::{DataError, ErrorKind};
use crate::text::str_eq;
use crate::verse_index::VerseIndex;

verus! {

/// How a playlist in memory relates to its persisted counterpart.
#[derive(Clone, Copy, Debug, PartialEq, Eq, Structural)]
pub enum PlaylistMetadataStatus {
    /// Exists in memory only; was never saved.
    Transient,
    /// Saved under the carried id and unchanged since.
    Clean(i64),
    /// Saved under the carried id but changed since.
    Dirty(i64),
}

/// One playlist entry: a song reference, or a passage reference given by
/// a translation and two verse addresses.
#[derive(Clone, Copy, Debug, PartialEq, Eq, Structural)]
pub enum PlaylistItemMetadata {
    /// A Scripture passage of the given translation, from one address to
    /// another.
    BiblePassage { translation_id: i64, from: VerseIndex, to: VerseIndex },
    /// A reference to the song saved under the carried id.
    Song(i64),
}

/// The status after any content or name mutation: `Clean` demotes to
/// `Dirty` with the same id; `Transient` and `Dirty` stay as they are.
pub open spec fn spec_demoted(s: PlaylistMetadataStatus) -> PlaylistMetadataStatus {
    match s {
        PlaylistMetadataStatus::Clean(id) => PlaylistMetadataStatus::Dirty(id),
        other => other,
    }
}

/// A playlist as edited in memory: status, name, creation time (whole
/// seconds since the Unix epoch, UTC) and the ordered items.
#[derive(Clone, Debug)]
pub struct PlaylistMetadata {
    status: PlaylistMetadataStatus,
    name: String,
    created: i64,
    items: Vec<PlaylistItemMetadata>,
}

/// The writes one save needs, in storage terms. The caller performs them
/// inside a single transaction and, on commit, reports back through
/// [`PlaylistMetadata::mark_clean`].
pub enum SavePlan {
    /// The playlist is `Clean`: a save is a no-op, no statement runs.
    NoWrites,
    /// The playlist is `Transient`: insert one playlist row, then for
    /// each listed row one parent row at the carried position plus the
    /// matching child row.
    CreateNew { name: String, created: i64, rows: Vec<(u32, PlaylistItemMetadata)> },
    /// The playlist is `Dirty`: update the name of row `id`, delete all
    /// item rows of `id` (parent and both children), then reinsert the
    /// listed rows as for a fresh save.
    Rewrite { id: i64, name: String, rows: Vec<(u32, PlaylistItemMetadata)> },
}

/// The rows carry the items in order, positioned exactly `0, 1, ...,
/// len - 1`: no gap, no duplicate, nothing reordered.
pub open spec fn spec_rows_indexed(
    rows: Seq<(u32, PlaylistItemMetadata)>,
    items: Seq<PlaylistItemMetadata>,
) -> bool {
    &&& rows.len() == items.len()
    &&& forall|i: int| 0 <= i < rows.len() ==> (#[trigger] rows[i]).0 == i
    &&& forall|i: int| 0 <= i < rows.len() ==> (#[trigger] rows[i]).1 == items[i]
}

impl PlaylistMetadata {
    /// The status, as contracts see it.
    pub closed spec fn spec_status(&self) -> PlaylistMetadataStatus {
        self.status
    }

    /// The name, as contracts see it.
    pub closed spec fn spec_name(&self) -> Seq<char> {
        self.name@
    }

    /// The creation time, as contracts see it.
    pub closed spec fn spec_created(&self) -> i64 {
        self.created
    }

    /// The ordered items, as contracts see it.
    pub closed spec fn spec_items(&self) -> Seq<PlaylistItemMetadata> {
        self.items@
    }

    /// A fresh, empty playlist named `name`: `Transient`, created now.
    pub fn new(name: &str) -> (r: Self)
        ensures
            r.spec_status() == PlaylistMetadataStatus::Transient,
            r.spec_name() == name@,
            r.spec_items() == Seq::<PlaylistItemMetadata>::empty(),
    {
        let r = PlaylistMetadata {
            status: PlaylistMetadataStatus::Transient,
            name: name.to_owned(),
            created: now_unix_seconds(),
            items: Vec::new(),
        };
        proof {
            assert(r.spec_items() =~= Seq::<PlaylistItemMetadata>::empty());
        }
        r
    }

    /// A fresh `Transient` playlist named `name` that takes the items
    /// over from `other`, leaving `other` with no items but with its
    /// status, name and creation time untouched.
    pub fn from_other(name: &str, other: &mut PlaylistMetadata) -> (r: Self)
        ensures
            r.spec_status() == PlaylistMetadataStatus::Transient,
            r.spec_name() == name@,
            r.spec_items() == old(other).spec_items(),
            final(other).spec_items() == Seq::<PlaylistItemMetadata>::empty(),
            final(other).spec_status() == old(other).spec_status(),
            final(other).spec_name() == old(other).spec_name(),
            final(other).spec_created() == old(other).spec_created(),
    {
        let mut r = Self::new(name);
        core::mem::swap(&mut r.items, &mut other.items);
        r
    }

    /// Rebuilds the in-memory playlist for data read back from storage:
    /// saved under `id` and matching storage, hence `Clean(id)`.
    pub fn from_db(id: i64, name: String, created: i64, items: Vec<PlaylistItemMetadata>) -> (r:
        Self)
        ensures
            r.spec_status() == PlaylistMetadataStatus::Clean(id),
            r.spec_name() == name@,
            r.spec_created() == created,
            r.spec_items() == items@,
    {
        PlaylistMetadata { status: PlaylistMetadataStatus::Clean(id), name, created, items }
    }

    /// The current status.
    pub fn get_status(&self) -> (r: PlaylistMetadataStatus)
        ensures
            r == self.spec_status(),
    {
        self.status
    }

    /// The current name.
    pub fn get_name(&self) -> (r: &str)
        ensures
            r@ == self.spec_name(),
    {
        self.name.as_str()
    }

    /// The creation time, in whole seconds since the Unix epoch, UTC.
    pub fn get_created(&self) -> (r: i64)
        ensures
            r == self.spec_created(),
    {
        self.created
    }

    /// The items, in playlist order.
    pub fn get_items(&self) -> (r: &Vec<PlaylistItemMetadata>)
        ensures
            r@ == self.spec_items(),
    {
        &self.items
    }

    /// Appends a song reference at the end; a mutation, so a `Clean`
    /// playlist becomes `Dirty`.
    pub fn push_song(&mut self, song_id: i64)
        ensures
            final(self).spec_items() == old(self).spec_items().push(
                PlaylistItemMetadata::Song(song_id),
            ),
            final(self).spec_status() == spec_demoted(old(self).spec_status()),
            final(self).spec_name() == old(self).spec_name(),
            final(self).spec_created() == old(self).spec_created(),
    {
        let position = self.items.len();
        self.add_song(song_id, position);
        proof {
            assert(final(self).spec_items() =~= old(self).spec_items().push(
                PlaylistItemMetadata::Song(song_id),
            ));
        }
    }

    /// Inserts a song reference at `position`, shifting what follows; a
    /// mutation, so a `Clean` playlist becomes `Dirty`.
    pub fn add_song(&mut self, song_id: i64, position: usize)
        requires
            position <= old(self).spec_items().len(),
        ensures
            final(self).spec_items() == old(self).spec_items().insert(
                position as int,
                PlaylistItemMetadata::Song(song_id),
            ),
            final(self).spec_status() == spec_demoted(old(self).spec_status()),
            final(self).spec_name() == old(self).spec_name(),
            final(self).spec_created() == old(self).spec_created(),
    {
        self.items.insert(position, PlaylistItemMetadata::Song(song_id));
        self.demote();
    }

    /// Appends a passage reference at the end; a mutation, so a `Clean`
    /// playlist becomes `Dirty`.
    pub fn push_bible_passage(&mut self, translation_id: i64, from: VerseIndex, to: VerseIndex)
        ensures
            final(self).spec_items() == old(self).spec_items().push(
                PlaylistItemMetadata::BiblePassage { translation_id, from, to },
            ),
            final(self).spec_status() == spec_demoted(old(self).spec_status()),
            final(self).spec_name() == old(self).spec_name(),
            final(self).spec_created() == old(self).spec_created(),
    {
        let position = self.items.len();
        self.add_bible_passage(translation_id, from, to, position);
        proof {
            assert(final(self).spec_items() =~= old(self).spec_items().push(
                PlaylistItemMetadata::BiblePassage { translation_id, from, to },
            ));
        }
    }

    /// Inserts a passage reference at `position`, shifting what follows;
    /// a mutation, so a `Clean` playlist becomes `Dirty`.
    pub fn add_bible_passage(
        &mut self,
        translation_id: i64,
        from: VerseIndex,
        to: VerseIndex,
        position: usize,
    )
        requires
            position <= old(self).spec_items().len(),
        ensures
            final(self).spec_items() == old(self).spec_items().insert(
                position as int,
                PlaylistItemMetadata::BiblePassage { translation_id, from, to },
            ),
            final(self).spec_status() == spec_demoted(old(self).spec_status()),
            final(self).spec_name() == old(self).spec_name(),
            final(self).spec_created() == old(self).spec_created(),
    {
        self.items.insert(position, PlaylistItemMetadata::BiblePassage { translation_id, from, to });
        self.demote();
    }

    /// Removes the item at `position`, shortening the sequence by one.
    /// An out-of-range position is a validation error and changes
    /// nothing. On success, a mutation: `Clean` becomes `Dirty`.
    pub fn delete_item(&mut self, position: usize) -> (r: Result<(), DataError>)
        ensures
            r is Ok <==> position < old(self).spec_items().len(),
            r is Ok ==> {
                &&& final(self).spec_items() == old(self).spec_items().remove(position as int)
                &&& final(self).spec_items().len() == old(self).spec_items().len() - 1
                &&& final(self).spec_status() == spec_demoted(old(self).spec_status())
            },
            r matches Err(e) ==> {
                &&& e.spec_kind() == ErrorKind::Validation
                &&& *final(self) == *old(self)
            },
            final(self).spec_name() == old(self).spec_name(),
            final(self).spec_created() == old(self).spec_created(),
    {
        if self.items.len() <= position {
            Err(DataError::new(ErrorKind::Validation, "Položka na daném indexu neexistuje"))
        } else {
            self.items.remove(position);
            self.demote();
            Ok(())
        }
    }

    /// Swaps the items at `a` and `b`. An out-of-range index is a
    /// validation error and changes nothing. On success, a mutation:
    /// `Clean` becomes `Dirty`.
    pub fn swap_items(&mut self, a: usize, b: usize) -> (r: Result<(), DataError>)
        ensures
            r is Ok <==> (a < old(self).spec_items().len() && b < old(self).spec_items().len()),
            r is Ok ==> {
                &&& final(self).spec_items() == old(self).spec_items().update(
                    a as int,
                    old(self).spec_items()[b as int],
                ).update(b as int, old(self).spec_items()[a as int])
                &&& final(self).spec_status() == spec_demoted(old(self).spec_status())
            },
            r matches Err(e) ==> {
                &&& e.spec_kind() == ErrorKind::Validation
                &&& *final(self) == *old(self)
            },
            final(self).spec_name() == old(self).spec_name(),
            final(self).spec_created() == old(self).spec_created(),
    {
        if a >= self.items.len() || b >= self.items.len() {
            Err(DataError::new(ErrorKind::Validation, "Index je mimo rozsah položek"))
        } else {
            let va = self.items[a];
            let vb = self.items[b];
            self.items.set(a, vb);
            self.items.set(b, va);
            self.demote();
            Ok(())
        }
    }

    /// Demotes `Clean` to `Dirty` after a mutation; `Transient` and
    /// `Dirty` stay as they are.
    fn demote(&mut self)
        ensures
            final(self).spec_status() == spec_demoted(old(self).spec_status()),
            final(self).spec_name() == old(self).spec_name(),
            final(self).spec_created() == old(self).spec_created(),
            final(self).spec_items() == old(self).spec_items(),
    {
        if let PlaylistMetadataStatus::Clean(id) = self.status {
            self.status = PlaylistMetadataStatus::Dirty(id);
        }
    }

    /// The writes a save needs right now. A `Clean` playlist needs none
    /// (saving it again is a no-op); a `Transient` one needs a fresh
    /// insert of the playlist row and all item rows; a `Dirty` one needs
    /// the name updated and the item rows rewritten. In every plan the
    /// rows carry the items in order at positions exactly `0..len`,
    /// ascending, with no gap or duplicate.
    pub fn save_plan(&self) -> (r: SavePlan)
        requires
            self.spec_items().len() <= u32::MAX,
        ensures
            self.spec_status() matches PlaylistMetadataStatus::Clean(_) <==> r is NoWrites,
            self.spec_status() == PlaylistMetadataStatus::Transient <==> r is CreateNew,
            r matches SavePlan::CreateNew { name, created, rows } ==> {
                &&& name@ == self.spec_name()
                &&& created == self.spec_created()
                &&& spec_rows_indexed(rows@, self.spec_items())
            },
            r matches SavePlan::Rewrite { id, name, rows } ==> {
                &&& self.spec_status() == PlaylistMetadataStatus::Dirty(id)
                &&& name@ == self.spec_name()
                &&& spec_rows_indexed(rows@, self.spec_items())
            },
    {
        match self.status {
            PlaylistMetadataStatus::Clean(_) => SavePlan::NoWrites,
            PlaylistMetadataStatus::Transient => SavePlan::CreateNew {
                name: self.name.clone(),
                created: self.created,
                rows: self.indexed_rows(),
            },
            PlaylistMetadataStatus::Dirty(id) => SavePlan::Rewrite {
                id,
                name: self.name.clone(),
                rows: self.indexed_rows(),
            },
        }
    }

    /// The items paired with their zero-based positions, in order.
    fn indexed_rows(&self) -> (r: Vec<(u32, PlaylistItemMetadata)>)
        requires
            self.spec_items().len() <= u32::MAX,
        ensures
            spec_rows_indexed(r@, self.spec_items()),
    {
        let mut rows: Vec<(u32, PlaylistItemMetadata)> = Vec::new();
        let mut i: usize = 0;
        while i < self.items.len()
            invariant
                i <= self.items.len(),
                self.items.len() <= u32::MAX,
                rows@.len() == i,
                forall|j: int| 0 <= j < rows@.len() ==> (#[trigger] rows@[j]).0 == j,
                forall|j: int| 0 <= j < rows@.len() ==> (#[trigger] rows@[j]).1 == self.items@[j],
            decreases self.items.len() - i,
        {
            rows.push((i as u32, self.items[i]));
            i += 1;
        }
        rows
    }

    /// Records that the caller committed the planned writes: a
    /// `Transient` playlist was inserted under the fresh `id`, or a
    /// `Dirty(id)` playlist was rewritten. The playlist now matches
    /// storage: `Clean(id)`. Nothing else changes; calling a save on the
    /// resulting `Clean` playlist plans no further writes.
    pub fn mark_clean(&mut self, id: i64)
        requires
            old(self).spec_status() == PlaylistMetadataStatus::Transient || old(self).spec_status()
                == PlaylistMetadataStatus::Dirty(id),
        ensures
            final(self).spec_status() == PlaylistMetadataStatus::Clean(id),
            final(self).spec_name() == old(self).spec_name(),
            final(self).spec_created() == old(self).spec_created(),
            final(self).spec_items() == old(self).spec_items(),
    {
        self.status = PlaylistMetadataStatus::Clean(id);
    }

    /// The id under which this playlist is stored, for a delete: legal
    /// exactly when the status carries an id (`Clean` or `Dirty`);
    /// deleting a `Transient` playlist is a validation error. Deleting
    /// removes the playlist row and all its item rows, parent and both
    /// child tables; the caller does so in one transaction.
    pub fn delete_plan(&self) -> (r: Result<i64, DataError>)
        ensures
            r is Ok <==> !(self.spec_status() == PlaylistMetadataStatus::Transient),
            r matches Ok(id) ==> (self.spec_status() == PlaylistMetadataStatus::Clean(id)
                || self.spec_status() == PlaylistMetadataStatus::Dirty(id)),
            r matches Err(e) ==> e.spec_kind() == ErrorKind::Validation,
    {
        match self.status {
            PlaylistMetadataStatus::Transient => Err(
                DataError::new(ErrorKind::Validation, "Neuložený playlist nelze smazat"),
            ),
            PlaylistMetadataStatus::Clean(id) => Ok(id),
            PlaylistMetadataStatus::Dirty(id) => Ok(id),
        }
    }
}

/// Swapping two positions and then swapping them again restores the
/// original sequence, for any valid pair of indices. Stated over the
/// sequence operations that `swap_items` is specified with.
pub proof fn lemma_swap_involution(items: Seq<PlaylistItemMetadata>, a: int, b: int)
    requires
        0 <= a < items.len(),
        0 <= b < items.len(),
    ensures
        ({
            let once = items.update(a, items[b]).update(b, items[a]);
            once.update(a, once[b]).update(b, once[a]) == items
        }),
{
    let once = items.update(a, items[b]).update(b, items[a]);
    let twice = once.update(a, once[b]).update(b, once[a]);
    assert(twice =~= items);
}

/// A saved `Clean` playlist plans no writes, and because planning does
/// not touch the playlist, a second consecutive save still sees `Clean`
/// and plans no writes either.
pub proof fn lemma_save_clean_idempotent(p: &PlaylistMetadata, first: SavePlan, second: SavePlan)
    requires
        p.spec_status() matches PlaylistMetadataStatus::Clean(_),
        call_ensures(PlaylistMetadata::save_plan, (p,), first),
        call_ensures(PlaylistMetadata::save_plan, (p,), second),
    ensures
        first is NoWrites,
        second is NoWrites,
{
}

/// The discriminator stored with every parent row, naming which child
/// table holds the item's data.
#[derive(Clone, Copy, Debug, PartialEq, Eq, Structural)]
pub enum PlaylistItemKind {
    /// The item's data sits in the song-reference child table.
    Song,
    /// The item's data sits in the passage-range child table.
    BiblePassage,
}

/// The discriminator column value for song rows.
pub open spec fn spec_kind_song() -> Seq<char> {
    "song"@
}

/// The discriminator column value for passage rows.
pub open spec fn spec_kind_bible() -> Seq<char> {
    "bible"@
}

impl PlaylistItemMetadata {
    /// Which child table this item's data belongs in.
    pub fn kind(&self) -> (r: PlaylistItemKind)
        ensures
            r == PlaylistItemKind::Song <==> self matches PlaylistItemMetadata::Song(_),
            r == PlaylistItemKind::BiblePassage <==> self matches PlaylistItemMetadata::BiblePassage {
                ..
            },
    {
        match self {
            PlaylistItemMetadata::Song(_) => PlaylistItemKind::Song,
            PlaylistItemMetadata::BiblePassage { .. } => PlaylistItemKind::BiblePassage,
        }
    }
}

impl PlaylistItemKind {
    /// The value the discriminator column stores for this kind: `song`
    /// for song rows, `bible` for passage rows.
    pub fn as_db_value(&self) -> (r: String)
        ensures
            *self == PlaylistItemKind::Song ==> r@ == spec_kind_song(),
            *self == PlaylistItemKind::BiblePassage ==> r@ == spec_kind_bible(),
    {
        match self {
            PlaylistItemKind::Song => "song".to_owned(),
            PlaylistItemKind::BiblePassage => "bible".to_owned(),
        }
    }

    /// Reads the discriminator column back. The stored value maps one to
    /// one onto the two kinds; anything else means the stored invariants
    /// were violated, an integrity error the library does not try to
    /// repair.
    pub fn from_db_value(kind: &str) -> (r: Result<PlaylistItemKind, DataError>)
        ensures
            r matches Ok(k) ==> (k == PlaylistItemKind::Song <==> kind@ == spec_kind_song()),
            r matches Ok(k) ==> (k == PlaylistItemKind::BiblePassage <==> kind@
                == spec_kind_bible()),
            r is Ok <==> (kind@ == spec_kind_song() || kind@ == spec_kind_bible()),
            r matches Err(e) ==> e.spec_kind() == ErrorKind::Integrity,
    {
        proof {
            reveal_strlit("song");
            reveal_strlit("bible");
            assert(spec_kind_song().len() == 4);
            assert(spec_kind_bible().len() == 5);
        }
        if str_eq(kind, "song") {
            Ok(PlaylistItemKind::Song)
        } else if str_eq(kind, "bible") {
            Ok(PlaylistItemKind::BiblePassage)
        } else {
            Err(
                DataError::new(
                    ErrorKind::Integrity,
                    "Neznámý druh položky playlistu, došlo ke korupci dat v databázi?",
                ),
            )
        }
    }
}

} // verus!
