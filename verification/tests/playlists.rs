//! The playlist persistence state machine: lifecycle, mutations, save
//! plans and delete plans.

use ekkles_data::bible::Book;
use ekkles_data::error::ErrorKind;
use ekkles_data::playlist::{
    PlaylistItemKind, PlaylistItemMetadata, PlaylistMetadata, PlaylistMetadataStatus, SavePlan,
};
use ekkles_data::verse_index::VerseIndex;

fn sample_passage_item() -> PlaylistItemMetadata {
    PlaylistItemMetadata::BiblePassage {
        translation_id: 0,
        from: VerseIndex::try_new(Book::Genesis, 1, 1).unwrap(),
        to: VerseIndex::try_new(Book::Genesis, 1, 10).unwrap(),
    }
}

#[test]
fn new_playlist_is_transient_and_empty() {
    let p = PlaylistMetadata::new("Testovací playlist");
    assert_eq!(p.get_status(), PlaylistMetadataStatus::Transient);
    assert_eq!(p.get_name(), "Testovací playlist");
    assert!(p.get_items().is_empty());
}

#[test]
fn save_round_trip_yields_same_items() {
    // a fresh playlist with one song, saved, becomes clean under the id
    let mut p = PlaylistMetadata::new("X");
    p.push_song(5);
    assert_eq!(p.get_status(), PlaylistMetadataStatus::Transient);
    let plan = p.save_plan();
    match plan {
        SavePlan::CreateNew { name, rows, .. } => {
            assert_eq!(name, "X");
            assert_eq!(rows.len(), 1);
            assert_eq!(rows[0].0, 0);
            assert_eq!(rows[0].1, PlaylistItemMetadata::Song(5));
        },
        _ => panic!("čerstvý playlist má plánovat nové uložení"),
    }
    p.mark_clean(7);
    assert_eq!(p.get_status(), PlaylistMetadataStatus::Clean(7));

    // loading the stored data back yields the same items and name
    let loaded = PlaylistMetadata::from_db(
        7,
        String::from("X"),
        p.get_created(),
        vec![PlaylistItemMetadata::Song(5)],
    );
    assert_eq!(loaded.get_status(), PlaylistMetadataStatus::Clean(7));
    assert_eq!(loaded.get_name(), "X");
    assert_eq!(loaded.get_items().as_slice(), &[PlaylistItemMetadata::Song(5)]);
}

#[test]
fn saving_a_clean_playlist_plans_no_writes() {
    let p = PlaylistMetadata::from_db(3, String::from("A"), 0, vec![PlaylistItemMetadata::Song(1)]);
    assert!(matches!(p.save_plan(), SavePlan::NoWrites));
    assert_eq!(p.get_status(), PlaylistMetadataStatus::Clean(3));
    // a second consecutive save still sees a clean playlist
    assert!(matches!(p.save_plan(), SavePlan::NoWrites));
    assert_eq!(p.get_status(), PlaylistMetadataStatus::Clean(3));
}

#[test]
fn mutations_demote_clean_to_dirty_only() {
    let mut p = PlaylistMetadata::from_db(3, String::from("A"), 0, vec![]);
    p.push_song(1);
    assert_eq!(p.get_status(), PlaylistMetadataStatus::Dirty(3));
    p.push_song(2);
    assert_eq!(p.get_status(), PlaylistMetadataStatus::Dirty(3));

    let mut t = PlaylistMetadata::new("B");
    t.push_song(1);
    assert_eq!(t.get_status(), PlaylistMetadataStatus::Transient);
}

#[test]
fn dirty_playlist_plans_a_rewrite() {
    let mut p = PlaylistMetadata::from_db(3, String::from("A"), 0, vec![]);
    p.push_song(1);
    p.push_bible_passage(
        0,
        VerseIndex::try_new(Book::John, 3, 16).unwrap(),
        VerseIndex::try_new(Book::John, 3, 17).unwrap(),
    );
    match p.save_plan() {
        SavePlan::Rewrite { id, name, rows } => {
            assert_eq!(id, 3);
            assert_eq!(name, "A");
            assert_eq!(rows.len(), 2);
            assert_eq!(rows[0].0, 0);
            assert_eq!(rows[1].0, 1);
            assert!(matches!(rows[0].1, PlaylistItemMetadata::Song(1)));
            assert!(matches!(rows[1].1, PlaylistItemMetadata::BiblePassage { .. }));
        },
        _ => panic!("upravený playlist má plánovat přepis"),
    }
    p.mark_clean(3);
    assert_eq!(p.get_status(), PlaylistMetadataStatus::Clean(3));
}

#[test]
fn delete_plan_requires_a_stored_playlist() {
    let clean = PlaylistMetadata::from_db(9, String::from("A"), 0, vec![]);
    assert_eq!(clean.delete_plan().unwrap(), 9);

    let mut dirty = PlaylistMetadata::from_db(9, String::from("A"), 0, vec![]);
    dirty.push_song(1);
    assert_eq!(dirty.delete_plan().unwrap(), 9);

    let transient = PlaylistMetadata::new("B");
    assert_eq!(transient.delete_plan().unwrap_err().kind(), ErrorKind::Validation);
}

#[test]
fn swap_items_twice_restores_the_order() {
    // swapping twice restores the original sequence
    let mut p = PlaylistMetadata::new("Testovací playlist");
    p.push_song(1);
    p.push_song(2);
    p.push_song(3);
    let before = p.get_items().clone();
    p.swap_items(0, 2).unwrap();
    assert_eq!(
        p.get_items().as_slice(),
        &[
            PlaylistItemMetadata::Song(3),
            PlaylistItemMetadata::Song(2),
            PlaylistItemMetadata::Song(1),
        ]
    );
    p.swap_items(0, 2).unwrap();
    assert_eq!(p.get_items(), &before);

    // a swap of an index with itself changes nothing
    p.swap_items(1, 1).unwrap();
    assert_eq!(p.get_items(), &before);

    // an out-of-range index is a validation error and changes nothing
    let err = p.swap_items(0, 3).unwrap_err();
    assert_eq!(err.kind(), ErrorKind::Validation);
    assert_eq!(p.get_items(), &before);
}

#[test]
fn delete_item_shortens_and_renumbers() {
    // deleting shortens the sequence by one and the next save plans
    // positions without a gap
    let mut p = PlaylistMetadata::from_db(
        4,
        String::from("A"),
        0,
        vec![
            PlaylistItemMetadata::Song(1),
            PlaylistItemMetadata::Song(2),
            PlaylistItemMetadata::Song(3),
        ],
    );
    p.delete_item(1).unwrap();
    assert_eq!(p.get_items().len(), 2);
    assert_eq!(
        p.get_items().as_slice(),
        &[PlaylistItemMetadata::Song(1), PlaylistItemMetadata::Song(3)]
    );
    assert_eq!(p.get_status(), PlaylistMetadataStatus::Dirty(4));
    match p.save_plan() {
        SavePlan::Rewrite { rows, .. } => {
            assert_eq!(rows.len(), 2);
            assert_eq!(rows[0].0, 0);
            assert_eq!(rows[1].0, 1);
        },
        _ => panic!("upravený playlist má plánovat přepis"),
    }

    // an out-of-range position is a validation error and changes nothing
    let err = p.delete_item(5).unwrap_err();
    assert_eq!(err.kind(), ErrorKind::Validation);
    assert_eq!(p.get_items().len(), 2);
}

#[test]
fn insert_at_position_shifts_the_rest() {
    let mut p = PlaylistMetadata::new("A");
    p.push_song(1);
    p.push_song(3);
    p.add_song(2, 1);
    assert_eq!(
        p.get_items().as_slice(),
        &[
            PlaylistItemMetadata::Song(1),
            PlaylistItemMetadata::Song(2),
            PlaylistItemMetadata::Song(3),
        ]
    );
    let passage = sample_passage_item();
    p.add_bible_passage(
        0,
        VerseIndex::try_new(Book::Genesis, 1, 1).unwrap(),
        VerseIndex::try_new(Book::Genesis, 1, 10).unwrap(),
        0,
    );
    assert_eq!(p.get_items()[0], passage);
    assert_eq!(p.get_items().len(), 4);
}

#[test]
fn from_other_takes_the_items_over() {
    let mut first = PlaylistMetadata::from_db(
        2,
        String::from("old"),
        0,
        vec![PlaylistItemMetadata::Song(1), PlaylistItemMetadata::Song(2)],
    );
    let second = PlaylistMetadata::from_other("new", &mut first);
    assert_eq!(second.get_status(), PlaylistMetadataStatus::Transient);
    assert_eq!(second.get_name(), "new");
    assert_eq!(second.get_items().len(), 2);
    assert!(first.get_items().is_empty());
    assert_eq!(first.get_status(), PlaylistMetadataStatus::Clean(2));
    assert_eq!(first.get_name(), "old");
}

#[test]
fn kind_discriminator_maps_one_to_one() {
    let song = PlaylistItemMetadata::Song(0);
    let passage = sample_passage_item();
    assert_eq!(song.kind().as_db_value(), "song");
    assert_eq!(passage.kind().as_db_value(), "bible");
    assert_eq!(PlaylistItemKind::from_db_value("song").unwrap(), PlaylistItemKind::Song);
    assert_eq!(
        PlaylistItemKind::from_db_value("bible").unwrap(),
        PlaylistItemKind::BiblePassage
    );
    let err = PlaylistItemKind::from_db_value("video").unwrap_err();
    assert_eq!(err.kind(), ErrorKind::Integrity);
}
