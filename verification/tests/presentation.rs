//! Slides, the presentation mode, the configuration, and the chooser
//! entries.

use ekkles_data::bible::Book;
use ekkles_data::config::Config;
use ekkles_data::error::ErrorKind;
use ekkles_data::passage::{Passage, VerseRow};
use ekkles_data::picker::{
    top_buttons_enabled, PlaylistPickerItem, SongPickerItem, TopButtonsPickedSection,
    TranslationPickerItem,
};
use ekkles_data::slides::{
    playlist_to_slides, PassageSlide, Playlist, PlaylistItem, PresentationMode, Slide, SongSlide,
};
use ekkles_data::song::Song;
use ekkles_data::text::u8_to_string;
use ekkles_data::verse_index::VerseIndex;

fn sample_passage() -> Passage {
    let from = VerseIndex::try_new(Book::Genesis, 1, 1).unwrap();
    let to = VerseIndex::try_new(Book::Genesis, 1, 3).unwrap();
    let mut rows = Vec::new();
    for n in 1..=3 {
        rows.push(VerseRow {
            book_order: 0,
            chapter: 1,
            number: n,
            content: format!("verš {}", n),
        });
    }
    Passage::assemble(from, to, 1, String::from("T"), &rows).unwrap()
}

fn sample_song() -> Song {
    Song {
        title: String::from("Píseň"),
        author: None,
        parts: vec![
            (String::from("V1"), String::from("sloka")),
            (String::from("C"), String::from("refrén")),
        ],
        order: vec![String::from("V1"), String::from("C"), String::from("V1")],
    }
}

#[test]
fn playlist_becomes_slides_in_order() {
    let playlist = Playlist {
        id: 1,
        name: String::from("P"),
        created: 0,
        items: vec![
            PlaylistItem::BiblePassage(sample_passage()),
            PlaylistItem::Song(sample_song()),
        ],
    };
    let slides = playlist_to_slides(playlist, 2);
    // 3 verses at 2 per slide make 2 slides, then one slide per order entry
    assert_eq!(slides.len(), 5);
    match &slides[0] {
        Slide::Passage(s) => {
            assert_eq!(s.translation_name, "T");
            assert_eq!(s.verses.len(), 2);
            assert_eq!(s.verses[0].0, 1);
            assert_eq!(s.verses[1].0, 2);
        },
        _ => panic!("první slajd má být pasáž"),
    }
    match &slides[1] {
        Slide::Passage(s) => {
            assert_eq!(s.verses.len(), 1);
            assert_eq!(s.verses[0].0, 3);
            assert_eq!(&s.verses[0].1, "verš 3");
        },
        _ => panic!("druhý slajd má být pasáž"),
    }
    match &slides[2] {
        Slide::Song(s) => {
            assert_eq!(s.title, "Píseň");
            assert_eq!(s.part_name, "V1");
            assert_eq!(s.content, "sloka");
        },
        _ => panic!("třetí slajd má být píseň"),
    }
    match &slides[4] {
        Slide::Song(s) => {
            assert_eq!(s.part_name, "V1");
            assert_eq!(s.content, "sloka");
        },
        _ => panic!("pátý slajd má být píseň"),
    }
}

#[test]
fn slide_constructors_keep_their_fields() {
    let from = VerseIndex::try_new(Book::John, 3, 16).unwrap();
    let to = VerseIndex::try_new(Book::John, 3, 17).unwrap();
    let ps = PassageSlide::new(
        String::from("T"),
        from,
        to,
        vec![(16, String::from("a")), (17, String::from("b"))],
    );
    assert_eq!(ps.translation_name, "T");
    assert_eq!(ps.passage_indexes, (from, to));
    assert_eq!(ps.verses.len(), 2);

    let ss = SongSlide::new(String::from("t"), String::from("V1"), String::from("text"));
    assert_eq!(ss.title, "t");
    assert_eq!(ss.part_name, "V1");
    assert_eq!(ss.content, "text");
}

#[test]
fn presentation_mode_compares_by_kind() {
    assert_eq!(PresentationMode::Normal, PresentationMode::Normal);
    assert_eq!(PresentationMode::Frozen(1), PresentationMode::Frozen(5));
    assert_ne!(PresentationMode::Normal, PresentationMode::Blank);
    assert_ne!(PresentationMode::Blank, PresentationMode::Frozen(0));
}

#[test]
fn config_resolves_the_database_path() {
    let c = Config::new(Some(String::from("/tmp/x.sqlite3")), None, None).unwrap();
    assert_eq!(c.db_path, "/tmp/x.sqlite3");
    let c = Config::new(None, Some(String::from("/data")), Some(String::from("/home/u"))).unwrap();
    assert_eq!(c.db_path, "/data/ekkles/database.sqlite3");
    let c = Config::new(None, None, Some(String::from("/home/u"))).unwrap();
    assert_eq!(c.db_path, "/home/u/.local/share/ekkles/database.sqlite3");
    let err = Config::new(None, None, None).unwrap_err();
    assert_eq!(err.kind(), ErrorKind::Validation);
}

#[test]
fn picker_items_carry_id_and_name() {
    let t = TranslationPickerItem::new(3, String::from("ČSP"));
    assert_eq!(t.get_id(), 3);
    assert_eq!(t.name(), "ČSP");
    let s = SongPickerItem::new(4, String::from("Píseň"));
    assert_eq!(s.get_id(), 4);
    assert_eq!(s.name(), "Píseň");
    let p = PlaylistPickerItem { id: 5, name: String::from("Neděle") };
    assert_eq!(p.id, 5);
    assert_eq!(p.name, "Neděle");
}

#[test]
fn top_buttons_disable_the_shown_section() {
    assert_eq!(top_buttons_enabled(TopButtonsPickedSection::Songs), (false, true));
    assert_eq!(top_buttons_enabled(TopButtonsPickedSection::Playlists), (true, false));
}

#[test]
fn numbers_format_in_decimal() {
    assert_eq!(u8_to_string(0), "0");
    assert_eq!(u8_to_string(9), "9");
    assert_eq!(u8_to_string(42), "42");
    assert_eq!(u8_to_string(100), "100");
    assert_eq!(u8_to_string(255), "255");
}
