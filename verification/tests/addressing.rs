//! The versification table, verse addresses, their order, and the
//! reading of human-facing references.

use ekkles_data::bible::{Book, BIBLE_BOOKS, book_number_to_order, book_number_to_order_and_name};
use ekkles_data::book_parse::{
    parse_book_name, parse_quick_selection, validate_selection, BiblePickerIndexes,
};
use ekkles_data::error::ErrorKind;
use ekkles_data::verse_index::{verse_range, VerseIndex};
use ekkles_data::versification::{chapter_count, chapters_in_book, verses_in_chapter};

#[test]
fn chapters_are_exactly_one_to_n() {
    for book in BIBLE_BOOKS {
        let chapters = chapters_in_book(book);
        assert!(!chapters.is_empty());
        assert_eq!(chapters.len(), chapter_count(book) as usize);
        for (i, c) in chapters.iter().enumerate() {
            assert_eq!(*c as usize, i + 1);
        }
    }
    assert_eq!(chapters_in_book(Book::John).len(), 21);
    assert_eq!(chapters_in_book(Book::Genesis).len(), 50);
    assert_eq!(chapters_in_book(Book::Psalms).len(), 150);
}

#[test]
fn verses_are_exactly_one_to_m() {
    let verses = verses_in_chapter(Book::John, 3).expect("Jan má kapitolu 3");
    assert_eq!(verses.len(), 36);
    for (i, v) in verses.iter().enumerate() {
        assert_eq!(*v as usize, i + 1);
    }
    assert!(verses_in_chapter(Book::John, 22).is_none());
    assert!(verses_in_chapter(Book::John, 0).is_none());
}

#[test]
fn try_new_follows_the_table() {
    // succeeds exactly when chapter and verse are listed
    assert!(VerseIndex::try_new(Book::John, 3, 16).is_some());
    assert!(VerseIndex::try_new(Book::John, 99, 1).is_none());
    assert!(VerseIndex::try_new(Book::John, 21, 25).is_some());
    assert!(VerseIndex::try_new(Book::John, 21, 26).is_none());
    assert!(VerseIndex::try_new(Book::John, 3, 0).is_none());
    let v = VerseIndex::try_new(Book::John, 3, 16).unwrap();
    assert_eq!(v.book(), Book::John);
    assert_eq!(v.chapter(), 3);
    assert_eq!(v.verse(), 16);
    assert_eq!(v.destructure(), (42, 3, 16));
}

#[test]
fn try_from_numbers_revalidates() {
    let v = VerseIndex::try_from_numbers(42, 3, 16).expect("Jan 3:16 existuje");
    assert_eq!(v.book(), Book::John);
    let bad = VerseIndex::try_from_numbers(42, 99, 1);
    assert_eq!(bad.unwrap_err().kind(), ErrorKind::Integrity);
    let bad = VerseIndex::try_from_numbers(99, 1, 1);
    assert_eq!(bad.unwrap_err().kind(), ErrorKind::Integrity);
}

#[test]
fn order_respects_book_ordinal_first() {
    let gen_last = VerseIndex::try_new(Book::Genesis, 50, 26).unwrap();
    let ex_first = VerseIndex::try_new(Book::Exodus, 1, 1).unwrap();
    assert!(gen_last.lt(&ex_first));
    assert!(!ex_first.lt(&gen_last));
    // book ordinal decides, whatever the chapters and verses are
    let ps_high = VerseIndex::try_new(Book::Psalms, 119, 176).unwrap();
    let prov_low = VerseIndex::try_new(Book::Proverbs, 1, 1).unwrap();
    assert!(ps_high.lt(&prov_low));
    // then chapter, then verse
    let a = VerseIndex::try_new(Book::John, 3, 16).unwrap();
    let b = VerseIndex::try_new(Book::John, 4, 1).unwrap();
    let c = VerseIndex::try_new(Book::John, 3, 17).unwrap();
    assert!(a.lt(&b));
    assert!(a.lt(&c));
    assert!(a.le(&a));
    assert!(!a.lt(&a));
}

#[test]
fn verse_range_crosses_book_boundary() {
    let from = VerseIndex::try_new(Book::John, 21, 20).unwrap();
    let to = VerseIndex::try_new(Book::Acts, 1, 5).unwrap();
    let range = verse_range(from, to);
    assert_eq!(range.len(), 11);
    let expected = [
        (Book::John, 21u8, 20u8),
        (Book::John, 21, 21),
        (Book::John, 21, 22),
        (Book::John, 21, 23),
        (Book::John, 21, 24),
        (Book::John, 21, 25),
        (Book::Acts, 1, 1),
        (Book::Acts, 1, 2),
        (Book::Acts, 1, 3),
        (Book::Acts, 1, 4),
        (Book::Acts, 1, 5),
    ];
    for (v, (b, c, n)) in range.iter().zip(expected.iter()) {
        assert_eq!(v.book(), *b);
        assert_eq!(v.chapter(), *c);
        assert_eq!(v.verse(), *n);
    }
}

#[test]
fn verse_range_within_one_chapter() {
    let from = VerseIndex::try_new(Book::Genesis, 1, 1).unwrap();
    let to = VerseIndex::try_new(Book::Genesis, 1, 10).unwrap();
    let range = verse_range(from, to);
    assert_eq!(range.len(), 10);
    assert_eq!(range[0], from);
    assert_eq!(range[9], to);
}

#[test]
fn book_numbers_map_to_orders_and_names() {
    assert_eq!(book_number_to_order(1), 0);
    assert_eq!(book_number_to_order(66), 65);
    let (order, name) = book_number_to_order_and_name(43).unwrap();
    assert_eq!(order, 42);
    assert_eq!(name, "Jan");
    let (order, name) = book_number_to_order_and_name(1).unwrap();
    assert_eq!(order, 0);
    assert_eq!(name, "Genesis");
    assert_eq!(
        book_number_to_order_and_name(0).unwrap_err().kind(),
        ErrorKind::Validation
    );
    assert_eq!(
        book_number_to_order_and_name(67).unwrap_err().kind(),
        ErrorKind::Validation
    );
}

#[test]
fn book_names_parse_case_insensitively() {
    assert_eq!(parse_book_name("Jan"), Some(Book::John));
    assert_eq!(parse_book_name("jan"), Some(Book::John));
    assert_eq!(parse_book_name("JAN"), Some(Book::John));
    assert_eq!(parse_book_name("žalm"), Some(Book::Psalms));
    assert_eq!(parse_book_name("Žalmy"), Some(Book::Psalms));
    assert_eq!(parse_book_name("PÍSEŇ PÍSNÍ"), Some(Book::SongOfSolomon));
    assert_eq!(parse_book_name("1. Samuelova"), Some(Book::Samuel1));
    assert_eq!(parse_book_name("2. Korintským"), Some(Book::Corinthians2));
    assert_eq!(parse_book_name("neznámá kniha"), None);
    assert_eq!(parse_book_name(""), None);
}

#[test]
fn test_quick_input_parsing() {
    let test_cases = vec![
        (
            "Jan 2:1-2",
            BiblePickerIndexes {
                picked_from_book: Some(Book::John),
                picked_from_chapter: Some(2),
                picked_from_verse: Some(1),
                picked_to_book: Some(Book::John),
                picked_to_chapter: Some(2),
                picked_to_verse: Some(2),
            },
        ),
        (
            "Jan  2:1 - 3",
            BiblePickerIndexes {
                picked_from_book: Some(Book::John),
                picked_from_chapter: Some(2),
                picked_from_verse: Some(1),
                picked_to_book: Some(Book::John),
                picked_to_chapter: Some(2),
                picked_to_verse: Some(3),
            },
        ),
        (
            "Matouš 3:1-3:5",
            BiblePickerIndexes {
                picked_from_book: Some(Book::Matthew),
                picked_from_chapter: Some(3),
                picked_from_verse: Some(1),
                picked_to_book: Some(Book::Matthew),
                picked_to_chapter: Some(3),
                picked_to_verse: Some(5),
            },
        ),
        (
            "Matouš 28:5-Marek 1:3",
            BiblePickerIndexes {
                picked_from_book: Some(Book::Matthew),
                picked_from_chapter: Some(28),
                picked_from_verse: Some(5),
                picked_to_book: Some(Book::Mark),
                picked_to_chapter: Some(1),
                picked_to_verse: Some(3),
            },
        ),
        (
            "1. Samuelova 3:2-23",
            BiblePickerIndexes {
                picked_from_book: Some(Book::Samuel1),
                picked_from_chapter: Some(3),
                picked_from_verse: Some(2),
                picked_to_book: Some(Book::Samuel1),
                picked_to_chapter: Some(3),
                picked_to_verse: Some(23),
            },
        ),
        (
            "žalm 1:3",
            BiblePickerIndexes {
                picked_from_book: Some(Book::Psalms),
                picked_from_chapter: Some(1),
                picked_from_verse: Some(3),
                picked_to_book: Some(Book::Psalms),
                picked_to_chapter: Some(1),
                picked_to_verse: Some(3),
            },
        ),
        (
            "píseň písní 1:3",
            BiblePickerIndexes {
                picked_from_book: Some(Book::SongOfSolomon),
                picked_from_chapter: Some(1),
                picked_from_verse: Some(3),
                picked_to_book: Some(Book::SongOfSolomon),
                picked_to_chapter: Some(1),
                picked_to_verse: Some(3),
            },
        ),
    ];

    for (input, expected) in test_cases {
        let result = parse_quick_selection(input);
        assert_eq!(result, expected);
    }
}

#[test]
fn quick_input_rejects_malformed_text() {
    assert!(parse_quick_selection("").is_empty());
    assert!(parse_quick_selection("Jan").is_empty());
    assert!(parse_quick_selection("Jan 2").is_empty());
    assert!(parse_quick_selection("Jan 2:1 extra").is_empty());
    assert!(BiblePickerIndexes::new().is_empty());
}

#[test]
fn validate_selection_checks_everything() {
    let full = parse_quick_selection("Jan 3:16-17");
    let (from, to) = validate_selection(&full, true).expect("výběr je úplný a platný");
    assert_eq!(from.destructure(), (42, 3, 16));
    assert_eq!(to.destructure(), (42, 3, 17));

    // no translation picked
    let err = validate_selection(&full, false).unwrap_err();
    assert_eq!(err.kind(), ErrorKind::Validation);

    // incomplete selection
    let empty = BiblePickerIndexes::new();
    let err = validate_selection(&empty, true).unwrap_err();
    assert_eq!(err.kind(), ErrorKind::Validation);

    // reversed range
    let reversed = parse_quick_selection("Jan 3:17-16");
    let err = validate_selection(&reversed, true).unwrap_err();
    assert_eq!(err.kind(), ErrorKind::Validation);

    // address outside the table
    let bad = parse_quick_selection("Jan 99:1-2");
    assert_eq!(bad.picked_from_chapter, Some(99));
    let err = validate_selection(&bad, true).unwrap_err();
    assert_eq!(err.kind(), ErrorKind::Validation);
}
