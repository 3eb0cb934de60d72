//! Passage assembly: range validation, the successor walk over stored
//! rows, and gap detection.

use ekkles_data::bible::Book;
use ekkles_data::error::ErrorKind;
use ekkles_data::passage::{Passage, VerseRow};
use ekkles_data::verse_index::VerseIndex;

fn row(book_order: i64, chapter: i64, number: i64, content: &str) -> VerseRow {
    VerseRow { book_order, chapter, number, content: String::from(content) }
}

/// The rows of John 21:20-25 followed by Acts 1:1-5, in reading order.
fn cross_book_rows() -> Vec<VerseRow> {
    let mut rows = Vec::new();
    for n in 20..=25 {
        rows.push(row(42, 21, n, "jan"));
    }
    for n in 1..=5 {
        rows.push(row(43, 1, n, "skutky"));
    }
    rows
}

#[test]
fn assemble_passage_over_book_boundary() {
    let from = VerseIndex::try_new(Book::John, 21, 20).unwrap();
    let to = VerseIndex::try_new(Book::Acts, 1, 5).unwrap();
    let rows = cross_book_rows();
    let passage = Passage::assemble(from, to, 1, String::from("T"), &rows).unwrap();
    let verses = passage.get_verses();
    assert_eq!(verses.len(), 11);
    let expected_numbers = [20u8, 21, 22, 23, 24, 25, 1, 2, 3, 4, 5];
    for (v, n) in verses.iter().zip(expected_numbers.iter()) {
        assert_eq!(v.0, *n);
    }
    assert_eq!(&verses[0].1, "jan");
    assert_eq!(&verses[10].1, "skutky");
    let (f, t) = passage.get_range();
    assert_eq!(f, from);
    assert_eq!(t, to);
    assert_eq!(passage.get_translation_id(), 1);
    assert_eq!(passage.get_translation_name(), "T");
}

#[test]
fn assemble_passage_within_one_book() {
    let from = VerseIndex::try_new(Book::John, 21, 20).unwrap();
    let to = VerseIndex::try_new(Book::John, 21, 25).unwrap();
    let mut rows = Vec::new();
    for n in 20..=25 {
        rows.push(row(42, 21, n, "obsah"));
    }
    let passage = Passage::assemble(from, to, 1, String::from("T"), &rows).unwrap();
    assert_eq!(passage.get_verses().len(), 6);
    assert_eq!(passage.get_verses()[0].0, 20);
    assert_eq!(passage.get_verses()[5].0, 25);
}

#[test]
fn reversed_range_is_a_validation_error() {
    let from = VerseIndex::try_new(Book::Acts, 1, 5).unwrap();
    let to = VerseIndex::try_new(Book::John, 21, 20).unwrap();
    assert_eq!(
        Passage::validate_range(from, to).unwrap_err().kind(),
        ErrorKind::Validation
    );
    let err = Passage::assemble(from, to, 1, String::from("T"), &Vec::new()).unwrap_err();
    assert_eq!(err.kind(), ErrorKind::Validation);
    assert!(Passage::validate_range(to, from).is_ok());
}

#[test]
fn empty_result_is_not_found() {
    let from = VerseIndex::try_new(Book::John, 21, 20).unwrap();
    let to = VerseIndex::try_new(Book::John, 21, 25).unwrap();
    let err = Passage::assemble(from, to, 1, String::from("T"), &Vec::new()).unwrap_err();
    assert_eq!(err.kind(), ErrorKind::NotFound);
}

#[test]
fn a_gap_is_an_integrity_error_naming_the_verse() {
    let from = VerseIndex::try_new(Book::John, 21, 20).unwrap();
    let to = VerseIndex::try_new(Book::Acts, 1, 5).unwrap();
    let mut rows = cross_book_rows();
    rows.remove(3);  // John 21:23 missing
    let err = Passage::assemble(from, to, 1, String::from("T"), &rows).unwrap_err();
    assert_eq!(err.kind(), ErrorKind::Integrity);
    assert!(err.message().contains("Jan 21:23"));
}

#[test]
fn a_short_result_is_an_integrity_error() {
    let from = VerseIndex::try_new(Book::John, 21, 20).unwrap();
    let to = VerseIndex::try_new(Book::Acts, 1, 5).unwrap();
    let mut rows = cross_book_rows();
    rows.truncate(6);  // ends at John 21:25, Acts 1:1-5 missing
    let err = Passage::assemble(from, to, 1, String::from("T"), &rows).unwrap_err();
    assert_eq!(err.kind(), ErrorKind::Integrity);
    assert!(err.message().contains("Skutky 1:1"));
}

#[test]
fn stray_rows_past_the_end_are_an_integrity_error() {
    let from = VerseIndex::try_new(Book::John, 21, 20).unwrap();
    let to = VerseIndex::try_new(Book::John, 21, 25).unwrap();
    let rows = cross_book_rows();  // continues into Acts
    let err = Passage::assemble(from, to, 1, String::from("T"), &rows).unwrap_err();
    assert_eq!(err.kind(), ErrorKind::Integrity);
}

#[test]
fn a_corrupted_address_is_an_integrity_error() {
    let from = VerseIndex::try_new(Book::John, 21, 20).unwrap();
    let to = VerseIndex::try_new(Book::John, 21, 25).unwrap();
    let mut rows = Vec::new();
    for n in 20..=25 {
        rows.push(row(42, 21, n, "obsah"));
    }
    rows[2].chapter = 99;
    let err = Passage::assemble(from, to, 1, String::from("T"), &rows).unwrap_err();
    assert_eq!(err.kind(), ErrorKind::Integrity);
}
