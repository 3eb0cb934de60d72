//! The versification table: for every canonical book, how many chapters
//! it has and how many verses each chapter has.
//!
//! The table is fixed data; every chapter list is the contiguous range
//! `1..=N` and every verse list is `1..=M`, with `N` and `M` taken from
//! the table. `chapter_count` is at least 1 for every book and
//! `verse_count` is at least 1 for every chapter, which
//! `lemma_versification_positive` states once and for all.

use vstd::prelude::*;
use crate::bible::Book;

verus! {

/// The number of verses of each chapter of `b`; entry `i` belongs to
/// chapter `i + 1`. Opaque: proofs about individual entries go through
/// `lemma_versification_positive` or reveal the table.
#[verifier::opaque]
pub open spec fn spec_verse_counts(b: Book) -> Seq<u8> {
    match b {
        Book::Genesis => seq![31u8, 25, 24, 26, 32, 22, 24, 22, 29, 32, 32, 20, 18, 24, 21, 16, 27, 33, 38, 18, 34, 24, 20, 67, 34, 35, 46, 22, 35, 43, 55, 32, 20, 31, 29, 43, 36, 30, 23, 23, 57, 38, 34, 34, 28, 34, 31, 22, 33, 26],
        Book::Exodus => seq![22u8, 25, 22, 31, 23, 30, 25, 32, 35, 29, 10, 51, 22, 31, 27, 36, 16, 27, 25, 26, 36, 31, 33, 18, 40, 37, 21, 43, 46, 38, 18, 35, 23, 35, 35, 38, 29, 31, 43, 38],
        Book::Leviticus => seq![17u8, 16, 17, 35, 19, 30, 38, 36, 24, 20, 47, 8, 59, 57, 33, 34, 16, 30, 37, 27, 24, 33, 44, 23, 55, 46, 34],
        Book::Numbers => seq![54u8, 34, 51, 49, 31, 27, 89, 26, 23, 36, 35, 16, 33, 45, 41, 50, 13, 32, 22, 29, 35, 41, 30, 25, 18, 65, 23, 31, 40, 16, 54, 42, 56, 29, 34, 13],
        Book::Deuteronomy => seq![46u8, 37, 29, 49, 33, 25, 26, 20, 29, 22, 32, 32, 18, 29, 23, 22, 20, 22, 21, 20, 23, 30, 25, 22, 19, 19, 26, 68, 29, 20, 30, 52, 29, 12],
        Book::Joshua => seq![18u8, 24, 17, 24, 15, 27, 26, 35, 27, 43, 23, 24, 33, 15, 63, 10, 18, 28, 51, 9, 45, 34, 16, 33],
        Book::Judges => seq![36u8, 23, 31, 24, 31, 40, 25, 35, 57, 18, 40, 15, 25, 20, 20, 31, 13, 31, 30, 48, 25],
        Book::Ruth => seq![22u8, 23, 18, 22],
        Book::Samuel1 => seq![28u8, 36, 21, 22, 12, 21, 17, 22, 27, 27, 15, 25, 23, 52, 35, 23, 58, 30, 24, 42, 15, 23, 29, 22, 44, 25, 12, 25, 11, 31, 13],
        Book::Samuel2 => seq![27u8, 32, 39, 12, 25, 23, 29, 18, 13, 19, 27, 31, 39, 33, 37, 23, 29, 33, 43, 26, 22, 51, 39, 25],
        Book::Kings1 => seq![53u8, 46, 28, 34, 18, 38, 51, 66, 28, 29, 43, 33, 34, 31, 34, 34, 24, 46, 21, 43, 29, 53],
        Book::Kings2 => seq![18u8, 25, 27, 44, 27, 33, 20, 29, 37, 36, 21, 21, 25, 29, 38, 20, 41, 37, 37, 21, 26, 20, 37, 20, 30],
        Book::Chronicles1 => seq![54u8, 55, 24, 43, 26, 81, 40, 40, 44, 14, 47, 40, 14, 17, 29, 43, 27, 17, 19, 8, 30, 19, 32, 31, 31, 32, 34, 21, 30],
        Book::Chronicles2 => seq![17u8, 18, 17, 22, 14, 42, 22, 18, 31, 19, 23, 16, 22, 15, 19, 14, 19, 34, 11, 37, 20, 12, 21, 27, 28, 23, 9, 27, 36, 27, 21, 33, 25, 33, 27, 23],
        Book::Ezra => seq![11u8, 70, 13, 24, 17, 22, 28, 36, 15, 44],
        Book::Nehemiah => seq![11u8, 20, 32, 23, 19, 19, 73, 18, 38, 39, 36, 47, 31],
        Book::Esther => seq![22u8, 23, 15, 17, 14, 14, 10, 17, 32, 3],
        Book::Job => seq![22u8, 13, 26, 21, 27, 30, 21, 22, 35, 22, 20, 25, 28, 22, 35, 22, 16, 21, 29, 29, 34, 30, 17, 25, 6, 14, 23, 28, 25, 31, 40, 22, 33, 37, 16, 33, 24, 41, 30, 24, 34, 17],
        Book::Psalms => seq![6u8, 12, 8, 8, 12, 10, 17, 9, 20, 18, 7, 8, 6, 7, 5, 11, 15, 50, 14, 9, 13, 31, 6, 10, 22, 12, 14, 9, 11, 12, 24, 11, 22, 22, 28, 12, 40, 22, 13, 17, 13, 11, 5, 26, 17, 29, 9, 14, 20, 23, 13, 11, 9, 7, 23, 13, 11, 11, 17, 12, 8, 12, 11, 10, 13, 20, 7, 35, 36, 5, 24, 20, 28, 23, 10, 12, 20, 72, 13, 19, 16, 8, 18, 12, 13, 17, 7, 18, 52, 17, 16, 15, 5, 23, 11, 13, 12, 9, 9, 5, 8, 28, 22, 35, 45, 48, 43, 13, 31, 7, 10, 10, 9, 8, 18, 19, 2, 29, 176, 7, 8, 9, 4, 8, 5, 6, 5, 6, 8, 8, 3, 18, 3, 3, 21, 26, 9, 8, 24, 13, 10, 7, 12, 15, 21, 10, 20, 14, 9, 6],
        Book::Proverbs => seq![33u8, 22, 35, 27, 23, 35, 27, 36, 18, 32, 31, 28, 25, 35, 33, 33, 28, 24, 29, 30, 31, 29, 35, 34, 28, 28, 27, 28, 27, 33, 31],
        Book::Ecclesiastes => seq![18u8, 26, 22, 16, 20, 12, 29, 17, 18, 20, 10, 14],
        Book::SongOfSolomon => seq![17u8, 17, 11, 16, 16, 13, 13, 14],
        Book::Isaiah => seq![31u8, 22, 26, 6, 30, 13, 25, 22, 21, 34, 16, 6, 22, 32, 9, 14, 14, 7, 25, 6, 17, 25, 18, 23, 12, 21, 13, 29, 24, 33, 9, 20, 24, 17, 10, 22, 38, 22, 8, 31, 29, 25, 28, 28, 25, 13, 15, 22, 26, 11, 23, 15, 12, 17, 13, 12, 21, 14, 21, 22, 11, 12, 19, 12, 25, 24],
        Book::Jeremiah => seq![19u8, 37, 25, 31, 31, 30, 34, 22, 26, 25, 23, 17, 27, 22, 21, 21, 27, 23, 15, 18, 14, 30, 40, 10, 38, 24, 22, 17, 32, 24, 40, 44, 26, 22, 19, 32, 21, 28, 18, 16, 18, 22, 13, 30, 5, 28, 7, 47, 39, 46, 64, 34],
        Book::Lamentations => seq![22u8, 22, 66, 22, 22],
        Book::Ezekiel => seq![28u8, 10, 27, 17, 17, 14, 27, 18, 11, 22, 25, 28, 23, 23, 8, 63, 24, 32, 14, 49, 32, 31, 49, 27, 17, 21, 36, 26, 21, 26, 18, 32, 33, 31, 15, 38, 28, 23, 29, 49, 26, 20, 27, 31, 25, 24, 23, 35],
        Book::Daniel => seq![21u8, 49, 30, 37, 31, 28, 28, 27, 27, 21, 45, 13],
        Book::Hosea => seq![11u8, 23, 5, 19, 15, 11, 16, 14, 17, 15, 12, 14, 16, 9],
        Book::Joel => seq![20u8, 32, 21],
        Book::Amos => seq![15u8, 16, 15, 13, 27, 14, 17, 14, 15],
        Book::Obadiah => seq![21u8, ],
        Book::Jonah => seq![17u8, 10, 10, 11],
        Book::Micah => seq![16u8, 13, 12, 13, 15, 16, 20],
        Book::Nahum => seq![15u8, 13, 19],
        Book::Habakkuk => seq![17u8, 20, 19],
        Book::Zephaniah => seq![18u8, 15, 20],
        Book::Haggai => seq![15u8, 23],
        Book::Zechariah => seq![21u8, 13, 10, 14, 11, 15, 14, 23, 17, 12, 17, 14, 9, 21],
        Book::Malachi => seq![14u8, 17, 18, 6],
        Book::Matthew => seq![25u8, 23, 17, 25, 48, 34, 29, 34, 38, 42, 30, 50, 58, 36, 39, 28, 27, 35, 30, 34, 46, 46, 39, 51, 46, 75, 66, 20],
        Book::Mark => seq![45u8, 28, 35, 41, 43, 56, 37, 38, 50, 52, 33, 44, 37, 72, 47, 20],
        Book::Luke => seq![80u8, 52, 38, 44, 39, 49, 50, 56, 62, 42, 54, 59, 35, 35, 32, 31, 37, 43, 48, 47, 38, 71, 56, 53],
        Book::John => seq![51u8, 25, 36, 54, 47, 71, 53, 59, 41, 42, 57, 50, 38, 31, 27, 33, 26, 40, 42, 31, 25],
        Book::Acts => seq![26u8, 47, 26, 37, 42, 15, 60, 40, 43, 48, 30, 25, 52, 28, 41, 40, 34, 28, 41, 38, 40, 30, 35, 27, 27, 32, 44, 31],
        Book::Romans => seq![32u8, 29, 31, 25, 21, 23, 25, 39, 33, 21, 36, 21, 14, 23, 33, 27],
        Book::Corinthians1 => seq![31u8, 16, 23, 21, 13, 20, 40, 13, 27, 33, 34, 31, 13, 40, 58, 24],
        Book::Corinthians2 => seq![24u8, 17, 18, 18, 21, 18, 16, 24, 15, 18, 33, 21, 14],
        Book::Galatians => seq![24u8, 21, 29, 31, 26, 18],
        Book::Ephesians => seq![23u8, 22, 21, 32, 33, 24],
        Book::Philippians => seq![30u8, 30, 21, 23],
        Book::Colossians => seq![29u8, 23, 25, 18],
        Book::Thessalonians1 => seq![10u8, 20, 13, 18, 28],
        Book::Thessalonians2 => seq![12u8, 17, 18],
        Book::Timothy1 => seq![20u8, 15, 16, 16, 25, 21],
        Book::Timothy2 => seq![18u8, 26, 17, 22],
        Book::Titus => seq![16u8, 15, 15],
        Book::Philemon => seq![25u8, ],
        Book::Hebrews => seq![14u8, 18, 19, 16, 14, 20, 28, 13, 28, 39, 40, 29, 25],
        Book::James => seq![27u8, 26, 18, 17, 20],
        Book::Peter1 => seq![25u8, 25, 22, 19, 14],
        Book::Peter2 => seq![21u8, 22, 18],
        Book::John1 => seq![10u8, 29, 24, 21, 21],
        Book::John2 => seq![13u8, ],
        Book::John3 => seq![14u8, ],
        Book::Jude => seq![25u8, ],
        Book::Revelation => seq![20u8, 29, 22, 11, 14, 17, 17, 13, 21, 11, 19, 17, 18, 20, 8, 21, 18, 24, 21, 15, 27, 21],
    }
}

/// How many chapters `b` has.
pub open spec fn spec_chapter_count(b: Book) -> nat {
    spec_verse_counts(b).len()
}

/// How many verses chapter `chapter` of `b` has; meaningful for
/// `1 <= chapter <= spec_chapter_count(b)`.
pub open spec fn spec_verse_count(b: Book, chapter: int) -> nat {
    spec_verse_counts(b)[chapter - 1] as nat
}

/// Every book has at least one chapter, at most 150 of them, and every
/// chapter of the table holds between 1 and 176 verses.
pub proof fn lemma_versification_positive(b: Book)
    ensures
        1 <= spec_chapter_count(b) <= 150,
        forall|c: int| 1 <= c <= spec_chapter_count(b) ==> 1 <= #[trigger] spec_verse_count(b, c) <= 176,
{
    reveal(spec_verse_counts);
    assert forall|c: int| 1 <= c <= spec_chapter_count(b) implies 1 <= #[trigger] spec_verse_count(b, c) <= 176 by {
        assert(1 <= spec_verse_counts(b)[c - 1] <= 176);
    }
}

/// The chapters of `b`, as the table lists them: the range `1..=N` where
/// `N` is the chapter count.
pub open spec fn spec_chapters(b: Book) -> Seq<u8> {
    Seq::new(spec_chapter_count(b), |i: int| (i + 1) as u8)
}

/// The verses of chapter `c` of `b`, as the table lists them: the range
/// `1..=M` where `M` is that chapter's verse count; empty when `b` has no
/// chapter `c`.
pub open spec fn spec_verses(b: Book, c: int) -> Seq<u8> {
    if 1 <= c <= spec_chapter_count(b) {
        Seq::new(spec_verse_count(b, c), |i: int| (i + 1) as u8)
    } else {
        Seq::empty()
    }
}

/// A chapter number is listed for a book exactly when it lies in
/// `1..=N`, and a verse number is listed for a chapter exactly when the
/// chapter is listed and the verse lies in `1..=M`.
pub proof fn lemma_listed_iff_in_range(b: Book, c: u8, v: u8)
    ensures
        spec_chapters(b).contains(c) <==> 1 <= c <= spec_chapter_count(b),
        spec_verses(b, c as int).contains(v) <==> (1 <= c <= spec_chapter_count(b) && 1 <= v
            <= spec_verse_count(b, c as int)),
{
    lemma_versification_positive(b);
    if 1 <= c <= spec_chapter_count(b) {
        assert(spec_chapters(b)[c - 1] == c);
        if 1 <= v <= spec_verse_count(b, c as int) {
            assert(spec_verses(b, c as int)[v - 1] == v);
        }
        if spec_verses(b, c as int).contains(v) {
            let i = choose|i: int|
                0 <= i < spec_verses(b, c as int).len() && spec_verses(b, c as int)[i] == v;
            assert(1 <= v <= spec_verse_count(b, c as int));
        }
    }
    if spec_chapters(b).contains(c) {
        let i = choose|i: int| 0 <= i < spec_chapters(b).len() && spec_chapters(b)[i] == c;
        assert(1 <= c <= spec_chapter_count(b));
    }
}

/// The verse counts of all chapters of `b`, as a vector whose entry `i`
/// belongs to chapter `i + 1`.
pub fn verse_counts(b: Book) -> (r: Vec<u8>)
    ensures
        r@ == spec_verse_counts(b),
{
    proof {
        reveal(spec_verse_counts);
    }
    match b {
        Book::Genesis => {
            let v: Vec<u8> = vec![31u8, 25, 24, 26, 32, 22, 24, 22, 29, 32, 32, 20, 18, 24, 21, 16, 27, 33, 38, 18, 34, 24, 20, 67, 34, 35, 46, 22, 35, 43, 55, 32, 20, 31, 29, 43, 36, 30, 23, 23, 57, 38, 34, 34, 28, 34, 31, 22, 33, 26];
            proof { assert(v@ =~= spec_verse_counts(Book::Genesis)); }
            v
        },
        Book::Exodus => {
            let v: Vec<u8> = vec![22u8, 25, 22, 31, 23, 30, 25, 32, 35, 29, 10, 51, 22, 31, 27, 36, 16, 27, 25, 26, 36, 31, 33, 18, 40, 37, 21, 43, 46, 38, 18, 35, 23, 35, 35, 38, 29, 31, 43, 38];
            proof { assert(v@ =~= spec_verse_counts(Book::Exodus)); }
            v
        },
        Book::Leviticus => {
            let v: Vec<u8> = vec![17u8, 16, 17, 35, 19, 30, 38, 36, 24, 20, 47, 8, 59, 57, 33, 34, 16, 30, 37, 27, 24, 33, 44, 23, 55, 46, 34];
            proof { assert(v@ =~= spec_verse_counts(Book::Leviticus)); }
            v
        },
        Book::Numbers => {
            let v: Vec<u8> = vec![54u8, 34, 51, 49, 31, 27, 89, 26, 23, 36, 35, 16, 33, 45, 41, 50, 13, 32, 22, 29, 35, 41, 30, 25, 18, 65, 23, 31, 40, 16, 54, 42, 56, 29, 34, 13];
            proof { assert(v@ =~= spec_verse_counts(Book::Numbers)); }
            v
        },
        Book::Deuteronomy => {
            let v: Vec<u8> = vec![46u8, 37, 29, 49, 33, 25, 26, 20, 29, 22, 32, 32, 18, 29, 23, 22, 20, 22, 21, 20, 23, 30, 25, 22, 19, 19, 26, 68, 29, 20, 30, 52, 29, 12];
            proof { assert(v@ =~= spec_verse_counts(Book::Deuteronomy)); }
            v
        },
        Book::Joshua => {
            let v: Vec<u8> = vec![18u8, 24, 17, 24, 15, 27, 26, 35, 27, 43, 23, 24, 33, 15, 63, 10, 18, 28, 51, 9, 45, 34, 16, 33];
            proof { assert(v@ =~= spec_verse_counts(Book::Joshua)); }
            v
        },
        Book::Judges => {
            let v: Vec<u8> = vec![36u8, 23, 31, 24, 31, 40, 25, 35, 57, 18, 40, 15, 25, 20, 20, 31, 13, 31, 30, 48, 25];
            proof { assert(v@ =~= spec_verse_counts(Book::Judges)); }
            v
        },
        Book::Ruth => {
            let v: Vec<u8> = vec![22u8, 23, 18, 22];
            proof { assert(v@ =~= spec_verse_counts(Book::Ruth)); }
            v
        },
        Book::Samuel1 => {
            let v: Vec<u8> = vec![28u8, 36, 21, 22, 12, 21, 17, 22, 27, 27, 15, 25, 23, 52, 35, 23, 58, 30, 24, 42, 15, 23, 29, 22, 44, 25, 12, 25, 11, 31, 13];
            proof { assert(v@ =~= spec_verse_counts(Book::Samuel1)); }
            v
        },
        Book::Samuel2 => {
            let v: Vec<u8> = vec![27u8, 32, 39, 12, 25, 23, 29, 18, 13, 19, 27, 31, 39, 33, 37, 23, 29, 33, 43, 26, 22, 51, 39, 25];
            proof { assert(v@ =~= spec_verse_counts(Book::Samuel2)); }
            v
        },
        Book::Kings1 => {
            let v: Vec<u8> = vec![53u8, 46, 28, 34, 18, 38, 51, 66, 28, 29, 43, 33, 34, 31, 34, 34, 24, 46, 21, 43, 29, 53];
            proof { assert(v@ =~= spec_verse_counts(Book::Kings1)); }
            v
        },
        Book::Kings2 => {
            let v: Vec<u8> = vec![18u8, 25, 27, 44, 27, 33, 20, 29, 37, 36, 21, 21, 25, 29, 38, 20, 41, 37, 37, 21, 26, 20, 37, 20, 30];
            proof { assert(v@ =~= spec_verse_counts(Book::Kings2)); }
            v
        },
        Book::Chronicles1 => {
            let v: Vec<u8> = vec![54u8, 55, 24, 43, 26, 81, 40, 40, 44, 14, 47, 40, 14, 17, 29, 43, 27, 17, 19, 8, 30, 19, 32, 31, 31, 32, 34, 21, 30];
            proof { assert(v@ =~= spec_verse_counts(Book::Chronicles1)); }
            v
        },
        Book::Chronicles2 => {
            let v: Vec<u8> = vec![17u8, 18, 17, 22, 14, 42, 22, 18, 31, 19, 23, 16, 22, 15, 19, 14, 19, 34, 11, 37, 20, 12, 21, 27, 28, 23, 9, 27, 36, 27, 21, 33, 25, 33, 27, 23];
            proof { assert(v@ =~= spec_verse_counts(Book::Chronicles2)); }
            v
        },
        Book::Ezra => {
            let v: Vec<u8> = vec![11u8, 70, 13, 24, 17, 22, 28, 36, 15, 44];
            proof { assert(v@ =~= spec_verse_counts(Book::Ezra)); }
            v
        },
        Book::Nehemiah => {
            let v: Vec<u8> = vec![11u8, 20, 32, 23, 19, 19, 73, 18, 38, 39, 36, 47, 31];
            proof { assert(v@ =~= spec_verse_counts(Book::Nehemiah)); }
            v
        },
        Book::Esther => {
            let v: Vec<u8> = vec![22u8, 23, 15, 17, 14, 14, 10, 17, 32, 3];
            proof { assert(v@ =~= spec_verse_counts(Book::Esther)); }
            v
        },
        Book::Job => {
            let v: Vec<u8> = vec![22u8, 13, 26, 21, 27, 30, 21, 22, 35, 22, 20, 25, 28, 22, 35, 22, 16, 21, 29, 29, 34, 30, 17, 25, 6, 14, 23, 28, 25, 31, 40, 22, 33, 37, 16, 33, 24, 41, 30, 24, 34, 17];
            proof { assert(v@ =~= spec_verse_counts(Book::Job)); }
            v
        },
        Book::Psalms => {
            let v: Vec<u8> = vec![6u8, 12, 8, 8, 12, 10, 17, 9, 20, 18, 7, 8, 6, 7, 5, 11, 15, 50, 14, 9, 13, 31, 6, 10, 22, 12, 14, 9, 11, 12, 24, 11, 22, 22, 28, 12, 40, 22, 13, 17, 13, 11, 5, 26, 17, 29, 9, 14, 20, 23, 13, 11, 9, 7, 23, 13, 11, 11, 17, 12, 8, 12, 11, 10, 13, 20, 7, 35, 36, 5, 24, 20, 28, 23, 10, 12, 20, 72, 13, 19, 16, 8, 18, 12, 13, 17, 7, 18, 52, 17, 16, 15, 5, 23, 11, 13, 12, 9, 9, 5, 8, 28, 22, 35, 45, 48, 43, 13, 31, 7, 10, 10, 9, 8, 18, 19, 2, 29, 176, 7, 8, 9, 4, 8, 5, 6, 5, 6, 8, 8, 3, 18, 3, 3, 21, 26, 9, 8, 24, 13, 10, 7, 12, 15, 21, 10, 20, 14, 9, 6];
            proof { assert(v@ =~= spec_verse_counts(Book::Psalms)); }
            v
        },
        Book::Proverbs => {
            let v: Vec<u8> = vec![33u8, 22, 35, 27, 23, 35, 27, 36, 18, 32, 31, 28, 25, 35, 33, 33, 28, 24, 29, 30, 31, 29, 35, 34, 28, 28, 27, 28, 27, 33, 31];
            proof { assert(v@ =~= spec_verse_counts(Book::Proverbs)); }
            v
        },
        Book::Ecclesiastes => {
            let v: Vec<u8> = vec![18u8, 26, 22, 16, 20, 12, 29, 17, 18, 20, 10, 14];
            proof { assert(v@ =~= spec_verse_counts(Book::Ecclesiastes)); }
            v
        },
        Book::SongOfSolomon => {
            let v: Vec<u8> = vec![17u8, 17, 11, 16, 16, 13, 13, 14];
            proof { assert(v@ =~= spec_verse_counts(Book::SongOfSolomon)); }
            v
        },
        Book::Isaiah => {
            let v: Vec<u8> = vec![31u8, 22, 26, 6, 30, 13, 25, 22, 21, 34, 16, 6, 22, 32, 9, 14, 14, 7, 25, 6, 17, 25, 18, 23, 12, 21, 13, 29, 24, 33, 9, 20, 24, 17, 10, 22, 38, 22, 8, 31, 29, 25, 28, 28, 25, 13, 15, 22, 26, 11, 23, 15, 12, 17, 13, 12, 21, 14, 21, 22, 11, 12, 19, 12, 25, 24];
            proof { assert(v@ =~= spec_verse_counts(Book::Isaiah)); }
            v
        },
        Book::Jeremiah => {
            let v: Vec<u8> = vec![19u8, 37, 25, 31, 31, 30, 34, 22, 26, 25, 23, 17, 27, 22, 21, 21, 27, 23, 15, 18, 14, 30, 40, 10, 38, 24, 22, 17, 32, 24, 40, 44, 26, 22, 19, 32, 21, 28, 18, 16, 18, 22, 13, 30, 5, 28, 7, 47, 39, 46, 64, 34];
            proof { assert(v@ =~= spec_verse_counts(Book::Jeremiah)); }
            v
        },
        Book::Lamentations => {
            let v: Vec<u8> = vec![22u8, 22, 66, 22, 22];
            proof { assert(v@ =~= spec_verse_counts(Book::Lamentations)); }
            v
        },
        Book::Ezekiel => {
            let v: Vec<u8> = vec![28u8, 10, 27, 17, 17, 14, 27, 18, 11, 22, 25, 28, 23, 23, 8, 63, 24, 32, 14, 49, 32, 31, 49, 27, 17, 21, 36, 26, 21, 26, 18, 32, 33, 31, 15, 38, 28, 23, 29, 49, 26, 20, 27, 31, 25, 24, 23, 35];
            proof { assert(v@ =~= spec_verse_counts(Book::Ezekiel)); }
            v
        },
        Book::Daniel => {
            let v: Vec<u8> = vec![21u8, 49, 30, 37, 31, 28, 28, 27, 27, 21, 45, 13];
            proof { assert(v@ =~= spec_verse_counts(Book::Daniel)); }
            v
        },
        Book::Hosea => {
            let v: Vec<u8> = vec![11u8, 23, 5, 19, 15, 11, 16, 14, 17, 15, 12, 14, 16, 9];
            proof { assert(v@ =~= spec_verse_counts(Book::Hosea)); }
            v
        },
        Book::Joel => {
            let v: Vec<u8> = vec![20u8, 32, 21];
            proof { assert(v@ =~= spec_verse_counts(Book::Joel)); }
            v
        },
        Book::Amos => {
            let v: Vec<u8> = vec![15u8, 16, 15, 13, 27, 14, 17, 14, 15];
            proof { assert(v@ =~= spec_verse_counts(Book::Amos)); }
            v
        },
        Book::Obadiah => {
            let v: Vec<u8> = vec![21u8, ];
            proof { assert(v@ =~= spec_verse_counts(Book::Obadiah)); }
            v
        },
        Book::Jonah => {
            let v: Vec<u8> = vec![17u8, 10, 10, 11];
            proof { assert(v@ =~= spec_verse_counts(Book::Jonah)); }
            v
        },
        Book::Micah => {
            let v: Vec<u8> = vec![16u8, 13, 12, 13, 15, 16, 20];
            proof { assert(v@ =~= spec_verse_counts(Book::Micah)); }
            v
        },
        Book::Nahum => {
            let v: Vec<u8> = vec![15u8, 13, 19];
            proof { assert(v@ =~= spec_verse_counts(Book::Nahum)); }
            v
        },
        Book::Habakkuk => {
            let v: Vec<u8> = vec![17u8, 20, 19];
            proof { assert(v@ =~= spec_verse_counts(Book::Habakkuk)); }
            v
        },
        Book::Zephaniah => {
            let v: Vec<u8> = vec![18u8, 15, 20];
            proof { assert(v@ =~= spec_verse_counts(Book::Zephaniah)); }
            v
        },
        Book::Haggai => {
            let v: Vec<u8> = vec![15u8, 23];
            proof { assert(v@ =~= spec_verse_counts(Book::Haggai)); }
            v
        },
        Book::Zechariah => {
            let v: Vec<u8> = vec![21u8, 13, 10, 14, 11, 15, 14, 23, 17, 12, 17, 14, 9, 21];
            proof { assert(v@ =~= spec_verse_counts(Book::Zechariah)); }
            v
        },
        Book::Malachi => {
            let v: Vec<u8> = vec![14u8, 17, 18, 6];
            proof { assert(v@ =~= spec_verse_counts(Book::Malachi)); }
            v
        },
        Book::Matthew => {
            let v: Vec<u8> = vec![25u8, 23, 17, 25, 48, 34, 29, 34, 38, 42, 30, 50, 58, 36, 39, 28, 27, 35, 30, 34, 46, 46, 39, 51, 46, 75, 66, 20];
            proof { assert(v@ =~= spec_verse_counts(Book::Matthew)); }
            v
        },
        Book::Mark => {
            let v: Vec<u8> = vec![45u8, 28, 35, 41, 43, 56, 37, 38, 50, 52, 33, 44, 37, 72, 47, 20];
            proof { assert(v@ =~= spec_verse_counts(Book::Mark)); }
            v
        },
        Book::Luke => {
            let v: Vec<u8> = vec![80u8, 52, 38, 44, 39, 49, 50, 56, 62, 42, 54, 59, 35, 35, 32, 31, 37, 43, 48, 47, 38, 71, 56, 53];
            proof { assert(v@ =~= spec_verse_counts(Book::Luke)); }
            v
        },
        Book::John => {
            let v: Vec<u8> = vec![51u8, 25, 36, 54, 47, 71, 53, 59, 41, 42, 57, 50, 38, 31, 27, 33, 26, 40, 42, 31, 25];
            proof { assert(v@ =~= spec_verse_counts(Book::John)); }
            v
        },
        Book::Acts => {
            let v: Vec<u8> = vec![26u8, 47, 26, 37, 42, 15, 60, 40, 43, 48, 30, 25, 52, 28, 41, 40, 34, 28, 41, 38, 40, 30, 35, 27, 27, 32, 44, 31];
            proof { assert(v@ =~= spec_verse_counts(Book::Acts)); }
            v
        },
        Book::Romans => {
            let v: Vec<u8> = vec![32u8, 29, 31, 25, 21, 23, 25, 39, 33, 21, 36, 21, 14, 23, 33, 27];
            proof { assert(v@ =~= spec_verse_counts(Book::Romans)); }
            v
        },
        Book::Corinthians1 => {
            let v: Vec<u8> = vec![31u8, 16, 23, 21, 13, 20, 40, 13, 27, 33, 34, 31, 13, 40, 58, 24];
            proof { assert(v@ =~= spec_verse_counts(Book::Corinthians1)); }
            v
        },
        Book::Corinthians2 => {
            let v: Vec<u8> = vec![24u8, 17, 18, 18, 21, 18, 16, 24, 15, 18, 33, 21, 14];
            proof { assert(v@ =~= spec_verse_counts(Book::Corinthians2)); }
            v
        },
        Book::Galatians => {
            let v: Vec<u8> = vec![24u8, 21, 29, 31, 26, 18];
            proof { assert(v@ =~= spec_verse_counts(Book::Galatians)); }
            v
        },
        Book::Ephesians => {
            let v: Vec<u8> = vec![23u8, 22, 21, 32, 33, 24];
            proof { assert(v@ =~= spec_verse_counts(Book::Ephesians)); }
            v
        },
        Book::Philippians => {
            let v: Vec<u8> = vec![30u8, 30, 21, 23];
            proof { assert(v@ =~= spec_verse_counts(Book::Philippians)); }
            v
        },
        Book::Colossians => {
            let v: Vec<u8> = vec![29u8, 23, 25, 18];
            proof { assert(v@ =~= spec_verse_counts(Book::Colossians)); }
            v
        },
        Book::Thessalonians1 => {
            let v: Vec<u8> = vec![10u8, 20, 13, 18, 28];
            proof { assert(v@ =~= spec_verse_counts(Book::Thessalonians1)); }
            v
        },
        Book::Thessalonians2 => {
            let v: Vec<u8> = vec![12u8, 17, 18];
            proof { assert(v@ =~= spec_verse_counts(Book::Thessalonians2)); }
            v
        },
        Book::Timothy1 => {
            let v: Vec<u8> = vec![20u8, 15, 16, 16, 25, 21];
            proof { assert(v@ =~= spec_verse_counts(Book::Timothy1)); }
            v
        },
        Book::Timothy2 => {
            let v: Vec<u8> = vec![18u8, 26, 17, 22];
            proof { assert(v@ =~= spec_verse_counts(Book::Timothy2)); }
            v
        },
        Book::Titus => {
            let v: Vec<u8> = vec![16u8, 15, 15];
            proof { assert(v@ =~= spec_verse_counts(Book::Titus)); }
            v
        },
        Book::Philemon => {
            let v: Vec<u8> = vec![25u8, ];
            proof { assert(v@ =~= spec_verse_counts(Book::Philemon)); }
            v
        },
        Book::Hebrews => {
            let v: Vec<u8> = vec![14u8, 18, 19, 16, 14, 20, 28, 13, 28, 39, 40, 29, 25];
            proof { assert(v@ =~= spec_verse_counts(Book::Hebrews)); }
            v
        },
        Book::James => {
            let v: Vec<u8> = vec![27u8, 26, 18, 17, 20];
            proof { assert(v@ =~= spec_verse_counts(Book::James)); }
            v
        },
        Book::Peter1 => {
            let v: Vec<u8> = vec![25u8, 25, 22, 19, 14];
            proof { assert(v@ =~= spec_verse_counts(Book::Peter1)); }
            v
        },
        Book::Peter2 => {
            let v: Vec<u8> = vec![21u8, 22, 18];
            proof { assert(v@ =~= spec_verse_counts(Book::Peter2)); }
            v
        },
        Book::John1 => {
            let v: Vec<u8> = vec![10u8, 29, 24, 21, 21];
            proof { assert(v@ =~= spec_verse_counts(Book::John1)); }
            v
        },
        Book::John2 => {
            let v: Vec<u8> = vec![13u8, ];
            proof { assert(v@ =~= spec_verse_counts(Book::John2)); }
            v
        },
        Book::John3 => {
            let v: Vec<u8> = vec![14u8, ];
            proof { assert(v@ =~= spec_verse_counts(Book::John3)); }
            v
        },
        Book::Jude => {
            let v: Vec<u8> = vec![25u8, ];
            proof { assert(v@ =~= spec_verse_counts(Book::Jude)); }
            v
        },
        Book::Revelation => {
            let v: Vec<u8> = vec![20u8, 29, 22, 11, 14, 17, 17, 13, 21, 11, 19, 17, 18, 20, 8, 21, 18, 24, 21, 15, 27, 21];
            proof { assert(v@ =~= spec_verse_counts(Book::Revelation)); }
            v
        },
    }
}

/// How many chapters `b` has; always at least 1.
pub fn chapter_count(b: Book) -> (r: u8)
    ensures
        r as nat == spec_chapter_count(b),
        1 <= r <= 150,
{
    proof { lemma_versification_positive(b); }
    let counts = verse_counts(b);
    counts.len() as u8
}

/// How many verses chapter `chapter` of `b` has, or `None` when `b` has
/// no such chapter.
pub fn verse_count(b: Book, chapter: u8) -> (r: Option<u8>)
    ensures
        r == if 1 <= chapter <= spec_chapter_count(b) {
            Some((spec_verse_count(b, chapter as int)) as u8)
        } else {
            None::<u8>
        },
        r matches Some(m) ==> 1 <= m <= 176,
{
    proof { lemma_versification_positive(b); }
    let counts = verse_counts(b);
    if 1 <= chapter as usize && chapter as usize <= counts.len() {
        Some(counts[chapter as usize - 1])
    } else {
        None
    }
}

/// The chapters of `b`, exactly the range `1..=N` where `N` is the
/// chapter count; never empty.
pub fn chapters_in_book(b: Book) -> (r: Vec<u8>)
    ensures
        r@ == spec_chapters(b),
        r@.len() == spec_chapter_count(b),
        r@.len() >= 1,
        forall|i: int| 0 <= i < r@.len() ==> r@[i] == i + 1,
{
    let n = chapter_count(b);
    let r = range_from_one(n);
    proof {
        assert(r@ =~= spec_chapters(b));
    }
    r
}

/// The verses of chapter `chapter` of `b`, exactly the range `1..=M`
/// where `M` is that chapter's verse count, or `None` when `b` has no
/// such chapter.
pub fn verses_in_chapter(b: Book, chapter: u8) -> (r: Option<Vec<u8>>)
    ensures
        r is Some <==> 1 <= chapter <= spec_chapter_count(b),
        r matches Some(v) ==> {
            &&& v@ == spec_verses(b, chapter as int)
            &&& v@.len() == spec_verse_count(b, chapter as int)
            &&& v@.len() >= 1
            &&& forall|i: int| 0 <= i < v@.len() ==> v@[i] == i + 1
        },
{
    match verse_count(b, chapter) {
        Some(m) => {
            let v = range_from_one(m);
            proof {
                assert(v@ =~= spec_verses(b, chapter as int));
            }
            Some(v)
        },
        None => None,
    }
}

/// The vector `[1, 2, ..., n]`.
fn range_from_one(n: u8) -> (r: Vec<u8>)
    ensures
        r@.len() == n as nat,
        forall|i: int| 0 <= i < r@.len() ==> r@[i] == i + 1,
{
    let mut r: Vec<u8> = Vec::new();
    let mut i: usize = 0;
    while i < n as usize
        invariant
            i <= n as usize,
            r@.len() == i,
            forall|j: int| 0 <= j < r@.len() ==> r@[j] == j + 1,
        decreases n as usize - i,
    {
        r.push((i + 1) as u8);
        i += 1;
    }
    r
}

} // verus!
